pub mod acquire;
pub mod action;
pub mod device;
pub mod error;
pub mod negotiate;
pub mod pipeline;
pub mod status;
pub mod unlock;
pub mod usb;
