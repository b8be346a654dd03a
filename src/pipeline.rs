use vstd::prelude::*;

use crate::error::ThermalError;

verus! {

/// Columns of a frame of the camera.
pub const FRAME_WIDTH: usize = 256;

/// Rows of a frame of the camera.
pub const FRAME_HEIGHT: usize = 192;

/// Bytes of one raw sample.
pub const BYTES_PER_SAMPLE: usize = 2;

/// One display pixel.
#[derive(Clone, Copy, Debug, PartialEq, Eq, Structural)]
pub struct Rgb {
    pub r: u8,
    pub g: u8,
    pub b: u8,
}

pub open spec fn black() -> Rgb {
    Rgb { r: 0, g: 0, b: 0 }
}

/// Sample `i` of a raw buffer: two bytes, little-endian.
pub open spec fn sample_spec(raw: Seq<u8>, i: int) -> int {
    raw[2 * i] + 256 * raw[2 * i + 1]
}

/// The smallest of the first `k` samples (`u16::MAX` when `k` is 0).
pub open spec fn min_prefix(raw: Seq<u8>, k: nat) -> int
    decreases k,
{
    if k == 0 {
        0xffff
    } else {
        let m = min_prefix(raw, (k - 1) as nat);
        let v = sample_spec(raw, k - 1);
        if v < m { v } else { m }
    }
}

/// The largest of the first `k` samples (0 when `k` is 0).
pub open spec fn max_prefix(raw: Seq<u8>, k: nat) -> int
    decreases k,
{
    if k == 0 {
        0
    } else {
        let m = max_prefix(raw, (k - 1) as nat);
        let v = sample_spec(raw, k - 1);
        if v > m { v } else { m }
    }
}

/// `255 * num / range`, rounded to the nearest integer, halves up.
pub open spec fn scaled(num: int, range: int) -> int {
    (510 * num + range) / (2 * range)
}

/// The four-band thermal ramp at `t = d / range`: black to blue, blue to red,
/// red to yellow, yellow to white. Each band spans a quarter of the range.
pub open spec fn gradient(d: int, range: int) -> Rgb {
    if 4 * d < range {
        Rgb { r: 0, g: 0, b: scaled(4 * d, range) as u8 }
    } else if 4 * d < 2 * range {
        Rgb { r: scaled(4 * d - range, range) as u8, g: 0, b: scaled(2 * range - 4 * d, range) as u8 }
    } else if 4 * d < 3 * range {
        Rgb { r: 255, g: scaled(4 * d - 2 * range, range) as u8, b: 0 }
    } else {
        Rgb { r: 255, g: 255, b: scaled(4 * d - 3 * range, range) as u8 }
    }
}

/// The color of sample `v` in a frame whose samples span `lo..=hi`: black when
/// the span is empty.
pub open spec fn color_spec(v: int, lo: int, hi: int) -> Rgb {
    if hi <= lo {
        black()
    } else {
        gradient(v - lo, hi - lo)
    }
}

/// The colors of the first `n` samples of `raw`, scaled by their own minimum and
/// maximum.
pub open spec fn frame_spec(raw: Seq<u8>, n: nat) -> Seq<Rgb> {
    Seq::new(n, |i: int| color_spec(sample_spec(raw, i), min_prefix(raw, n), max_prefix(raw, n)))
}

/// Whether `raw` holds enough bytes for a frame of `width` by `height` samples.
pub open spec fn frame_fits(raw: Seq<u8>, width: int, height: int) -> bool {
    raw.len() >= BYTES_PER_SAMPLE * width * height
}

/// Decodes the first `count` samples of `raw` in one pass, along with their
/// minimum and maximum.
pub fn decode_samples(raw: &Vec<u8>, count: usize) -> (r: (Vec<u16>, u16, u16))
    requires
        2 * count <= raw@.len(),
    ensures
        r.0@.len() == count,
        forall|i: int| 0 <= i < count ==> r.0@[i] == sample_spec(raw@, i),
        r.1 == min_prefix(raw@, count as nat),
        r.2 == max_prefix(raw@, count as nat),
        forall|i: int| 0 <= i < count ==> r.1 <= #[trigger] r.0@[i] <= r.2,
{
    let mut samples: Vec<u16> = Vec::with_capacity(count);
    let mut lo: u16 = 0xffff;
    let mut hi: u16 = 0;
    let len = raw.len();
    let mut i: usize = 0;
    while i < count
        invariant
            i <= count,
            2 * count <= raw@.len(),
            raw@.len() == len,
            samples@.len() == i,
            forall|j: int| 0 <= j < i ==> samples@[j] == sample_spec(raw@, j),
            lo == min_prefix(raw@, i as nat),
            hi == max_prefix(raw@, i as nat),
            forall|j: int| 0 <= j < i ==> lo <= #[trigger] samples@[j] <= hi,
        decreases count - i,
    {
        let v: u16 = (raw[2 * i] as u16) + 256 * (raw[2 * i + 1] as u16);
        if v < lo {
            lo = v;
        }
        if v > hi {
            hi = v;
        }
        samples.push(v);
        i += 1;
    }
    (samples, lo, hi)
}

/// `255 * num / range`, rounded to the nearest integer.
fn scale(num: u64, range: u64) -> (r: u8)
    requires
        0 < range <= 0xffff,
        num <= range,
    ensures
        r == scaled(num as int, range as int),
{
    let q = (510 * num + range) / (2 * range);
    assert(q <= 255) by (nonlinear_arith)
        requires
            q == (510 * num + range) / (2 * range),
            0 < range,
            num <= range,
    {
        assert(510 * num + range < 512 * range);
    }
    q as u8
}

/// The display color of `sample` in a frame whose samples span `min..=max`.
pub fn thermal_color(sample: u16, min: u16, max: u16) -> (r: Rgb)
    requires
        min <= sample <= max,
    ensures
        r == color_spec(sample as int, min as int, max as int),
{
    if max <= min {
        return Rgb { r: 0, g: 0, b: 0 };
    }
    let d = (sample - min) as u64;
    let range = (max - min) as u64;
    if 4 * d < range {
        Rgb { r: 0, g: 0, b: scale(4 * d, range) }
    } else if 4 * d < 2 * range {
        Rgb { r: scale(4 * d - range, range), g: 0, b: scale(2 * range - 4 * d, range) }
    } else if 4 * d < 3 * range {
        Rgb { r: 255, g: scale(4 * d - 2 * range, range), b: 0 }
    } else {
        Rgb { r: 255, g: 255, b: scale(4 * d - 3 * range, range) }
    }
}

/// Maps each sample through the thermal ramp, in order.
pub fn colorize(samples: &Vec<u16>, min: u16, max: u16) -> (r: Vec<Rgb>)
    requires
        forall|i: int| 0 <= i < samples@.len() ==> min <= #[trigger] samples@[i] <= max,
    ensures
        r@.len() == samples@.len(),
        forall|i: int| 0 <= i < samples@.len() ==> r@[i] == color_spec(samples@[i] as int, min as int, max as int),
{
    let mut out: Vec<Rgb> = Vec::with_capacity(samples.len());
    let mut i: usize = 0;
    while i < samples.len()
        invariant
            i <= samples@.len(),
            out@.len() == i,
            forall|j: int| 0 <= j < samples@.len() ==> min <= #[trigger] samples@[j] <= max,
            forall|j: int| 0 <= j < i ==> out@[j] == color_spec(samples@[j] as int, min as int, max as int),
        decreases samples@.len() - i,
    {
        let c = thermal_color(samples[i], min, max);
        out.push(c);
        i += 1;
    }
    out
}

/// Turns a raw buffer into one color per sample for a frame of `width` by
/// `height`. A buffer shorter than the frame is refused, one longer is cut to it.
pub fn process_frame(raw: &Vec<u8>, width: usize, height: usize) -> (r: Result<Vec<Rgb>, ThermalError>)
    ensures
        r is Ok <==> frame_fits(raw@, width as int, height as int),
        r is Err ==> r == Err::<Vec<Rgb>, ThermalError>(ThermalError::TruncatedFrame),
        r is Ok ==> r->Ok_0@ == frame_spec(raw@, (width * height) as nat),
{
    let half = raw.len() / 2;
    if height != 0 && width > half / height {
        assert(!frame_fits(raw@, width as int, height as int)) by (nonlinear_arith)
            requires
                height > 0,
                width > half / height,
                half == raw@.len() / 2,
        {
            assert(width >= half / height + 1);
            assert(width * height >= (half / height + 1) * height);
            assert((half / height + 1) * height == (half / height) * height + height);
            assert(half == (half / height) * height + half % height);
            assert(2 * width * height == 2 * (width * height));
        }
        return Err(ThermalError::TruncatedFrame);
    }
    assert(width * height <= half) by (nonlinear_arith)
        requires
            height == 0 || width <= half / height,
    {
        if height != 0 {
            assert(width * height <= (half / height) * height);
            assert(half == (half / height) * height + half % height);
        }
    }
    let count = width * height;
    assert(frame_fits(raw@, width as int, height as int)) by (nonlinear_arith)
        requires
            count == width * height,
            count <= half,
            half == raw@.len() / 2,
    {
        assert(2 * width * height == 2 * (width * height));
    }
    let (samples, lo, hi) = decode_samples(raw, count);
    let colors = colorize(&samples, lo, hi);
    assert(colors@ =~= frame_spec(raw@, count as nat));
    Ok(colors)
}

/// The pipeline is a function of its input: equal buffers and dimensions give
/// equal outcomes, and equal color frames when they are accepted.
pub proof fn lemma_process_deterministic(a: Seq<u8>, b: Seq<u8>, width: int, height: int)
    requires
        a == b,
        width >= 0,
        height >= 0,
    ensures
        frame_fits(a, width, height) == frame_fits(b, width, height),
        frame_spec(a, (width * height) as nat) == frame_spec(b, (width * height) as nat),
{
}

proof fn lemma_uniform_extremes(raw: Seq<u8>, k: nat, v: int)
    requires
        k > 0,
        forall|i: int| 0 <= i < k ==> sample_spec(raw, i) == v,
        0 <= v <= 0xffff,
    ensures
        min_prefix(raw, k) == v,
        max_prefix(raw, k) == v,
    decreases k,
{
    assert(sample_spec(raw, k - 1) == v);
    assert(min_prefix(raw, 0) == 0xffff);
    assert(max_prefix(raw, 0) == 0);
    if k > 1 {
        lemma_uniform_extremes(raw, (k - 1) as nat, v);
    }
}

/// A frame whose samples all hold the same value comes out all black, whatever
/// the value.
pub proof fn lemma_uniform_frame_black(raw: Seq<u8>, n: nat, v: int)
    requires
        raw.len() >= 2 * n,
        0 <= v <= 0xffff,
        forall|i: int| 0 <= i < n ==> sample_spec(raw, i) == v,
    ensures
        forall|i: int| 0 <= i < n ==> #[trigger] frame_spec(raw, n)[i] == black(),
{
    if n > 0 {
        lemma_uniform_extremes(raw, n, v);
    }
}

proof fn lemma_scaled_bounds(x: int, range: int)
    requires
        0 < range,
        0 <= x <= range,
    ensures
        0 <= scaled(x, range) <= 255,
        x == 0 ==> scaled(x, range) == 0,
        x == range ==> scaled(x, range) == 255,
{
    assert(0 <= scaled(x, range) <= 255) by (nonlinear_arith)
        requires
            0 < range,
            0 <= x <= range,
    {
        assert(510 * x + range < 512 * range);
    }
    if x == 0 {
        assert(scaled(x, range) == 0) by (nonlinear_arith)
            requires
                x == 0,
                0 < range,
        {
        }
    }
    if x == range {
        assert(scaled(x, range) == 255) by (nonlinear_arith)
            requires
                x == range,
                0 < range,
        {
            assert(510 * x + range == 255 * (2 * range) + range);
        }
    }
}

proof fn lemma_scaled_close(x: int, y: int, range: int)
    requires
        1020 <= range,
        0 <= x <= range,
        0 <= y <= range,
        -4 <= x - y <= 4,
    ensures
        -1 <= scaled(x, range) - scaled(y, range) <= 1,
        0 <= scaled(x, range) <= 255,
        0 <= scaled(y, range) <= 255,
{
    lemma_scaled_bounds(x, range);
    lemma_scaled_bounds(y, range);
    assert(-1 <= scaled(x, range) - scaled(y, range) <= 1) by (nonlinear_arith)
        requires
            1020 <= range,
            -4 <= x - y <= 4,
    {
        let m = 2 * range;
        let p = 510 * x + range;
        let q = 510 * y + range;
        assert(-m <= p - q <= m);
        assert(p == (p / m) * m + p % m);
        assert(q == (q / m) * m + q % m);
    }
}

/// Whether two color levels are at most one unit apart.
pub open spec fn within_one(a: u8, b: u8) -> bool {
    -1 <= a - b <= 1
}

/// The ramp has no jumps, band boundaries included: where one sample step is at
/// most one color unit (a range of at least 1020), neighboring samples get colors
/// that differ by at most one unit in each component.
pub proof fn lemma_gradient_continuous(d: int, range: int)
    requires
        1020 <= range,
        0 <= d < range,
    ensures
        within_one(gradient(d, range).r, gradient(d + 1, range).r),
        within_one(gradient(d, range).g, gradient(d + 1, range).g),
        within_one(gradient(d, range).b, gradient(d + 1, range).b),
{
    let q = 4 * d;
    let p = 4 * d + 4;
    if q < range {
        if p < range {
            lemma_scaled_close(q, p, range);
        } else {
            lemma_scaled_bounds(0, range);
            lemma_scaled_close(0, p - range, range);
            lemma_scaled_close(q, 2 * range - p, range);
        }
    } else if q < 2 * range {
        if p < 2 * range {
            lemma_scaled_close(q - range, p - range, range);
            lemma_scaled_close(2 * range - q, 2 * range - p, range);
        } else {
            lemma_scaled_bounds(range, range);
            lemma_scaled_bounds(0, range);
            lemma_scaled_close(q - range, range, range);
            lemma_scaled_close(0, p - 2 * range, range);
            lemma_scaled_close(2 * range - q, 0, range);
        }
    } else if q < 3 * range {
        if p < 3 * range {
            lemma_scaled_close(q - 2 * range, p - 2 * range, range);
        } else {
            lemma_scaled_bounds(range, range);
            lemma_scaled_bounds(0, range);
            lemma_scaled_close(q - 2 * range, range, range);
            lemma_scaled_close(0, p - 3 * range, range);
        }
    } else {
        lemma_scaled_close(q - 3 * range, p - 3 * range, range);
    }
}

} // verus!
