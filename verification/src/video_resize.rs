//! Fixed-point bilinear scaling for opaque desktop frames. Coordinates sample pixel
//! centres, clamp at the edges, and use integer arithmetic only.
use vstd::arithmetic::div_mod::lemma_fundamental_div_mod_converse;
use vstd::prelude::*;

verus! {

/// An RGBA frame, four bytes per pixel, rows top to bottom.
pub struct RgbaFrame {
    pub width: u32,
    pub height: u32,
    pub data: Vec<u8>,
}

impl RgbaFrame {
    /// The buffer holds exactly `width * height` pixels.
    pub open spec fn wf(&self) -> bool {
        self.data@.len() == self.width * self.height * 4
    }
}

/// Fixed-point sample position (1/256 pixel) of target index `i` on an axis scaled from
/// `source` to `target` pixels, measured from the first source pixel centre.
pub open spec fn axis_position(i: nat, source: nat, target: nat) -> nat {
    let p = ((2 * i + 1) * source * 128) / target;
    if p >= 128 {
        (p - 128) as nat
    } else {
        0
    }
}

/// The nearer source pixel of target index `i`, clamped to the frame.
pub open spec fn axis_left(i: nat, source: nat, target: nat) -> nat {
    let l = axis_position(i, source, target) / 256;
    if l < source - 1 {
        l
    } else {
        (source - 1) as nat
    }
}

/// The farther source pixel of target index `i`, clamped to the frame.
pub open spec fn axis_right(i: nat, source: nat, target: nat) -> nat {
    let l = axis_left(i, source, target);
    if l + 1 < source - 1 {
        l + 1
    } else {
        (source - 1) as nat
    }
}

/// The weight (out of 256) of the farther source pixel.
pub open spec fn axis_fraction(i: nat, source: nat, target: nat) -> nat {
    axis_position(i, source, target) % 256
}

/// Bilinear blend of four samples with weights out of 256, rounded to nearest.
pub open spec fn blend(a: nat, b: nat, c: nat, d: nat, fx: nat, fy: nat) -> nat {
    (((a * (256 - fx) + b * fx) * (256 - fy) + (c * (256 - fx) + d * fx) * fy + 32768) / 65536) as nat
}

/// Byte `channel` of source pixel (`x`, `y`).
pub open spec fn source_byte(frame: RgbaFrame, x: nat, y: nat, channel: nat) -> nat {
    frame.data@[((y * frame.width + x) * 4 + channel) as int] as nat
}

/// Byte `channel` of output pixel (`col`, `row`) when scaling to `width` x `height`.
pub open spec fn scaled_byte(frame: RgbaFrame, width: nat, height: nat, col: nat, row: nat, channel: nat) -> nat {
    if channel == 3 {
        255
    } else {
        let x0 = axis_left(col, frame.width as nat, width);
        let x1 = axis_right(col, frame.width as nat, width);
        let fx = axis_fraction(col, frame.width as nat, width);
        let y0 = axis_left(row, frame.height as nat, height);
        let y1 = axis_right(row, frame.height as nat, height);
        let fy = axis_fraction(row, frame.height as nat, height);
        blend(
            source_byte(frame, x0, y0, channel),
            source_byte(frame, x1, y0, channel),
            source_byte(frame, x0, y1, channel),
            source_byte(frame, x1, y1, channel),
            fx,
            fy,
        )
    }
}

/// Byte `k` of the scaled buffer.
pub open spec fn scaled_at(frame: RgbaFrame, width: nat, height: nat, k: int) -> nat {
    let p = k / 4;
    scaled_byte(frame, width, height, (p % width as int) as nat, (p / width as int) as nat, (k % 4) as nat)
}

/// Preconditions under which the scaler neither overflows nor allocates beyond memory.
pub open spec fn scalable(frame: RgbaFrame, width: u32, height: u32) -> bool {
    &&& frame.wf()
    &&& width > 0 && height > 0 && frame.width > 0 && frame.height > 0
    &&& width * height * 4 <= usize::MAX
    &&& (2 * width - 1) * frame.width * 128 <= u64::MAX
    &&& (2 * height - 1) * frame.height * 128 <= u64::MAX
}

proof fn lemma_blend_byte(a: nat, b: nat, c: nat, d: nat, fx: nat, fy: nat)
    requires
        a <= 255,
        b <= 255,
        c <= 255,
        d <= 255,
        fx <= 256,
        fy <= 256,
    ensures
        a * (256 - fx) <= 65280,
        b * fx <= 65280,
        c * (256 - fx) <= 65280,
        d * fx <= 65280,
        (a * (256 - fx) + b * fx) * (256 - fy) <= 255 * 65536,
        (c * (256 - fx) + d * fx) * fy <= 255 * 65536,
        (a * (256 - fx) + b * fx) * (256 - fy) + (c * (256 - fx) + d * fx) * fy + 32768 <= 255 * 65536 + 32768,
        blend(a, b, c, d, fx, fy) <= 255,
{
    assert(a * (256 - fx) <= 65280 && b * fx <= 65280 && c * (256 - fx) <= 65280 && d * fx <= 65280) by (nonlinear_arith)
        requires
            a <= 255,
            b <= 255,
            c <= 255,
            d <= 255,
            fx <= 256,
    ;
    assert(a * (256 - fx) + b * fx <= 255 * 256) by (nonlinear_arith)
        requires
            a <= 255,
            b <= 255,
            fx <= 256,
    ;
    assert(c * (256 - fx) + d * fx <= 255 * 256) by (nonlinear_arith)
        requires
            c <= 255,
            d <= 255,
            fx <= 256,
    ;
    let top = a * (256 - fx) + b * fx;
    let bottom = c * (256 - fx) + d * fx;
    assert(top * (256 - fy) <= 255 * 65536 && bottom * fy <= 255 * 65536) by (nonlinear_arith)
        requires
            top <= 255 * 256,
            bottom <= 255 * 256,
            fy <= 256,
    ;
    assert(top * (256 - fy) + bottom * fy <= 255 * 256 * 256) by (nonlinear_arith)
        requires
            top <= 255 * 256,
            bottom <= 255 * 256,
            fy <= 256,
    ;
}

/// For one axis: the left and right source indices and the fraction of every target index.
fn axis(source: u32, target: u32) -> (v: Vec<(usize, usize, u32)>)
    requires
        source > 0,
        target > 0,
        (2 * target - 1) * source * 128 <= u64::MAX,
    ensures
        v@.len() == target,
        forall|i: int|
            0 <= i < target ==> {
                &&& (#[trigger] v@[i]).0 == axis_left(i as nat, source as nat, target as nat)
                &&& v@[i].1 == axis_right(i as nat, source as nat, target as nat)
                &&& v@[i].2 == axis_fraction(i as nat, source as nat, target as nat)
                &&& v@[i].0 < source
                &&& v@[i].1 < source
                &&& v@[i].2 < 256
            },
{
    let mut v: Vec<(usize, usize, u32)> = Vec::new();
    let mut i: u32 = 0;
    while i < target
        invariant
            source > 0,
            target > 0,
            (2 * target - 1) * source * 128 <= u64::MAX,
            i <= target,
            v@.len() == i,
            forall|j: int|
                0 <= j < i ==> {
                    &&& (#[trigger] v@[j]).0 == axis_left(j as nat, source as nat, target as nat)
                    &&& v@[j].1 == axis_right(j as nat, source as nat, target as nat)
                    &&& v@[j].2 == axis_fraction(j as nat, source as nat, target as nat)
                    &&& v@[j].0 < source
                    &&& v@[j].1 < source
                    &&& v@[j].2 < 256
                },
        decreases target - i,
    {
        assert((2 * i + 1) * source * 128 <= (2 * target - 1) * source * 128) by (nonlinear_arith)
            requires
                i < target,
        ;
        let num: u64 = (2 * (i as u64) + 1) * (source as u64) * 128;
        let q: u64 = num / (target as u64);
        let position: u64 = if q >= 128 { q - 128 } else { 0 };
        let l: u64 = position / 256;
        let last: u64 = source as u64 - 1;
        let left: u64 = if l < last { l } else { last };
        let right: u64 = if left + 1 < last { left + 1 } else { last };
        v.push((left as usize, right as usize, (position % 256) as u32));
        i = i + 1;
    }
    v
}

proof fn lemma_index(row: nat, col: nat, ch: nat, width: nat)
    requires
        col < width,
        ch < 4,
    ensures
        ((row * width + col) * 4 + ch) / 4 == row * width + col,
        ((row * width + col) * 4 + ch) % 4 == ch,
        (row * width + col) % width == col,
        (row * width + col) / width == row,
{
    lemma_fundamental_div_mod_converse(((row * width + col) * 4 + ch) as int, 4, (row * width + col) as int, ch as int);
    lemma_fundamental_div_mod_converse((row * width + col) as int, width as int, row as int, col as int);
}

proof fn lemma_source_index(x: nat, y: nat, ch: nat, w: nat, h: nat)
    requires
        x < w,
        y < h,
        ch < 4,
    ensures
        (y * w + x) * 4 + ch < w * h * 4,
        (y * w + x) * 4 + ch == y * (w * 4) + x * 4 + ch,
{
    assert((y * w + x) * 4 + ch < w * h * 4) by (nonlinear_arith)
        requires
            x < w,
            y < h,
            ch < 4,
    ;
    assert((y * w + x) * 4 + ch == y * (w * 4) + x * 4 + ch) by (nonlinear_arith);
}

/// Scales `frame` to `width` x `height`. A frame already of that size is returned as is;
/// otherwise every output byte is the bilinear blend of the four nearest source pixels
/// and every alpha byte is opaque.
pub fn resize(frame: &RgbaFrame, width: u32, height: u32) -> (r: RgbaFrame)
    requires
        scalable(*frame, width, height),
    ensures
        r.wf(),
        r.width == width,
        r.height == height,
        frame.width == width && frame.height == height ==> r.data@ == frame.data@,
        !(frame.width == width && frame.height == height) ==> forall|k: int|
            0 <= k < r.data@.len() ==> #[trigger] r.data@[k] as nat == scaled_at(*frame, width as nat, height as nat, k),
{
    if frame.width == width && frame.height == height {
        let data = frame.data.clone();
        proof {
            assert(data@ =~= frame.data@);
        }
        return RgbaFrame { width, height, data };
    }
    let xs = axis(frame.width, width);
    let ys = axis(frame.height, height);
    let total = frame.data.len();
    let fw = frame.width as usize;
    let ghost fh = frame.height as nat;
    proof {
        assert(frame.width * frame.height * 4 >= frame.width * 4) by (nonlinear_arith)
            requires
                frame.height > 0,
        ;
        assert(fw * 4 <= total);
    }
    let stride = fw * 4;
    let mut out: Vec<u8> = Vec::new();
    let mut row: usize = 0;
    while row < height as usize
        invariant
            scalable(*frame, width, height),
            frame.width != width || frame.height != height,
            fw == frame.width,
            total == frame.data@.len(),
            stride == fw * 4,
            fh == frame.height,
            xs@.len() == width,
            ys@.len() == height,
            forall|i: int|
                0 <= i < width ==> {
                    &&& (#[trigger] xs@[i]).0 == axis_left(i as nat, frame.width as nat, width as nat)
                    &&& xs@[i].1 == axis_right(i as nat, frame.width as nat, width as nat)
                    &&& xs@[i].2 == axis_fraction(i as nat, frame.width as nat, width as nat)
                    &&& xs@[i].0 < frame.width
                    &&& xs@[i].1 < frame.width
                    &&& xs@[i].2 < 256
                },
            forall|i: int|
                0 <= i < height ==> {
                    &&& (#[trigger] ys@[i]).0 == axis_left(i as nat, frame.height as nat, height as nat)
                    &&& ys@[i].1 == axis_right(i as nat, frame.height as nat, height as nat)
                    &&& ys@[i].2 == axis_fraction(i as nat, frame.height as nat, height as nat)
                    &&& ys@[i].0 < frame.height
                    &&& ys@[i].1 < frame.height
                    &&& ys@[i].2 < 256
                },
            row <= height,
            out@.len() == row * width * 4,
            forall|k: int| 0 <= k < out@.len() ==> #[trigger] out@[k] as nat == scaled_at(*frame, width as nat, height as nat, k),
        decreases height - row,
    {
        let (y0, y1, fy) = ys[row];
        let mut col: usize = 0;
        while col < width as usize
            invariant
                scalable(*frame, width, height),
                fw == frame.width,
                total == frame.data@.len(),
                stride == fw * 4,
                fh == frame.height,
                xs@.len() == width,
                forall|i: int|
                    0 <= i < width ==> {
                        &&& (#[trigger] xs@[i]).0 == axis_left(i as nat, frame.width as nat, width as nat)
                        &&& xs@[i].1 == axis_right(i as nat, frame.width as nat, width as nat)
                        &&& xs@[i].2 == axis_fraction(i as nat, frame.width as nat, width as nat)
                        &&& xs@[i].0 < frame.width
                        &&& xs@[i].1 < frame.width
                        &&& xs@[i].2 < 256
                    },
                row < height,
                y0 == axis_left(row as nat, frame.height as nat, height as nat),
                y1 == axis_right(row as nat, frame.height as nat, height as nat),
                fy == axis_fraction(row as nat, frame.height as nat, height as nat),
                y0 < frame.height,
                y1 < frame.height,
                fy < 256,
                col <= width,
                out@.len() == (row * width + col) * 4,
                forall|k: int| 0 <= k < out@.len() ==> #[trigger] out@[k] as nat == scaled_at(*frame, width as nat, height as nat, k),
            decreases width - col,
        {
            let (x0, x1, fx) = xs[col];
            let mut channel: usize = 0;
            while channel < 4
                invariant
                    scalable(*frame, width, height),
                    fw == frame.width,
                    total == frame.data@.len(),
                    stride == fw * 4,
                    fh == frame.height,
                    row < height,
                    col < width,
                    x0 == axis_left(col as nat, frame.width as nat, width as nat),
                    x1 == axis_right(col as nat, frame.width as nat, width as nat),
                    fx == axis_fraction(col as nat, frame.width as nat, width as nat),
                    x0 < frame.width,
                    x1 < frame.width,
                    fx < 256,
                    y0 == axis_left(row as nat, frame.height as nat, height as nat),
                    y1 == axis_right(row as nat, frame.height as nat, height as nat),
                    fy == axis_fraction(row as nat, frame.height as nat, height as nat),
                    y0 < frame.height,
                    y1 < frame.height,
                    fy < 256,
                    channel <= 4,
                    out@.len() == (row * width + col) * 4 + channel,
                    forall|k: int| 0 <= k < out@.len() ==> #[trigger] out@[k] as nat == scaled_at(*frame, width as nat, height as nat, k),
                decreases 4 - channel,
            {
                proof {
                    lemma_index(row as nat, col as nat, channel as nat, width as nat);
                    lemma_source_index(x0 as nat, y0 as nat, channel as nat, fw as nat, fh);
                    lemma_source_index(x1 as nat, y0 as nat, channel as nat, fw as nat, fh);
                    lemma_source_index(x0 as nat, y1 as nat, channel as nat, fw as nat, fh);
                    lemma_source_index(x1 as nat, y1 as nat, channel as nat, fw as nat, fh);
                }
                let value: u8 = if channel == 3 {
                    255
                } else {
                    let a = frame.data[y0 * stride + x0 * 4 + channel] as u32;
                    let b = frame.data[y0 * stride + x1 * 4 + channel] as u32;
                    let c = frame.data[y1 * stride + x0 * 4 + channel] as u32;
                    let d = frame.data[y1 * stride + x1 * 4 + channel] as u32;
                    proof {
                        lemma_blend_byte(a as nat, b as nat, c as nat, d as nat, fx as nat, fy as nat);
                    }
                    (((a * (256 - fx) + b * fx) * (256 - fy) + (c * (256 - fx) + d * fx) * fy + 32768)
                        >> 16) as u8
                };
                proof {
                    let ghost k = out@.len() as int;
                    assert(value as nat == scaled_at(*frame, width as nat, height as nat, k)) by {
                        if channel != 3 {
                            let a = frame.data@[(y0 * stride + x0 * 4 + channel) as int] as u32;
                            let b = frame.data@[(y0 * stride + x1 * 4 + channel) as int] as u32;
                            let c = frame.data@[(y1 * stride + x0 * 4 + channel) as int] as u32;
                            let d = frame.data@[(y1 * stride + x1 * 4 + channel) as int] as u32;
                            let s: u32 = ((a * (256 - fx) + b * fx) * (256 - fy) + (c * (256 - fx) + d * fx) * fy + 32768) as u32;
                            assert(s >> 16 == s / 65536) by (bit_vector);
                        }
                    }
                }
                out.push(value);
                channel = channel + 1;
            }
            col = col + 1;
        }
        row = row + 1;
        proof {
            assert((row - 1) * width + width == row * width) by (nonlinear_arith)
                requires
                    row >= 1,
            ;
        }
    }
    proof {
        assert(out@.len() == width * height * 4) by (nonlinear_arith)
            requires
                out@.len() == row * width * 4,
                row == height,
        ;
    }
    RgbaFrame { width, height, data: out }
}

/// Scaling a frame of one colour yields that colour everywhere: the blend of four equal
/// samples is the sample, whatever the weights.
pub proof fn law_constant_colour_preserved(a: nat, fx: nat, fy: nat)
    requires
        a <= 255,
        fx <= 256,
        fy <= 256,
    ensures
        blend(a, a, a, a, fx, fy) == a,
{
    assert(a * (256 - fx) + a * fx == a * 256) by (nonlinear_arith);
    assert((a * 256) * (256 - fy) + (a * 256) * fy == a * 65536) by (nonlinear_arith);
    lemma_fundamental_div_mod_converse((a * 65536 + 32768) as int, 65536, a as int, 32768);
}

/// Whether every pixel of `frame` has colour `c` (four channel bytes).
pub open spec fn uniform(frame: RgbaFrame, c: Seq<u8>) -> bool {
    forall|k: int| 0 <= k < frame.data@.len() ==> #[trigger] frame.data@[k] == c[k % 4]
}

proof fn lemma_axis_bounds(i: nat, source: nat, target: nat)
    requires
        source > 0,
    ensures
        axis_left(i, source, target) < source,
        axis_right(i, source, target) < source,
        axis_fraction(i, source, target) < 256,
{
}

/// Scaling a frame of one opaque colour yields that colour in every output pixel.
pub proof fn law_uniform_frame_stays_uniform(frame: RgbaFrame, width: u32, height: u32, c: Seq<u8>, k: int)
    requires
        scalable(frame, width, height),
        c.len() == 4,
        c[3] == 255,
        uniform(frame, c),
        0 <= k < width * height * 4,
    ensures
        scaled_at(frame, width as nat, height as nat, k) == c[k % 4] as nat,
{
    let p = k / 4;
    let col = (p % width as int) as nat;
    let row = (p / width as int) as nat;
    let ch = (k % 4) as nat;
    if ch != 3 {
        assert(0 <= p);
        assert(row < height) by (nonlinear_arith)
            requires
                p == k / 4,
                0 <= k < width * height * 4,
                row == p / width as int,
                width > 0,
        ;
        lemma_axis_bounds(col, frame.width as nat, width as nat);
        lemma_axis_bounds(row, frame.height as nat, height as nat);
        let x0 = axis_left(col, frame.width as nat, width as nat);
        let x1 = axis_right(col, frame.width as nat, width as nat);
        let y0 = axis_left(row, frame.height as nat, height as nat);
        let y1 = axis_right(row, frame.height as nat, height as nat);
        let w = frame.width as nat;
        let h = frame.height as nat;
        assert forall|x: nat, y: nat| x < w && y < h implies #[trigger] source_byte(frame, x, y, ch) == c[ch as int] as nat by {
            lemma_source_index(x, y, ch, w, h);
            let idx = ((y * w + x) * 4 + ch) as int;
            lemma_fundamental_div_mod_converse(idx, 4, (y * w + x) as int, ch as int);
            assert(frame.data@[idx] == c[idx % 4]);
        }
        assert(source_byte(frame, x0, y0, ch) == c[ch as int] as nat);
        assert(source_byte(frame, x1, y0, ch) == c[ch as int] as nat);
        assert(source_byte(frame, x0, y1, ch) == c[ch as int] as nat);
        assert(source_byte(frame, x1, y1, ch) == c[ch as int] as nat);
        law_constant_colour_preserved(
            c[ch as int] as nat,
            axis_fraction(col, w, width as nat),
            axis_fraction(row, h, height as nat),
        );
    }
}

proof fn lemma_blend_between(a: nat, b: nat, c: nat, d: nat, fx: nat, fy: nat, lo: nat, hi: nat)
    requires
        lo <= a <= hi,
        lo <= b <= hi,
        lo <= c <= hi,
        lo <= d <= hi,
        fx <= 256,
        fy <= 256,
    ensures
        lo <= blend(a, b, c, d, fx, fy) <= hi,
{
    let top = a * (256 - fx) + b * fx;
    let bottom = c * (256 - fx) + d * fx;
    assert(lo * 256 <= top <= hi * 256) by (nonlinear_arith)
        requires
            lo <= a <= hi,
            lo <= b <= hi,
            fx <= 256,
            top == a * (256 - fx) + b * fx,
    ;
    assert(lo * 256 <= bottom <= hi * 256) by (nonlinear_arith)
        requires
            lo <= c <= hi,
            lo <= d <= hi,
            fx <= 256,
            bottom == c * (256 - fx) + d * fx,
    ;
    let n = top * (256 - fy) + bottom * fy;
    assert(lo * 65536 <= n <= hi * 65536) by (nonlinear_arith)
        requires
            lo * 256 <= top <= hi * 256,
            lo * 256 <= bottom <= hi * 256,
            fy <= 256,
            n == top * (256 - fy) + bottom * fy,
    ;
    let m = n + 32768;
    assert(lo <= m / 65536 <= hi) by (nonlinear_arith)
        requires
            lo * 65536 <= m,
            m < (hi + 1) * 65536,
    ;
}

/// Scaling never leaves the range of the source: every colour byte of the output lies
/// between the least and the greatest value that channel takes in the source frame.
pub proof fn law_channel_stays_in_source_range(
    frame: RgbaFrame,
    width: u32,
    height: u32,
    lo: nat,
    hi: nat,
    k: int,
)
    requires
        scalable(frame, width, height),
        0 <= k < width * height * 4,
        k % 4 != 3,
        forall|j: int|
            0 <= j < frame.data@.len() && j % 4 == k % 4 ==> lo <= #[trigger] frame.data@[j] <= hi,
    ensures
        lo <= scaled_at(frame, width as nat, height as nat, k) <= hi,
{
    let p = k / 4;
    let col = (p % width as int) as nat;
    let row = (p / width as int) as nat;
    let ch = (k % 4) as nat;
    let w = frame.width as nat;
    let h = frame.height as nat;
    lemma_axis_bounds(col, w, width as nat);
    lemma_axis_bounds(row, h, height as nat);
    let x0 = axis_left(col, w, width as nat);
    let x1 = axis_right(col, w, width as nat);
    let y0 = axis_left(row, h, height as nat);
    let y1 = axis_right(row, h, height as nat);
    assert forall|x: nat, y: nat| x < w && y < h implies lo <= #[trigger] source_byte(frame, x, y, ch) <= hi by {
        lemma_source_index(x, y, ch, w, h);
        let idx = ((y * w + x) * 4 + ch) as int;
        lemma_fundamental_div_mod_converse(idx, 4, (y * w + x) as int, ch as int);
        assert(frame.data@[idx] as nat == source_byte(frame, x, y, ch));
    }
    assert(lo <= source_byte(frame, x0, y0, ch) <= hi);
    assert(lo <= source_byte(frame, x1, y0, ch) <= hi);
    assert(lo <= source_byte(frame, x0, y1, ch) <= hi);
    assert(lo <= source_byte(frame, x1, y1, ch) <= hi);
    lemma_blend_between(
        source_byte(frame, x0, y0, ch),
        source_byte(frame, x1, y0, ch),
        source_byte(frame, x0, y1, ch),
        source_byte(frame, x1, y1, ch),
        axis_fraction(col, w, width as nat),
        axis_fraction(row, h, height as nat),
        lo,
        hi,
    );
}

} // verus!
