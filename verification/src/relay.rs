//! The host relay framing: a point-to-point byte stream carries, in order,
//! four 4-byte big-endian integers (width, height, channel count, row
//! stride), an 8-byte big-endian unsigned length, and that many raw pixel
//! bytes.  The core's obligation is to parse this exact framing into the
//! in-memory image type and to reject truncated streams; reading the bytes
//! off a socket is the host's business.

use vstd::prelude::*;

use crate::render::Image;

verus! {

/// The value of four big-endian bytes.
pub open spec fn be32_val(b0: u8, b1: u8, b2: u8, b3: u8) -> int {
    b0 * 0x100_0000 + b1 * 0x1_0000 + b2 * 0x100 + b3
}

/// The value of eight big-endian bytes.
pub open spec fn be64_val(
    b0: u8,
    b1: u8,
    b2: u8,
    b3: u8,
    b4: u8,
    b5: u8,
    b6: u8,
    b7: u8,
) -> int {
    be32_val(b0, b1, b2, b3) * 0x1_0000_0000 + be32_val(b4, b5, b6, b7)
}

/// A 32-bit value reinterpreted as a signed integer.
pub open spec fn as_i32_val(v: int) -> int {
    if v >= 0x8000_0000 {
        v - 0x1_0000_0000
    } else {
        v
    }
}

/// The header fields the relay carries ahead of the pixel bytes.
pub open spec fn frame_width(b: Seq<u8>) -> int {
    as_i32_val(be32_val(b[0], b[1], b[2], b[3]))
}

pub open spec fn frame_height(b: Seq<u8>) -> int {
    as_i32_val(be32_val(b[4], b[5], b[6], b[7]))
}

pub open spec fn frame_channels(b: Seq<u8>) -> int {
    as_i32_val(be32_val(b[8], b[9], b[10], b[11]))
}

pub open spec fn frame_rowstride(b: Seq<u8>) -> int {
    as_i32_val(be32_val(b[12], b[13], b[14], b[15]))
}

pub open spec fn frame_data_len(b: Seq<u8>) -> int {
    be64_val(b[16], b[17], b[18], b[19], b[20], b[21], b[22], b[23])
}

/// A frame is well-formed when the header is complete and the announced
/// pixel bytes are present; trailing bytes are ignored, as a stream reader
/// would leave them unread.
pub open spec fn frame_ok(b: Seq<u8>) -> bool {
    b.len() >= 24 && frame_data_len(b) <= b.len() - 24
}

/// A raw image as the relay delivers it: dimensions and stride trusted as
/// given; a channel count of 4 implies an alpha channel.
pub struct RawImage {
    pub width: i32,
    pub height: i32,
    pub channels: i32,
    pub rowstride: i32,
    pub data: Vec<u8>,
}

/// Read one big-endian 32-bit value.
fn read_be32(b: &Vec<u8>, off: usize) -> (v: u64)
    requires
        off <= 20,
        off + 4 <= b@.len(),
    ensures
        v == be32_val(b@[off as int], b@[off + 1], b@[off + 2], b@[off + 3]),
        v < 0x1_0000_0000,
{
    (b[off] as u64) * 0x100_0000 + (b[off + 1] as u64) * 0x1_0000 + (b[off + 2] as u64) * 0x100 + (
    b[off + 3] as u64)
}

/// Parse a relay frame.  `None` exactly when the frame is truncated: a
/// malformed stream is dropped without touching any state.
pub fn parse_frame(bytes: &Vec<u8>) -> (r: Option<RawImage>)
    ensures
        r is Some <==> frame_ok(bytes@),
        r is Some ==> ({
            let ri = r->0;
            ri.width == frame_width(bytes@) && ri.height == frame_height(bytes@) && ri.channels
                == frame_channels(bytes@) && ri.rowstride == frame_rowstride(bytes@) && ri.data@
                == bytes@.subrange(24, 24 + frame_data_len(bytes@))
        }),
{
    if bytes.len() < 24 {
        return None;
    }
    let w = read_be32(bytes, 0);
    let h = read_be32(bytes, 4);
    let c = read_be32(bytes, 8);
    let s = read_be32(bytes, 12);
    let hi = read_be32(bytes, 16);
    let lo = read_be32(bytes, 20);
    let dl: u64 = hi * 0x1_0000_0000 + lo;
    let avail: u64 = (bytes.len() - 24) as u64;
    if dl > avail {
        return None;
    }
    let n: usize = dl as usize;
    let limit: usize = bytes.len();
    proof {
        assert(n == frame_data_len(bytes@));
        assert(n + 24 <= limit);
    }
    let mut data: Vec<u8> = Vec::new();
    let mut i: usize = 0;
    while i < n
        invariant
            0 <= i <= n,
            limit == bytes@.len(),
            n + 24 <= limit,
            data@ =~= bytes@.subrange(24, 24 + i as int),
        decreases n - i,
    {
        data.push(bytes[24 + i]);
        proof {
            assert(data@ =~= bytes@.subrange(24, 24 + (i + 1)));
        }
        i = i + 1;
    }
    Some(
        RawImage {
            width: signed_of(w),
            height: signed_of(h),
            channels: signed_of(c),
            rowstride: signed_of(s),
            data,
        },
    )
}

/// Reinterpret a 32-bit value as a signed integer.
fn signed_of(v: u64) -> (r: i32)
    requires
        v < 0x1_0000_0000,
    ensures
        r == as_i32_val(v as int),
{
    if v >= 0x8000_0000 {
        ((v as i64) - 0x1_0000_0000) as i32
    } else {
        v as i32
    }
}

/// The unsigned 32-bit representation of a signed integer.
fn unsigned_of(v: i32) -> (r: u32)
    ensures
        as_i32_val(r as int) == v,
{
    if v >= 0 {
        v as u32
    } else {
        ((v as i64) + 0x1_0000_0000) as u32
    }
}

/// The big-endian bytes of a 32-bit value.
fn be_bytes(v: u32) -> (r: (u8, u8, u8, u8))
    ensures
        be32_val(r.0, r.1, r.2, r.3) == v,
{
    proof {
        assert((v / 0x100_0000u32 % 0x100) * 0x100_0000 + (v / 0x1_0000u32 % 0x100) * 0x1_0000 + (v
            / 0x100u32 % 0x100) * 0x100 + (v % 0x100u32) == v) by (bit_vector);
    }
    (
        (v / 0x100_0000 % 0x100) as u8,
        (v / 0x1_0000 % 0x100) as u8,
        (v / 0x100 % 0x100) as u8,
        (v % 0x100) as u8,
    )
}

/// Encode a relay frame: the four header fields, the pixel byte count, and
/// the pixel bytes, exactly as `parse_frame` reads them back.
pub fn encode_frame(img: &RawImage) -> (r: Vec<u8>)
    ensures
        r@.len() == 24 + img.data@.len(),
        frame_ok(r@),
        frame_width(r@) == img.width,
        frame_height(r@) == img.height,
        frame_channels(r@) == img.channels,
        frame_rowstride(r@) == img.rowstride,
        frame_data_len(r@) == img.data@.len(),
        r@.subrange(24, r@.len() as int) == img.data@,
{
    let wu: u32 = unsigned_of(img.width);
    let hu: u32 = unsigned_of(img.height);
    let cu: u32 = unsigned_of(img.channels);
    let su: u32 = unsigned_of(img.rowstride);
    let n: usize = img.data.len();
    let hi: u32 = ((n as u64) / 0x1_0000_0000) as u32;
    let lo: u32 = #[verifier::truncate] (((n as u64) % 0x1_0000_0000) as u32);
    proof {
        let n64 = n as u64;
        assert((n64 / 0x1_0000_0000) * 0x1_0000_0000 + (n64 % 0x1_0000_0000) == n64)
            by (bit_vector);
        assert(n64 / 0x1_0000_0000 < 0x1_0000_0000) by (bit_vector);
        assert(n64 % 0x1_0000_0000 < 0x1_0000_0000) by (bit_vector);
    }
    let (w0, w1, w2, w3) = be_bytes(wu);
    let (h0, h1, h2, h3) = be_bytes(hu);
    let (c0, c1, c2, c3) = be_bytes(cu);
    let (s0, s1, s2, s3) = be_bytes(su);
    let (d0, d1, d2, d3) = be_bytes(hi);
    let (d4, d5, d6, d7) = be_bytes(lo);
    let mut out: Vec<u8> = Vec::new();
    out.push(w0);
    out.push(w1);
    out.push(w2);
    out.push(w3);
    out.push(h0);
    out.push(h1);
    out.push(h2);
    out.push(h3);
    out.push(c0);
    out.push(c1);
    out.push(c2);
    out.push(c3);
    out.push(s0);
    out.push(s1);
    out.push(s2);
    out.push(s3);
    out.push(d0);
    out.push(d1);
    out.push(d2);
    out.push(d3);
    out.push(d4);
    out.push(d5);
    out.push(d6);
    out.push(d7);
    let ghost header = out@;
    proof {
        assert(header =~= seq![
            w0, w1, w2, w3, h0, h1, h2, h3, c0, c1, c2, c3, s0, s1, s2, s3, d0, d1, d2, d3, d4,
            d5, d6, d7,
        ]);
    }
    let mut i: usize = 0;
    while i < img.data.len()
        invariant
            0 <= i <= img.data@.len(),
            header.len() == 24,
            out@ =~= header + img.data@.take(i as int),
        decreases img.data@.len() - i,
    {
        out.push(img.data[i]);
        i = i + 1;
    }
    proof {
        assert(out@ =~= header + img.data@);
        assert(out@.subrange(24, out@.len() as int) =~= img.data@);
        assert(out@[0] == w0 && out@[1] == w1 && out@[2] == w2 && out@[3] == w3);
        assert(out@[4] == h0 && out@[5] == h1 && out@[6] == h2 && out@[7] == h3);
        assert(out@[8] == c0 && out@[9] == c1 && out@[10] == c2 && out@[11] == c3);
        assert(out@[12] == s0 && out@[13] == s1 && out@[14] == s2 && out@[15] == s3);
        assert(out@[16] == d0 && out@[17] == d1 && out@[18] == d2 && out@[19] == d3);
        assert(out@[20] == d4 && out@[21] == d5 && out@[22] == d6 && out@[23] == d7);
        assert(frame_data_len(out@) == be32_val(d0, d1, d2, d3) * 0x1_0000_0000 + be32_val(
            d4,
            d5,
            d6,
            d7,
        ));
        assert(as_i32_val(wu as int) == img.width);
        assert(as_i32_val(hu as int) == img.height);
        assert(as_i32_val(cu as int) == img.channels);
        assert(as_i32_val(su as int) == img.rowstride);
    }
    out
}

/// The byte a repacked pixel channel carries: the source byte for the
/// colour channels (and for alpha when the source has a fourth channel),
/// opaque alpha otherwise.
pub open spec fn repacked_byte(
    data: Seq<u8>,
    channels: int,
    rowstride: int,
    x: int,
    y: int,
    c: int,
) -> u8 {
    if c < 3 || channels >= 4 {
        data[y * rowstride + x * channels + c]
    } else {
        255u8
    }
}

/// A strided source index stays inside the payload the header promises.
proof fn lemma_repack_index(x: int, y: int, c: int, w: int, h: int, ch: int, stride: int)
    by (nonlinear_arith)
    requires
        0 <= x < w,
        0 <= y < h,
        0 <= c < ch,
        w * ch <= stride,
    ensures
        0 <= y * stride + x * ch + c,
        y * stride + x * ch + c < stride * h,
{
}

/// `|a * b| <= ma * mb` when `0 <= a <= ma` and `0 <= b <= mb`.
proof fn lemma_mul_within(a: int, b: int, ma: int, mb: int)
    by (nonlinear_arith)
    requires
        0 <= a <= ma,
        0 <= b <= mb,
    ensures
        0 <= a * b <= ma * mb,
        a >= 1 && b >= 1 ==> a * b >= 1,
{
}

/// Decoding a row-major RGBA byte index back into pixel coordinates.
proof fn lemma_rgba_decode(x: int, y: int, w: int, c: int)
    by (nonlinear_arith)
    requires
        0 <= x < w,
        0 <= y,
        0 <= c < 4,
    ensures
        (4 * (y * w + x) + c) / 4 == y * w + x,
        (4 * (y * w + x) + c) % 4 == c,
        (y * w + x) % w == x,
        (y * w + x) / w == y,
{
}

/// Repack a relayed raw image — its stride and channel count trusted as
/// given — into the tightly packed RGBA raster the core composites over.
/// `None` exactly when the dimensions are outside the raster model or the
/// payload is shorter than the header promises.
pub fn repack_raw(raw: &RawImage) -> (r: Option<Image>)
    ensures
        r is Some <==> 1 <= raw.width <= 0x7fff && 1 <= raw.height <= 0x7fff && 3 <= raw.channels
            && raw.width * raw.channels <= raw.rowstride && raw.rowstride * raw.height
            <= raw.data@.len(),
        r is Some ==> ({
            let img = r->0;
            img.wf() && img.width == raw.width && img.height == raw.height && forall|i: int|
                0 <= i < img.data@.len() ==> #[trigger] img.data@[i] == repacked_byte(
                    raw.data@,
                    raw.channels as int,
                    raw.rowstride as int,
                    (i / 4) % (raw.width as int),
                    (i / 4) / (raw.width as int),
                    i % 4,
                )
        }),
{
    if raw.width < 1 || raw.width > 0x7fff || raw.height < 1 || raw.height > 0x7fff
        || raw.channels < 3 {
        return None;
    }
    proof {
        lemma_mul_within(raw.width as int, raw.channels as int, 0x7fff, 0x7fff_ffff);
    }
    if (raw.width as i64) * (raw.channels as i64) > (raw.rowstride as i64) {
        return None;
    }
    proof {
        lemma_mul_within(raw.rowstride as int, raw.height as int, 0x7fff_ffff, 0x7fff);
    }
    if (raw.rowstride as u64) * (raw.height as u64) > (raw.data.len() as u64) {
        return None;
    }
    let w: usize = raw.width as usize;
    let h: usize = raw.height as usize;
    let ch: usize = raw.channels as usize;
    let stride: usize = raw.rowstride as usize;
    let dlen: usize = raw.data.len();
    let has_alpha = raw.channels >= 4;
    let mut out: Vec<u8> = Vec::new();
    let mut y: usize = 0;
    while y < h
        invariant
            w == raw.width,
            h == raw.height,
            ch == raw.channels,
            stride == raw.rowstride,
            has_alpha == (raw.channels >= 4),
            1 <= w <= 0x7fff,
            1 <= h <= 0x7fff,
            3 <= ch,
            w * ch <= stride,
            dlen == raw.data@.len(),
            stride * h <= dlen,
            0 <= y <= h,
            out@.len() == 4 * (y * w),
            forall|i: int|
                0 <= i < out@.len() ==> #[trigger] out@[i] == repacked_byte(
                    raw.data@,
                    ch as int,
                    stride as int,
                    (i / 4) % (w as int),
                    (i / 4) / (w as int),
                    i % 4,
                ),
        decreases h - y,
    {
        let mut x: usize = 0;
        while x < w
            invariant
                w == raw.width,
                h == raw.height,
                ch == raw.channels,
                stride == raw.rowstride,
                has_alpha == (raw.channels >= 4),
                1 <= w <= 0x7fff,
                1 <= h <= 0x7fff,
                3 <= ch,
                w * ch <= stride,
                dlen == raw.data@.len(),
                stride * h <= dlen,
                0 <= y < h,
                0 <= x <= w,
                out@.len() == 4 * (y * w + x),
                forall|i: int|
                    0 <= i < out@.len() ==> #[trigger] out@[i] == repacked_byte(
                        raw.data@,
                        ch as int,
                        stride as int,
                        (i / 4) % (w as int),
                        (i / 4) / (w as int),
                        i % 4,
                    ),
            decreases w - x,
        {
            proof {
                lemma_mul_within(x as int, ch as int, 0x7fff, 0x7fff_ffff);
                lemma_mul_within(y as int, stride as int, 0x7fff, 0x7fff_ffff);
                lemma_repack_index(x as int, y as int, 0, w as int, h as int, ch as int,
                    stride as int);
                lemma_repack_index(x as int, y as int, 2, w as int, h as int, ch as int,
                    stride as int);
                if has_alpha {
                    lemma_repack_index(x as int, y as int, 3, w as int, h as int, ch as int,
                        stride as int);
                }
                lemma_rgba_decode(x as int, y as int, w as int, 0);
                lemma_rgba_decode(x as int, y as int, w as int, 1);
                lemma_rgba_decode(x as int, y as int, w as int, 2);
                lemma_rgba_decode(x as int, y as int, w as int, 3);
            }
            let base: usize = y * stride + x * ch;
            out.push(raw.data[base]);
            out.push(raw.data[base + 1]);
            out.push(raw.data[base + 2]);
            if has_alpha {
                out.push(raw.data[base + 3]);
            } else {
                out.push(255);
            }
            x = x + 1;
        }
        proof {
            assert(((y as int) + 1) * (w as int) == (y as int) * (w as int) + (w as int))
                by (nonlinear_arith);
        }
        y = y + 1;
    }
    proof {
        lemma_mul_fits(w as int, h as int);
        assert((h as int) * (w as int) * 4 == (w as int) * (h as int) * 4) by (nonlinear_arith);
    }
    Some(Image { width: raw.width as u32, height: raw.height as u32, data: out })
}

/// Two raster dimensions multiply without overflow.
proof fn lemma_mul_fits(w: int, h: int)
    by (nonlinear_arith)
    requires
        0 <= w <= 0x7fff,
        0 <= h <= 0x7fff,
    ensures
        0 <= w * h <= 0x7fff * 0x7fff,
{
}

} // verus!
