//! A small ESC/POS encoder for building sample receipts: each method appends
//! the bytes of one command, the way `@point-of-sale/receipt-printer-encoder`
//! writes them, so a receipt can be sent to the virtual printer over USB.

use vstd::prelude::*;
use crate::model::{lemma_or_bit, strip_bit};
use vstd::string::StringSliceAdditionalSpecFns;

verus! {

/// The bytes of a receipt under construction.
pub struct Receipt(pub Vec<u8>);

impl View for Receipt {
    type V = Seq<u8>;

    open spec fn view(&self) -> Seq<u8> {
        self.0@
    }
}

/// Append `bytes` to `v`.
fn append(v: &mut Vec<u8>, bytes: &[u8])
    ensures
        final(v)@ == old(v)@ + bytes@,
{
    let mut i: usize = 0;
    while i < bytes.len()
        invariant
            i <= bytes@.len(),
            v@ == old(v)@ + bytes@.take(i as int),
        decreases bytes@.len() - i,
    {
        v.push(bytes[i]);
        i += 1;
        proof {
            assert(v@ =~= old(v)@ + bytes@.take(i as int));
        }
    }
    assert(bytes@.take(i as int) =~= bytes@);
}

impl Receipt {
    /// A receipt that starts with `ESC @` (initialize).
    pub fn new() -> (r: Self)
        ensures
            r@ == seq![0x1bu8, 0x40],
    {
        let mut r = Self(Vec::new());
        r.raw(&[0x1b, 0x40]);
        r
    }

    /// Append raw bytes.
    pub fn raw(&mut self, bytes: &[u8]) -> (r: &mut Self)
        ensures
            r@ == old(self)@ + bytes@,
            *final(self) == *final(r),
    {
        append(&mut self.0, bytes);
        self
    }

    /// `ESC a n`: alignment.
    pub fn align(&mut self, n: u8) -> (r: &mut Self)
        ensures
            r@ == old(self)@ + seq![0x1bu8, 0x61, n],
            *final(self) == *final(r),
    {
        self.raw(&[0x1b, 0x61, n])
    }

    /// `ESC E n`: bold on or off.
    pub fn bold(&mut self, on: bool) -> (r: &mut Self)
        ensures
            r@ == old(self)@ + seq![0x1bu8, 0x45, flag(on)],
            *final(self) == *final(r),
    {
        self.raw(&[0x1b, 0x45, if on { 1 } else { 0 }])
    }

    /// `ESC 4 n`: italic on or off.
    pub fn italic(&mut self, on: bool) -> (r: &mut Self)
        ensures
            r@ == old(self)@ + seq![0x1bu8, 0x34, flag(on)],
            *final(self) == *final(r),
    {
        self.raw(&[0x1b, 0x34, if on { 1 } else { 0 }])
    }

    /// `ESC - n`: underline on or off.
    pub fn underline(&mut self, on: bool) -> (r: &mut Self)
        ensures
            r@ == old(self)@ + seq![0x1bu8, 0x2d, flag(on)],
            *final(self) == *final(r),
    {
        self.raw(&[0x1b, 0x2d, if on { 1 } else { 0 }])
    }

    /// `GS B n`: inverted printing on or off.
    pub fn invert(&mut self, on: bool) -> (r: &mut Self)
        ensures
            r@ == old(self)@ + seq![0x1du8, 0x42, flag(on)],
            *final(self) == *final(r),
    {
        self.raw(&[0x1d, 0x42, if on { 1 } else { 0 }])
    }

    /// `GS ! n`: character size; width and height from 1 to 8.
    pub fn size(&mut self, width: u8, height: u8) -> (r: &mut Self)
        requires
            width >= 1,
            height >= 1,
        ensures
            r@ == old(self)@ + seq![0x1du8, 0x21, size_byte(width, height)],
            *final(self) == *final(r),
    {
        self.raw(&[0x1d, 0x21, ((width - 1) << 4) | (height - 1)])
    }

    /// Bytes to be printed through the code page as they are.
    pub fn cp437(&mut self, bytes: &[u8]) -> (r: &mut Self)
        ensures
            r@ == old(self)@ + bytes@,
            *final(self) == *final(r),
    {
        self.raw(bytes)
    }

    /// The UTF-8 bytes of a string.
    pub fn text(&mut self, s: &str) -> (r: &mut Self)
        ensures
            r@ == old(self)@ + s.spec_bytes(),
            *final(self) == *final(r),
    {
        self.raw(s.as_bytes())
    }

    /// A string and a line feed.
    pub fn line(&mut self, s: &str) -> (r: &mut Self)
        ensures
            r@ == old(self)@ + s.spec_bytes() + seq![0x0au8],
            *final(self) == *final(r),
    {
        self.text(s).raw(&[0x0a])
    }

    /// `GS V 0`: cut.
    pub fn cut(&mut self) -> (r: &mut Self)
        ensures
            r@ == old(self)@ + seq![0x1du8, 0x56, 0x00],
            *final(self) == *final(r),
    {
        self.raw(&[0x1d, 0x56, 0x00])
    }

    /// `ESC p 0 50 250`: cash drawer pulse.
    pub fn pulse(&mut self) -> (r: &mut Self)
        ensures
            r@ == old(self)@ + seq![0x1bu8, 0x70, 0x00, 50, 250],
            *final(self) == *final(r),
    {
        self.raw(&[0x1b, 0x70, 0x00, 50, 250])
    }

    /// `GS v 0` raster image. `rows` is a slice of packed 1bpp rows (MSB
    /// first); the width must be a multiple of 8.
    pub fn image(&mut self, width: u32, height: u32, rows: &[u8]) -> (r: &mut Self)
        ensures
            r@ == old(self)@ + seq![0x1du8, 0x76, 0x30, 0x00] + le16((width / 8) as nat) + le16(
                height as nat,
            ) + rows@,
            *final(self) == *final(r),
    {
        let width_bytes = width / 8;
        self.raw(&[0x1d, 0x76, 0x30, 0x00]);
        self.raw(&[(width_bytes % 256) as u8, ((width_bytes / 256) % 256) as u8]);
        self.raw(&[(height % 256) as u8, ((height / 256) % 256) as u8]);
        self.raw(rows)
    }

    /// A QR code: model 2, size 6, error correction M, then the data and the
    /// print command.
    pub fn qrcode(&mut self, data: &str) -> (r: &mut Self)
        requires
            data.spec_bytes().len() + 3 <= usize::MAX,
        ensures
            r@ == old(self)@ + qrcode_bytes(data.spec_bytes()),
            *final(self) == *final(r),
    {
        let bytes = data.as_bytes();
        let len = bytes.len() + 3;
        self.raw(&[0x1d, 0x28, 0x6b, 0x04, 0x00, 0x31, 0x41, 0x32, 0x00]);  // model 2
        self.raw(&[0x1d, 0x28, 0x6b, 0x03, 0x00, 0x31, 0x43, 0x06]);  // size 6
        self.raw(&[0x1d, 0x28, 0x6b, 0x03, 0x00, 0x31, 0x45, 0x31]);  // error level M
        self.raw(&[0x1d, 0x28, 0x6b]);
        self.raw(&[(len % 256) as u8, ((len / 256) % 256) as u8]);
        self.raw(&[0x31, 0x50, 0x30]);
        self.raw(bytes);
        self.raw(&[0x1d, 0x28, 0x6b, 0x03, 0x00, 0x31, 0x51, 0x30])  // print
    }

    /// A function B barcode (identifier above 0x40): CODE128, 60 dots high,
    /// module width 2, text printed below.
    pub fn barcode_code128(&mut self, data: &str) -> (r: &mut Self)
        ensures
            r@ == old(self)@ + barcode_code128_bytes(data.spec_bytes()),
            *final(self) == *final(r),
    {
        let bytes = data.as_bytes();
        self.raw(&[0x1d, 0x68, 60]);  // height
        self.raw(&[0x1d, 0x77, 2]);  // width
        self.raw(&[0x1d, 0x48, 0x02]);  // print text below
        self.raw(&[0x1d, 0x6b, 0x49, (bytes.len() % 256) as u8]);
        self.raw(bytes)
    }
}

/// The parameter byte of an on/off command.
pub open spec fn flag(on: bool) -> u8 {
    if on { 1 } else { 0 }
}

/// The parameter byte of `GS !` for a character size.
pub open spec fn size_byte(width: u8, height: u8) -> u8 {
    (((width - 1) as u8) << 4u8) | ((height - 1) as u8)
}

/// A number as the two bytes of a 16-bit little-endian field (truncated).
pub open spec fn le16(v: nat) -> Seq<u8> {
    seq![(v % 256) as u8, ((v / 256) % 256) as u8]
}

/// The commands of a QR code holding `data`: setup, store, print.
pub open spec fn qrcode_bytes(data: Seq<u8>) -> Seq<u8> {
    qr_setup() + seq![0x1du8, 0x28, 0x6b] + le16((data.len() + 3) as nat) + seq![0x31u8, 0x50, 0x30]
        + data + seq![0x1du8, 0x28, 0x6b, 0x03, 0x00, 0x31, 0x51, 0x30]
}

/// The commands of a CODE128 barcode holding `data`: height, module width,
/// text position, then the barcode with its length byte.
pub open spec fn barcode_code128_bytes(data: Seq<u8>) -> Seq<u8> {
    barcode_setup() + seq![
        0x1du8,
        0x6b,
        0x49,
        (data.len() % 256) as u8,
    ] + data
}

/// The barcode setup commands: height 60 dots, module width 2, text below.
pub open spec fn barcode_setup() -> Seq<u8> {
    seq![0x1du8, 0x68, 60, 0x1d, 0x77, 2, 0x1d, 0x48, 0x02]
}

/// The QR code setup commands: model 2, size 6, error correction level M.
pub open spec fn qr_setup() -> Seq<u8> {
    seq![0x1du8, 0x28, 0x6b, 0x04, 0x00, 0x31, 0x41, 0x32, 0x00]
        + seq![0x1du8, 0x28, 0x6b, 0x03, 0x00, 0x31, 0x43, 0x06]
        + seq![0x1du8, 0x28, 0x6b, 0x03, 0x00, 0x31, 0x45, 0x31]
}

/// Integer division by two, rounding toward zero.
pub open spec fn half(v: int) -> int {
    if v >= 0 { v / 2 } else { -((-v) / 2) }
}

/// The absolute value.
pub open spec fn abs(v: int) -> int {
    if v < 0 { -v } else { v }
}

pub open spec fn in_i32(v: int) -> bool {
    i32::MIN <= v <= i32::MAX
}

/// The distance measure of the test pattern for pixel (x, y) of a w-by-h
/// image, all four taken as `i32`: horizontal offset from the centre scaled
/// by the height, plus vertical offset scaled by the width.
pub open spec fn diamond_distance(w: int, h: int, x: int, y: int) -> int {
    abs(x - half(w)) * h + abs(y - half(h)) * w
}

/// The `i32` arithmetic of the test pattern stays in range for these values.
pub open spec fn diamond_in_range(w: u32, h: u32, x: u32, y: u32) -> bool {
    let (w, h, x, y) = ((w as i32) as int, (h as i32) as int, (x as i32) as int, (y as i32) as int);
    &&& in_i32(x - half(w)) && x - half(w) != i32::MIN
    &&& in_i32(y - half(h)) && y - half(h) != i32::MIN
    &&& in_i32(abs(x - half(w)) * h)
    &&& in_i32(abs(y - half(h)) * w)
    &&& in_i32(diamond_distance(w, h, x, y))
    &&& in_i32(w * h)
}

/// Pixel (x, y) of the test pattern, a diamond outline in a w-by-h image:
/// its distance lies strictly between a sixth and a third of w * h (the
/// divisions rounding toward zero).
pub open spec fn diamond(w: u32, h: u32, x: u32, y: u32) -> bool {
    let (w, h, x, y) = ((w as i32) as int, (h as i32) as int, (x as i32) as int, (y as i32) as int);
    let d = diamond_distance(w, h, x, y);
    let area = w * h;
    d < (if area >= 0 { area / 3 } else { -((-area) / 3) }) && d > (if area >= 0 {
        area / 6
    } else {
        -((-area) / 6)
    })
}

/// A small test pattern: a black diamond outline.
pub fn diamond_pixel(w: u32, h: u32, x: u32, y: u32) -> (on: bool)
    requires
        diamond_in_range(w, h, x, y),
    ensures
        on == diamond(w, h, x, y),
{
    let (cx, cy) = (w as i32 / 2, h as i32 / 2);
    let dx = x as i32 - cx;
    let dy = y as i32 - cy;
    let adx = if dx < 0 { -dx } else { dx };
    let ady = if dy < 0 { -dy } else { dy };
    let d = adx * h as i32 + ady * w as i32;
    d < (w as i32 * h as i32 / 3) && d > (w as i32 * h as i32 / 6)
}

/// Pixel (x, y) of a packed 1-bit-per-pixel image, `width_bytes` bytes per
/// row, most significant bit first.
pub open spec fn pixel_set(rows: Seq<u8>, width_bytes: nat, x: nat, y: nat) -> bool {
    rows[(y * width_bytes + x / 8) as int] & (0x80u8 >> ((x % 8) as u8)) != 0
}

/// The test pattern, packed as `GS v 0` expects: a 64 by 32 diamond outline,
/// 1 bit per pixel, most significant bit first, row after row.
pub fn test_image() -> (image: (u32, u32, Vec<u8>))
    ensures
        image.0 == 64,
        image.1 == 32,
        image.2@.len() == 256,
        forall|x: nat, y: nat|
            x < 64 && y < 32 ==> pixel_set(image.2@, 8, x, y) == diamond(64, 32, x as u32, y as u32),
{
    let (w, h) = (64u32, 32u32);
    let mut rows: Vec<u8> = Vec::new();
    let mut k: usize = 0;
    while k < 256
        invariant
            k <= 256,
            rows@ == Seq::new(k as nat, |i: int| 0u8),
        decreases 256 - k,
    {
        rows.push(0);
        k += 1;
        proof {
            assert(rows@ =~= Seq::new(k as nat, |i: int| 0u8));
        }
    }
    assert forall|x: nat, y: nat| x < 64 && y < 32 implies !pixel_set(rows@, 8, x, y) by {
        assert(0u8 & (0x80u8 >> ((x % 8) as u8)) == 0) by (bit_vector);
    }
    let mut y: u32 = 0;
    while y < h
        invariant
            w == 64 && h == 32,
            y <= 32,
            rows@.len() == 256,
            forall|x2: nat, y2: nat|
                x2 < 64 && y2 < 32 ==> #[trigger] pixel_set(rows@, 8, x2, y2) == (y2 < y && diamond(
                    64,
                    32,
                    x2 as u32,
                    y2 as u32,
                )),
        decreases 32 - y,
    {
        let mut x: u32 = 0;
        while x < w
            invariant
                w == 64 && h == 32,
                y < 32,
                x <= 64,
                rows@.len() == 256,
                forall|x2: nat, y2: nat|
                    x2 < 64 && y2 < 32 ==> #[trigger] pixel_set(rows@, 8, x2, y2) == ((y2 < y || (y2
                        == y && x2 < x)) && diamond(64, 32, x2 as u32, y2 as u32)),
            decreases 64 - x,
        {
            assert(diamond_in_range(w, h, x, y));
            if diamond_pixel(w, h, x, y) {
                assert(y * (w / 8) == y * 8 && y * 8 <= 248) by (nonlinear_arith)
                    requires
                        w == 64,
                        y < 32,
                ;
                let byte_index = (y * (w / 8) + (x / 8)) as usize;
                let ghost before = rows@;
                let v = rows[byte_index] | (0x80u8 >> ((x % 8) as u8));
                rows.set(byte_index, v);
                proof {
                    assert forall|x2: nat, y2: nat| x2 < 64 && y2 < 32 implies #[trigger] pixel_set(
                        rows@,
                        8,
                        x2,
                        y2,
                    ) == ((y2 < y || (y2 == y && x2 <= x)) && diamond(64, 32, x2 as u32, y2 as u32)) by {
                        let i = y2 * 8 + x2 / 8;
                        if i == byte_index {
                            lemma_or_bit(before[i as int], (x % 8) as u8, (x2 % 8) as u8);
                            assert(pixel_set(before, 8, x2, y2) == ((y2 < y || (y2 == y && x2 < x))
                                && diamond(64, 32, x2 as u32, y2 as u32)));
                        } else {
                            assert(pixel_set(before, 8, x2, y2) == ((y2 < y || (y2 == y && x2 < x))
                                && diamond(64, 32, x2 as u32, y2 as u32)));
                        }
                    }
                }
            }
            x += 1;
        }
        y += 1;
    }
    (w, h, rows)
}

/// The image row of pixel `t` of strip `s` of a column-mode image: each
/// column of a strip is 24 dots in 3 bytes, pixel `t` being bit `t % 8` (most
/// significant first) of byte `t / 8`.
pub open spec fn strip_pixel_row(s: nat, t: nat) -> nat {
    s * 24 + t % 8 + 8 * ((t / 8) % 3)
}

/// The 3 bytes per column of strip `s` hold, for each dot of the image, the
/// answer `get_pixel` gave for it; dots below the image stay clear.
pub open spec fn strip_data_ok<F: Fn(u32, u32) -> bool>(
    data: Seq<u8>,
    s: nat,
    width: nat,
    height: nat,
    get_pixel: F,
) -> bool {
    &&& data.len() == 3 * width
    &&& forall|t: nat|
        t < 24 * width ==> {
            let x = (t / 24) as u32;
            let y = strip_pixel_row(s, t);
            &&& #[trigger] strip_bit(data, t) ==> y < height && get_pixel.ensures((x, y as u32), true)
            &&& !strip_bit(data, t) && y < height ==> get_pixel.ensures((x, y as u32), false)
        }
}

/// One `ESC * 33 nL nH data LF` strip command.
pub open spec fn column_block(width: nat, data: Seq<u8>) -> Seq<u8> {
    seq![0x1bu8, 0x2a, 0x21] + le16(width) + data + seq![0x0au8]
}

/// The strip commands for the data of each strip, in order.
pub open spec fn column_blocks(width: nat, datas: Seq<Seq<u8>>) -> Seq<u8>
    decreases datas.len(),
{
    if datas.len() == 0 {
        Seq::empty()
    } else {
        column_blocks(width, datas.drop_last()) + column_block(width, datas.last())
    }
}

/// The number of 24-dot strips an image of this height takes.
pub open spec fn strip_count(height: nat) -> nat {
    (height + 23) / 24
}

/// The data bytes of strip `s` of a column-mode image.
fn encode_strip<F: Fn(u32, u32) -> bool>(width: u32, height: u32, s: u32, get_pixel: &F) -> (data:
    Vec<u8>)
    requires
        width * 3 <= u32::MAX,
        s * 24 + 23 <= u32::MAX,
        forall|x: u32, y: u32| x < width && y < height ==> get_pixel.requires((x, y)),
    ensures
        strip_data_ok(data@, s as nat, width as nat, height as nat, *get_pixel),
{
    let mut bytes: Vec<u8> = Vec::new();
    let n = (width * 3) as usize;
    let mut k: usize = 0;
    while k < n
        invariant
            k <= n,
            bytes@ == Seq::new(k as nat, |i: int| 0u8),
        decreases n - k,
    {
        bytes.push(0);
        k += 1;
        proof {
            assert(bytes@ =~= Seq::new(k as nat, |i: int| 0u8));
        }
    }
    assert forall|t: nat| t < 24 * width implies !strip_bit(bytes@, t) by {
        let m = (t % 8) as u8;
        assert(m < 8 ==> 0u8 & (0x80u8 >> m) == 0) by (bit_vector);
    }
    let end: u64 = width as u64 * 24;
    let mut t: u64 = 0;
    while t < end
        invariant
            t <= end,
            end == width * 24,
            width * 3 <= u32::MAX,
            bytes@.len() == 3 * width,
            s * 24 + 23 <= u32::MAX,
            forall|x: u32, y: u32| x < width && y < height ==> get_pixel.requires((x, y)),
            forall|t2: nat|
                t2 < 24 * width ==> {
                    let x = (t2 / 24) as u32;
                    let y = strip_pixel_row(s as nat, t2);
                    &&& #[trigger] strip_bit(bytes@, t2) ==> t2 < t && y < height
                        && get_pixel.ensures((x, y as u32), true)
                    &&& t2 < t && !strip_bit(bytes@, t2) && y < height ==> get_pixel.ensures(
                        (x, y as u32),
                        false,
                    )
                },
        decreases end - t,
    {
        assert(t / 8 < width * 3 && t / 24 < width) by (nonlinear_arith)
            requires
                t < width * 24,
        ;
        let x = (t / 24) as u32;
        let c = ((t / 8) % 3) as u32;
        let b = (t % 8) as u32;
        let y = s * 24 + b + 8 * c;
        assert(y == strip_pixel_row(s as nat, t as nat));
        let pixel = if y < height { get_pixel(x, y) } else { false };
        proof {
            if y < height {
                assert(get_pixel.ensures((x, y), pixel));
            }
        }
        let ghost bits_before = bytes@;
        if pixel {
            let index = (t / 8) as usize;
            let ghost before = bytes@;
            let v = bytes[index] | (0x80u8 >> (b as u8));
            bytes.set(index, v);
            proof {
                assert forall|t2: nat| t2 < 24 * width implies strip_bit(bytes@, t2) == (strip_bit(
                    before,
                    t2,
                ) || t2 == t) by {
                    if t2 / 8 == t / 8 {
                        lemma_or_bit(before[index as int], b as u8, (t2 % 8) as u8);
                        assert(t2 == 8 * (t2 / 8) + t2 % 8);
                        assert(t == 8 * (t / 8) + t % 8);
                        assert(((t2 % 8) as u8 == b as u8) == (t2 == t));
                    } else {
                        assert(bytes@[(t2 / 8) as int] == before[(t2 / 8) as int]);
                    }
                }
            }
        }
        proof {
            assert((t as nat) < 24 * width);
            assert(strip_bit(bits_before, t as nat) ==> (t as nat) < t);
            if !pixel {
                assert(bytes@ == bits_before);
                assert(!strip_bit(bytes@, t as nat));
            } else {
                assert(strip_bit(bytes@, t as nat));
            }
            assert forall|t2: nat| t2 < 24 * width implies {
                let x2 = (t2 / 24) as u32;
                let y2 = strip_pixel_row(s as nat, t2);
                &&& #[trigger] strip_bit(bytes@, t2) ==> t2 < t + 1 && y2 < height
                    && get_pixel.ensures((x2, y2 as u32), true)
                &&& t2 < t + 1 && !strip_bit(bytes@, t2) && y2 < height ==> get_pixel.ensures(
                    (x2, y2 as u32),
                    false,
                )
            } by {
                if t2 != t {
                    assert(strip_bit(bytes@, t2) == strip_bit(bits_before, t2));
                    assert(strip_bit(bits_before, t2) ==> t2 < t);
                } else {
                    assert((t2 / 24) as u32 == x);
                    assert(strip_pixel_row(s as nat, t2) as u32 == y);
                }
            }
        }
        t += 1;
    }
    bytes
}

impl Receipt {
    /// `ESC *` column-mode image, the image mode the receipt printer encoder
    /// falls back to for printer models it does not recognize: 24-dot line
    /// spacing, then one 24-dot strip per command, then line spacing reset.
    /// `get_pixel(x, y)` is asked for every dot of the `width` by `height`
    /// image.
    pub fn column_image<F: Fn(u32, u32) -> bool>(
        &mut self,
        width: u32,
        height: u32,
        get_pixel: F,
    ) -> (r: &mut Self)
        requires
            width * 3 <= u32::MAX,
            strip_count(height as nat) * 24 <= u32::MAX + 1,
            forall|x: u32, y: u32| x < width && y < height ==> get_pixel.requires((x, y)),
        ensures
            exists|datas: Seq<Seq<u8>>|
                {
                    &&& datas.len() == strip_count(height as nat)
                    &&& forall|s: int|
                        0 <= s < datas.len() ==> strip_data_ok(
                            #[trigger] datas[s],
                            s as nat,
                            width as nat,
                            height as nat,
                            get_pixel,
                        )
                    &&& r@ == old(self)@ + seq![0x1bu8, 0x33, 0x24] + column_blocks(width as nat, datas)
                        + seq![0x1bu8, 0x32]
                },
            *final(self) == *final(r),
    {
        self.raw(&[0x1b, 0x33, 0x24]);  // 24-dot line spacing
        let strips = height / 24 + if height % 24 != 0 { 1 } else { 0 };
        let ghost start = self@;
        let ghost mut datas: Seq<Seq<u8>> = Seq::empty();
        let mut s: u32 = 0;
        while s < strips
            invariant
                s <= strips,
                strips == strip_count(height as nat),
                strips * 24 <= u32::MAX + 1,
                width * 3 <= u32::MAX,
                forall|x: u32, y: u32| x < width && y < height ==> get_pixel.requires((x, y)),
                start == old(self)@ + seq![0x1bu8, 0x33, 0x24],
                datas.len() == s,
                forall|s2: int|
                    0 <= s2 < datas.len() ==> strip_data_ok(
                        #[trigger] datas[s2],
                        s2 as nat,
                        width as nat,
                        height as nat,
                        get_pixel,
                    ),
                self@ == start + column_blocks(width as nat, datas),
            decreases strips - s,
        {
            let bytes = encode_strip(width, height, s, &get_pixel);
            self.raw(&[0x1b, 0x2a, 0x21]);
            self.raw(&[(width % 256) as u8, ((width / 256) % 256) as u8]);
            self.raw(bytes.as_slice());
            self.raw(&[0x0a]);
            proof {
                let old_datas = datas;
                datas = datas.push(bytes@);
                assert(datas.drop_last() =~= old_datas);
                assert(self@ =~= start + column_blocks(width as nat, datas));
            }
            s += 1;
        }
        self.raw(&[0x1b, 0x32])  // reset line spacing
    }
}

} // verus!
