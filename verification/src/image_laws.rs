//! What the parser makes of a column-mode image as the receipt encoder
//! writes it: strip by strip, the dots land where the encoder took them from.

use crate::event::EventModel;
use crate::external::{base64_len, base64_standard};
use crate::laws::{lemma_run_command, lemma_run_single, lemma_skip_step};
use crate::model::{
    add_strip, after_feed, bytes_per_column, column_strip_step, extend_image, feed_result,
    flush_column_image, image_bit, law_column_strip_is_row_major, run, skip, step, strip_bit,
    strip_column, strip_hits, strip_row, strip_target, ColumnImageState, ParserState, ParserView,
    RunResult,
};
use crate::receipt::{
    column_block, column_blocks, pixel_set, strip_count, strip_data_ok, strip_pixel_row,
};
use vstd::arithmetic::div_mod::lemma_fundamental_div_mod_converse;
use vstd::prelude::*;

verus! {

/// Dot `(x, y)` of a column-mode image sent as the strips `datas`: strip
/// `y / 24` holds it in column `x`, byte `(y % 24) / 8`, bit `y % 8` (most
/// significant first).
pub open spec fn column_pixel(datas: Seq<Seq<u8>>, x: nat, y: nat) -> bool {
    strip_bit(datas[(y / 24) as int], x * 24 + ((y % 24) / 8) * 8 + y % 8)
}

/// A dot number within a strip splits into its column, its byte within the
/// column and its bit within the byte.
proof fn lemma_dot_split(t: int)
    requires
        t >= 0,
    ensures
        t == 24 * ((t / 8) / 3) + 8 * ((t / 8) % 3) + t % 8,
        0 <= (t / 8) % 3 < 3,
        0 <= t % 8 < 8,
{
}

/// The dot number built from a column, a byte and a bit gives them back.
proof fn lemma_dot_build(x: int, c: int, b: int)
    requires
        x >= 0,
        0 <= c < 3,
        0 <= b < 8,
    ensures
        ({
            let t = x * 24 + c * 8 + b;
            &&& t / 8 == 3 * x + c
            &&& t % 8 == b
            &&& (t / 8) / 3 == x
            &&& (t / 8) % 3 == c
        }),
{
}

/// A row of strip `s` splits into the strip's first row, its byte and its
/// bit.
proof fn lemma_row_split(y: int, s: int)
    requires
        s >= 0,
        s * 24 <= y < s * 24 + 24,
    ensures
        y / 24 == s,
        y % 24 == y - s * 24,
        ((y % 24) / 8) * 8 + y % 8 == y % 24,
        0 <= (y % 24) / 8 < 3,
        y % 8 == (y % 24) % 8,
{
    lemma_fundamental_div_mod_converse(y, 24, s, y - s * 24);
}

/// Byte `k` of an image `wb` bytes wide lies in row `k / wb`, and a byte of
/// strip `s` in a row of that strip.
proof fn lemma_byte_row(k: int, wb: int, s: int)
    requires
        wb > 0,
        s >= 0,
        s * 24 * wb <= k < (s + 1) * 24 * wb,
    ensures
        k == (k / wb) * wb + k % wb,
        0 <= k % wb < wb,
        s * 24 <= k / wb < s * 24 + 24,
{
    vstd::arithmetic::div_mod::lemma_fundamental_div_mod(k, wb);
    vstd::arithmetic::div_mod::lemma_mod_pos_bound(k, wb);
    let y = k / wb;
    let q = k % wb;
    assert(k == y * wb + q) by (nonlinear_arith)
        requires
            k == wb * y + q,
    ;
    assert(s * 24 <= y < s * 24 + 24) by (nonlinear_arith)
        requires
            k == wb * y + q,
            0 <= q < wb,
            s * 24 * wb <= k < (s + 1) * 24 * wb,
    ;
}

/// A dot of strip `s` that lands on byte `k`, bit `j` of the image is the dot
/// that the column-mode layout assigns to that bit.
proof fn lemma_strip_lands_forward(width: nat, wb: nat, s: nat, k: int, j: nat, t: nat)
    requires
        wb == (width + 7) / 8,
        width >= 1,
        s * 24 * wb <= k < (s + 1) * 24 * wb,
        t < 24 * width,
        strip_target(s * 24, wb, 3, t) == k,
        strip_column(3, t) % 8 == j,
    ensures
        ({
            let x = (k % (wb as int)) * 8 + j;
            let y = k / (wb as int);
            &&& x < width
            &&& x * 24 + ((y % 24) / 8) * 8 + y % 8 == t
        }),
{
    lemma_dot_split(t as int);
    let col = strip_column(3, t);
    let row = strip_row(s * 24, 3, t);
    assert(col < width);
    assert(col / 8 < wb);
    assert(k == row * wb + col / 8);
    lemma_fundamental_div_mod_converse(k, wb as int, row as int, (col / 8) as int);
    lemma_row_split(row as int, s as int);
}

/// The dot that the column-mode layout assigns to byte `k`, bit `j` of the
/// image lands there.
proof fn lemma_strip_lands_backward(width: nat, wb: nat, s: nat, k: int, j: nat)
    requires
        wb == (width + 7) / 8,
        width >= 1,
        s * 24 * wb <= k < (s + 1) * 24 * wb,
        j < 8,
        (k % (wb as int)) * 8 + j < width,
    ensures
        ({
            let x = (k % (wb as int)) * 8 + j;
            let y = k / (wb as int);
            let t = (x * 24 + ((y % 24) / 8) * 8 + y % 8) as nat;
            &&& t < 24 * width
            &&& strip_target(s * 24, wb, 3, t) == k
            &&& strip_column(3, t) % 8 == j
        }),
{
    lemma_byte_row(k, wb as int, s as int);
    let q = k % (wb as int);
    let y = k / (wb as int);
    let x = q * 8 + j;
    lemma_row_split(y, s as int);
    lemma_dot_build(x, (y % 24) / 8, y % 8);
    let t = (x * 24 + ((y % 24) / 8) * 8 + y % 8) as nat;
    assert(strip_column(3, t) == x);
    assert(strip_row(s * 24, 3, t) == y);
    assert(x / 8 == q);
    assert(t < 24 * width);
}

/// Where strip `s` of an image `width` dots wide lands, byte `k` of the
/// row-major image, bit `j`, takes the dot of the strip it comes from, and
/// the padding bits past the width stay clear.
proof fn lemma_strip_lands(strip: Seq<u8>, width: nat, wb: nat, s: nat, k: int, j: nat)
    requires
        wb == (width + 7) / 8,
        width >= 1,
        strip.len() == 3 * width,
        s * 24 * wb <= k < (s + 1) * 24 * wb,
        j < 8,
    ensures
        strip_hits(strip, 3, wb, s * 24, strip.len() * 8, k, j) == ({
            let x = (k % (wb as int)) * 8 + j;
            let y = k / (wb as int);
            x < width && strip_bit(strip, (x * 24 + ((y % 24) / 8) * 8 + y % 8) as nat)
        }),
{
    let x = (k % (wb as int)) * 8 + j;
    let y = k / (wb as int);
    let n = strip.len() * 8;
    if strip_hits(strip, 3, wb, s * 24, n, k, j) {
        let t = choose|t: nat|
            t < n && #[trigger] strip_bit(strip, t) && strip_target(s * 24, wb, 3, t) == k
                && strip_column(3, t) % 8 == j;
        lemma_strip_lands_forward(width, wb, s, k, j, t);
    }
    if x < width && strip_bit(strip, (x * 24 + ((y % 24) / 8) * 8 + y % 8) as nat) {
        lemma_strip_lands_backward(width, wb, s, k, j);
    }
}

/// The column image after the strips `datas`, each `width` dots wide with 3
/// bytes per column, were sent one after the other.
pub open spec fn strips_image(width: nat, datas: Seq<Seq<u8>>) -> Option<ColumnImageState>
    decreases datas.len(),
{
    if datas.len() == 0 {
        None
    } else {
        add_strip(strips_image(width, datas.drop_last()), width, 3, datas.last())
    }
}

/// A strip can be added to an image of `m` strips that stays within `u32`
/// indices.
proof fn lemma_strip_fits(img: ColumnImageState, width: nat, m: nat, strip: Seq<u8>)
    requires
        img.width_bytes as nat == (width + 7) / 8,
        width >= 1,
        strip.len() == 3 * width,
        img.rows.len() == (width + 7) / 8 * 24 * m,
        (width + 7) / 8 * 24 * (m + 1) <= u32::MAX,
    ensures
        extend_image(img, img.width_bytes, 3, strip) is Some,
        img.rows.len() / (img.width_bytes as nat) == m * 24,
        img.rows.len() % (img.width_bytes as nat) == 0,
{
    let wb = img.width_bytes as nat;
    assert(img.rows.len() == (m * 24) * wb) by (nonlinear_arith)
        requires
            img.rows.len() == wb * 24 * m,
    ;
    lemma_fundamental_div_mod_converse(img.rows.len() as int, wb as int, (m * 24) as int, 0);
    let grow = wb * (3 * 8);
    assert((m + 1) * 24 * wb == img.rows.len() + grow && grow <= (m + 1) * 24 * wb)
        by (nonlinear_arith)
        requires
            img.rows.len() == (m * 24) * wb,
            grow == wb * (3 * 8),
    ;
    assert((m + 1) * 24 * wb == wb * 24 * (m + 1)) by (nonlinear_arith);
}

/// Bit `j` of byte `k` of the row-major image that a column-mode image `width`
/// dots wide, sent as the strips `datas`, should give: its dot, or a clear
/// padding bit past the width.
pub open spec fn column_bit(width: nat, datas: Seq<Seq<u8>>, k: int, j: nat) -> bool {
    let wb = (width + 7) / 8;
    let x = (k % (wb as int)) * 8 + j;
    let y = k / (wb as int);
    x < width && column_pixel(datas, x as nat, y as nat)
}

/// The rows hold the strips `datas` in row-major order, every bit as
/// `column_bit` says.
pub open spec fn rows_hold(rows: Seq<u8>, width: nat, datas: Seq<Seq<u8>>) -> bool {
    &&& rows.len() == (width + 7) / 8 * 24 * datas.len()
    &&& forall|k: int, j: nat|
        0 <= k < rows.len() && j < 8 ==> #[trigger] image_bit(rows, k, j) == column_bit(
            width,
            datas,
            k,
            j,
        )
}

/// A byte before the rows of strip `m` lies in an earlier strip.
proof fn lemma_byte_before(k: int, wb: int, m: int)
    requires
        wb > 0,
        0 <= k < wb * 24 * m,
    ensures
        (k / wb) / 24 < m,
        k / wb >= 0,
{
    vstd::arithmetic::div_mod::lemma_fundamental_div_mod(k, wb);
    vstd::arithmetic::div_mod::lemma_mod_pos_bound(k, wb);
    let y = k / wb;
    assert(0 <= y < 24 * m) by (nonlinear_arith)
        requires
            k == wb * y + k % wb,
            0 <= k % wb,
            0 <= k < wb * 24 * m,
            wb > 0,
    ;
}

/// Strip by strip, the rows of a column-mode image take every dot where
/// the strips put it.
proof fn lemma_strips_image(width: nat, datas: Seq<Seq<u8>>)
    requires
        width >= 1,
        datas.len() > 0,
        forall|s: int| 0 <= s < datas.len() ==> (#[trigger] datas[s]).len() == 3 * width,
        (width + 7) / 8 * 24 * datas.len() <= u32::MAX,
    ensures
        strips_image(width, datas) is Some,
        strips_image(width, datas)->0.width_bytes as nat == (width + 7) / 8,
        rows_hold(strips_image(width, datas)->0.rows, width, datas),
    decreases datas.len(),
{
    let wb = (width + 7) / 8;
    let m = (datas.len() - 1) as nat;
    let init = datas.drop_last();
    let last = datas.last();
    assert(wb * 24 * m <= wb * 24 * datas.len()) by (nonlinear_arith)
        requires
            m <= datas.len(),
    ;
    let img = if m == 0 {
        ColumnImageState { width_bytes: wb as u32, rows: Seq::empty() }
    } else {
        lemma_strips_image(width, init);
        strips_image(width, init)->0
    };
    assert(wb <= wb * 24 * datas.len()) by (nonlinear_arith)
        requires
            datas.len() >= 1,
    ;
    assert(img.width_bytes as nat == wb);
    if m == 0 {
        assert(wb * 24 * m == 0) by (nonlinear_arith)
            requires
                m == 0,
        ;
    } else {
        assert(init.len() == m);
        assert(rows_hold(img.rows, width, init));
    }
    assert(img.rows.len() == wb * 24 * m);
    assert(m * 24 * wb == wb * 24 * m && (m + 1) * 24 * wb == wb * 24 * datas.len())
        by (nonlinear_arith)
        requires
            datas.len() == m + 1,
    ;
    assert(strips_image(width, datas) == extend_image(img, img.width_bytes, 3, last));
    lemma_strip_fits(img, width, m, last);
    law_column_strip_is_row_major(img, img.width_bytes, 3, last);
    let new_rows = extend_image(img, img.width_bytes, 3, last)->0.rows;
    assert(wb * 3 * 8 == wb * 24);
    assert(new_rows.len() == wb * 24 * datas.len()) by (nonlinear_arith)
        requires
            new_rows.len() == wb * 24 * m + wb * 24,
            datas.len() == m + 1,
    ;
    assert forall|k: int, j: nat| 0 <= k < new_rows.len() && j < 8 implies #[trigger] image_bit(
        new_rows,
        k,
        j,
    ) == column_bit(width, datas, k, j) by {
        if k < img.rows.len() {
            assert(new_rows.subrange(0, img.rows.len() as int)[k] == img.rows[k]);
            assert(image_bit(new_rows, k, j) == image_bit(img.rows, k, j));
            lemma_byte_before(k, wb as int, m as int);
            let y = k / (wb as int);
            assert(datas[y / 24] == init[y / 24]);
        } else {
            lemma_strip_lands(last, width, wb, m, k, j);
            lemma_byte_row(k, wb as int, m as int);
            lemma_row_split(k / (wb as int), m as int);
        }
    }
}

/// One strip command adds its strip to the image in progress and reports
/// nothing.
proof fn lemma_block_step(st: ParserState, width: nat, data: Seq<u8>)
    requires
        width < 0x1_0000,
        data.len() == 3 * width,
        add_strip(st.column_image, width, 3, data) is Some,
    ensures
        step(st, column_block(width, data)) == skip(
            ParserState { column_image: add_strip(st.column_image, width, 3, data), ..st },
            column_block(width, data).len(),
        ),
{
    let c = column_block(width, data);
    assert(c.len() == 6 + 3 * width);
    assert(c[0] == 0x1b && c[1] == 0x2a && c[2] == 0x21);
    assert(c[3] as nat + c[4] as nat * 256 == width);
    assert(c.subrange(5, 5 + 3 * width as int) =~= data);
    assert(bytes_per_column(c[2]) == 3);
    assert(step(st, c) == column_strip_step(st, c)) by {
        reveal(step);
    }
}

/// The strip commands of a column-mode image, whatever follows them, leave
/// the parser with the image of all the strips in progress.
proof fn lemma_blocks_run(st: ParserState, width: nat, datas: Seq<Seq<u8>>, rest: Seq<u8>)
    requires
        st.column_image is None,
        1 <= width < 0x1_0000,
        forall|s: int| 0 <= s < datas.len() ==> (#[trigger] datas[s]).len() == 3 * width,
        (width + 7) / 8 * 24 * datas.len() <= u32::MAX,
    ensures
        run(st, column_blocks(width, datas) + rest) == run(
            ParserState { column_image: strips_image(width, datas), ..st },
            rest,
        ),
    decreases datas.len(),
{
    if datas.len() == 0 {
        assert(column_blocks(width, datas) + rest =~= rest);
        assert(ParserState { column_image: strips_image(width, datas), ..st } =~= st);
    } else {
        let init = datas.drop_last();
        let last = datas.last();
        let wb = (width + 7) / 8;
        assert(wb * 24 * init.len() <= wb * 24 * datas.len()) by (nonlinear_arith)
            requires
                init.len() <= datas.len(),
        ;
        let block = column_block(width, last);
        lemma_blocks_run(st, width, init, block + rest);
        assert(column_blocks(width, datas) + rest =~= column_blocks(width, init) + (block + rest));
        lemma_strips_image(width, datas);
        let mid = ParserState { column_image: strips_image(width, init), ..st };
        lemma_block_step(mid, width, last);
        lemma_run_command(mid, block, rest);
        assert(Seq::<EventModel>::empty() + run(
            ParserState { column_image: strips_image(width, datas), ..st },
            rest,
        ).events =~= run(ParserState { column_image: strips_image(width, datas), ..st }, rest).events);
        assert(ParserState { column_image: add_strip(mid.column_image, width, 3, last), ..mid }
            =~= ParserState { column_image: strips_image(width, datas), ..st });
    }
}

/// Dot `(x, y)` of the row-major image is bit `x % 8` of byte
/// `y * wb + x / 8`.
proof fn lemma_pixel_bit(rows: Seq<u8>, width: nat, datas: Seq<Seq<u8>>, x: nat, y: nat)
    requires
        width >= 1,
        rows_hold(rows, width, datas),
        x < (width + 7) / 8 * 8,
        y < 24 * datas.len(),
    ensures
        pixel_set(rows, (width + 7) / 8, x, y) == (x < width && column_pixel(datas, x, y)),
{
    let wb = (width + 7) / 8;
    let k = y * wb + x / 8;
    assert(x / 8 < wb);
    assert(k < wb * 24 * datas.len()) by (nonlinear_arith)
        requires
            k == y * wb + x / 8,
            x / 8 < wb,
            y < 24 * datas.len(),
    ;
    lemma_fundamental_div_mod_converse(k as int, wb as int, y as int, (x / 8) as int);
    assert(image_bit(rows, k as int, x % 8) == column_bit(width, datas, k as int, x % 8));
    assert((x / 8) * 8 + x % 8 == x);
}

/// The parser reads a column-mode image back as the receipt encoder writes
/// it: the line spacing command, the strip commands and the line spacing
/// reset report one image, as wide as the strips rounded up to whole bytes
/// and 24 rows per strip, in which each dot is the dot its strip sent and
/// the padding past the width is clear; the parser is left as it was.
pub proof fn law_column_image_parses_back(st: ParserState, width: nat, datas: Seq<Seq<u8>>)
    requires
        st.column_image is None,
        1 <= width < 0x1_0000,
        datas.len() > 0,
        forall|s: int| 0 <= s < datas.len() ==> (#[trigger] datas[s]).len() == 3 * width,
        (width + 7) / 8 * 24 * datas.len() <= u32::MAX,
        base64_len((width + 7) / 8 * 24 * datas.len()) <= usize::MAX,
    ensures
        ({
            let c = seq![0x1bu8, 0x33, 0x24] + column_blocks(width, datas) + seq![0x1bu8, 0x32];
            let wb = (width + 7) / 8;
            let rows = strips_image(width, datas)->0.rows;
            &&& run(st, c) == RunResult {
                state: st,
                events: seq![
                    EventModel::Image {
                        width: (wb * 8) as u32,
                        height: (24 * datas.len()) as u32,
                        bits: base64_standard(rows),
                    },
                ],
                rest: Seq::empty(),
                fault: false,
            }
            &&& rows.len() == wb * 24 * datas.len()
            &&& forall|x: nat, y: nat|
                x < wb * 8 && y < 24 * datas.len() ==> #[trigger] pixel_set(rows, wb, x, y) == (x
                    < width && column_pixel(datas, x, y))
        }),
{
    let wb = (width + 7) / 8;
    let spacing = seq![0x1bu8, 0x33, 0x24];
    let reset = seq![0x1bu8, 0x32];
    let blocks = column_blocks(width, datas);
    assert(step(st, spacing) == skip(st, 3)) by {
        reveal(step);
    }
    lemma_skip_step(st, spacing);
    assert(spacing + blocks + reset =~= spacing + (blocks + reset));
    lemma_blocks_run(st, width, datas, reset);
    lemma_strips_image(width, datas);
    let img = strips_image(width, datas)->0;
    let full = ParserState { column_image: strips_image(width, datas), ..st };
    assert(wb <= wb * 24 * datas.len()) by (nonlinear_arith)
        requires
            datas.len() >= 1,
    ;
    assert(img.rows.len() == (24 * datas.len()) * wb) by (nonlinear_arith)
        requires
            img.rows.len() == wb * 24 * datas.len(),
    ;
    lemma_fundamental_div_mod_converse(
        img.rows.len() as int,
        wb as int,
        (24 * datas.len()) as int,
        0,
    );
    assert(step(full, reset) == flush_column_image(full)) by {
        reveal(step);
    }
    assert(ParserState { column_image: None, ..full } =~= st);
    lemma_run_single(full, reset);
    assert forall|x: nat, y: nat| x < wb * 8 && y < 24 * datas.len() implies #[trigger] pixel_set(
        img.rows,
        wb,
        x,
        y,
    ) == (x < width && column_pixel(datas, x, y)) by {
        lemma_pixel_bit(img.rows, width, datas, x, y);
    }
}

/// What `Receipt::column_image` sends is what `get_pixel` answered: a dot of
/// the strips it wrote is set only inside the image and where `get_pixel`
/// said so, and clear inside the image only where `get_pixel` said so.
/// With `law_column_image_parses_back`, the image the parser reports shows
/// `get_pixel`'s answers.
pub proof fn law_column_image_shows_pixels<F: Fn(u32, u32) -> bool>(
    width: u32,
    height: u32,
    get_pixel: F,
    datas: Seq<Seq<u8>>,
)
    requires
        forall|s: int|
            0 <= s < datas.len() ==> strip_data_ok(
                #[trigger] datas[s],
                s as nat,
                width as nat,
                height as nat,
                get_pixel,
            ),
    ensures
        forall|x: nat, y: nat|
            x < width && y < 24 * datas.len() ==> {
                &&& #[trigger] column_pixel(datas, x, y) ==> y < height && get_pixel.ensures(
                    (x as u32, y as u32),
                    true,
                )
                &&& !column_pixel(datas, x, y) && y < height ==> get_pixel.ensures(
                    (x as u32, y as u32),
                    false,
                )
            },
{
    assert forall|x: nat, y: nat| x < width && y < 24 * datas.len() implies {
        &&& #[trigger] column_pixel(datas, x, y) ==> y < height && get_pixel.ensures(
            (x as u32, y as u32),
            true,
        )
        &&& !column_pixel(datas, x, y) && y < height ==> get_pixel.ensures(
            (x as u32, y as u32),
            false,
        )
    } by {
        let s = y / 24;
        lemma_row_split(y as int, s as int);
        let t = x * 24 + ((y % 24) / 8) * 8 + y % 8;
        lemma_dot_build(x as int, ((y % 24) / 8) as int, (y % 8) as int);
        assert(strip_data_ok(datas[s as int], s, width as nat, height as nat, get_pixel));
        assert(t < 24 * width);
        assert(t / 24 == x);
        assert(strip_pixel_row(s, t) == y);
    }
}

/// What `Receipt::column_image` writes, fed to a parser that holds no bytes
/// and no image, is reported as one image `8 * ceil(width / 8)` dots wide
/// and 24 rows per strip, whose dot `(x, y)` is set exactly where `get_pixel`
/// answered `true` for a dot `(x, y)` of the `width` by `height` image: a set
/// dot lies inside it with the answer `true`, and a clear dot inside it has
/// the answer `false`. The parser is left as it was.
pub proof fn law_column_image_feeds_back<F: Fn(u32, u32) -> bool>(
    p: ParserView,
    width: u32,
    height: u32,
    get_pixel: F,
    datas: Seq<Seq<u8>>,
)
    requires
        p.buf.len() == 0,
        p.state.column_image is None,
        1 <= width < 0x1_0000,
        height >= 1,
        datas.len() == strip_count(height as nat),
        forall|s: int|
            0 <= s < datas.len() ==> strip_data_ok(
                #[trigger] datas[s],
                s as nat,
                width as nat,
                height as nat,
                get_pixel,
            ),
        (width as nat + 7) / 8 * 24 * datas.len() <= u32::MAX,
        base64_len((width as nat + 7) / 8 * 24 * datas.len()) <= usize::MAX,
    ensures
        ({
            let c = seq![0x1bu8, 0x33, 0x24] + column_blocks(width as nat, datas) + seq![
                0x1bu8,
                0x32,
            ];
            let wb = (width as nat + 7) / 8;
            let rows = strips_image(width as nat, datas)->0.rows;
            &&& feed_result(p, c) == RunResult {
                state: p.state,
                events: seq![
                    EventModel::Image {
                        width: (wb * 8) as u32,
                        height: (24 * datas.len()) as u32,
                        bits: base64_standard(rows),
                    },
                ],
                rest: Seq::empty(),
                fault: false,
            }
            &&& after_feed(p, c) == p
            &&& rows.len() == wb * 24 * datas.len()
            &&& forall|x: nat, y: nat|
                x < wb * 8 && y < 24 * datas.len() ==> {
                    &&& #[trigger] pixel_set(rows, wb, x, y) ==> x < width && y < height
                        && get_pixel.ensures((x as u32, y as u32), true)
                    &&& x < width && y < height && !pixel_set(rows, wb, x, y) ==> get_pixel.ensures(
                        (x as u32, y as u32),
                        false,
                    )
                }
        }),
{
    let c = seq![0x1bu8, 0x33, 0x24] + column_blocks(width as nat, datas) + seq![0x1bu8, 0x32];
    assert(height as nat + 23 >= 24);
    assert(datas.len() > 0);
    assert forall|s: int| 0 <= s < datas.len() implies (#[trigger] datas[s]).len() == 3 * width by {
        assert(strip_data_ok(datas[s], s as nat, width as nat, height as nat, get_pixel));
    }
    law_column_image_parses_back(p.state, width as nat, datas);
    law_column_image_shows_pixels(width, height, get_pixel, datas);
    assert(p.buf + c =~= c);
    assert(after_feed(p, c) =~= p);
}

} // verus!
