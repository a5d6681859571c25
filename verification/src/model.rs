//! The ESC/POS command grammar as mathematics: what one command does to the
//! parser's settings and which events it produces, and what a whole byte
//! stream produces when its commands are taken one after another.

use crate::codepage::{decoded, latin1, star_codepage, Codepage};
use crate::event::EventModel;
use crate::external::{base64_len, base64_standard};
use vstd::prelude::*;

verus! {

/// The text style that `Event::Style` reports.
#[verifier::ext_equal]
pub struct StyleState {
    pub font: Seq<char>,
    pub bold: bool,
    pub italic: bool,
    pub underline: bool,
    pub invert: bool,
    pub width: u8,
    pub height: u8,
}

/// A column-mode image being accumulated from `ESC *` strips, in row-major
/// 1-bit-per-pixel layout.
#[verifier::ext_equal]
pub struct ColumnImageState {
    pub width_bytes: u32,
    pub rows: Seq<u8>,
}

/// Everything the parser remembers between commands, apart from the bytes it
/// holds back.
#[verifier::ext_equal]
pub struct ParserState {
    pub style: StyleState,
    pub codepage: Codepage,
    pub pending_qr: Option<Seq<char>>,
    pub column_image: Option<ColumnImageState>,
}

/// The whole parser: the bytes held back and the remembered state.
#[verifier::ext_equal]
pub struct ParserView {
    pub buf: Seq<u8>,
    pub state: ParserState,
}

/// The style after power-on and after `ESC @`.
pub open spec fn default_style() -> StyleState {
    StyleState {
        font: "a"@,
        bold: false,
        italic: false,
        underline: false,
        invert: false,
        width: 1,
        height: 1,
    }
}

/// A freshly created parser.
pub open spec fn initial_state() -> ParserState {
    ParserState {
        style: default_style(),
        codepage: Codepage::Cp437,
        pending_qr: None,
        column_image: None,
    }
}

/// `ESC @` resets the style and the code page; a stored QR payload and a
/// column image in progress survive it.
pub open spec fn reset_state(st: ParserState) -> ParserState {
    ParserState {
        style: default_style(),
        codepage: Codepage::Cp437,
        pending_qr: st.pending_qr,
        column_image: st.column_image,
    }
}

pub open spec fn with_style(st: ParserState, style: StyleState) -> ParserState {
    ParserState {
        style,
        codepage: st.codepage,
        pending_qr: st.pending_qr,
        column_image: st.column_image,
    }
}

pub open spec fn style_event(s: StyleState) -> EventModel {
    EventModel::Style {
        font: s.font,
        bold: s.bold,
        italic: s.italic,
        underline: s.underline,
        invert: s.invert,
        width: s.width,
        height: s.height,
    }
}

/// A style change, reported as a style event.
pub open spec fn restyle(st: ParserState, len: nat, s: StyleState) -> Step {
    Step::Done { len, state: with_style(st, s), events: seq![style_event(s)] }
}

/// What the parser makes of the bytes at the front of its buffer.
pub enum Step {
    /// The bytes start a command that has not fully arrived; they are held.
    Incomplete,
    /// The command makes the parser panic.
    Fault,
    /// The command takes `len` bytes, leaves `state`, and reports `events`.
    Done { len: nat, state: ParserState, events: Seq<EventModel> },
}

/// Consume `len` bytes, keep the state, report nothing.
pub open spec fn skip(st: ParserState, len: nat) -> Step {
    Step::Done { len, state: st, events: Seq::empty() }
}

/// Consume `len` bytes, keep the state, report one event.
pub open spec fn emit(st: ParserState, len: nat, e: EventModel) -> Step {
    Step::Done { len, state: st, events: seq![e] }
}

/// The bytes that end a run of printable text.
pub open spec fn is_command_byte(b: u8) -> bool {
    b == 0x1b || b == 0x1d || b == 0x1c || b == 0x10 || b == 0x0a || b == 0x0d
}

/// The length of the run of text bytes at the front of `d`.
pub open spec fn text_run_len(d: Seq<u8>) -> nat
    decreases d.len(),
{
    if d.len() == 0 || is_command_byte(d[0]) {
        0
    } else {
        1 + text_run_len(d.drop_first())
    }
}

/// A run of text is decoded through the selected code page; a run that
/// decodes to nothing reports nothing.
pub open spec fn text_step(st: ParserState, d: Seq<u8>) -> Step {
    let n = text_run_len(d);
    let text = decoded(st.codepage, d.take(n as int));
    Step::Done {
        len: n,
        state: st,
        events: if text.len() > 0 { seq![EventModel::Text { text }] } else { Seq::empty() },
    }
}

/// The command at the front of `d`.
#[verifier::opaque]
pub open spec fn step(st: ParserState, d: Seq<u8>) -> Step {
    if d.len() == 0 {
        Step::Incomplete
    } else if d[0] == 0x0a {
        emit(st, 1, EventModel::NewLine)
    } else if d[0] == 0x0d {
        skip(st, 1)
    } else if d[0] == 0x1b {
        esc_step(st, d)
    } else if d[0] == 0x1d {
        gs_step(st, d)
    } else if d[0] == 0x1c {
        // FS . : single-byte character mode, no visible effect.
        if d.len() < 2 { Step::Incomplete } else { skip(st, 2) }
    } else if d[0] == 0x10 {
        dle_step(st, d)
    } else {
        text_step(st, d)
    }
}

/// `DLE` real-time commands: status queries and the real-time drawer kick.
pub open spec fn dle_step(st: ParserState, d: Seq<u8>) -> Step {
    if d.len() < 2 {
        Step::Incomplete
    } else if d[1] == 0x04 {
        if d.len() < 3 { Step::Incomplete } else { skip(st, 3) }
    } else if d[1] == 0x05 {
        skip(st, 2)
    } else if d[1] == 0x14 {
        if d.len() < 3 {
            Step::Incomplete
        } else if d[2] == 0x01 {
            if d.len() < 5 { Step::Incomplete } else { emit(st, 5, EventModel::Pulse) }
        } else if d[2] == 0x02 || d[2] == 0x03 {
            if d.len() < 4 { Step::Incomplete } else { skip(st, 4) }
        } else if d[2] == 0x08 {
            if d.len() < 10 { Step::Incomplete } else { skip(st, 10) }
        } else {
            skip(st, 3)
        }
    } else {
        skip(st, 2)
    }
}

/// The alignment that `ESC a n` selects.
pub open spec fn alignment_name(n: u8) -> Seq<char> {
    if n == 1 {
        "center"@
    } else if n == 2 {
        "right"@
    } else {
        "left"@
    }
}

/// `ESC` commands.
pub open spec fn esc_step(st: ParserState, d: Seq<u8>) -> Step {
    if d.len() < 2 {
        Step::Incomplete
    } else if d[1] == 0x40 {  // @
        Step::Done { len: 2, state: reset_state(st), events: seq![EventModel::Init] }
    } else if d[1] == 0x69 || d[1] == 0x6d {  // i m
        emit(st, 2, EventModel::Cut)
    } else if d[1] == 0x32 {  // 2
        flush_column_image(st)
    } else if d[1] == 0x2a {  // *
        column_strip_step(st, d)
    } else if d[1] == 0x70 {  // p
        if d.len() < 5 { Step::Incomplete } else { emit(st, 5, EventModel::Pulse) }
    } else if d[1] == 0x24 || d[1] == 0x5c {  // $ \
        if d.len() < 4 { Step::Incomplete } else { skip(st, 4) }
    } else if d[1] == 0x4d || d[1] == 0x61 || d[1] == 0x45 || d[1] == 0x2d || d[1] == 0x34  // M a E - 4
        || d[1] == 0x74 || d[1] == 0x64 || d[1] == 0x4a || d[1] == 0x20 || d[1] == 0x52  // t d J space R
        || d[1] == 0x7b || d[1] == 0x33 || d[1] == 0x21 {  // { 3 !
        if d.len() < 3 {
            Step::Incomplete
        } else {
            esc_param_step(st, d[1], d[2])
        }
    } else {
        skip(st, 2)
    }
}

/// `ESC c n`: the `ESC` commands with one parameter byte.
pub open spec fn esc_param_step(st: ParserState, c: u8, n: u8) -> Step {
    let s = st.style;
    if c == 0x4d {  // M
        restyle(st, 3, StyleState { font: if n == 1 || n == 49 { "b"@ } else { "a"@ }, ..s })
    } else if c == 0x61 {  // a
        emit(st, 3, EventModel::Align { value: alignment_name(n) })
    } else if c == 0x45 {  // E
        restyle(st, 3, StyleState { bold: n != 0, ..s })
    } else if c == 0x2d {  // -
        restyle(st, 3, StyleState { underline: n != 0, ..s })
    } else if c == 0x34 {  // 4
        restyle(st, 3, StyleState { italic: n != 0, ..s })
    } else if c == 0x74 {  // t
        Step::Done {
            len: 3,
            state: ParserState { codepage: star_codepage(n), ..st },
            events: Seq::empty(),
        }
    } else if c == 0x64 {  // d
        Step::Done { len: 3, state: st, events: Seq::new(n as nat, |k: int| EventModel::NewLine) }
    } else if c == 0x21 {  // !
        restyle(
            st,
            3,
            StyleState {
                font: if n & 0x01 != 0 { "b"@ } else { "a"@ },
                bold: n & 0x08 != 0,
                width: if n & 0x20 != 0 { 2 } else { 1 },
                height: if n & 0x10 != 0 { 2 } else { 1 },
                underline: n & 0x80 != 0,
                ..s
            },
        )
    } else {
        // ESC J / ESC space / ESC R / ESC { / ESC 3: configuration only.
        skip(st, 3)
    }
}

/// `ESC 2` resets line spacing, which also ends a column-mode image: the
/// accumulated image is reported and forgotten.
pub open spec fn flush_column_image(st: ParserState) -> Step {
    match st.column_image {
        None => skip(st, 2),
        Some(img) => {
            if img.width_bytes == 0 || img.width_bytes * 8 > u32::MAX || base64_len(
                img.rows.len(),
            ) > usize::MAX {
                Step::Fault
            } else {
                Step::Done {
                    len: 2,
                    state: ParserState { column_image: None, ..st },
                    events: seq![
                        EventModel::Image {
                            width: (img.width_bytes * 8) as u32,
                            height: ((img.rows.len() as u32) / img.width_bytes) as u32,
                            bits: base64_standard(img.rows),
                        },
                    ],
                }
            }
        },
    }
}

/// The number of bytes per column that `ESC * m` selects.
pub open spec fn bytes_per_column(m: u8) -> nat {
    if m == 32 || m == 33 { 3 } else { 1 }
}

/// Pixel `t` of a strip, counted column by column, top to bottom: is it set?
/// Byte `t / 8` holds it, most significant bit first.
pub open spec fn strip_bit(strip: Seq<u8>, t: nat) -> bool {
    strip[(t / 8) as int] & (0x80u8 >> ((t % 8) as u8)) != 0
}

/// The column of pixel `t`.
pub open spec fn strip_column(bpc: nat, t: nat) -> nat {
    (t / 8) / bpc
}

/// The image row of pixel `t` when the strip starts at `row_offset`.
pub open spec fn strip_row(row_offset: nat, bpc: nat, t: nat) -> nat {
    row_offset + ((t / 8) % bpc) * 8 + t % 8
}

/// Where pixel `t` lands in the row-major image.
pub open spec fn strip_target(row_offset: nat, width_bytes: nat, bpc: nat, t: nat) -> nat {
    strip_row(row_offset, bpc, t) * width_bytes + strip_column(bpc, t) / 8
}

/// The bit within its row byte that pixel `t` sets.
pub open spec fn strip_mask(bpc: nat, t: nat) -> u8 {
    0x80u8 >> ((strip_column(bpc, t) % 8) as u8)
}

/// The image rows after the first `n` pixels of a strip have been drawn.
pub open spec fn paint(
    rows: Seq<u8>,
    strip: Seq<u8>,
    bpc: nat,
    width_bytes: nat,
    row_offset: nat,
    n: nat,
) -> Seq<u8>
    decreases n,
{
    if n == 0 {
        rows
    } else {
        let r = paint(rows, strip, bpc, width_bytes, row_offset, (n - 1) as nat);
        let t = (n - 1) as nat;
        let k = strip_target(row_offset, width_bytes, bpc, t) as int;
        if strip_bit(strip, t) && k < r.len() {
            r.update(k, r[k] | strip_mask(bpc, t))
        } else {
            r
        }
    }
}

/// Add a strip `wb` bytes wide to a column image: the rows grow by one strip
/// of blank rows, `wb` bytes each, and the strip's set pixels are drawn in,
/// at rows counted in strips of `wb` bytes. The strip's own width governs
/// where its dots land, while the image keeps the width in bytes that its
/// first strip gave it, which is the width it is reported with. A pixel that
/// would land past the rows is dropped. `None` for a strip without width,
/// and where the rows would outgrow what a `usize` can count.
pub open spec fn extend_image(img: ColumnImageState, wb: u32, bpc: nat, strip: Seq<u8>) -> Option<
    ColumnImageState,
> {
    let grow = wb as nat * (bpc * 8);
    if wb == 0 || img.rows.len() + grow > usize::MAX {
        None
    } else {
        let row_offset = ((img.rows.len() as u32) / wb) as nat;
        let padded = img.rows + Seq::new(grow, |k: int| 0u8);
        Some(
            ColumnImageState {
                width_bytes: img.width_bytes,
                rows: paint(padded, strip, bpc, wb as nat, row_offset, strip.len() * 8),
            },
        )
    }
}

/// Add a strip `width` dots wide to the column image in progress, or to a
/// new, empty image of the strip's width when there is none.
pub open spec fn add_strip(
    current: Option<ColumnImageState>,
    width: nat,
    bpc: nat,
    strip: Seq<u8>,
) -> Option<ColumnImageState> {
    let wb = ((width + 7) / 8) as u32;
    let img = match current {
        Some(img) => img,
        None => ColumnImageState { width_bytes: wb, rows: Seq::empty() },
    };
    extend_image(img, wb, bpc, strip)
}

/// `ESC * m nL nH data... LF`: one column-mode image strip, `nL + 256 nH`
/// columns of `bytes_per_column(m)` bytes each, then a line feed. A strip
/// without columns draws nothing and leaves any image in progress as it was.
pub open spec fn column_strip_step(st: ParserState, d: Seq<u8>) -> Step {
    if d.len() < 5 {
        Step::Incomplete
    } else {
        let width = d[3] as nat + d[4] as nat * 256;
        let bpc = bytes_per_column(d[2]);
        let total = width * bpc;
        if d.len() < 6 + total {
            Step::Incomplete
        } else if width == 0 {
            skip(st, 6 + total)
        } else {
            match add_strip(st.column_image, width, bpc, d.subrange(5, 5 + total as int)) {
                None => Step::Fault,
                Some(img) => skip(ParserState { column_image: Some(img), ..st }, 6 + total),
            }
        }
    }
}

/// `GS` commands.
pub open spec fn gs_step(st: ParserState, d: Seq<u8>) -> Step {
    let s = st.style;
    if d.len() < 2 {
        Step::Incomplete
    } else if d[1] == 0x6b {  // k
        barcode_step(st, d)
    } else if d[1] == 0x76 {  // v
        raster_step(st, d)
    } else if d[1] == 0x28 {  // (
        if d.len() < 3 {
            Step::Incomplete
        } else if d[2] == 0x6b {  // k
            symbol_2d_step(st, d)
        } else {
            length_prefixed_step(st, d)
        }
    } else if d[1] == 0x4c || d[1] == 0x57 || d[1] == 0x24 || d[1] == 0x5c || d[1] == 0x50 {  // L W $ \ P
        if d.len() < 4 { Step::Incomplete } else { skip(st, 4) }
    } else if d[1] == 0x56 || d[1] == 0x21 || d[1] == 0x42 || d[1] == 0x68 || d[1] == 0x77  // V ! B h w
        || d[1] == 0x48 || d[1] == 0x66 || d[1] == 0x49 {  // H f I
        if d.len() < 3 {
            Step::Incomplete
        } else if d[1] == 0x56 {  // V
            if d[2] == 65 || d[2] == 66 {
                if d.len() < 4 { Step::Incomplete } else { emit(st, 4, EventModel::Cut) }
            } else {
                emit(st, 3, EventModel::Cut)
            }
        } else if d[1] == 0x21 {  // !
            restyle(
                st,
                3,
                StyleState {
                    height: ((d[2] & 0x07) + 1) as u8,
                    width: (((d[2] >> 4) & 0x07) + 1) as u8,
                    ..s
                },
            )
        } else if d[1] == 0x42 {  // B
            restyle(st, 3, StyleState { invert: d[2] != 0, ..s })
        } else {
            // GS h / GS w / GS H / GS f / GS I: configuration only.
            skip(st, 3)
        }
    } else {
        skip(st, 2)
    }
}

/// `GS ( x pL pH ...`, a command of the `GS (` family other than `GS ( k`:
/// skipped whole, by its length prefix.
pub open spec fn length_prefixed_step(st: ParserState, d: Seq<u8>) -> Step {
    if d.len() < 5 {
        Step::Incomplete
    } else {
        let len = 5 + d[3] as nat + d[4] as nat * 256;
        if d.len() < len { Step::Incomplete } else { skip(st, len) }
    }
}

/// `GS ( k pL pH cn fn [params]`: 2D symbols, `5 + pL + 256 pH` bytes in
/// all. QR code data is stored by function 0x50 and printed by function
/// 0x51; everything else, a command too short to name its function or to
/// hold the store command's fixed byte among it, is skipped.
pub open spec fn symbol_2d_step(st: ParserState, d: Seq<u8>) -> Step {
    if d.len() < 5 {
        Step::Incomplete
    } else {
        let plen = d[3] as nat + d[4] as nat * 256;
        let len = 5 + plen;
        if d.len() < len {
            Step::Incomplete
        } else if plen < 2 {
            skip(st, len)
        } else if d[5] == 0x31 && d[6] == 0x50 {
            if plen < 3 {
                skip(st, len)
            } else {
                skip(
                    ParserState { pending_qr: Some(latin1(d.subrange(8, len as int))), ..st },
                    len,
                )
            }
        } else if d[5] == 0x31 && d[6] == 0x51 {
            match st.pending_qr {
                Some(data) => Step::Done {
                    len,
                    state: ParserState { pending_qr: None, ..st },
                    events: seq![EventModel::QrCode { data }],
                },
                None => skip(st, len),
            }
        } else {
            skip(st, len)
        }
    }
}

/// `GS v 0 m xL xH yL yH data`: a raster bit image, `xL + 256 xH` bytes wide
/// and `yL + 256 yH` dots high.
pub open spec fn raster_step(st: ParserState, d: Seq<u8>) -> Step {
    if d.len() < 8 {
        Step::Incomplete
    } else {
        let width_bytes = d[4] as nat + d[5] as nat * 256;
        let height = d[6] as nat + d[7] as nat * 256;
        let total = width_bytes * height;
        if d.len() < 8 + total {
            Step::Incomplete
        } else if base64_len(total) > usize::MAX {
            Step::Fault
        } else {
            emit(
                st,
                8 + total,
                EventModel::Image {
                    width: (width_bytes * 8) as u32,
                    height: height as u32,
                    bits: base64_standard(d.subrange(8, 8 + total as int)),
                },
            )
        }
    }
}

/// The name that a barcode symbology identifier is reported under.
pub open spec fn symbology_name(id: u8) -> Seq<char> {
    if id == 0x00 {
        "UPC-A"@
    } else if id == 0x01 {
        "UPC-E"@
    } else if id == 0x02 {
        "EAN-13"@
    } else if id == 0x03 {
        "EAN-8"@
    } else if id == 0x04 {
        "CODE39"@
    } else if id == 0x05 {
        "ITF"@
    } else if id == 0x06 {
        "CODABAR"@
    } else if id == 0x48 {
        "CODE93"@
    } else if id == 0x49 {
        "CODE128"@
    } else if id == 0x4b {
        "GS1 DataBar Omni"@
    } else if id == 0x4c {
        "GS1 DataBar Truncated"@
    } else if id == 0x4d {
        "GS1 DataBar Limited"@
    } else if id == 0x4e {
        "GS1 DataBar Expanded"@
    } else if id == 0x4f {
        "CODE128"@
    } else {
        "barcode"@
    }
}

/// The position of the first zero byte of `s`, if it has one.
pub open spec fn first_zero(s: Seq<u8>) -> Option<nat>
    decreases s.len(),
{
    if s.len() == 0 {
        None
    } else if s[0] == 0 {
        Some(0)
    } else {
        match first_zero(s.drop_first()) {
            Some(k) => Some(k + 1),
            None => None,
        }
    }
}

/// `GS k m ...`: a 1D barcode. Function B symbologies (`m > 0x40`) carry a
/// length byte; function A ones end at a NUL byte.
pub open spec fn barcode_step(st: ParserState, d: Seq<u8>) -> Step {
    if d.len() < 3 {
        Step::Incomplete
    } else {
        let symbology = symbology_name(d[2]);
        if d[2] > 0x40 {
            if d.len() < 4 || d.len() < 4 + d[3] as nat {
                Step::Incomplete
            } else {
                emit(
                    st,
                    4 + d[3] as nat,
                    EventModel::Barcode { symbology, data: latin1(d.subrange(4, 4 + d[3] as int)) },
                )
            }
        } else {
            match first_zero(d.skip(3)) {
                None => Step::Incomplete,
                Some(k) => emit(
                    st,
                    4 + k,
                    EventModel::Barcode { symbology, data: latin1(d.subrange(3, 3 + k as int)) },
                ),
            }
        }
    }
}

/// What a run of commands over `d` produced.
#[verifier::ext_equal]
pub struct RunResult {
    pub state: ParserState,
    pub events: Seq<EventModel>,
    /// The bytes left unparsed, starting with an incomplete command.
    pub rest: Seq<u8>,
    /// The parser panicked on the command at the front of `rest`.
    pub fault: bool,
}

/// Take the commands at the front of `d` one after another, until the bytes
/// run out, a command is incomplete, or a command faults.
pub open spec fn run(st: ParserState, d: Seq<u8>) -> RunResult
    decreases d.len(),
{
    if d.len() == 0 {
        RunResult { state: st, events: Seq::empty(), rest: d, fault: false }
    } else {
        match step(st, d) {
            Step::Incomplete => RunResult { state: st, events: Seq::empty(), rest: d, fault: false },
            Step::Fault => RunResult { state: st, events: Seq::empty(), rest: d, fault: true },
            Step::Done { len, state, events } => {
                if 0 < len <= d.len() {
                    let r = run(state, d.skip(len as int));
                    RunResult { state: r.state, events: events + r.events, rest: r.rest, fault: r.fault }
                } else {
                    RunResult { state: st, events: Seq::empty(), rest: d, fault: true }
                }
            },
        }
    }
}

/// What feeding `data` to a parser in view `p` produces: the held bytes and
/// the new data are parsed as one stream.
pub open spec fn feed_result(p: ParserView, data: Seq<u8>) -> RunResult {
    run(p.state, p.buf + data)
}

/// The parser after a feed.
pub open spec fn after_feed(p: ParserView, data: Seq<u8>) -> ParserView {
    let r = feed_result(p, data);
    ParserView { buf: r.rest, state: r.state }
}

} // verus!

verus! {

/// `first_zero` finds the first zero byte: if the first `m` bytes are not
/// zero, the answer is decided by what stands at position `m`.
pub(crate) proof fn lemma_first_zero(s: Seq<u8>, m: nat)
    requires
        m <= s.len(),
        forall|k: int| 0 <= k < m ==> s[k] != 0,
    ensures
        m < s.len() && s[m as int] == 0 ==> first_zero(s) == Some(m),
        m == s.len() ==> first_zero(s) is None,
    decreases m,
{
    if m > 0 {
        lemma_first_zero(s.drop_first(), (m - 1) as nat);
    }
}

} // verus!

verus! {

/// Drawing pixels never changes the length of the image.
pub(crate) proof fn lemma_paint_len(
    rows: Seq<u8>,
    strip: Seq<u8>,
    bpc: nat,
    width_bytes: nat,
    row_offset: nat,
    n: nat,
)
    ensures
        paint(rows, strip, bpc, width_bytes, row_offset, n).len() == rows.len(),
    decreases n,
{
    if n > 0 {
        lemma_paint_len(rows, strip, bpc, width_bytes, row_offset, (n - 1) as nat);
    }
}

} // verus!

verus! {

/// A run of text never reaches past the bytes at hand.
pub(crate) proof fn lemma_text_run_len_bound(d: Seq<u8>)
    ensures
        text_run_len(d) <= d.len(),
        d.len() > 0 && !is_command_byte(d[0]) ==> text_run_len(d) > 0,
    decreases d.len(),
{
    if d.len() > 0 && !is_command_byte(d[0]) {
        lemma_text_run_len_bound(d.drop_first());
    }
}

/// A zero byte that `first_zero` finds lies inside the sequence.
pub(crate) proof fn lemma_first_zero_bound(s: Seq<u8>)
    ensures
        first_zero(s) matches Some(k) ==> k < s.len() && s[k as int] == 0,
    decreases s.len(),
{
    if s.len() > 0 && s[0] != 0 {
        lemma_first_zero_bound(s.drop_first());
    }
}

/// A command that completes takes at least one byte and no more than there are.
pub(crate) proof fn lemma_step_bounds(st: ParserState, d: Seq<u8>)
    ensures
        step(st, d) matches Step::Done { len, .. } ==> 0 < len <= d.len(),
{
    reveal(step);
    if d.len() > 0 {
        lemma_text_run_len_bound(d);
        if d.len() > 3 {
            lemma_first_zero_bound(d.skip(3));
        }
    }
}

} // verus!

verus! {

/// One command taken from the front of the stream.
pub(crate) proof fn lemma_run_step(st: ParserState, d: Seq<u8>)
    requires
        d.len() > 0,
    ensures
        step(st, d) is Incomplete ==> run(st, d) == (RunResult {
            state: st,
            events: Seq::empty(),
            rest: d,
            fault: false,
        }),
        step(st, d) is Fault ==> run(st, d).fault,
        step(st, d) matches Step::Done { len, state, events } ==> {
            let r = run(state, d.skip(len as int));
            &&& 0 < len <= d.len()
            &&& 
run(st, d) == RunResult { state: r.state, events: events + r.events, rest: r.rest, fault: r.fault }
        },
{
    lemma_step_bounds(st, d);
}

} // verus!

verus! {

/// Bytes appended behind a run of text that stopped short of the end do not
/// change the run; a run that reached the end grows by the run that follows.
pub(crate) proof fn lemma_text_run_len_append(x: Seq<u8>, y: Seq<u8>)
    ensures
        text_run_len(x) < x.len() ==> text_run_len(x + y) == text_run_len(x),
        text_run_len(x) == x.len() ==> text_run_len(x + y) == x.len() + text_run_len(y),
    decreases x.len(),
{
    if x.len() == 0 {
        assert(x + y =~= y);
    } else {
        assert((x + y).drop_first() =~= x.drop_first() + y);
        lemma_text_run_len_append(x.drop_first(), y);
    }
}

/// A zero byte found in `x` is still the first one in `x + y`.
pub(crate) proof fn lemma_first_zero_append(x: Seq<u8>, y: Seq<u8>)
    ensures
        first_zero(x) is Some ==> first_zero(x + y) == first_zero(x),
    decreases x.len(),
{
    if x.len() > 0 {
        assert((x + y).drop_first() =~= x.drop_first() + y);
        lemma_first_zero_append(x.drop_first(), y);
    }
}

pub(crate) proof fn lemma_dle_prefix(st: ParserState, x: Seq<u8>, y: Seq<u8>)
    requires
        !(dle_step(st, x) is Incomplete),
    ensures
        dle_step(st, x + y) == dle_step(st, x),
{
}

pub(crate) proof fn lemma_column_strip_prefix(st: ParserState, x: Seq<u8>, y: Seq<u8>)
    requires
        !(column_strip_step(st, x) is Incomplete),
    ensures
        column_strip_step(st, x + y) == column_strip_step(st, x),
{
    let width = x[3] as nat + x[4] as nat * 256;
    let total = width * bytes_per_column(x[2]);
    assert((x + y).subrange(5, 5 + total as int) =~= x.subrange(5, 5 + total as int));
}

pub(crate) proof fn lemma_esc_prefix(st: ParserState, x: Seq<u8>, y: Seq<u8>)
    requires
        !(esc_step(st, x) is Incomplete),
    ensures
        esc_step(st, x + y) == esc_step(st, x),
{
    if x[1] == 0x2a {
        lemma_column_strip_prefix(st, x, y);
    }
}

pub(crate) proof fn lemma_barcode_prefix(st: ParserState, x: Seq<u8>, y: Seq<u8>)
    requires
        !(barcode_step(st, x) is Incomplete),
    ensures
        barcode_step(st, x + y) == barcode_step(st, x),
{
    if x[2] > 0x40 {
        assert((x + y).subrange(4, 4 + x[3] as int) =~= x.subrange(4, 4 + x[3] as int));
    } else {
        assert((x + y).skip(3) =~= x.skip(3) + y);
        lemma_first_zero_append(x.skip(3), y);
        lemma_first_zero_bound(x.skip(3));
        let k = first_zero(x.skip(3))->0;
        assert((x + y).subrange(3, 3 + k as int) =~= x.subrange(3, 3 + k as int));
    }
}

pub(crate) proof fn lemma_raster_prefix(st: ParserState, x: Seq<u8>, y: Seq<u8>)
    requires
        !(raster_step(st, x) is Incomplete),
    ensures
        raster_step(st, x + y) == raster_step(st, x),
{
    let total = (x[4] as nat + x[5] as nat * 256) * (x[6] as nat + x[7] as nat * 256);
    assert((x + y).subrange(8, 8 + total as int) =~= x.subrange(8, 8 + total as int));
}

pub(crate) proof fn lemma_symbol_2d_prefix(st: ParserState, x: Seq<u8>, y: Seq<u8>)
    requires
        !(symbol_2d_step(st, x) is Incomplete),
    ensures
        symbol_2d_step(st, x + y) == symbol_2d_step(st, x),
{
    let len = 5 + x[3] as nat + x[4] as nat * 256;
    assert((x + y)[3] == x[3] && (x + y)[4] == x[4]);
    if len >= 8 && x[5] == 0x31 && x[6] == 0x50 {
        assert((x + y).subrange(8, len as int) =~= x.subrange(8, len as int));
    }
}

pub(crate) proof fn lemma_gs_prefix(st: ParserState, x: Seq<u8>, y: Seq<u8>)
    requires
        !(gs_step(st, x) is Incomplete),
    ensures
        gs_step(st, x + y) == gs_step(st, x),
{
    if x[1] == 0x6b {
        lemma_barcode_prefix(st, x, y);
    } else if x[1] == 0x76 {
        lemma_raster_prefix(st, x, y);
    } else if x[1] == 0x28 && x[2] == 0x6b {
        lemma_symbol_2d_prefix(st, x, y);
    }
}

/// Once a command other than a run of text has fully arrived, or once the
/// parser faults on it, bytes arriving behind it change nothing; a run of
/// text that stopped at a command byte is not changed either.
pub(crate) proof fn lemma_step_prefix(st: ParserState, x: Seq<u8>, y: Seq<u8>)
    requires
        x.len() > 0,
        step(st, x) is Fault || (step(st, x) matches Step::Done { len, .. } && (is_command_byte(x[0])
            || len < x.len())),
    ensures
        step(st, x + y) == step(st, x),
{
    reveal(step);
    if x[0] == 0x1b {
        lemma_esc_prefix(st, x, y);
    } else if x[0] == 0x1d {
        lemma_gs_prefix(st, x, y);
    } else if x[0] == 0x10 {
        lemma_dle_prefix(st, x, y);
    } else if !is_command_byte(x[0]) {
        lemma_text_run_len_append(x, y);
        let n = text_run_len(x);
        assert((x + y).take(n as int) =~= x.take(n as int));
    }
}

} // verus!

verus! {

/// Bit `j` (most significant first) of byte `k` of a packed image.
pub open spec fn image_bit(rows: Seq<u8>, k: int, j: nat) -> bool {
    rows[k] & (0x80u8 >> (j as u8)) != 0
}

/// Some set dot among the first `n` of a strip lands on bit `j` of byte `k`.
pub open spec fn strip_hits(
    strip: Seq<u8>,
    bpc: nat,
    width_bytes: nat,
    row_offset: nat,
    n: nat,
    k: int,
    j: nat,
) -> bool {
    exists|t: nat|
        t < n && #[trigger] strip_bit(strip, t) && strip_target(row_offset, width_bytes, bpc, t) == k
            && strip_column(bpc, t) % 8 == j
}

proof fn lemma_byte_from_bits(a: u8, b: u8)
    requires
        (a & (0x80u8 >> 0u8) != 0) == (b & (0x80u8 >> 0u8) != 0),
        (a & (0x80u8 >> 1u8) != 0) == (b & (0x80u8 >> 1u8) != 0),
        (a & (0x80u8 >> 2u8) != 0) == (b & (0x80u8 >> 2u8) != 0),
        (a & (0x80u8 >> 3u8) != 0) == (b & (0x80u8 >> 3u8) != 0),
        (a & (0x80u8 >> 4u8) != 0) == (b & (0x80u8 >> 4u8) != 0),
        (a & (0x80u8 >> 5u8) != 0) == (b & (0x80u8 >> 5u8) != 0),
        (a & (0x80u8 >> 6u8) != 0) == (b & (0x80u8 >> 6u8) != 0),
        (a & (0x80u8 >> 7u8) != 0) == (b & (0x80u8 >> 7u8) != 0),
    ensures
        a == b,
{
    assert((
        (a & (0x80u8 >> 0u8) != 0) == (b & (0x80u8 >> 0u8) != 0)
        && (a & (0x80u8 >> 1u8) != 0) == (b & (0x80u8 >> 1u8) != 0)
        && (a & (0x80u8 >> 2u8) != 0) == (b & (0x80u8 >> 2u8) != 0)
        && (a & (0x80u8 >> 3u8) != 0) == (b & (0x80u8 >> 3u8) != 0)
        && (a & (0x80u8 >> 4u8) != 0) == (b & (0x80u8 >> 4u8) != 0)
        && (a & (0x80u8 >> 5u8) != 0) == (b & (0x80u8 >> 5u8) != 0)
        && (a & (0x80u8 >> 6u8) != 0) == (b & (0x80u8 >> 6u8) != 0)
        && (a & (0x80u8 >> 7u8) != 0) == (b & (0x80u8 >> 7u8) != 0)) ==> a == b) by (bit_vector);
}

/// Setting bit `m` of a byte (most significant first) sets bit `m` and
/// leaves the other bits as they were.
pub(crate) proof fn lemma_or_bit(a: u8, m: u8, j: u8)
    requires
        m < 8,
        j < 8,
    ensures
        ((a | (0x80u8 >> m)) & (0x80u8 >> j) != 0) == (a & (0x80u8 >> j) != 0 || j == m),
{
    assert(m < 8 && j < 8 ==> (((a | (0x80u8 >> m)) & (0x80u8 >> j) != 0) == (a & (0x80u8 >> j)
        != 0 || j == m))) by (bit_vector);
}

/// Drawing the dots of a strip sets exactly the bits they land on.
proof fn lemma_paint_bits(
    rows: Seq<u8>,
    strip: Seq<u8>,
    bpc: nat,
    width_bytes: nat,
    row_offset: nat,
    n: nat,
    k: int,
    j: nat,
)
    requires
        j < 8,
        0 <= k < rows.len(),
    ensures
        image_bit(paint(rows, strip, bpc, width_bytes, row_offset, n), k, j) == (image_bit(rows, k, j)
            || strip_hits(strip, bpc, width_bytes, row_offset, n, k, j)),
    decreases n,
{
    if n > 0 {
        let m = (n - 1) as nat;
        lemma_paint_bits(rows, strip, bpc, width_bytes, row_offset, m, k, j);
        lemma_paint_len(rows, strip, bpc, width_bytes, row_offset, m);
        let r = paint(rows, strip, bpc, width_bytes, row_offset, m);
        let target = strip_target(row_offset, width_bytes, bpc, m) as int;
        let col = (strip_column(bpc, m) % 8) as u8;
        if strip_bit(strip, m) && target == k {
            lemma_or_bit(r[k], col, j as u8);
        }
        if strip_hits(strip, bpc, width_bytes, row_offset, n, k, j) {
            let t = choose|t: nat|
                t < n && #[trigger] strip_bit(strip, t) && strip_target(
                    row_offset,
                    width_bytes,
                    bpc,
                    t,
                ) == k && strip_column(bpc, t) % 8 == j;
            if t < m {
                assert(strip_hits(strip, bpc, width_bytes, row_offset, m, k, j));
            }
        }
        if strip_hits(strip, bpc, width_bytes, row_offset, m, k, j) {
            let t = choose|t: nat|
                t < m && #[trigger] strip_bit(strip, t) && strip_target(
                    row_offset,
                    width_bytes,
                    bpc,
                    t,
                ) == k && strip_column(bpc, t) % 8 == j;
            assert(t < n);
        }
        if strip_bit(strip, m) && target == k && col == j as u8 {
            assert(strip_bit(strip, m) && strip_target(row_offset, width_bytes, bpc, m) == k
                && strip_column(bpc, m) % 8 == j);
        }
    }
}

/// An `ESC *` strip is converted from column-major to the row-major image
/// layout: for a strip `width_bytes` bytes wide, the rows already drawn stay
/// as they were, the image grows by one
/// strip of rows, and a bit of the new rows is set exactly when a set dot of
/// the strip lands on it (dot `t` of column `strip_column(bpc, t)` lands on
/// row `strip_row`, at the byte and bit of its column).
pub proof fn law_column_strip_is_row_major(
    img: ColumnImageState,
    width_bytes: u32,
    bpc: nat,
    strip: Seq<u8>,
)
    requires
        extend_image(img, width_bytes, bpc, strip) is Some,
        img.rows.len() % (width_bytes as nat) == 0,
        img.rows.len() <= u32::MAX,
    ensures
        ({
            let wb = width_bytes as nat;
            let new_rows = extend_image(img, width_bytes, bpc, strip)->0.rows;
            let row_offset = img.rows.len() / wb;
            &&& new_rows.len() == img.rows.len() + wb * bpc * 8
            &&& new_rows.subrange(0, img.rows.len() as int) == img.rows
            &&& forall|k: int, j: nat|
                img.rows.len() <= k < new_rows.len() && j < 8 ==> image_bit(new_rows, k, j)
                    == strip_hits(strip, bpc, wb, row_offset, strip.len() * 8, k, j)
        }),
{
    let wb = width_bytes as nat;
    let grow = wb * (bpc * 8);
    let row_offset = ((img.rows.len() as u32) / width_bytes) as nat;
    let n = strip.len() * 8;
    let padded = img.rows + Seq::new(grow, |k: int| 0u8);
    assert(row_offset == img.rows.len() / wb);
    lemma_paint_len(padded, strip, bpc, wb, row_offset, n);
    let new_rows = paint(padded, strip, bpc, wb, row_offset, n);
    assert(wb * (bpc * 8) == wb * bpc * 8) by (nonlinear_arith);
    assert forall|k: int, j: nat|
        img.rows.len() <= k < new_rows.len() && j < 8 implies image_bit(new_rows, k, j)
        == strip_hits(strip, bpc, wb, row_offset, n, k, j) by {
        lemma_paint_bits(padded, strip, bpc, wb, row_offset, n, k, j);
        assert(padded[k] == 0u8);
        assert(0u8 & (0x80u8 >> (j as u8)) == 0) by (bit_vector);
    }
    assert forall|k: int| 0 <= k < img.rows.len() implies new_rows[k] == img.rows[k] by {
        assert forall|j: nat| j < 8 implies image_bit(new_rows, k, j) == image_bit(img.rows, k, j) by {
            lemma_paint_bits(padded, strip, bpc, wb, row_offset, n, k, j);
            if strip_hits(strip, bpc, wb, row_offset, n, k, j) {
                let t = choose|t: nat|
                    t < n && #[trigger] strip_bit(strip, t) && strip_target(row_offset, wb, bpc, t)
                        == k && strip_column(bpc, t) % 8 == j;
                assert(strip_row(row_offset, bpc, t) >= row_offset);
                assert(strip_row(row_offset, bpc, t) * wb >= row_offset * wb) by (nonlinear_arith)
                    requires
                        strip_row(row_offset, bpc, t) >= row_offset,
                ;
                assert(row_offset * wb == img.rows.len()) by (nonlinear_arith)
                    requires
                        row_offset == img.rows.len() / wb,
                        img.rows.len() % wb == 0,
                        wb > 0,
                ;
            }
        }
        let a = new_rows[k];
        let b = img.rows[k];
        assert(image_bit(new_rows, k, 0) == image_bit(img.rows, k, 0));
        assert(image_bit(new_rows, k, 1) == image_bit(img.rows, k, 1));
        assert(image_bit(new_rows, k, 2) == image_bit(img.rows, k, 2));
        assert(image_bit(new_rows, k, 3) == image_bit(img.rows, k, 3));
        assert(image_bit(new_rows, k, 4) == image_bit(img.rows, k, 4));
        assert(image_bit(new_rows, k, 5) == image_bit(img.rows, k, 5));
        assert(image_bit(new_rows, k, 6) == image_bit(img.rows, k, 6));
        assert(image_bit(new_rows, k, 7) == image_bit(img.rows, k, 7));
        lemma_byte_from_bits(a, b);
    }
    assert(new_rows.subrange(0, img.rows.len() as int) =~= img.rows);
}

} // verus!
