//! Decodes a raw ESC/POS byte stream into structured print events.
//!
//! Matches the command set actually emitted by
//! `@point-of-sale/receipt-printer-encoder` (the `esc-pos` language, as used
//! by the WebUSBReceiptPrinter library): ESC @ / FS . (init), ESC M (font),
//! ESC a (align), ESC E (bold), ESC - (underline), ESC 4 (italic), GS B
//! (invert), GS ! (size), ESC t (codepage select), GS v 0 (raster image),
//! GS ( k (QR code / PDF417), GS k (1D barcode), ESC p (cash drawer pulse),
//! GS V (cut), plus plain text and line feeds.

use crate::codepage::{codepage_from_star_index, decode, decode_latin1, Codepage};
use crate::event::{events_view, Event, EventModel};
use crate::external::{base64_encode, base64_len};
use crate::model::{
    add_strip, after_feed, barcode_step, column_strip_step, dle_step, emit, esc_param_step,
    esc_step, extend_image, feed_result, flush_column_image, gs_step, initial_state,
    is_command_byte, lemma_first_zero, lemma_paint_len, lemma_run_step, length_prefixed_step, paint,
    raster_step, reset_state, run, skip, step, strip_bit, strip_row,
    strip_target, style_event, symbol_2d_step, symbology_name, text_run_len, text_step,
    ColumnImageState, ParserState, ParserView, RunResult, Step, StyleState,
};
use vstd::prelude::*;
use vstd::slice::slice_subrange;

verus! {

/// Accumulates `ESC *` column-mode image strips (each up to 24 pixel rows
/// tall, spanning the full image width) into the same row-major 1bpp layout
/// `GS v 0` uses, so both paths feed the same `Event::Image`.
struct ColumnImage {
    width_bytes: u32,
    rows: Vec<u8>,
}

/// The ESC/POS stream parser. It keeps the bytes of a command that has not
/// fully arrived, and the style, code page, stored QR payload and column
/// image that earlier commands left.
pub struct Parser {
    buf: Vec<u8>,
    font: &'static str,
    bold: bool,
    italic: bool,
    underline: bool,
    invert: bool,
    width: u8,
    height: u8,
    codepage: Codepage,
    pending_qr_data: Option<String>,
    column_image: Option<ColumnImage>,
}

impl View for Parser {
    type V = ParserView;

    closed spec fn view(&self) -> ParserView {
        ParserView {
            buf: self.buf@,
            state: ParserState {
                style: StyleState {
                    font: self.font@,
                    bold: self.bold,
                    italic: self.italic,
                    underline: self.underline,
                    invert: self.invert,
                    width: self.width,
                    height: self.height,
                },
                codepage: self.codepage,
                pending_qr: match self.pending_qr_data {
                    Some(s) => Some(s@),
                    None => None,
                },
                column_image: match self.column_image {
                    Some(img) => Some(ColumnImageState { width_bytes: img.width_bytes, rows: img.rows@ }),
                    None => None,
                },
            },
        }
    }
}

/// How one command went.
enum Outcome {
    /// The command has not fully arrived.
    Need,
    /// The command took this many bytes.
    Took(usize),
    /// The command makes the parser panic.
    Fault,
}

/// The exec outcome of parsing one command agrees with the step the grammar
/// prescribes.
spec fn step_taken(
    old_p: ParserView,
    new_p: ParserView,
    old_events: Seq<EventModel>,
    new_events: Seq<EventModel>,
    o: Outcome,
    s: Step,
) -> bool {
    match o {
        Outcome::Need => s is Incomplete && new_p == old_p && new_events == old_events,
        Outcome::Fault => s is Fault,
        Outcome::Took(n) => {
            &&& s matches Step::Done { len, state, events }
            &&& n == len
            &&& new_p.buf == old_p.buf
            &&& new_p.state =~= state
            &&& new_events =~= old_events + events
        },
    }
}

fn barcode_symbology_name(identifier: u8) -> (name: &'static str)
    ensures
        name@ == symbology_name(identifier),
{
    match identifier {
        0x00 => "UPC-A",
        0x01 => "UPC-E",
        0x02 => "EAN-13",
        0x03 => "EAN-8",
        0x04 => "CODE39",
        0x05 => "ITF",
        0x06 => "CODABAR",
        0x48 => "CODE93",
        0x49 => "CODE128",
        0x4b => "GS1 DataBar Omni",
        0x4c => "GS1 DataBar Truncated",
        0x4d => "GS1 DataBar Limited",
        0x4e => "GS1 DataBar Expanded",
        0x4f => "CODE128",
        _ => "barcode",
    }
}

/// Draw the set pixels of a column-mode strip into the row-major image,
/// dropping those that would land past its rows.
fn paint_strip(rows: &mut Vec<u8>, strip: &[u8], bpc: u32, wb: u32, row_offset: u32)
    requires
        bpc == 1 || bpc == 3,
        wb > 0,
        strip@.len() <= 65535 * 3,
    ensures
        final(rows)@ == paint(
            old(rows)@,
            strip@,
            bpc as nat,
            wb as nat,
            row_offset as nat,
            strip@.len() * 8,
        ),
{
    let n: u32 = (strip.len() * 8) as u32;
    let mut t: u32 = 0;
    while t < n
        invariant
            t <= n,
            n == strip@.len() * 8,
            bpc == 1 || bpc == 3,
            wb > 0,
            rows@ == paint(old(rows)@, strip@, bpc as nat, wb as nat, row_offset as nat, t as nat),
        decreases n - t,
    {
        proof {
            lemma_paint_len(old(rows)@, strip@, bpc as nat, wb as nat, row_offset as nat, t as nat);
        }
        assert(t / 8 < strip@.len()) by (nonlinear_arith)
            requires
                t < strip@.len() * 8,
        ;
        let byte = strip[(t / 8) as usize];
        if byte & (0x80u8 >> ((t % 8) as u8)) != 0 {
            let x = (t / 8) / bpc;
            let c = (t / 8) % bpc;
            let b = t % 8;
            let row: u64 = row_offset as u64 + (c * 8 + b) as u64;
            assert(strip_bit(strip@, t as nat));
            assert(row == strip_row(row_offset as nat, bpc as nat, t as nat));
            assert(row * wb <= 0x1_0000_0017 * 0xffff_ffff) by (nonlinear_arith)
                requires
                    row <= 0x1_0000_0017,
                    wb <= 0xffff_ffff,
            ;
            let target: u128 = row as u128 * wb as u128 + (x / 8) as u128;
            assert(target == strip_target(row_offset as nat, wb as nat, bpc as nat, t as nat));
            if target < rows.len() as u128 {
                let k = target as usize;
                let v = rows[k] | (0x80u8 >> ((x % 8) as u8));
                rows.set(k, v);
            }
        }
        t += 1;
    }
}

impl View for ColumnImage {
    type V = ColumnImageState;

    closed spec fn view(&self) -> ColumnImageState {
        ColumnImageState { width_bytes: self.width_bytes, rows: self.rows@ }
    }
}

/// Add a strip `wb` bytes wide to a column image: grow it by one strip of
/// blank rows and draw the strip in. `None` for a strip without width, and
/// where the rows would outgrow what a `usize` can count.
fn add_strip_to_image(image: ColumnImage, wb: u32, strip: &[u8], bpc: u32) -> (res: Option<
    ColumnImage,
>)
    requires
        bpc == 1 || bpc == 3,
        strip@.len() <= 65535 * 3,
    ensures
        match res {
            None => extend_image(image@, wb, bpc as nat, strip@) is None,
            Some(img) => extend_image(image@, wb, bpc as nat, strip@) == Some(img@),
        },
{
    let mut image = image;
    let ghost img = image@;
    let ghost image_wb = image.width_bytes;
    if wb == 0 {
        return None;
    }
    let dots: u32 = bpc * 8;
    assert(wb as u64 * dots as u64 <= 0xffff_ffff * 24) by (nonlinear_arith)
        requires
            dots <= 24,
    ;
    let grow64: u64 = wb as u64 * dots as u64;
    if grow64 > (usize::MAX - image.rows.len()) as u64 {
        return None;
    }
    let grow: usize = grow64 as usize;
    let row_offset: u32 = (image.rows.len() as u32) / wb;
    assert(wb as nat * (bpc as nat * 8) == grow);
    let ghost padded = img.rows + Seq::new(grow as nat, |k: int| 0u8);
    let mut k: usize = 0;
    while k < grow
        invariant
            k <= grow,
            image.width_bytes == image_wb,
            image.rows@ == img.rows + Seq::new(k as nat, |j: int| 0u8),
        decreases grow - k,
    {
        image.rows.push(0);
        k += 1;
        proof {
            assert(image.rows@ =~= img.rows + Seq::new(k as nat, |j: int| 0u8));
        }
    }
    assert(image.rows@ =~= padded);
    paint_strip(&mut image.rows, strip, bpc, wb, row_offset);
    proof {
        assert(image@ =~= extend_image(img, wb, bpc as nat, strip@).unwrap());
    }
    Some(image)
}

/// The bytes that end a run of printable text.
fn is_command(b: u8) -> (r: bool)
    ensures
        r == is_command_byte(b),
{
    b == 0x1b || b == 0x1d || b == 0x1c || b == 0x10 || b == 0x0a || b == 0x0d
}

/// A run result with events put in front.
spec fn prepend(events: Seq<EventModel>, r: RunResult) -> RunResult {
    RunResult { state: r.state, events: events + r.events, rest: r.rest, fault: r.fault }
}

fn push_event(events: &mut Vec<Event>, e: Event)
    ensures
        events_view(final(events)@) == events_view(old(events)@).push(e@),
{
    events.push(e);
    proof {
        assert(events_view(events@) =~= events_view(old(events)@).push(e@));
    }
}

/// Whether the base64 encoding of `n` bytes has a length that fits in a `usize`.
fn base64_fits(n: usize) -> (fits: bool)
    ensures
        fits == (base64_len(n as nat) <= usize::MAX),
{
    if n > usize::MAX - 2 {
        false
    } else {
        (n + 2) / 3 <= usize::MAX / 4
    }
}

impl Parser {
    pub fn new() -> (parser: Self)
        ensures
            parser@ == (ParserView { buf: Seq::empty(), state: initial_state() }),
    {
        let parser = Self {
            buf: Vec::new(),
            font: "a",
            bold: false,
            italic: false,
            underline: false,
            invert: false,
            width: 1,
            height: 1,
            codepage: Codepage::Cp437,
            pending_qr_data: None,
            column_image: None,
        };
        proof {
            assert(parser@ =~= (ParserView { buf: Seq::empty(), state: initial_state() }));
        }
        parser
    }

    fn style_event(&self) -> (e: Event)
        ensures
            e@ == style_event(self@.state.style),
    {
        Event::Style {
            font: self.font,
            bold: self.bold,
            italic: self.italic,
            underline: self.underline,
            invert: self.invert,
            width: self.width,
            height: self.height,
        }
    }

    fn reset_style(&mut self)
        ensures
            final(self)@ == (ParserView { buf: old(self)@.buf, state: reset_state(old(self)@.state) }),
    {
        self.font = "a";
        self.bold = false;
        self.italic = false;
        self.underline = false;
        self.invert = false;
        self.width = 1;
        self.height = 1;
        self.codepage = Codepage::Cp437;
        proof {
            assert(self@ =~= (ParserView { buf: old(self)@.buf, state: reset_state(old(self)@.state) }));
        }
    }

    /// `FS .`: select single-byte character mode. No visible effect for us.
    fn parse_fs(&self, i: usize) -> (o: Outcome)
        requires
            i < self.buf@.len(),
            self.buf@[i as int] == 0x1c,
        ensures
            step_taken(self@, self@, Seq::empty(), Seq::empty(), o, step(self@.state, self@.buf.skip(i as int))),
    {
        reveal(step);
        if self.buf.len() - i < 2 {
            Outcome::Need
        } else {
            Outcome::Took(2)
        }
    }

    /// `DLE` real-time commands: status queries and the real-time drawer kick.
    ///
    /// These matter more than their rarity suggests. Client libraries poll
    /// `DLE EOT n` for paper/cover state asynchronously, so the bytes can land
    /// between two print jobs rather than inside one; left unparsed they would
    /// print as glyphs at the top of the next receipt.
    fn parse_dle(&self, i: usize, events: &mut Vec<Event>) -> (o: Outcome)
        requires
            i < self.buf@.len(),
        ensures
            step_taken(
                self@,
                self@,
                events_view(old(events)@),
                events_view(final(events)@),
                o,
                dle_step(self@.state, self@.buf.skip(i as int)),
            ),
    {
        let avail = self.buf.len() - i;
        if avail < 2 {
            return Outcome::Need;
        }
        let c = self.buf[i + 1];
        if c == 0x04 {
            // DLE EOT n: transmit real-time status. The reply goes on the IN
            // endpoint, which nothing reads here; consuming it is enough.
            if avail < 3 { Outcome::Need } else { Outcome::Took(3) }
        } else if c == 0x05 {
            // DLE ENQ: real-time request to recover from an error.
            Outcome::Took(2)
        } else if c == 0x14 {
            if avail < 3 {
                return Outcome::Need;
            }
            let f = self.buf[i + 2];
            if f == 0x01 {
                // DLE DC4 1 m t: real-time drawer pulse.
                if avail < 5 {
                    return Outcome::Need;
                }
                push_event(events, Event::Pulse);
                Outcome::Took(5)
            } else if f == 0x02 || f == 0x03 {
                // Power-off / transmit-specified-status.
                if avail < 4 { Outcome::Need } else { Outcome::Took(4) }
            } else if f == 0x08 {
                // Clear buffer: a fixed seven-byte parameter block.
                if avail < 10 { Outcome::Need } else { Outcome::Took(10) }
            } else {
                Outcome::Took(3)
            }
        } else {
            Outcome::Took(2)
        }
    }

    /// `ESC c n`, the one-parameter `ESC` commands, once `n` has arrived.
    fn parse_esc_param(&mut self, c: u8, n: u8, events: &mut Vec<Event>) -> (o: Outcome)
        requires
            c == 0x4d || c == 0x61 || c == 0x45 || c == 0x2d || c == 0x34 || c == 0x74 || c == 0x64
                || c == 0x4a || c == 0x20 || c == 0x52 || c == 0x7b || c == 0x33 || c == 0x21,
        ensures
            step_taken(
                old(self)@,
                final(self)@,
                events_view(old(events)@),
                events_view(final(events)@),
                o,
                esc_param_step(old(self)@.state, c, n),
            ),
    {
        if c == 0x4d {
            // ESC M n: font A/B.
            self.font = if n == 1 || n == 49 { "b" } else { "a" };
            let e = self.style_event();
            push_event(events, e);
        } else if c == 0x61 {
            // ESC a n: alignment.
            let value = if n == 1 {
                "center"
            } else if n == 2 {
                "right"
            } else {
                "left"
            };
            push_event(events, Event::Align { value });
        } else if c == 0x45 {
            // ESC E n: bold.
            self.bold = n != 0;
            let e = self.style_event();
            push_event(events, e);
        } else if c == 0x2d {
            // ESC - n: underline.
            self.underline = n != 0;
            let e = self.style_event();
            push_event(events, e);
        } else if c == 0x34 {
            // ESC 4 n: italic.
            self.italic = n != 0;
            let e = self.style_event();
            push_event(events, e);
        } else if c == 0x74 {
            // ESC t n: code page.
            self.codepage = codepage_from_star_index(n);
        } else if c == 0x64 {
            // ESC d n: feed n lines. Preserve the vertical space instead of
            // letting the parameter byte leak into printable text.
            let mut k: u8 = 0;
            while k < n
                invariant
                    k <= n,
                    self@ == old(self)@,
                    events_view(events@) == events_view(old(events)@) + Seq::new(
                        k as nat,
                        |j: int| EventModel::NewLine,
                    ),
                decreases n - k,
            {
                push_event(events, Event::NewLine);
                k += 1;
                proof {
                    assert(Seq::new(k as nat, |j: int| EventModel::NewLine) =~= Seq::new(
                        (k - 1) as nat,
                        |j: int| EventModel::NewLine,
                    ).push(EventModel::NewLine));
                }
            }
        } else if c == 0x21 {
            // ESC ! n: the older combined print-mode byte, which some simpler
            // client libraries send instead of ESC E / GS !.
            self.font = if n & 0x01 != 0 { "b" } else { "a" };
            self.bold = n & 0x08 != 0;
            self.width = if n & 0x20 != 0 { 2 } else { 1 };
            self.height = if n & 0x10 != 0 { 2 } else { 1 };
            self.underline = n & 0x80 != 0;
            let e = self.style_event();
            push_event(events, e);
        }
        // ESC J / ESC space / ESC R / ESC { / ESC 3: configuration only.
        proof {
            assert(events_view(events@) =~= events_view(old(events)@) + match esc_param_step(old(self)@.state, c, n) {
                Step::Done { events, .. } => events,
                _ => Seq::empty(),
            });
        }
        Outcome::Took(3)
    }

    /// `ESC 2`: reset line spacing, which is also how the encoder marks the
    /// end of a column-mode image; flush whatever was accumulated.
    fn flush_column_image(&mut self, events: &mut Vec<Event>) -> (o: Outcome)
        ensures
            step_taken(
                old(self)@,
                final(self)@,
                events_view(old(events)@),
                events_view(final(events)@),
                o,
                flush_column_image(old(self)@.state),
            ),
    {
        match self.column_image.take() {
            None => {
                proof {
                    assert(self@ =~= old(self)@);
                }
                Outcome::Took(2)
            },
            Some(image) => {
                if image.width_bytes == 0 || image.width_bytes > u32::MAX / 8 || !base64_fits(
                    image.rows.len(),
                ) {
                    return Outcome::Fault;
                }
                let bits = base64_encode(image.rows.as_slice());
                push_event(
                    events,
                    Event::Image {
                        width: image.width_bytes * 8,
                        height: (image.rows.len() as u32) / image.width_bytes,
                        bits,
                    },
                );
                Outcome::Took(2)
            },
        }
    }

    /// Skip an unsupported `GS ( x pL pH ...` command without losing stream
    /// synchronization. Its length has the same framing as `GS ( k`.
    fn skip_length_prefixed_gs_command(&self, i: usize) -> (o: Outcome)
        requires
            i < self.buf@.len(),
        ensures
            step_taken(
                self@,
                self@,
                Seq::empty(),
                Seq::empty(),
                o,
                length_prefixed_step(self@.state, self@.buf.skip(i as int)),
            ),
    {
        let avail = self.buf.len() - i;
        if avail < 5 {
            return Outcome::Need;
        }
        let p_l = self.buf[i + 3] as usize;
        let p_h = self.buf[i + 4] as usize;
        let consumed = 5 + p_l + p_h * 256;
        if avail < consumed {
            return Outcome::Need;
        }
        Outcome::Took(consumed)
    }

    /// `GS v 0`: raster bit image. Format: mode, xL, xH (width in bytes),
    /// yL, yH (height in dots), then packed 1-bit-per-pixel row data.
    fn parse_raster_image(&self, i: usize, events: &mut Vec<Event>) -> (o: Outcome)
        requires
            i < self.buf@.len(),
        ensures
            step_taken(
                self@,
                self@,
                events_view(old(events)@),
                events_view(final(events)@),
                o,
                raster_step(self@.state, self@.buf.skip(i as int)),
            ),
    {
        let avail = self.buf.len() - i;
        if avail < 8 {
            return Outcome::Need;
        }
        let x_l = self.buf[i + 4] as u32;
        let x_h = self.buf[i + 5] as u32;
        let y_l = self.buf[i + 6] as u32;
        let y_h = self.buf[i + 7] as u32;
        let width_bytes = x_l + x_h * 256;
        let height = y_l + y_h * 256;
        assert(width_bytes * height <= 65535 * 65535) by (nonlinear_arith)
            requires
                width_bytes <= 65535,
                height <= 65535,
        ;
        let total = (width_bytes * height) as usize;
        let ghost d = self@.buf.skip(i as int);
        assert(total as nat == (d[4] as nat + d[5] as nat * 256) * (d[6] as nat + d[7] as nat * 256));
        if avail - 8 < total {
            return Outcome::Need;
        }
        if !base64_fits(total) {
            return Outcome::Fault;
        }
        let bits = base64_encode(slice_subrange(self.buf.as_slice(), i + 8, i + 8 + total));
        let e = Event::Image { width: width_bytes * 8, height, bits };
        push_event(events, e);
        proof {
            assert(d.subrange(8, 8 + total as int) =~= self@.buf.subrange(i + 8, i + 8 + total));
            assert(raster_step(self@.state, d) == emit(self@.state, (8 + total) as nat, e@));
        }
        Outcome::Took(8 + total)
    }

    /// `GS ( k pL pH cn fn [params]`: the 2D symbol family (QR/PDF417/etc).
    /// `pL`/`pH` count bytes from `cn` onward, so the whole command is
    /// `5 + pL + 256*pH` bytes.
    #[verifier::rlimit(40)]
    fn parse_2d_symbol(&mut self, i: usize, events: &mut Vec<Event>) -> (o: Outcome)
        requires
            i < old(self).buf@.len(),
        ensures
            step_taken(
                old(self)@,
                final(self)@,
                events_view(old(events)@),
                events_view(final(events)@),
                o,
                symbol_2d_step(old(self)@.state, old(self)@.buf.skip(i as int)),
            ),
    {
        let avail = self.buf.len() - i;
        if avail < 5 {
            return Outcome::Need;
        }
        let p_l = self.buf[i + 3] as usize;
        let p_h = self.buf[i + 4] as usize;
        let total_len = p_l + p_h * 256;
        let consumed = 5 + total_len;
        if avail < consumed {
            return Outcome::Need;
        }
        if total_len < 2 {
            // Too short to name a function: nothing to do but skip it.
            return Outcome::Took(consumed);
        }
        let cn = self.buf[i + 5];
        let fn_ = self.buf[i + 6];
        if cn == 0x31 && fn_ == 0x50 {
            // Store data: params[2] is a fixed sub-function byte (0x30).
            if total_len < 3 {
                return Outcome::Took(consumed);
            }
            let qr = decode_latin1(slice_subrange(self.buf.as_slice(), i + 8, i + consumed));
            self.pending_qr_data = Some(qr);
        } else if cn == 0x31 && fn_ == 0x51 {
            // Print the stored symbol.
            if let Some(qr_data) = self.pending_qr_data.take() {
                push_event(events, Event::QrCode { data: qr_data });
            }
        }
        proof {
            assert(events_view(events@) =~= events_view(old(events)@) + match symbol_2d_step(
                old(self)@.state,
                old(self)@.buf.skip(i as int),
            ) {
                Step::Done { events, .. } => events,
                _ => Seq::empty(),
            });
        }
        Outcome::Took(consumed)
    }

    /// `GS k m ...`: a 1D barcode.
    fn parse_barcode(&self, i: usize, events: &mut Vec<Event>) -> (o: Outcome)
        requires
            i < self.buf@.len(),
        ensures
            step_taken(
                self@,
                self@,
                events_view(old(events)@),
                events_view(final(events)@),
                o,
                barcode_step(self@.state, self@.buf.skip(i as int)),
            ),
    {
        let ghost d = self@.buf.skip(i as int);
        let avail = self.buf.len() - i;
        if avail < 3 {
            return Outcome::Need;
        }
        let identifier = self.buf[i + 2];
        let symbology = barcode_symbology_name(identifier);
        if identifier > 0x40 {
            // Function B: a length byte, then the data.
            if avail < 4 {
                return Outcome::Need;
            }
            let len = self.buf[i + 3] as usize;
            if avail - 4 < len {
                return Outcome::Need;
            }
            let data = decode_latin1(slice_subrange(self.buf.as_slice(), i + 4, i + 4 + len));
            let e = Event::Barcode { symbology, data };
            push_event(events, e);
            proof {
                assert(d.subrange(4, 4 + len as int) =~= self@.buf.subrange(i + 4, i + 4 + len));
            }
            Outcome::Took(4 + len)
        } else {
            // Function A: the data ends at a NUL byte.
            let start = i + 3;
            let mut end = start;
            while end < self.buf.len() && self.buf[end] != 0
                invariant
                    start <= end <= self.buf@.len(),
                    forall|k: int| start <= k < end ==> self.buf@[k] != 0,
                decreases self.buf@.len() - end,
            {
                end += 1;
            }
            proof {
                let s = d.skip(3);
                assert forall|k: int| 0 <= k < (end - start) implies s[k] != 0 by {
                    assert(s[k] == self.buf@[start + k]);
                }
                lemma_first_zero(s, (end - start) as nat);
            }
            if end == self.buf.len() {
                return Outcome::Need;
            }
            let data = decode_latin1(slice_subrange(self.buf.as_slice(), start, end));
            let e = Event::Barcode { symbology, data };
            push_event(events, e);
            proof {
                assert(d.subrange(3, 3 + (end - start)) =~= self@.buf.subrange(start as int, end as int));
            }
            Outcome::Took(end + 1 - i)
        }
    }

    /// `ESC * m nL nH data... LF`: one column-mode image strip, up to 24 pixel
    /// rows tall and `width` columns wide. `m` selects 8 dots/column (1 byte)
    /// or 24 dots/column (3 bytes). Bits are column-major (bit 7 of byte 0 is
    /// the topmost pixel of that column); they are converted here into the
    /// row-major layout `Event::Image` expects, and accumulated across strips
    /// since a tall image arrives as multiple consecutive `ESC *` commands.
    /// Each strip is laid out by its own width; the image is reported with
    /// the width of its first strip. A strip without columns draws nothing.
    #[verifier::rlimit(60)]
    #[verifier::spinoff_prover]
    fn parse_column_image_strip(&mut self, i: usize) -> (o: Outcome)
        requires
            i < old(self).buf@.len(),
        ensures
            step_taken(
                old(self)@,
                final(self)@,
                Seq::empty(),
                Seq::empty(),
                o,
                column_strip_step(old(self)@.state, old(self)@.buf.skip(i as int)),
            ),
    {
        let ghost d = self@.buf.skip(i as int);
        let ghost old_state = self@.state;
        let avail = self.buf.len() - i;
        if avail < 5 {
            return Outcome::Need;
        }
        let m = self.buf[i + 2];
        let width: u32 = self.buf[i + 3] as u32 + self.buf[i + 4] as u32 * 256;
        let bpc: u32 = if m == 32 || m == 33 { 3 } else { 1 };
        assert(width * bpc * 8 <= 65535 * 3 * 8) by (nonlinear_arith)
            requires
                width <= 65535,
                bpc <= 3,
        ;
        let total: usize = (width * bpc) as usize;
        if avail - 5 < total + 1 {
            return Outcome::Need;
        }
        let strip = slice_subrange(self.buf.as_slice(), i + 5, i + 5 + total);
        assert(strip@ =~= d.subrange(5, 5 + total as int));

        assert(total as nat == width as nat * bpc as nat);
        if width == 0 {
            // A strip without columns: nothing to draw.
            return Outcome::Took(total + 6);
        }
        let width_bytes: u32 = (width + 7) / 8;
        let image = match self.column_image.take() {
            Some(image) => image,
            None => ColumnImage { width_bytes, rows: Vec::new() },
        };
        let ghost current = old_state.column_image;
        assert(image@ == match current {
            Some(img) => img,
            None => ColumnImageState { width_bytes: ((width + 7) / 8) as u32, rows: Seq::empty() },
        });
        match add_strip_to_image(image, width_bytes, strip, bpc) {
            None => Outcome::Fault,
            Some(image) => {
                self.column_image = Some(image);
                proof {
                    assert(self@.state =~= ParserState {
                        column_image: add_strip(current, width as nat, bpc as nat, strip@),
                        ..old_state
                    });
                }
                Outcome::Took(total + 6)
            },
        }
    }

    /// `ESC` commands.
    fn parse_esc(&mut self, i: usize, events: &mut Vec<Event>) -> (o: Outcome)
        requires
            i < old(self).buf@.len(),
        ensures
            step_taken(
                old(self)@,
                final(self)@,
                events_view(old(events)@),
                events_view(final(events)@),
                o,
                esc_step(old(self)@.state, old(self)@.buf.skip(i as int)),
            ),
    {
        let avail = self.buf.len() - i;
        if avail < 2 {
            return Outcome::Need;
        }
        let c = self.buf[i + 1];
        if c == 0x40 {
            // ESC @: initialize.
            self.reset_style();
            push_event(events, Event::Init);
            Outcome::Took(2)
        } else if c == 0x69 || c == 0x6d {
            // ESC i / ESC m: legacy Epson full/partial cut commands.
            push_event(events, Event::Cut);
            Outcome::Took(2)
        } else if c == 0x32 {
            // ESC 2: reset line spacing.
            self.flush_column_image(events)
        } else if c == 0x2a {
            // ESC *: column-mode image strip.
            let o = self.parse_column_image_strip(i);
            proof {
                assert(events_view(events@) =~= events_view(events@) + Seq::empty());
            }
            o
        } else if c == 0x70 {
            // ESC p m t1 t2: cash drawer pulse.
            if avail < 5 {
                return Outcome::Need;
            }
            push_event(events, Event::Pulse);
            Outcome::Took(5)
        } else if c == 0x24 || c == 0x5c {
            // ESC $ / ESC \: absolute/relative horizontal position.
            if avail < 4 { Outcome::Need } else { Outcome::Took(4) }
        } else if c == 0x4d || c == 0x61 || c == 0x45 || c == 0x2d || c == 0x34 || c == 0x74
            || c == 0x64 || c == 0x4a || c == 0x20 || c == 0x52 || c == 0x7b || c == 0x33
            || c == 0x21 {
            // ESC M / a / E / - / 4 / t / d / J / space / R / { / 3 / !
            if avail < 3 {
                return Outcome::Need;
            }
            let n = self.buf[i + 2];
            self.parse_esc_param(c, n, events)
        } else {
            Outcome::Took(2)
        }
    }

    /// `GS` commands.
    fn parse_gs(&mut self, i: usize, events: &mut Vec<Event>) -> (o: Outcome)
        requires
            i < old(self).buf@.len(),
        ensures
            step_taken(
                old(self)@,
                final(self)@,
                events_view(old(events)@),
                events_view(final(events)@),
                o,
                gs_step(old(self)@.state, old(self)@.buf.skip(i as int)),
            ),
    {
        let avail = self.buf.len() - i;
        if avail < 2 {
            return Outcome::Need;
        }
        let c = self.buf[i + 1];
        if c == 0x6b {
            // GS k: 1D barcode.
            self.parse_barcode(i, events)
        } else if c == 0x76 {
            // GS v 0: raster image.
            self.parse_raster_image(i, events)
        } else if c == 0x28 {
            // GS (: do not decide that the command is unknown until the
            // discriminator byte arrives; USB bulk packets can split anywhere.
            if avail < 3 {
                return Outcome::Need;
            }
            if self.buf[i + 2] == 0x6b {
                self.parse_2d_symbol(i, events)
            } else {
                let o = self.skip_length_prefixed_gs_command(i);
                proof {
                    assert(events_view(events@) =~= events_view(events@) + Seq::empty());
                }
                o
            }
        } else if c == 0x4c || c == 0x57 || c == 0x24 || c == 0x5c || c == 0x50 {
            // GS L / W / $ / \ / P: print-area and positioning setup.
            if avail < 4 { Outcome::Need } else { Outcome::Took(4) }
        } else if c == 0x56 || c == 0x21 || c == 0x42 || c == 0x68 || c == 0x77 || c == 0x48
            || c == 0x66 || c == 0x49 {
            if avail < 3 {
                return Outcome::Need;
            }
            let n = self.buf[i + 2];
            if c == 0x56 {
                // GS V m [n]: cut.
                if n == 65 || n == 66 {
                    if avail < 4 {
                        return Outcome::Need;
                    }
                    push_event(events, Event::Cut);
                    Outcome::Took(4)
                } else {
                    push_event(events, Event::Cut);
                    Outcome::Took(3)
                }
            } else if c == 0x21 {
                // GS ! n: character size, 1x to 8x each way.
                assert(n & 0x07 <= 7 && (n >> 4) & 0x07 <= 7) by (bit_vector);
                self.height = (n & 0x07) + 1;
                self.width = ((n >> 4) & 0x07) + 1;
                let e = self.style_event();
                push_event(events, e);
                Outcome::Took(3)
            } else if c == 0x42 {
                // GS B n: invert.
                self.invert = n != 0;
                let e = self.style_event();
                push_event(events, e);
                Outcome::Took(3)
            } else {
                // GS h / w / H (barcode height, width, text position),
                // GS f / I: configuration only.
                Outcome::Took(3)
            }
        } else {
            Outcome::Took(2)
        }
    }

    /// A run of printable text, decoded through the selected code page.
    fn parse_text(&self, i: usize, events: &mut Vec<Event>) -> (o: Outcome)
        requires
            i < self.buf@.len(),
        ensures
            step_taken(
                self@,
                self@,
                events_view(old(events)@),
                events_view(final(events)@),
                o,
                text_step(self@.state, self@.buf.skip(i as int)),
            ),
    {
        let ghost d = self@.buf.skip(i as int);
        let mut j = i;
        while j < self.buf.len() && !is_command(self.buf[j])
            invariant
                i <= j <= self.buf@.len(),
                text_run_len(d) == (j - i) + text_run_len(self@.buf.skip(j as int)),
            decreases self.buf@.len() - j,
        {
            proof {
                assert(self@.buf.skip(j as int).drop_first() =~= self@.buf.skip(j + 1));
            }
            j += 1;
        }
        let raw = slice_subrange(self.buf.as_slice(), i, j);
        assert(raw@ =~= d.take((j - i) as int));
        let text = decode(self.codepage, raw);
        if !text.as_str().is_empty() {
            push_event(events, Event::Text { text });
        } else {
            proof {
                assert(events_view(events@) =~= events_view(events@) + Seq::empty());
            }
        }
        Outcome::Took(j - i)
    }

    /// The command at position `i` of the buffer.
    fn parse_command(&mut self, i: usize, events: &mut Vec<Event>) -> (o: Outcome)
        requires
            i < old(self).buf@.len(),
        ensures
            step_taken(
                old(self)@,
                final(self)@,
                events_view(old(events)@),
                events_view(final(events)@),
                o,
                step(old(self)@.state, old(self)@.buf.skip(i as int)),
            ),
    {
        reveal(step);
        let b = self.buf[i];
        if b == 0x0a {
            push_event(events, Event::NewLine);
            Outcome::Took(1)
        } else if b == 0x0d {
            proof {
                assert(events_view(events@) =~= events_view(events@) + Seq::empty());
            }
            Outcome::Took(1)
        } else if b == 0x1b {
            self.parse_esc(i, events)
        } else if b == 0x1d {
            self.parse_gs(i, events)
        } else if b == 0x1c {
            let o = self.parse_fs(i);
            proof {
                assert(events_view(events@) =~= events_view(events@) + Seq::empty());
            }
            o
        } else if b == 0x10 {
            self.parse_dle(i, events)
        } else {
            self.parse_text(i, events)
        }
    }

    /// Feed newly-received bytes and return every event they complete, or
    /// `None` where the bytes hold a command that the parser panics on. For a
    /// parser that `new` made and `feed_checked` fed, that is only an image
    /// whose rows, or whose base64 text, would outgrow what a `usize` can
    /// count (`laws::law_feed_fails_only_on_oversized_images`).
    /// Bytes that form an incomplete command are held until more data arrives.
    #[verifier::rlimit(50)]
    pub fn feed_checked(&mut self, data: &[u8]) -> (result: Option<Vec<Event>>)
        ensures
            result is None <==> feed_result(old(self)@, data@).fault,
            result matches Some(events) ==> {
                &&& final(self)@ == after_feed(old(self)@, data@)
                &&& events_view(events@) == feed_result(old(self)@, data@).events
            },
    {
        let mut k: usize = 0;
        while k < data.len()
            invariant
                k <= data@.len(),
                self@.state == old(self)@.state,
                self@.buf == old(self)@.buf + data@.take(k as int),
            decreases data@.len() - k,
        {
            self.buf.push(data[k]);
            k += 1;
            proof {
                assert(self@.buf =~= old(self)@.buf + data@.take(k as int));
            }
        }
        let ghost st0 = self@.state;
        let ghost full = self@.buf;
        assert(full =~= old(self)@.buf + data@);
        let mut events: Vec<Event> = Vec::new();
        let mut i: usize = 0;
        assert(full.skip(0) =~= full);
        assert(events_view(events@) =~= Seq::empty());
        loop
            invariant
                self@.buf == full,
                i <= full.len(),
                run(st0, full) == feed_result(old(self)@, data@),
                run(st0, full) =~= prepend(events_view(events@), run(self@.state, full.skip(i as int))),
            ensures
                self@.buf == full,
                i <= full.len(),
                run(st0, full) =~= (RunResult {
                    state: self@.state,
                    events: events_view(events@),
                    rest: full.skip(i as int),
                    fault: false,
                }),
            decreases full.len() - i,
        {
            if i == self.buf.len() {
                break;
            }
            let ghost s = self@.state;
            let ghost d = full.skip(i as int);
            let ghost before = events_view(events@);
            proof {
                lemma_run_step(s, d);
            }
            match self.parse_command(i, &mut events) {
                Outcome::Need => break,
                Outcome::Fault => return None,
                Outcome::Took(n) => {
                    proof {
                        let evs = step(s, d)->events;
                        let r = run(self@.state, d.skip(n as int));
                        assert(d.skip(n as int) =~= full.skip(i + n));
                        assert(before + (evs + r.events) =~= events_view(events@) + r.events);
                    }
                    i += n;
                },
            }
        }
        let rest = self.buf.split_off(i);
        self.buf = rest;
        proof {
            assert(self@ =~= after_feed(old(self)@, data@));
        }
        Some(events)
    }

    /// Feed newly-received bytes and return every event they complete.
    /// Bytes that form an incomplete command are held until more data arrives.
    /// The bytes must not hold an image too large for a `usize` to count (see
    /// `feed_checked`).
    pub fn feed(&mut self, data: &[u8]) -> (events: Vec<Event>)
        requires
            !feed_result(old(self)@, data@).fault,
        ensures
            final(self)@ == after_feed(old(self)@, data@),
            events_view(events@) == feed_result(old(self)@, data@).events,
    {
        match self.feed_checked(data) {
            Some(events) => events,
            None => Vec::new(),
        }
    }

    /// The number of bytes held back as the start of an incomplete command.
    pub fn buffered_len(&self) -> (n: usize)
        ensures
            n == self@.buf.len(),
    {
        self.buf.len()
    }
}

impl Default for Parser {
    fn default() -> (parser: Self)
        ensures
            parser@ == (ParserView { buf: Seq::empty(), state: initial_state() }),
    {
        Self::new()
    }
}

} // verus!
