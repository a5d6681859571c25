//! What holds of the parser across calls: how the events of a byte stream
//! depend on the way the stream is cut into USB packets, and what the parser
//! holds back between packets.

use crate::codepage::{decoded, lemma_decoded_append};
use crate::event::EventModel;
use crate::codepage::latin1;
use crate::model::{
    after_feed, alignment_name, barcode_step, bytes_per_column, column_strip_step, dle_step, emit,
    esc_param_step, esc_step, feed_result, flush_column_image, gs_step, is_command_byte,
    lemma_paint_len, lemma_run_step, lemma_step_prefix, lemma_text_run_len_append, restyle, run, step, style_event,
    symbol_2d_step, symbology_name, text_run_len, with_style, ColumnImageState, ParserState,
    ParserView, RunResult, Step, StyleState,
};
use crate::external::{base64_len, base64_standard};
use crate::receipt::{barcode_code128_bytes, barcode_setup, flag, le16, qr_setup, qrcode_bytes, size_byte};
use vstd::prelude::*;

verus! {

/// Append an event to a list in which adjacent text is joined: a text event
/// that follows a text event is merged into it.
pub open spec fn join_text(acc: Seq<EventModel>, e: EventModel) -> Seq<EventModel> {
    match e {
        EventModel::Text { text } => {
            if acc.len() > 0 && acc.last() is Text {
                acc.drop_last().push(EventModel::Text { text: acc.last()->text + text })
            } else {
                acc.push(e)
            }
        },
        _ => acc.push(e),
    }
}

/// Append the events `evs` one by one, joining adjacent text.
pub open spec fn absorb(acc: Seq<EventModel>, evs: Seq<EventModel>) -> Seq<EventModel>
    decreases evs.len(),
{
    if evs.len() == 0 {
        acc
    } else {
        absorb(join_text(acc, evs[0]), evs.drop_first())
    }
}

/// The events with every run of adjacent text events merged into one: what
/// is printed, regardless of how the text arrived.
pub open spec fn coalesce(evs: Seq<EventModel>) -> Seq<EventModel> {
    absorb(Seq::empty(), evs)
}

proof fn lemma_absorb_append(acc: Seq<EventModel>, a: Seq<EventModel>, b: Seq<EventModel>)
    ensures
        absorb(acc, a + b) == absorb(absorb(acc, a), b),
    decreases a.len(),
{
    if a.len() == 0 {
        assert(a + b =~= b);
    } else {
        assert((a + b).drop_first() =~= a.drop_first() + b);
        assert((a + b)[0] == a[0]);
        lemma_absorb_append(join_text(acc, a[0]), a.drop_first(), b);
    }
}

/// The events of a text run whose bytes decode to `text`.
spec fn text_events(text: Seq<char>) -> Seq<EventModel> {
    if text.len() > 0 { seq![EventModel::Text { text }] } else { Seq::empty() }
}

/// Two text runs side by side print as the run of both.
proof fn lemma_absorb_text_pair(acc: Seq<EventModel>, t1: Seq<char>, t2: Seq<char>)
    ensures
        absorb(acc, text_events(t1) + text_events(t2)) == absorb(acc, text_events(t1 + t2)),
{
    reveal_with_fuel(absorb, 3);
    if t1.len() == 0 {
        assert(t1 + t2 =~= t2);
        assert(text_events(t1) + text_events(t2) =~= text_events(t2));
    } else if t2.len() == 0 {
        assert(t1 + t2 =~= t1);
        assert(text_events(t1) + text_events(t2) =~= text_events(t1));
    } else {
        let e1 = EventModel::Text { text: t1 };
        let e2 = EventModel::Text { text: t2 };
        let ew = EventModel::Text { text: t1 + t2 };
        assert(text_events(t1) + text_events(t2) =~= seq![e1, e2]);
        assert(seq![e1, e2].drop_first() =~= seq![e2]);
        let j1 = join_text(acc, e1);
        assert(j1.len() > 0 && j1.last() is Text);
        if acc.len() > 0 && acc.last() is Text {
            assert(acc.last()->text + t1 + t2 =~= acc.last()->text + (t1 + t2));
            assert(join_text(j1, e2) =~= join_text(acc, ew));
        } else {
            assert(join_text(j1, e2) =~= join_text(acc, ew));
        }
    }
}

/// Cutting a byte stream in two and parsing the halves one after another
/// (the second half behind whatever the first left unparsed) gives the same
/// end state and held bytes as parsing the whole, faults on the same input,
/// and prints the same: the events agree once adjacent text is merged.
#[verifier::spinoff_prover]
#[verifier::rlimit(40)]
proof fn lemma_run_split(st: ParserState, x: Seq<u8>, y: Seq<u8>, acc: Seq<EventModel>)
    ensures
        ({
            let r1 = run(st, x);
            let r2 = run(r1.state, r1.rest + y);
            let rw = run(st, x + y);
            &&& r1.fault ==> rw.fault
            &&& !r1.fault ==> {
                &&& rw.fault == r2.fault
                &&& rw.state == r2.state
                &&& rw.rest == r2.rest
                &&& absorb(acc, r1.events + r2.events) == absorb(acc, rw.events)
            }
        }),
    decreases x.len(),
{
    let r1 = run(st, x);
    if x.len() == 0 {
        assert(x + y =~= y);
        assert(r1.rest + y =~= y);
        assert(r1.events + run(st, y).events =~= run(st, y).events);
    } else {
        lemma_run_step(st, x);
        assert((x + y).len() > 0);
        lemma_run_step(st, x + y);
        match step(st, x) {
            Step::Incomplete => {
                assert(r1.rest + y == x + y);
                assert(r1.events + run(st, x + y).events =~= run(st, x + y).events);
            },
            Step::Fault => {
                lemma_step_prefix(st, x, y);
            },
            Step::Done { len, state, events } => {
                let xs = x.skip(len as int);
                if is_command_byte(x[0]) || len < x.len() {
                    lemma_step_prefix(st, x, y);
                    assert((x + y).skip(len as int) =~= xs + y);
                    lemma_run_split(state, xs, y, absorb(acc, events));
                    let r1s = run(state, xs);
                    let r2 = run(r1.state, r1.rest + y);
                    let rws = run(state, xs + y);
                    if !r1.fault {
                        lemma_absorb_append(acc, events, r1s.events + r2.events);
                        lemma_absorb_append(acc, events, rws.events);
                        assert(r1.events + r2.events =~= events + (r1s.events + r2.events));
                    }
                } else {
                    // A run of text that reaches the end of x continues into y.
                    reveal(step);
                    assert(len == x.len());
                    assert(xs.len() == 0);
                    assert(state == st);
                    lemma_text_run_len_append(x, y);
                    let k = text_run_len(y);
                    let t1 = decoded(st.codepage, x);
                    let t2 = decoded(st.codepage, y.take(k as int));
                    assert(x.take(len as int) =~= x);
                    assert((x + y).take((len + k) as int) =~= x + y.take(k as int));
                    lemma_decoded_append(st.codepage, x, y.take(k as int));
                    assert(r1.rest + y =~= y);
                    assert((x + y).skip((len + k) as int) =~= y.skip(k as int));
                    let rest = run(st, y.skip(k as int));
                    if k == 0 {
                        assert(y.take(0) =~= Seq::<u8>::empty());
                        assert(t2 =~= Seq::<char>::empty());
                        assert(t1 + t2 =~= t1);
                        assert(y.skip(0) =~= y);
                        assert(r1.events + run(st, y).events =~= events + rest.events);
                    } else {
                        lemma_run_step(st, y);
                        assert(r1.events + run(st, y).events =~= text_events(t1) + text_events(t2)
                            + rest.events);
                        lemma_absorb_append(acc, text_events(t1) + text_events(t2), rest.events);
                        lemma_absorb_append(acc, text_events(t1 + t2), rest.events);
                        lemma_absorb_text_pair(acc, t1, t2);
                    }
                }
            },
        }
    }
}

/// Packet boundaries do not matter: feeding `a` and then `b` to a parser
/// leaves it exactly as feeding `a + b` at once does, faults on the same
/// input, and prints the same events, except that a run of text cut by the
/// boundary may arrive as two text events instead of one.
pub proof fn law_packet_boundaries_do_not_matter(p: ParserView, a: Seq<u8>, b: Seq<u8>)
    ensures
        ({
            let first = feed_result(p, a);
            let second = feed_result(after_feed(p, a), b);
            let whole = feed_result(p, a + b);
            &&& first.fault ==> whole.fault
            &&& !first.fault ==> {
                &&& whole.fault == second.fault
                &&& after_feed(after_feed(p, a), b) == after_feed(p, a + b)
                &&& coalesce(first.events + second.events) == coalesce(whole.events)
            }
        }),
{
    assert(p.buf + (a + b) =~= (p.buf + a) + b);
    lemma_run_split(p.state, p.buf + a, b, Seq::empty());
}

proof fn lemma_run_rest(st: ParserState, d: Seq<u8>)
    ensures
        !run(st, d).fault ==> run(st, d).rest.len() == 0 || step(
            run(st, d).state,
            run(st, d).rest,
        ) is Incomplete,
    decreases d.len(),
{
    if d.len() > 0 {
        lemma_run_step(st, d);
        if let Step::Done { len, state, .. } = step(st, d) {
            lemma_run_rest(state, d.skip(len as int));
        }
    }
}

/// The bytes a parser holds back after a feed are the start of a command
/// that has not fully arrived, or nothing at all.
pub proof fn law_held_bytes_start_an_incomplete_command(p: ParserView, data: Seq<u8>)
    ensures
        !feed_result(p, data).fault ==> {
            let q = after_feed(p, data);
            q.buf.len() == 0 || step(q.state, q.buf) is Incomplete
        },
{
    lemma_run_rest(p.state, p.buf + data);
}

/// Feeding no bytes to a parser whose held bytes start an incomplete command
/// (as they do after every feed) reports nothing and changes nothing.
pub proof fn law_feeding_nothing_changes_nothing(p: ParserView)
    requires
        p.buf.len() == 0 || step(p.state, p.buf) is Incomplete,
    ensures
        !feed_result(p, Seq::empty()).fault,
        feed_result(p, Seq::empty()).events.len() == 0,
        after_feed(p, Seq::empty()) == p,
{
    assert(p.buf + Seq::empty() =~= p.buf);
    if p.buf.len() > 0 {
        lemma_run_step(p.state, p.buf);
    }
}

/// A complete command in front of more bytes: its events come first, then
/// those of the bytes behind it, parsed in the state it leaves.
pub(crate) proof fn lemma_run_command(st: ParserState, c: Seq<u8>, rest: Seq<u8>)
    requires
        c.len() > 0,
        is_command_byte(c[0]),
        step(st, c) matches Step::Done { len, .. } && len == c.len(),
    ensures
        ({
            let s = step(st, c);
            let r = run(s->state, rest);
            run(st, c + rest) == RunResult {
                state: r.state,
                events: s->events + r.events,
                rest: r.rest,
                fault: r.fault,
            }
        }),
{
    lemma_step_prefix(st, c, rest);
    lemma_run_step(st, c + rest);
    assert((c + rest).skip(c.len() as int) =~= rest);
}

/// The parser reads back what the receipt encoder writes: the bold, italic,
/// underline and invert commands each parse, in one step, to the style they
/// set.
pub proof fn law_style_commands_parse_back(st: ParserState, on: bool)
    ensures
        step(st, seq![0x1bu8, 0x45, flag(on)]) == restyle(st, 3, StyleState { bold: on, ..st.style }),
        step(st, seq![0x1bu8, 0x34, flag(on)]) == restyle(st, 3, StyleState { italic: on, ..st.style }),
        step(st, seq![0x1bu8, 0x2d, flag(on)]) == restyle(
            st,
            3,
            StyleState { underline: on, ..st.style },
        ),
        step(st, seq![0x1du8, 0x42, flag(on)]) == restyle(st, 3, StyleState { invert: on, ..st.style }),
{
    assert(step(st, seq![0x1bu8, 0x45, flag(on)]) == restyle(st, 3, StyleState { bold: on, ..st.style })) by {
        reveal(step);
    }
    assert(step(st, seq![0x1bu8, 0x34, flag(on)]) == restyle(st, 3, StyleState { italic: on, ..st.style })) by {
        reveal(step);
    }
    assert(step(st, seq![0x1bu8, 0x2d, flag(on)]) == restyle(st, 3, StyleState { underline: on, ..st.style })) by {
        reveal(step);
    }
    assert(step(st, seq![0x1du8, 0x42, flag(on)]) == restyle(st, 3, StyleState { invert: on, ..st.style })) by {
        reveal(step);
    }
}

/// The alignment command of the encoder parses back to its alignment.
pub proof fn law_align_parses_back(st: ParserState, n: u8)
    ensures
        step(st, seq![0x1bu8, 0x61, n]) == emit(st, 3, EventModel::Align { value: alignment_name(n) }),
{
    reveal(step);
}

/// The character size command of the encoder parses back to the width and
/// height it was given, for sizes 1 to 8.
pub proof fn law_size_parses_back(st: ParserState, width: u8, height: u8)
    requires
        1 <= width <= 8,
        1 <= height <= 8,
    ensures
        step(st, seq![0x1du8, 0x21, size_byte(width, height)]) == restyle(
            st,
            3,
            StyleState { width, height, ..st.style },
        ),
{
    reveal(step);
    assert(1 <= width <= 8 && 1 <= height <= 8 ==> ((((width - 1) as u8) << 4u8) | ((height
        - 1) as u8)) & 0x07 == height - 1 && (((((width - 1) as u8) << 4u8) | ((height
        - 1) as u8)) >> 4u8) & 0x07 == width - 1) by (bit_vector);
}

/// The cut and drawer pulse commands of the encoder parse back to a cut and
/// a pulse.
pub proof fn law_cut_and_pulse_parse_back(st: ParserState)
    ensures
        step(st, seq![0x1du8, 0x56, 0x00]) == emit(st, 3, EventModel::Cut),
        step(st, seq![0x1bu8, 0x70, 0x00, 50, 250]) == emit(st, 5, EventModel::Pulse),
{
    reveal(step);
}

/// A command that takes all of its bytes and reports `events`, standing
/// alone: its run reports those events and holds nothing back.
pub(crate) proof fn lemma_run_single(st: ParserState, c: Seq<u8>)
    requires
        c.len() > 0,
        step(st, c) matches Step::Done { len, .. } && len == c.len(),
    ensures
        run(st, c) == (RunResult {
            state: step(st, c)->state,
            events: step(st, c)->events,
            rest: Seq::empty(),
            fault: false,
        }),
{
    lemma_run_step(st, c);
    assert(c.skip(c.len() as int) =~= Seq::<u8>::empty());
    assert(step(st, c)->events + Seq::<EventModel>::empty() =~= step(st, c)->events);
}

pub(crate) proof fn lemma_skip_step(st: ParserState, c: Seq<u8>)
    requires
        c.len() > 0,
        step(st, c) == (Step::Done { len: c.len(), state: st, events: Seq::empty() }),
        is_command_byte(c[0]),
    ensures
        forall|rest: Seq<u8>| #[trigger] run(st, c + rest) == run(st, rest),
{
    assert forall|rest: Seq<u8>| #[trigger] run(st, c + rest) == run(st, rest) by {
        lemma_run_command(st, c, rest);
        assert(Seq::<EventModel>::empty() + run(st, rest).events =~= run(st, rest).events);
    }
}

#[verifier::spinoff_prover]
proof fn lemma_qr_setup(st: ParserState)
    ensures
        forall|rest: Seq<u8>| #[trigger] run(st, qr_setup() + rest) == run(st, rest),
{
    let c1 = seq![0x1du8, 0x28, 0x6b, 0x04, 0x00, 0x31, 0x41, 0x32, 0x00];
    let c2 = seq![0x1du8, 0x28, 0x6b, 0x03, 0x00, 0x31, 0x43, 0x06];
    let c3 = seq![0x1du8, 0x28, 0x6b, 0x03, 0x00, 0x31, 0x45, 0x31];
    assert(step(st, c1) == (Step::Done { len: 9, state: st, events: Seq::empty() })) by {
        reveal(step);
    }
    assert(step(st, c2) == (Step::Done { len: 8, state: st, events: Seq::empty() })) by {
        reveal(step);
    }
    assert(step(st, c3) == (Step::Done { len: 8, state: st, events: Seq::empty() })) by {
        reveal(step);
    }
    lemma_skip_step(st, c1);
    lemma_skip_step(st, c2);
    lemma_skip_step(st, c3);
    assert forall|rest: Seq<u8>| #[trigger] run(st, qr_setup() + rest) == run(st, rest) by {
        assert(qr_setup() + rest =~= c1 + (c2 + (c3 + rest)));
        assert(run(st, c1 + (c2 + (c3 + rest))) == run(st, c2 + (c3 + rest)));
        assert(run(st, c2 + (c3 + rest)) == run(st, c3 + rest));
    }
}

proof fn lemma_qr_store(st: ParserState, data: Seq<u8>)
    requires
        data.len() + 3 <= 0xffff,
    ensures
        ({
            let c = seq![0x1du8, 0x28, 0x6b] + le16((data.len() + 3) as nat) + seq![0x31u8, 0x50, 0x30]
                + data;
            step(st, c) == Step::Done {
                len: c.len(),
                state: ParserState { pending_qr: Some(latin1(data)), ..st },
                events: Seq::empty(),
            }
        }),
{
    let c = seq![0x1du8, 0x28, 0x6b] + le16((data.len() + 3) as nat) + seq![0x31u8, 0x50, 0x30] + data;
    assert(c.subrange(8, c.len() as int) =~= data);
    reveal(step);
}

proof fn lemma_qr_print(st: ParserState, data: Seq<char>)
    requires
        st.pending_qr == Some(data),
    ensures
        step(st, seq![0x1du8, 0x28, 0x6b, 0x03, 0x00, 0x31, 0x51, 0x30]) == (Step::Done {
            len: 8,
            state: ParserState { pending_qr: None, ..st },
            events: seq![EventModel::QrCode { data }],
        }),
{
    reveal(step);
}

/// A QR code that the receipt encoder writes is decoded back to its data:
/// the setup commands are skipped, the store command keeps the data, and
/// the print command reports it, leaving nothing stored and nothing held.
pub proof fn law_qrcode_parses_back(st: ParserState, data: Seq<u8>)
    requires
        data.len() + 3 <= 0xffff,
    ensures
        run(st, qrcode_bytes(data)) == (RunResult {
            state: ParserState { pending_qr: None, ..st },
            events: seq![EventModel::QrCode { data: latin1(data) }],
            rest: Seq::empty(),
            fault: false,
        }),
{
    let c4 = seq![0x1du8, 0x28, 0x6b] + le16((data.len() + 3) as nat) + seq![0x31u8, 0x50, 0x30] + data;
    let c5 = seq![0x1du8, 0x28, 0x6b, 0x03, 0x00, 0x31, 0x51, 0x30];
    let stored = ParserState { pending_qr: Some(latin1(data)), ..st };
    assert(qrcode_bytes(data) =~= qr_setup() + (c4 + c5));
    lemma_qr_setup(st);
    lemma_qr_store(st, data);
    lemma_qr_print(stored, latin1(data));
    lemma_run_single(stored, c5);
    lemma_run_command(st, c4, c5);
    assert(Seq::<EventModel>::empty() + seq![EventModel::QrCode { data: latin1(data) }] =~= seq![
        EventModel::QrCode { data: latin1(data) },
    ]);
}

proof fn lemma_barcode_setup(st: ParserState)
    ensures
        forall|rest: Seq<u8>|
            #[trigger] run(st, barcode_setup() + rest) == run(
                st,
                rest,
            ),
{
    let c1 = seq![0x1du8, 0x68, 60];
    let c2 = seq![0x1du8, 0x77, 2];
    let c3 = seq![0x1du8, 0x48, 0x02];
    assert(step(st, c1) == (Step::Done { len: 3, state: st, events: Seq::empty() })) by {
        reveal(step);
    }
    assert(step(st, c2) == (Step::Done { len: 3, state: st, events: Seq::empty() })) by {
        reveal(step);
    }
    assert(step(st, c3) == (Step::Done { len: 3, state: st, events: Seq::empty() })) by {
        reveal(step);
    }
    lemma_skip_step(st, c1);
    lemma_skip_step(st, c2);
    lemma_skip_step(st, c3);
    assert forall|rest: Seq<u8>|
        #[trigger] run(st, barcode_setup() + rest) == run(
            st,
            rest,
        ) by {
        assert(barcode_setup() + rest =~= c1 + (c2 + (c3
            + rest)));
        assert(run(st, c1 + (c2 + (c3 + rest))) == run(st, c2 + (c3 + rest)));
        assert(run(st, c2 + (c3 + rest)) == run(st, c3 + rest));
    }
}

proof fn lemma_barcode_command(st: ParserState, data: Seq<u8>)
    requires
        data.len() < 256,
    ensures
        ({
            let c = seq![0x1du8, 0x6b, 0x49, (data.len() % 256) as u8] + data;
            step(st, c) == Step::Done {
                len: c.len(),
                state: st,
                events: seq![EventModel::Barcode { symbology: symbology_name(0x49), data: latin1(data) }],
            }
        }),
{
    let c = seq![0x1du8, 0x6b, 0x49, (data.len() % 256) as u8] + data;
    assert(c.subrange(4, 4 + data.len() as int) =~= data);
    reveal(step);
}

/// A CODE128 barcode that the receipt encoder writes is decoded back to its
/// symbology and data, for data of fewer than 256 bytes.
pub proof fn law_barcode_parses_back(st: ParserState, data: Seq<u8>)
    requires
        data.len() < 256,
    ensures
        run(st, barcode_code128_bytes(data)) == (RunResult {
            state: st,
            events: seq![EventModel::Barcode { symbology: symbology_name(0x49), data: latin1(data) }],
            rest: Seq::empty(),
            fault: false,
        }),
{
    let c4 = seq![0x1du8, 0x6b, 0x49, (data.len() % 256) as u8] + data;
    assert(barcode_code128_bytes(data) =~= barcode_setup()
        + c4);
    lemma_barcode_setup(st);
    lemma_barcode_command(st, data);
    lemma_run_single(st, c4);
}

/// Real-time `DLE` commands (status queries, error recovery, buffer
/// clearing, the real-time drawer kick) are consumed without printing: they
/// leave the parser's state as it was and report nothing but, for the drawer
/// kick, a pulse.
pub proof fn law_realtime_commands_print_nothing(st: ParserState, d: Seq<u8>)
    ensures
        dle_step(st, d) matches Step::Done { state, events, .. } ==> {
            &&& state == st
            &&& (events.len() == 0 || events == seq![EventModel::Pulse])
        },
{
}

/// A raster image written by the encoder parses back, in one step, to an
/// image of its width (rounded down to whole bytes), its height and its
/// rows, where the sizes fit their 16-bit fields and the rows fill them.
pub proof fn law_raster_image_parses_back(st: ParserState, width: u32, height: u32, rows: Seq<u8>)
    requires
        width / 8 < 0x1_0000,
        height < 0x1_0000,
        rows.len() == (width / 8) as nat * height as nat,
        base64_len(rows.len()) <= usize::MAX,
    ensures
        ({
            let c = seq![0x1du8, 0x76, 0x30, 0x00] + le16((width / 8) as nat) + le16(height as nat)
                + rows;
            step(st, c) == emit(
                st,
                c.len(),
                EventModel::Image {
                    width: (width / 8 * 8) as u32,
                    height,
                    bits: base64_standard(rows),
                },
            )
        }),
{
    reveal(step);
    let c = seq![0x1du8, 0x76, 0x30, 0x00] + le16((width / 8) as nat) + le16(height as nat) + rows;
    let wb = (width / 8) as nat;
    assert(c[4] as nat + c[5] as nat * 256 == wb);
    assert(c[6] as nat + c[7] as nat * 256 == height as nat);
    assert(c.subrange(8, c.len() as int) =~= rows);
}

/// Fed to a parser holding no bytes, the character size command of the
/// encoder sets the width and height it was given, for sizes 1 to 8, reports
/// the new style, and leaves nothing held.
pub proof fn law_size_feeds_back(p: ParserView, width: u8, height: u8)
    requires
        p.buf.len() == 0,
        1 <= width <= 8,
        1 <= height <= 8,
    ensures
        ({
            let c = seq![0x1du8, 0x21, size_byte(width, height)];
            let style = StyleState { width, height, ..p.state.style };
            &&& feed_result(p, c) == RunResult {
                state: with_style(p.state, style),
                events: seq![style_event(style)],
                rest: Seq::empty(),
                fault: false,
            }
            &&& after_feed(p, c).state.style == style
            &&& after_feed(p, c).buf.len() == 0
        }),
{
    let c = seq![0x1du8, 0x21, size_byte(width, height)];
    law_size_parses_back(p.state, width, height);
    assert(p.buf + c =~= c);
    lemma_run_single(p.state, c);
}

/// The column image in progress, if any, is 1 to 8192 bytes wide: the
/// width that a strip of 1 to 65535 dots gives it.
pub open spec fn image_width_ok(st: ParserState) -> bool {
    st.column_image matches Some(img) ==> 1 <= img.width_bytes <= 8192
}

/// An image bigger than the machine can count: the column image in
/// progress, written out as base64 or grown by a strip as wide as the
/// command at the front of `d` announces, or the raster image that this
/// command announces, written out as base64.
pub open spec fn outgrows_usize(st: ParserState, d: Seq<u8>) -> bool {
    ||| (st.column_image matches Some(img) && ((d.len() >= 5 && img.rows.len() + (d[3] as nat
        + d[4] as nat * 256 + 7) / 8 * 24 > usize::MAX) || base64_len(img.rows.len())
        > usize::MAX))
    ||| (d.len() >= 8 && base64_len(
        (d[4] as nat + d[5] as nat * 256) * (d[6] as nat + d[7] as nat * 256),
    ) > usize::MAX)
}

/// Every command keeps the width of the column image in progress within
/// what a strip can give, and, from such a state, a command makes the parser
/// fail only on an image too large for a `usize` to count: every other
/// command, malformed or not, is consumed.
pub proof fn law_only_oversized_images_fail(st: ParserState, d: Seq<u8>)
    requires
        image_width_ok(st),
    ensures
        step(st, d) matches Step::Done { state, .. } ==> image_width_ok(state),
        step(st, d) is Fault ==> outgrows_usize(st, d),
{
    if d.len() > 0 && d[0] == 0x1b {
        assert(step(st, d) == esc_step(st, d)) by {
            reveal(step);
        }
        if d.len() >= 2 && d[1] == 0x2a {
            lemma_column_strip_width(st, d);
        } else if d.len() >= 2 && d[1] == 0x32 {
            lemma_flush_width(st);
        } else {
            lemma_esc_keeps_image(st, d);
        }
    } else if d.len() > 0 && d[0] == 0x1d {
        assert(step(st, d) == gs_step(st, d)) by {
            reveal(step);
        }
        lemma_gs_keeps_image(st, d);
    } else {
        lemma_other_keeps_image(st, d);
    }
}

proof fn lemma_run_width(st: ParserState, d: Seq<u8>)
    requires
        image_width_ok(st),
    ensures
        image_width_ok(run(st, d).state),
        run(st, d).fault ==> outgrows_usize(run(st, d).state, run(st, d).rest),
    decreases d.len(),
{
    if d.len() > 0 {
        lemma_run_step(st, d);
        law_only_oversized_images_fail(st, d);
        if let Step::Done { len, state, .. } = step(st, d) {
            lemma_run_width(state, d.skip(len as int));
        }
    }
}

/// A parser that starts with no column image, or one a strip could have
/// begun, keeps it so through every feed, and a feed fails only where the
/// command left at the front of the held bytes comes upon an image too large
/// for a `usize` to count.
pub proof fn law_feed_fails_only_on_oversized_images(p: ParserView, data: Seq<u8>)
    requires
        image_width_ok(p.state),
    ensures
        image_width_ok(after_feed(p, data).state),
        feed_result(p, data).fault ==> outgrows_usize(
            feed_result(p, data).state,
            feed_result(p, data).rest,
        ),
{
    lemma_run_width(p.state, p.buf + data);
}

proof fn lemma_column_strip_width(st: ParserState, d: Seq<u8>)
    requires
        image_width_ok(st),
    ensures
        column_strip_step(st, d) matches Step::Done { state, .. } ==> image_width_ok(state),
        column_strip_step(st, d) is Fault ==> outgrows_usize(st, d),
{
    if d.len() >= 5 {
        let width = d[3] as nat + d[4] as nat * 256;
        let bpc = bytes_per_column(d[2]);
        let img = match st.column_image {
            Some(img) => img,
            None => ColumnImageState { width_bytes: ((width + 7) / 8) as u32, rows: Seq::empty() },
        };
        let wb = (width + 7) / 8;
        if st.column_image is None {
            assert(img.rows.len() == 0);
        }
        assert(wb * (bpc * 8) <= wb * 24) by (nonlinear_arith)
            requires
                bpc <= 3,
        ;
    }
}

proof fn lemma_flush_width(st: ParserState)
    requires
        image_width_ok(st),
    ensures
        flush_column_image(st) matches Step::Done { state, .. } ==> image_width_ok(state),
        flush_column_image(st) is Fault ==> outgrows_usize(st, Seq::empty()),
{
}

proof fn lemma_esc_keeps_image(st: ParserState, d: Seq<u8>)
    requires
        d.len() > 0,
        d[0] == 0x1b,
        !(d.len() >= 2 && (d[1] == 0x2a || d[1] == 0x32)),
    ensures
        !(esc_step(st, d) is Fault),
        esc_step(st, d) matches Step::Done { state, .. } ==> state.column_image == st.column_image,
{
    if d.len() >= 3 {
        assert(esc_param_step(st, d[1], d[2]) matches Step::Done { state, .. }
            && state.column_image == st.column_image);
    }
}

proof fn lemma_gs_keeps_image(st: ParserState, d: Seq<u8>)
    requires
        image_width_ok(st),
    ensures
        gs_step(st, d) matches Step::Done { state, .. } ==> image_width_ok(state),
        gs_step(st, d) is Fault ==> outgrows_usize(st, d),
{
    if d.len() >= 2 && d[1] == 0x6b {
        lemma_barcode_keeps_image(st, d);
    } else if d.len() >= 3 && d[1] == 0x28 && d[2] == 0x6b {
        assert(!(symbol_2d_step(st, d) is Fault));
    }
}

proof fn lemma_barcode_keeps_image(st: ParserState, d: Seq<u8>)
    ensures
        !(barcode_step(st, d) is Fault),
        barcode_step(st, d) matches Step::Done { state, .. } ==> state == st,
{
}

proof fn lemma_other_keeps_image(st: ParserState, d: Seq<u8>)
    requires
        !(d.len() > 0 && (d[0] == 0x1b || d[0] == 0x1d)),
    ensures
        !(step(st, d) is Fault),
        step(st, d) matches Step::Done { state, .. } ==> state.column_image == st.column_image,
{
    reveal(step);
    if d.len() > 0 && d[0] == 0x10 {
        assert(!(dle_step(st, d) is Fault));
    }
}

/// The symbology that a step reports for the barcode it decoded.
pub open spec fn reported_symbology(s: Step) -> Seq<char> {
    match s {
        Step::Done { events, .. } => match events[0] {
            EventModel::Barcode { symbology, .. } => symbology,
            _ => Seq::empty(),
        },
        _ => Seq::empty(),
    }
}

/// A `GS k` barcode command, once it has fully arrived, reports one barcode
/// under the name of its symbology identifier: 0x00 UPC-A, 0x01 UPC-E, 0x02
/// EAN-13, 0x03 EAN-8, 0x04 CODE39, 0x05 ITF, 0x06 CODABAR, 0x48 CODE93,
/// 0x49 and 0x4f CODE128, 0x4b to 0x4e the GS1 DataBar variants, and
/// "barcode" for any other identifier.
pub proof fn law_barcode_symbology_names(st: ParserState, d: Seq<u8>)
    requires
        d.len() >= 3,
        d[0] == 0x1d,
        d[1] == 0x6b,
    ensures
        step(st, d) matches Step::Done { events, state, .. } ==> events.len() == 1
            && events[0] is Barcode && state == st,
        step(st, d) is Done && d[2] == 0x00 ==> reported_symbology(step(st, d)) == "UPC-A"@,
        step(st, d) is Done && d[2] == 0x01 ==> reported_symbology(step(st, d)) == "UPC-E"@,
        step(st, d) is Done && d[2] == 0x02 ==> reported_symbology(step(st, d)) == "EAN-13"@,
        step(st, d) is Done && d[2] == 0x03 ==> reported_symbology(step(st, d)) == "EAN-8"@,
        step(st, d) is Done && d[2] == 0x04 ==> reported_symbology(step(st, d)) == "CODE39"@,
        step(st, d) is Done && d[2] == 0x05 ==> reported_symbology(step(st, d)) == "ITF"@,
        step(st, d) is Done && d[2] == 0x06 ==> reported_symbology(step(st, d)) == "CODABAR"@,
        step(st, d) is Done && d[2] == 0x48 ==> reported_symbology(step(st, d)) == "CODE93"@,
        step(st, d) is Done && d[2] == 0x49 ==> reported_symbology(step(st, d)) == "CODE128"@,
        step(st, d) is Done && d[2] == 0x4b ==> reported_symbology(step(st, d)) == "GS1 DataBar Omni"@,
        step(st, d) is Done && d[2] == 0x4c ==> reported_symbology(step(st, d)) == "GS1 DataBar Truncated"@,
        step(st, d) is Done && d[2] == 0x4d ==> reported_symbology(step(st, d)) == "GS1 DataBar Limited"@,
        step(st, d) is Done && d[2] == 0x4e ==> reported_symbology(step(st, d)) == "GS1 DataBar Expanded"@,
        step(st, d) is Done && d[2] == 0x4f ==> reported_symbology(step(st, d)) == "CODE128"@,
        (step(st, d) is Done && d[2] != 0x00 && d[2] != 0x01 && d[2] != 0x02 && d[2] != 0x03 && d[2] != 0x04
            && d[2] != 0x05 && d[2] != 0x06 && d[2] != 0x48 && d[2] != 0x49 && d[2] != 0x4b
            && d[2] != 0x4c && d[2] != 0x4d && d[2] != 0x4e && d[2] != 0x4f) ==> reported_symbology(
            step(st, d),
        ) == "barcode"@,
{
    assert(step(st, d) == barcode_step(st, d)) by {
        reveal(step);
    }
}

/// `ESC ! n`, the combined print mode, takes three bytes and sets each
/// attribute from its own bit of `n`: font B from bit 0x01, bold from 0x08,
/// double height from 0x10, double width from 0x20 and underline from 0x80;
/// italic and invert stay as they were, and the new style is reported.
pub proof fn law_print_mode_bits(st: ParserState, n: u8)
    ensures
        ({
            let s = step(st, seq![0x1bu8, 0x21, n]);
            &&& s matches Step::Done { len, state, events } && len == 3
                && events == seq![style_event(state.style)]
                && state.codepage == st.codepage && state.pending_qr == st.pending_qr
                && state.column_image == st.column_image
            &&& s->state.style.font == (if n & 0x01 != 0 { "b"@ } else { "a"@ })
            &&& s->state.style.bold == (n & 0x08 != 0)
            &&& s->state.style.underline == (n & 0x80 != 0)
            &&& (s->state.style.height == 2) == (n & 0x10 != 0)
            &&& (s->state.style.height == 1) == (n & 0x10 == 0)
            &&& (s->state.style.width == 2) == (n & 0x20 != 0)
            &&& (s->state.style.width == 1) == (n & 0x20 == 0)
            &&& s->state.style.italic == st.style.italic
            &&& s->state.style.invert == st.style.invert
        }),
{
    reveal(step);
}

/// The rows of the column image in progress, none when there is none.
pub open spec fn column_rows(st: ParserState) -> nat {
    match st.column_image {
        Some(img) => img.rows.len(),
        None => 0,
    }
}

/// `ESC * m nL nH` takes 3 bytes per column (24 dots) for `m` 32 or 33 and
/// 1 byte per column (8 dots) for any other `m`: the command is
/// `6 + 3 w` or `6 + w` bytes long for `w = nL + 256 nH` columns, is
/// complete once that many bytes are there, and a strip with columns grows
/// the image by 24 or 8 rows of its width in bytes.
pub proof fn law_column_strip_density(st: ParserState, d: Seq<u8>)
    requires
        d.len() >= 5,
        d[0] == 0x1b,
        d[1] == 0x2a,
    ensures
        ({
            let w = d[3] as nat + d[4] as nat * 256;
            let wb = (w + 7) / 8;
            let s = step(st, d);
            &&& (d[2] == 32 || d[2] == 33) ==> {
                &&& d.len() >= 6 + 3 * w ==> !(s is Incomplete)
                &&& s matches Step::Done { len, state, events } ==> len == 6 + 3 * w
                    && events.len() == 0
                    && (w > 0 ==> column_rows(state) == column_rows(st) + wb * 24)
            }
            &&& (d[2] != 32 && d[2] != 33) ==> {
                &&& d.len() >= 6 + w ==> !(s is Incomplete)
                &&& s matches Step::Done { len, state, events } ==> len == 6 + w
                    && events.len() == 0
                    && (w > 0 ==> column_rows(state) == column_rows(st) + wb * 8)
            }
        }),
{
    assert(step(st, d) == column_strip_step(st, d)) by {
        reveal(step);
    }
    let w = d[3] as nat + d[4] as nat * 256;
    let wb = (w + 7) / 8;
    let bpc = bytes_per_column(d[2]);
    if let Step::Done { state, .. } = step(st, d) {
        if w > 0 {
            assert(wb * (bpc * 8) == if bpc == 3 { wb * 24 } else { wb * 8 });
            if let Some(img) = st.column_image {
                lemma_paint_len(
                    img.rows + Seq::new(wb * (bpc * 8), |k: int| 0u8),
                    d.subrange(5, 5 + (w * bpc) as int),
                    bpc,
                    wb,
                    ((img.rows.len() as u32) / (wb as u32)) as nat,
                    (w * bpc) * 8,
                );
            } else {
                lemma_paint_len(
                    Seq::<u8>::empty() + Seq::new(wb * (bpc * 8), |k: int| 0u8),
                    d.subrange(5, 5 + (w * bpc) as int),
                    bpc,
                    wb,
                    0,
                    (w * bpc) * 8,
                );
            }
        }
    }
}

} // verus!
