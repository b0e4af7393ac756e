//! Properties of whole streams of scalars, proved from the step function.
use vstd::prelude::*;
use crate::event::EventView;
use crate::intermediates::{no_intermediates, MAX_INTERMEDIATES};
use crate::machine::{end_of_stream, feed, initial_view, step, view_wf, MachineView};
use crate::params::MAX_PARAMS;
use crate::transition::{lemma_transition_shape, State};

verus! {

/// The event at `i`, if a `Print`, is followed by a `Print` or a `PrintEnd`.
pub open spec fn print_followed_at(es: Seq<EventView>, i: int) -> bool {
    es[i] is Print ==> es[i + 1] is Print || es[i + 1] is PrintEnd
}

/// The event at `i`, if a `PrintEnd`, directly follows a `Print`.
pub open spec fn print_end_preceded_at(es: Seq<EventView>, i: int) -> bool {
    es[i] is PrintEnd ==> i > 0 && es[i - 1] is Print
}

/// Every `Print` but the last event is followed by another `Print` or by a
/// `PrintEnd`.
pub open spec fn print_runs_closed_but_last(es: Seq<EventView>) -> bool {
    forall|i: int| 0 <= i < es.len() - 1 ==> #[trigger] print_followed_at(es, i)
}

/// Every `PrintEnd` directly follows a `Print`.
pub open spec fn print_ends_follow_prints(es: Seq<EventView>) -> bool {
    forall|i: int| 0 <= i < es.len() ==> #[trigger] print_end_preceded_at(es, i)
}

pub open spec fn last_is_print(es: Seq<EventView>) -> bool {
    es.len() > 0 && es.last() is Print
}

/// The two kinds of control string, each reported as a start, zero or more
/// characters and an end.
pub enum StringKind {
    Device,
    OsCommand,
}

/// The state in which a control string of kind `k` is open.
pub open spec fn string_state(k: StringKind) -> State {
    match k {
        StringKind::Device => State::DevCtrlPassthru,
        StringKind::OsCommand => State::OsCmd,
    }
}

pub open spec fn opens(k: StringKind, e: EventView) -> bool {
    match k {
        StringKind::Device => e is DcsStart,
        StringKind::OsCommand => e is OscStart,
    }
}

pub open spec fn continues(k: StringKind, e: EventView) -> bool {
    match k {
        StringKind::Device => e is DcsChar,
        StringKind::OsCommand => e is OscChar,
    }
}

pub open spec fn closes(k: StringKind, e: EventView) -> bool {
    match k {
        StringKind::Device => e is DcsEnd,
        StringKind::OsCommand => e is OscEnd,
    }
}

/// The event at `i`, if a start or a character of kind `k`, is followed by
/// a character or an end of that kind.
pub open spec fn string_followed_at(k: StringKind, es: Seq<EventView>, i: int) -> bool {
    opens(k, es[i]) || continues(k, es[i]) ==> continues(k, es[i + 1]) || closes(k, es[i + 1])
}

/// The event at `i`, if a character or an end of kind `k`, directly follows a
/// start or a character of that kind.
pub open spec fn string_preceded_at(k: StringKind, es: Seq<EventView>, i: int) -> bool {
    continues(k, es[i]) || closes(k, es[i]) ==> i > 0 && (opens(k, es[i - 1]) || continues(
        k,
        es[i - 1],
    ))
}

/// Every start or character of kind `k` is followed, unless the events end
/// there, by a character or an end of that kind; and every character or end
/// directly follows a start or a character of that kind.
pub open spec fn strings_bracketed(k: StringKind, es: Seq<EventView>) -> bool {
    &&& forall|i: int| 0 <= i < es.len() - 1 ==> #[trigger] string_followed_at(k, es, i)
    &&& forall|i: int| 0 <= i < es.len() ==> #[trigger] string_preceded_at(k, es, i)
}

/// The events end inside a control string of kind `k`.
pub open spec fn ends_in_string(k: StringKind, es: Seq<EventView>) -> bool {
    es.len() > 0 && (opens(k, es.last()) || continues(k, es.last()))
}

proof fn lemma_step_strings(m: MachineView, c: char, k: StringKind)
    requires
        view_wf(m),
    ensures
        ({
            let (m2, es) = step(m, c);
            let st = string_state(k);
            &&& forall|j: int|
                0 <= j < es.len() && continues(k, #[trigger] es[j]) ==> es.len() == 1 && m.state
                    == st && m2.state == st
            &&& forall|j: int|
                0 <= j < es.len() && closes(k, #[trigger] es[j]) ==> j == 0 && m.state == st
            &&& forall|j: int|
                0 <= j < es.len() && opens(k, #[trigger] es[j]) ==> j == es.len() - 1 && m2.state
                    == st
            &&& m.state == st ==> (es.len() == 0 && m2.state == st) || (es.len() == 1 && continues(
                k,
                es[0],
            )) || (es.len() > 0 && closes(k, es[0]))
            &&& m2.state == st ==> ends_in_string(k, es) || (es.len() == 0 && m.state == st)
        }),
{
    reveal(step);
    lemma_transition_shape(m.state, c);
}

proof fn lemma_step_prints(m: MachineView, c: char)
    requires
        view_wf(m),
    ensures
        ({
            let (m2, es) = step(m, c);
            &&& view_wf(m2)
            &&& (m2.in_print_run && es == seq![EventView::Print(c)]) || (!m2.in_print_run && forall|
                j: int,
            | 0 <= j < es.len() ==> !(#[trigger] es[j] is Print))
            &&& forall|j: int| 0 <= j < es.len() && #[trigger] es[j] is PrintEnd ==> j == 0 && m.in_print_run
            &&& m.in_print_run && !m2.in_print_run ==> es.len() > 0 && es[0] is PrintEnd
        }),
{
    reveal(step);
    lemma_transition_shape(m.state, c);
}

/// The print-run facts about the events so far.
pub open spec fn print_runs_tracked(m: MachineView, es: Seq<EventView>) -> bool {
    &&& view_wf(m)
    &&& m.in_print_run <==> last_is_print(es)
    &&& print_runs_closed_but_last(es)
    &&& print_ends_follow_prints(es)
}

proof fn lemma_extend_prints(m1: MachineView, e1: Seq<EventView>, c: char)
    requires
        print_runs_tracked(m1, e1),
    ensures
        print_runs_tracked(step(m1, c).0, e1 + step(m1, c).1),
{
    lemma_step_prints(m1, c);
    let (m2, e2) = step(m1, c);
    let es = e1 + e2;
    assert forall|i: int| 0 <= i < es.len() - 1 implies #[trigger] print_followed_at(es, i) by {
        if i + 1 < e1.len() {
            assert(print_followed_at(e1, i));
            assert(es[i] == e1[i] && es[i + 1] == e1[i + 1]);
        } else if i + 1 == e1.len() {
            assert(es[i] == e1.last());
            assert(es[i + 1] == e2[0]);
        } else {
            assert(es[i] == e2[i - e1.len()]);
            assert(es[i + 1] == e2[i + 1 - e1.len()]);
        }
    }
    assert forall|i: int| 0 <= i < es.len() implies #[trigger] print_end_preceded_at(es, i) by {
        if i < e1.len() {
            assert(print_end_preceded_at(e1, i));
            assert(es[i] == e1[i]);
            if i > 0 {
                assert(es[i - 1] == e1[i - 1]);
            }
        } else {
            assert(es[i] == e2[i - e1.len()]);
            if es[i] is PrintEnd {
                assert(i == e1.len());
                assert(es[i - 1] == e1.last());
            }
        }
    }
    if e2.len() == 0 {
        assert(es =~= e1);
    } else {
        assert(es.last() == e2.last());
    }
}

/// The print runs of any stream fed to a fresh machine.
proof fn lemma_feed_prints(cs: Seq<char>)
    ensures
        print_runs_tracked(feed(initial_view(), cs).0, feed(initial_view(), cs).1),
    decreases cs.len(),
{
    if cs.len() > 0 {
        lemma_feed_prints(cs.drop_last());
        let (m1, e1) = feed(initial_view(), cs.drop_last());
        lemma_extend_prints(m1, e1, cs.last());
    }
}

/// The control strings of kind `k` of any stream fed to a fresh machine.
proof fn lemma_feed_strings(cs: Seq<char>, k: StringKind)
    ensures
        ({
            let (m, es) = feed(initial_view(), cs);
            &&& view_wf(m)
            &&& m.state == string_state(k) <==> ends_in_string(k, es)
            &&& strings_bracketed(k, es)
        }),
    decreases cs.len(),
{
    if cs.len() > 0 {
        let c = cs.last();
        lemma_feed_strings(cs.drop_last(), k);
        let (m1, e1) = feed(initial_view(), cs.drop_last());
        lemma_step_prints(m1, c);
        lemma_step_strings(m1, c, k);
        let (m2, e2) = step(m1, c);
        let es = e1 + e2;
        assert(feed(initial_view(), cs) == (m2, es));
        assert forall|i: int| 0 <= i < es.len() - 1 implies #[trigger] string_followed_at(
            k,
            es,
            i,
        ) by {
            if i + 1 < e1.len() {
                assert(string_followed_at(k, e1, i));
                assert(es[i] == e1[i] && es[i + 1] == e1[i + 1]);
            } else if i + 1 == e1.len() {
                assert(es[i] == e1.last());
                assert(es[i + 1] == e2[0]);
            } else {
                assert(es[i] == e2[i - e1.len()]);
                assert(es[i + 1] == e2[i + 1 - e1.len()]);
            }
        }
        assert forall|i: int| 0 <= i < es.len() implies #[trigger] string_preceded_at(k, es, i) by {
            if i < e1.len() {
                assert(string_preceded_at(k, e1, i));
                assert(es[i] == e1[i]);
                if i > 0 {
                    assert(es[i - 1] == e1[i - 1]);
                }
            } else {
                assert(es[i] == e2[i - e1.len()]);
                if continues(k, es[i]) || closes(k, es[i]) {
                    assert(i == e1.len());
                    assert(e1.len() > 0);
                    assert(es[i - 1] == e1.last());
                }
            }
        }
        if e2.len() == 0 {
            assert(es =~= e1);
        } else {
            assert(es.last() == e2.last());
        }
    }
}

/// All of the events of the stream `cs` fed to a fresh machine, followed by
/// those of the end of the stream.
pub open spec fn stream_events(cs: Seq<char>) -> Seq<EventView> {
    let (m, es) = feed(initial_view(), cs);
    es + end_of_stream(m).1
}

/// An event that is neither a `Print` nor a `PrintEnd` nor part of the data
/// of a control string.
pub open spec fn is_dispatch_event(e: EventView) -> bool {
    e is DispatchCsi || e is DispatchEsc || e is DcsStart || e is OscStart || e is Error
        || e is ExecuteCtrl
}

proof fn lemma_stream_prints(cs: Seq<char>)
    ensures
        print_runs_closed_but_last(stream_events(cs)),
        !last_is_print(stream_events(cs)),
        print_ends_follow_prints(stream_events(cs)),
{
    lemma_feed_prints(cs);
    let (m, e1) = feed(initial_view(), cs);
    let e2 = end_of_stream(m).1;
    let es = e1 + e2;
    assert(es == stream_events(cs));
    if m.in_print_run {
        assert(e2 == seq![EventView::PrintEnd]);
        lemma_extend_tail(e1, EventView::PrintEnd);
    } else {
        assert(e2 =~= Seq::<EventView>::empty());
        assert(es =~= e1);
    }
}

proof fn lemma_extend_tail(e1: Seq<EventView>, e: EventView)
    requires
        e is PrintEnd,
        last_is_print(e1),
        print_runs_closed_but_last(e1),
        print_ends_follow_prints(e1),
    ensures
        print_runs_closed_but_last(e1 + seq![e]),
        !last_is_print(e1 + seq![e]),
        print_ends_follow_prints(e1 + seq![e]),
{
    let es = e1 + seq![e];
    assert forall|i: int| 0 <= i < es.len() - 1 implies #[trigger] print_followed_at(es, i) by {
        if i + 1 < e1.len() {
            assert(print_followed_at(e1, i));
            assert(es[i] == e1[i] && es[i + 1] == e1[i + 1]);
        } else {
            assert(es[i + 1] == e);
        }
    }
    assert forall|i: int| 0 <= i < es.len() implies #[trigger] print_end_preceded_at(es, i) by {
        if i < e1.len() {
            assert(print_end_preceded_at(e1, i));
            assert(es[i] == e1[i]);
            if i > 0 {
                assert(es[i - 1] == e1[i - 1]);
            }
        } else {
            assert(es[i - 1] == e1.last());
        }
    }
    assert(es.last() == e);
}

/// In the events of any stream, each maximal run of `Print` events is
/// followed by exactly one `PrintEnd`, a run at the end of the stream
/// included: every `Print` is followed by another `Print` or by a
/// `PrintEnd`, the events never end with a `Print`, and every `PrintEnd`
/// directly follows a `Print`.
pub proof fn lemma_print_runs_end_once(cs: Seq<char>)
    ensures
        print_runs_closed_but_last(stream_events(cs)),
        !last_is_print(stream_events(cs)),
        print_ends_follow_prints(stream_events(cs)),
{
    lemma_stream_prints(cs);
}

/// In the events of any stream, no dispatch, control-string start, error or
/// control character directly follows a `Print`: a `PrintEnd` always comes
/// between.
pub proof fn lemma_no_dispatch_inside_print_run(cs: Seq<char>)
    ensures
        forall|i: int|
            0 < i < stream_events(cs).len() && #[trigger] is_dispatch_event(stream_events(cs)[i])
                ==> !(stream_events(cs)[i - 1] is Print),
{
    lemma_stream_prints(cs);
    let es = stream_events(cs);
    assert forall|i: int| 0 < i < es.len() && #[trigger] is_dispatch_event(es[i]) implies !(es[i
        - 1] is Print) by {
        assert(print_followed_at(es, i - 1));
    }
}

/// In the events of any stream, every `DcsStart` is followed by zero or more
/// `DcsChar` and then exactly one `DcsEnd`, unless the stream ends first;
/// and every `DcsChar` and `DcsEnd` belongs to such a string. The same holds
/// of `OscStart`, `OscChar` and `OscEnd`.
pub proof fn lemma_control_strings_bracketed(cs: Seq<char>)
    ensures
        strings_bracketed(StringKind::Device, stream_events(cs)),
        strings_bracketed(StringKind::OsCommand, stream_events(cs)),
{
    lemma_stream_strings(cs, StringKind::Device);
    lemma_stream_strings(cs, StringKind::OsCommand);
}

proof fn lemma_stream_strings(cs: Seq<char>, k: StringKind)
    ensures
        strings_bracketed(k, stream_events(cs)),
{
    lemma_feed_strings(cs, k);
    let (m, e1) = feed(initial_view(), cs);
    let e2 = end_of_stream(m).1;
    let es = e1 + e2;
    assert(es == stream_events(cs));
    if m.in_print_run {
        assert(m.state == State::Literal);
        assert(e2 == seq![EventView::PrintEnd]);
        assert forall|i: int| 0 <= i < es.len() - 1 implies #[trigger] string_followed_at(
            k,
            es,
            i,
        ) by {
            if i + 1 < e1.len() {
                assert(string_followed_at(k, e1, i));
                assert(es[i] == e1[i] && es[i + 1] == e1[i + 1]);
            } else {
                assert(es[i] == e1.last());
            }
        }
        assert forall|i: int| 0 <= i < es.len() implies #[trigger] string_preceded_at(k, es, i) by {
            if i < e1.len() {
                assert(string_preceded_at(k, e1, i));
                assert(es[i] == e1[i]);
                if i > 0 {
                    assert(es[i - 1] == e1[i - 1]);
                }
            } else {
                assert(es[i] == EventView::PrintEnd);
            }
        }
    } else {
        assert(es =~= e1);
    }
}

/// After any stream, the parameter buffer holds at most sixteen values and
/// the intermediate buffer keeps at most two bytes.
pub proof fn lemma_buffers_bounded(cs: Seq<char>)
    ensures
        feed(initial_view(), cs).0.params.len() <= MAX_PARAMS,
        feed(initial_view(), cs).0.intermediates.chars.len() <= MAX_INTERMEDIATES,
{
    lemma_feed_prints(cs);
}

/// A scalar that causes an `Error` leaves the machine in `Literal` with both
/// buffers empty.
pub proof fn lemma_error_resets(m: MachineView, c: char)
    ensures
        forall|i: int|
            0 <= i < step(m, c).1.len() && #[trigger] step(m, c).1[i] is Error ==> {
                &&& step(m, c).0.state == State::Literal
                &&& step(m, c).0.params == Seq::<u16>::empty()
                &&& step(m, c).0.intermediates == no_intermediates()
            },
{
    reveal(step);
    lemma_transition_shape(m.state, c);
}

/// Ending a stream when no print run is open emits nothing, and ending it a
/// second time emits nothing and changes nothing.
pub proof fn lemma_write_end_idempotent(m: MachineView)
    ensures
        !m.in_print_run ==> end_of_stream(m).1 == Seq::<EventView>::empty(),
        end_of_stream(end_of_stream(m).0) == (end_of_stream(m).0, Seq::<EventView>::empty()),
{
}

} // verus!
