use crate::observer::event::{Event, Terminated};
use vstd::prelude::*;

verus! {

/// True of the events that end a stream.
pub open spec fn is_terminal_event<T, E>(e: Event<T, E>) -> bool {
    e matches Event::Terminated(_)
}

/// True when some event of `s` is terminal.
pub open spec fn has_terminal<T, E>(s: Seq<Event<T, E>>) -> bool {
    exists|i: int| 0 <= i < s.len() && is_terminal_event(s[i])
}

/// What a one-shot delivery latch hands on when the events of `offered` are
/// pushed through it in order: every event up to and including the first
/// terminal one, and nothing after that.
pub open spec fn delivered<T, E>(offered: Seq<Event<T, E>>) -> Seq<Event<T, E>>
    decreases offered.len(),
{
    if offered.len() == 0 {
        Seq::empty()
    } else if is_terminal_event(offered.first()) {
        seq![offered.first()]
    } else {
        seq![offered.first()] + delivered(offered.drop_first())
    }
}

/// A delivery log is well formed when a terminal event can only stand at its
/// end: at most one terminal is ever seen, and no value follows it.
pub open spec fn wf_log<T, E>(s: Seq<Event<T, E>>) -> bool {
    forall|i: int| 0 <= i < s.len() && is_terminal_event(s[i]) ==> i == s.len() - 1
}

/// One more event holds a terminal exactly when the stream already did or
/// the new event is one.
pub proof fn lemma_has_terminal_snoc<T, E>(s: Seq<Event<T, E>>, e: Event<T, E>)
    ensures
        has_terminal(s.push(e)) == (has_terminal(s) || is_terminal_event(e)),
{
    let t = s.push(e);
    if has_terminal(s) {
        let i = choose|i: int| 0 <= i < s.len() && is_terminal_event(s[i]);
        assert(is_terminal_event(t[i]));
        assert(has_terminal(t));
    }
    if is_terminal_event(e) {
        assert(is_terminal_event(t[s.len() as int]));
        assert(has_terminal(t));
    }
    if has_terminal(t) && !is_terminal_event(e) {
        let i = choose|i: int| 0 <= i < t.len() && is_terminal_event(t[i]);
        assert(is_terminal_event(s[i]));
        assert(has_terminal(s));
    }
}

/// A log with no terminal event stays well formed when any one event is
/// appended to it.
pub proof fn lemma_wf_log_snoc<T, E>(s: Seq<Event<T, E>>, e: Event<T, E>)
    requires
        !has_terminal(s),
    ensures
        wf_log(s.push(e)),
{
    let t = s.push(e);
    assert forall|i: int| 0 <= i < t.len() && is_terminal_event(t[i]) implies i == t.len()
        - 1 by {
        if i < t.len() - 1 {
            assert(is_terminal_event(s[i]));
            assert(has_terminal(s));
        }
    }
}

/// A well-formed log is exactly what the delivery latch would let through of
/// it: nothing stands after its terminal event, so nothing is cut.
pub proof fn lemma_delivered_of_wf_log<T, E>(s: Seq<Event<T, E>>)
    requires
        wf_log(s),
    ensures
        delivered(s) == s,
    decreases s.len(),
{
    if s.len() == 0 {
        assert(delivered(s) =~= s);
    } else if is_terminal_event(s.first()) {
        assert(s.len() == 1);
        assert(delivered(s) =~= s);
    } else {
        let d = s.drop_first();
        assert(forall|i: int| 0 <= i < d.len() ==> d[i] == s[i + 1]);
        assert(wf_log(d));
        lemma_delivered_of_wf_log(d);
        assert(delivered(s) =~= s);
    }
}

/// How one more offered event extends a latch's deliveries: once a terminal
/// event has been let through, the latch is shut and nothing more is
/// delivered; before that, every event passes.
pub proof fn lemma_delivered_snoc<T, E>(s: Seq<Event<T, E>>, e: Event<T, E>)
    ensures
        has_terminal(s) ==> delivered(s.push(e)) == delivered(s),
        !has_terminal(s) ==> delivered(s.push(e)) == delivered(s).push(e),
    decreases s.len(),
{
    reveal_with_fuel(delivered, 3);
    let t = s.push(e);
    if s.len() == 0 {
        assert(t =~= seq![e]);
        assert(delivered(t) =~= delivered(s).push(e));
    } else {
        assert(t.first() == s.first());
        assert(t.drop_first() =~= s.drop_first().push(e));
        if is_terminal_event(s.first()) {
            assert(has_terminal(s));
            assert(delivered(t) =~= delivered(s));
        } else {
            lemma_delivered_snoc(s.drop_first(), e);
            if has_terminal(s) {
                let i = choose|i: int| 0 <= i < s.len() && is_terminal_event(s[i]);
                assert(is_terminal_event(s.drop_first()[i - 1]));
                assert(has_terminal(s.drop_first()));
                assert(delivered(t) =~= delivered(s));
            } else {
                assert(forall|i: int|
                    0 <= i < s.drop_first().len() ==> s.drop_first()[i] == s[i + 1]);
                assert(!has_terminal(s.drop_first()));
                assert(delivered(t) =~= delivered(s).push(e));
            }
        }
    }
}

/// At-most-one-terminal: whatever stream of events is offered to a delivery
/// latch, the log of events it lets through is well formed — a terminal event
/// appears at most once and only in the last position — and it ends with a
/// terminal event exactly when the offered stream contains one.
pub proof fn lemma_delivered_wf<T, E>(s: Seq<Event<T, E>>)
    ensures
        wf_log(delivered(s)),
        has_terminal(delivered(s)) == has_terminal(s),
        has_terminal(s) ==> delivered(s).len() > 0 && is_terminal_event(delivered(s).last()),
        !has_terminal(s) ==> delivered(s) == s,
    decreases s.len(),
{
    if s.len() == 0 {
        assert(delivered(s) =~= s);
    } else if is_terminal_event(s.first()) {
        assert(has_terminal(s));
        assert(delivered(s) =~= seq![s.first()]);
        assert(is_terminal_event(delivered(s)[0]));
        assert(has_terminal(delivered(s)));
    } else {
        let d = s.drop_first();
        lemma_delivered_wf(d);
        let out = seq![s.first()] + delivered(d);
        assert(delivered(s) =~= out);
        assert(forall|i: int| 0 <= i < d.len() ==> d[i] == s[i + 1]);
        if has_terminal(s) {
            let i = choose|i: int| 0 <= i < s.len() && is_terminal_event(s[i]);
            assert(is_terminal_event(d[i - 1]));
            assert(has_terminal(d));
        }
        if has_terminal(d) {
            let i = choose|i: int| 0 <= i < d.len() && is_terminal_event(d[i]);
            assert(is_terminal_event(s[i + 1]));
            assert(has_terminal(s));
        }
        if has_terminal(delivered(d)) {
            let i = choose|i: int|
                0 <= i < delivered(d).len() && is_terminal_event(delivered(d)[i]);
            assert(is_terminal_event(out[i + 1]));
            assert(has_terminal(out));
        }
        if has_terminal(out) {
            let i = choose|i: int| 0 <= i < out.len() && is_terminal_event(out[i]);
            assert(is_terminal_event(delivered(d)[i - 1]));
            assert(has_terminal(delivered(d)));
        }
        if !has_terminal(d) {
            assert(delivered(s) =~= s);
        }
    }
}

/// Order is kept: what a latch lets through is an initial segment of what
/// was offered — events are delivered in emission order, with nothing
/// skipped, reordered or invented before the stream's end.
pub proof fn lemma_delivered_prefix<T, E>(s: Seq<Event<T, E>>)
    ensures
        delivered(s).len() <= s.len(),
        forall|i: int| 0 <= i < delivered(s).len() ==> delivered(s)[i] == s[i],
    decreases s.len(),
{
    if s.len() == 0 {
    } else if is_terminal_event(s.first()) {
        assert(delivered(s) =~= seq![s.first()]);
    } else {
        let d = s.drop_first();
        lemma_delivered_prefix(d);
        assert(delivered(s) =~= seq![s.first()] + delivered(d));
        assert(forall|i: int| 0 <= i < d.len() ==> d[i] == s[i + 1]);
        assert forall|i: int| 0 <= i < delivered(s).len() implies delivered(s)[i] == s[i] by {
            if i == 0 {
                assert(delivered(s)[0] == s.first());
            } else {
                assert(delivered(s)[i] == delivered(d)[i - 1]);
                assert(delivered(d)[i - 1] == d[i - 1]);
                assert(d[i - 1] == s[i]);
            }
        }
    }
}

/// Cancellation synthesizes a clean end of stream: an observer whose latch has
/// not yet seen a terminal event, and which is then sent the synthetic
/// `Unsubscribed` signal, ends up with a well-formed log whose one terminal
/// event is exactly the cancellation.
pub proof fn lemma_cancellation_log<T, E>(offered: Seq<Event<T, E>>)
    requires
        !has_terminal(offered),
    ensures
        wf_log(delivered(offered).push(Event::Terminated(Terminated::Unsubscribed))),
        ({
            let log = delivered(offered).push(
                Event::<T, E>::Terminated(Terminated::Unsubscribed),
            );
            forall|i: int|
                0 <= i < log.len() && is_terminal_event(log[i]) ==> log[i] == Event::<
                    T,
                    E,
                >::Terminated(Terminated::Unsubscribed)
        }),
{
    lemma_delivered_wf(offered);
    let log = delivered(offered).push(Event::<T, E>::Terminated(Terminated::Unsubscribed));
    assert forall|i: int| 0 <= i < log.len() && is_terminal_event(log[i]) implies i == log.len()
        - 1 by {
        if i < log.len() - 1 {
            assert(is_terminal_event(delivered(offered)[i]));
            assert(has_terminal(delivered(offered)));
        }
    }
}

} // verus!
