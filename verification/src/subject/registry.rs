use crate::delivery::{
    delivered, has_terminal, is_terminal_event, lemma_delivered_of_wf_log,
    lemma_has_terminal_snoc, lemma_wf_log_snoc, wf_log,
};
use crate::observer::event::{Event, Terminated};
use crate::observer::Observer;
use vstd::prelude::*;

verus! {

/// One registration of a multicast hub: the downstream observer, under an
/// identity key, together with the ghost log of every event its delivery
/// latch has been offered.  The latch is shut — and the observer given up —
/// exactly when a terminal event has gone through.
pub struct Entry<T, E, O> {
    /// The identity of this registration; compared, never inspected.
    pub key: u64,
    /// The downstream observer; taken when the latch shuts.
    pub observer: Option<O>,
    /// Every event this registration has been offered since it was made.
    pub offered: Ghost<Seq<Event<T, E>>>,
}

impl<T, E, O> Entry<T, E, O> {
    /// A live registration still holds its observer.
    pub open spec fn live(self) -> bool {
        self.observer is Some
    }

    /// The latch discipline: the observer is held exactly until a terminal
    /// event is offered, and the log of offered events is itself well
    /// formed — a terminal event stands at its end or nowhere.
    pub open spec fn wf(self) -> bool {
        &&& (self.live() <==> !has_terminal(self.offered@))
        &&& wf_log(self.offered@)
    }
}

/// At-most-one-terminal, as every subject maintains it: a well-formed
/// registration's log of offered events is word for word what a delivery
/// latch lets through — at most one terminal event, and only in the last
/// position.
pub proof fn lemma_registration_log_wf<T, E, O>(entry: Entry<T, E, O>)
    requires
        entry.wf(),
    ensures
        wf_log(entry.offered@),
        delivered(entry.offered@) == entry.offered@,
{
    lemma_delivered_of_wf_log(entry.offered@);
}

/// The state of a multicast hub: an ordered set of registrations, a fresh-key
/// counter, and the hub's own delivery latch over the upstream stream.
///
/// This is the verified heart of the subjects; they wrap it in a lock whose
/// invariant is [`Registry::wf`] and drive it through the operations below.
pub struct Registry<T, E, O> {
    /// The registrations, in subscription order, with strictly increasing
    /// keys.
    pub entries: Vec<Entry<T, E, O>>,
    /// The key the next registration will get.
    pub next_key: u64,
    /// Whether a terminal event has been accepted from upstream; once set, no
    /// further event is accepted or fanned out.
    pub terminated: bool,
    /// Every event upstream has pushed at this hub.
    pub upstream: Ghost<Seq<Event<T, E>>>,
}

impl<T, E, O> Registry<T, E, O> {
    /// The hub's invariant: its own latch tracks the upstream stream, every
    /// registration obeys the latch discipline, and keys grow strictly, below
    /// the fresh-key counter.
    pub open spec fn wf(self) -> bool {
        &&& self.terminated == has_terminal(self.upstream@)
        &&& forall|i: int| 0 <= i < self.entries@.len() ==> (#[trigger] self.entries@[i]).wf()
        &&& forall|i: int, j: int|
            0 <= i < j < self.entries@.len() ==> self.entries@[i].key < self.entries@[j].key
        &&& forall|i: int|
            0 <= i < self.entries@.len() ==> (#[trigger] self.entries@[i]).key < self.next_key
    }

    /// Where the registration with `key` stands, if anywhere.
    pub open spec fn index_of(self, key: u64) -> Option<int> {
        if exists|i: int| 0 <= i < self.entries@.len() && self.entries@[i].key == key {
            Some(choose|i: int| 0 <= i < self.entries@.len() && self.entries@[i].key == key)
        } else {
            None
        }
    }

    /// An empty hub: no registrations, nothing accepted, not terminated.
    pub fn new() -> (r: Registry<T, E, O>)
        ensures
            r.wf(),
            r.entries@.len() == 0,
            r.next_key == 0,
            !r.terminated,
            r.upstream@ == Seq::<Event<T, E>>::empty(),
    {
        Registry {
            entries: Vec::new(),
            next_key: 0,
            terminated: false,
            upstream: Ghost(Seq::empty()),
        }
    }

    /// Registers `observer` under a fresh key and returns that key.  The new
    /// registration's log starts as `caught_up`: the events the observer was
    /// already sent before registration — empty for a plain hub, the replayed
    /// snapshot for a state-replaying one — which must not end its stream.
    pub fn add(&mut self, observer: O, Ghost(caught_up): Ghost<Seq<Event<T, E>>>) -> (key: u64)
        requires
            old(self).wf(),
            !old(self).terminated,
            old(self).next_key < u64::MAX,
            !has_terminal(caught_up),
            wf_log(caught_up),
        ensures
            final(self).wf(),
            key == old(self).next_key,
            final(self).next_key == old(self).next_key + 1,
            final(self).terminated == old(self).terminated,
            final(self).upstream == old(self).upstream,
            final(self).entries@.len() == old(self).entries@.len() + 1,
            final(self).entries@.subrange(0, old(self).entries@.len() as int) == old(
                self,
            ).entries@,
            ({
                let added = final(self).entries@.last();
                added.key == key && added.observer == Some(observer) && added.offered@
                    == caught_up
            }),
    {
        let key = self.next_key;
        self.entries.push(Entry { key, observer: Some(observer), offered: Ghost(caught_up) });
        self.next_key = self.next_key + 1;
        proof {
            assert(final(self).entries@.subrange(0, old(self).entries@.len() as int) =~= old(
                self,
            ).entries@);
        }
        key
    }

    /// Removes the registration with `key`, handing back its observer so the
    /// caller can synthesize the cancellation signal for it.  Removing a key
    /// that is unknown — or known but already terminated — hands back
    /// nothing.
    pub fn remove(&mut self, key: u64) -> (r: Option<O>)
        requires
            old(self).wf(),
        ensures
            final(self).wf(),
            final(self).next_key == old(self).next_key,
            final(self).terminated == old(self).terminated,
            final(self).upstream == old(self).upstream,
            match old(self).index_of(key) {
                Some(i) => {
                    &&& final(self).entries@ == old(self).entries@.remove(i)
                    &&& r == old(self).entries@[i].observer
                    &&& (r is Some ==> !has_terminal(old(self).entries@[i].offered@))
                },
                None => final(self).entries@ == old(self).entries@ && r is None,
            },
    {
        let n = self.entries.len();
        let mut i: usize = 0;
        while i < n
            invariant
                old(self).wf(),
                *self == *old(self),
                n == self.entries@.len(),
                0 <= i <= n,
                forall|j: int| 0 <= j < i ==> self.entries@[j].key != key,
            decreases n - i,
        {
            if self.entries[i].key == key {
                let entry = self.entries.remove(i);
                proof {
                    let oe = old(self).entries@;
                    assert(oe[i as int].key == key);
                    let j = choose|j: int| 0 <= j < oe.len() && oe[j].key == key;
                    if j < i as int {
                        assert(oe[j].key < oe[i as int].key);
                    }
                    if j > i as int {
                        assert(oe[i as int].key < oe[j].key);
                    }
                    assert(j == i as int);
                    assert(old(self).index_of(key) == Some(i as int));
                    assert(self.entries@ =~= oe.remove(i as int));
                    assert(oe[i as int].wf());
                    assert forall|a: int| 0 <= a < self.entries@.len() implies (
                    #[trigger] self.entries@[a]).wf() && self.entries@[a].key < self.next_key by {
                        if a < i as int {
                            assert(self.entries@[a] == oe[a]);
                        } else {
                            assert(self.entries@[a] == oe[a + 1]);
                        }
                    }
                    assert forall|a: int, b: int|
                        0 <= a < b < self.entries@.len() implies self.entries@[a].key
                        < self.entries@[b].key by {
                        if b < i as int {
                            assert(self.entries@[a] == oe[a] && self.entries@[b] == oe[b]);
                        } else if a < i as int {
                            assert(self.entries@[a] == oe[a] && self.entries@[b] == oe[b + 1]);
                        } else {
                            assert(self.entries@[a] == oe[a + 1] && self.entries@[b] == oe[b + 1]);
                        }
                    }
                }
                return entry.observer;
            }
            i = i + 1;
        }
        proof {
            if old(self).index_of(key) is Some {
                let j = choose|j: int|
                    0 <= j < old(self).entries@.len() && old(self).entries@[j].key == key;
                assert(self.entries@[j].key == key);
                assert(false);
            }
        }
        None
    }
}

impl<T: Clone, E: Clone, O: Observer<T, E>> Registry<T, E, O> {
    /// Accepts one upstream event at the hub's own latch and, if the latch is
    /// still open, fans it out: every live registration is offered the event,
    /// its observer receives a copy, and a terminal event shuts every latch,
    /// the hub's own included.  An event arriving after termination is
    /// dropped on the floor.
    pub fn publish(&mut self, event: Event<T, E>)
        requires
            old(self).wf(),
        ensures
            final(self).wf(),
            final(self).next_key == old(self).next_key,
            final(self).upstream@ == old(self).upstream@.push(event),
            old(self).terminated ==> final(self).terminated && final(self).entries@ == old(
                self,
            ).entries@,
            !old(self).terminated ==> {
                &&& final(self).terminated == is_terminal_event(event)
                &&& final(self).entries@.len() == old(self).entries@.len()
                &&& forall|i: int|
                    0 <= i < old(self).entries@.len() ==> (#[trigger] final(self).entries@[i]).key
                        == old(self).entries@[i].key
                &&& forall|i: int|
                    0 <= i < old(self).entries@.len() && (#[trigger] old(
                        self,
                    ).entries@[i]).live() ==> final(self).entries@[i].offered@ == old(
                        self,
                    ).entries@[i].offered@.push(event) && (final(self).entries@[i].live()
                        <==> !is_terminal_event(event))
                &&& forall|i: int|
                    0 <= i < old(self).entries@.len() && !(#[trigger] old(
                        self,
                    ).entries@[i]).live() ==> final(self).entries@[i] == old(self).entries@[i]
            },
    {
        proof {
            lemma_has_terminal_snoc(self.upstream@, event);
        }
        if self.terminated {
            self.upstream = Ghost(self.upstream@.push(event));
            return ;
        }
        let is_term = matches!(event, Event::Terminated(_));
        self.upstream = Ghost(self.upstream@.push(event));
        self.terminated = is_term;
        let n = self.entries.len();
        let mut i: usize = 0;
        while i < n
            invariant
                old(self).wf(),
                n == self.entries@.len(),
                n == old(self).entries@.len(),
                0 <= i <= n,
                self.next_key == old(self).next_key,
                self.terminated == is_term,
                self.upstream@ == old(self).upstream@.push(event),
                is_term == is_terminal_event(event),
                self.terminated == has_terminal(self.upstream@),
                forall|j: int|
                    0 <= j < n ==> (#[trigger] self.entries@[j]).key == old(self).entries@[j].key,
                forall|j: int|
                    0 <= j < i && (#[trigger] old(self).entries@[j]).live() ==> self.entries@[j].offered@
                        == old(self).entries@[j].offered@.push(event) && (self.entries@[j].live()
                        <==> !is_terminal_event(event)),
                forall|j: int|
                    0 <= j < i && !(#[trigger] old(self).entries@[j]).live() ==> self.entries@[j]
                        == old(self).entries@[j],
                forall|j: int| i <= j < n ==> self.entries@[j] == old(self).entries@[j],
                forall|j: int| 0 <= j < n ==> (#[trigger] self.entries@[j]).wf(),
            decreases n - i,
        {
            let taken = self.entries[i].observer.take();
            match taken {
                Some(mut o) => {
                    proof {
                        lemma_has_terminal_snoc(self.entries@[i as int].offered@, event);
                        lemma_wf_log_snoc(self.entries@[i as int].offered@, event);
                    }
                    match &event {
                        Event::Next(v) => {
                            o.on_next(v.clone());
                            self.entries[i].observer = Some(o);
                        },
                        Event::Terminated(t) => {
                            o.on_terminated(t.clone());
                        },
                    }
                    self.entries[i].offered = Ghost(self.entries@[i as int].offered@.push(event));
                },
                None => {},
            }
            i = i + 1;
        }
    }
}

} // verus!
