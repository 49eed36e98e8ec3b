//! Readiness events as a 16-bit set.
//!
//! Five event kinds are recognized, one bit each in the low five positions of
//! a `PollEventSet`.  Sets are built additively through `PollEventBuilder`
//! and taken apart with `PollEventIter`, which yields each recognized set bit
//! at most once, in ascending bit order, and silently drops bits it does not
//! recognize.

use vstd::prelude::*;

verus! {

/// One readiness event kind.
#[derive(Copy, Clone, Debug, PartialEq, Eq, Structural)]
pub enum PollEvent {
    /// Data available to read
    PollIn,
    /// Data available to write (will still block if data is greater than space available unless
    /// the fd is configured to not block)
    PollOut,
    /// Something didn't work. ignored as input
    PollError,
    /// Connection closed. ignored as input
    PollHangUp,
    /// Invalid request. ignored as input
    PollInvalid,
}

/// A set of readiness events, one bit per recognized kind.
pub type PollEventSet = i16;

/// The bit a kind occupies in a `PollEventSet`.
pub open spec fn event_bit(e: PollEvent) -> i16 {
    match e {
        PollEvent::PollIn => 1,
        PollEvent::PollOut => 2,
        PollEvent::PollError => 4,
        PollEvent::PollHangUp => 8,
        PollEvent::PollInvalid => 16,
    }
}

/// The ascending position of a kind's bit; the order iteration yields kinds in.
pub open spec fn event_index(e: PollEvent) -> int {
    match e {
        PollEvent::PollIn => 0,
        PollEvent::PollOut => 1,
        PollEvent::PollError => 2,
        PollEvent::PollHangUp => 3,
        PollEvent::PollInvalid => 4,
    }
}

/// The kind whose bit sits at position `i` (meaningful for `0 <= i < 5`).
pub open spec fn event_of_index(i: int) -> PollEvent {
    if i == 0 {
        PollEvent::PollIn
    } else if i == 1 {
        PollEvent::PollOut
    } else if i == 2 {
        PollEvent::PollError
    } else if i == 3 {
        PollEvent::PollHangUp
    } else {
        PollEvent::PollInvalid
    }
}

/// Whether a set holds a kind.
pub open spec fn has_event(s: PollEventSet, e: PollEvent) -> bool {
    s & event_bit(e) != 0
}

/// The recognized kinds of `s` whose bit position is at least `i`, in
/// ascending bit order.
pub open spec fn events_from(s: PollEventSet, i: int) -> Seq<PollEvent>
    decreases 5 - i,
{
    if i < 0 || i >= 5 {
        Seq::empty()
    } else {
        let e = event_of_index(i);
        if s & event_bit(e) != 0 {
            seq![e] + events_from(s, i + 1)
        } else {
            events_from(s, i + 1)
        }
    }
}

/// All recognized kinds of `s`, in ascending bit order.
pub open spec fn events_in(s: PollEventSet) -> Seq<PollEvent> {
    events_from(s, 0)
}

impl PollEvent {
    /// The kind whose bit pattern is exactly `raw_num`, if it is one.
    pub fn from_i16(raw_num: i16) -> (r: Option<PollEvent>)
        ensures
            r matches Some(e) ==> raw_num == event_bit(e),
            r is None ==> raw_num != 1 && raw_num != 2 && raw_num != 4 && raw_num != 8 && raw_num
                != 16,
    {
        match raw_num {
            1 => Some(PollEvent::PollIn),
            2 => Some(PollEvent::PollOut),
            4 => Some(PollEvent::PollError),
            8 => Some(PollEvent::PollHangUp),
            16 => Some(PollEvent::PollInvalid),
            _ => None,
        }
    }

    /// The bit this kind occupies in a set.
    pub fn to_i16(self) -> (r: i16)
        ensures
            r == event_bit(self),
    {
        match self {
            PollEvent::PollIn => 1,
            PollEvent::PollOut => 2,
            PollEvent::PollError => 4,
            PollEvent::PollHangUp => 8,
            PollEvent::PollInvalid => 16,
        }
    }
}

/// Builds a `PollEventSet` by adding one kind at a time.
#[derive(Clone, Debug)]
pub struct PollEventBuilder {
    inner: PollEventSet,
}

impl View for PollEventBuilder {
    type V = PollEventSet;

    closed spec fn view(&self) -> PollEventSet {
        self.inner
    }
}

impl PollEventBuilder {
    /// The empty set.
    pub fn new() -> (r: PollEventBuilder)
        ensures
            r@ == 0i16,
    {
        PollEventBuilder { inner: 0 }
    }

    /// The set so far with `event`'s bit also set.
    pub fn add(self, event: PollEvent) -> (r: PollEventBuilder)
        ensures
            r@ == self@ | event_bit(event),
    {
        PollEventBuilder { inner: self.inner | event.to_i16() }
    }

    /// The finished set.
    pub fn build(self) -> (r: PollEventSet)
        ensures
            r == self@,
    {
        self.inner
    }
}

/// Takes a `PollEventSet` apart, one recognized kind per step, in ascending
/// bit order.
#[derive(Debug)]
pub struct PollEventIter {
    pes: PollEventSet,
    i: usize,
}

impl View for PollEventIter {
    type V = Seq<PollEvent>;

    closed spec fn view(&self) -> Seq<PollEvent> {
        events_from(self.pes, self.i as int)
    }
}

impl PollEventIter {
    /// The next recognized kind still in the set, lowest bit first; `None`
    /// once only unrecognized or no bits remain.
    pub fn next(&mut self) -> (r: Option<PollEvent>)
        ensures
            match r {
                Some(e) => old(self)@.len() > 0 && e == old(self)@[0] && final(self)@ == old(
                    self,
                )@.drop_first(),
                None => old(self)@.len() == 0 && final(self)@ == old(self)@,
            },
    {
        if self.i >= 5 {
            return None;
        }
        let pes = self.pes;
        let mut j: usize = self.i;
        while j < 5
            invariant
                self == old(self),
                pes == self.pes,
                self.i <= j <= 5,
                events_from(pes, self.i as int) == events_from(pes, j as int),
            decreases 5 - j,
        {
            let e = match j {
                0 => PollEvent::PollIn,
                1 => PollEvent::PollOut,
                2 => PollEvent::PollError,
                3 => PollEvent::PollHangUp,
                _ => PollEvent::PollInvalid,
            };
            proof {
                assert(e == event_of_index(j as int));
            }
            if pes & e.to_i16() != 0 {
                proof {
                    assert(events_from(pes, j as int) == seq![e] + events_from(pes, j + 1));
                    assert((seq![e] + events_from(pes, j + 1))[0] == e);
                    assert((seq![e] + events_from(pes, j + 1)).drop_first() =~= events_from(
                        pes,
                        j + 1,
                    ));
                }
                self.i = j + 1;
                return Some(e);
            }
            j += 1;
        }
        self.i = 5;
        None
    }
}

/// An iterator over the recognized kinds in `pes`.
pub fn iterate_poll_events(pes: PollEventSet) -> (r: PollEventIter)
    ensures
        r@ == events_in(pes),
{
    PollEventIter { pes, i: 0 }
}

/// How adding one kind changes membership: exactly that kind appears, and
/// every other kind is as it was.  This is why the set built is the set of
/// kinds added, whatever the order of the `add` calls.
pub proof fn lemma_add_event(s: PollEventSet, e: PollEvent, q: PollEvent)
    ensures
        has_event(s | event_bit(e), q) <==> (q == e || has_event(s, q)),
{
    let be = event_bit(e);
    let bq = event_bit(q);
    assert(((be == 1 || be == 2 || be == 4 || be == 8 || be == 16) && (bq == 1 || bq == 2 || bq == 4
        || bq == 8 || bq == 16)) ==> (((s | be) & bq != 0) <==> (be == bq || s & bq != 0)))
        by (bit_vector);
}

/// The set that a builder holds after adding `evs` in order, starting empty.
pub open spec fn set_of_adds(evs: Seq<PollEvent>) -> PollEventSet
    decreases evs.len(),
{
    if evs.len() == 0 {
        0
    } else {
        set_of_adds(evs.drop_last()) | event_bit(evs.last())
    }
}

proof fn lemma_has_event_of_adds(evs: Seq<PollEvent>)
    ensures
        forall|e: PollEvent| #[trigger] has_event(set_of_adds(evs), e) <==> evs.contains(e),
    decreases evs.len(),
{
    if evs.len() == 0 {
        assert forall|e: PollEvent| !(#[trigger] has_event(0i16, e)) by {
            let b = event_bit(e);
            assert((b == 1 || b == 2 || b == 4 || b == 8 || b == 16) ==> 0i16 & b == 0)
                by (bit_vector);
        }
    } else {
        let front = evs.drop_last();
        lemma_has_event_of_adds(front);
        assert forall|e: PollEvent|
            #[trigger] has_event(set_of_adds(evs), e) <==> evs.contains(e) by {
            lemma_add_event(set_of_adds(front), evs.last(), e);
            if front.contains(e) {
                let k = choose|k: int| 0 <= k < front.len() && front[k] == e;
                assert(evs[k] == e);
            }
            assert(evs[evs.len() - 1] == evs.last());
            if evs.contains(e) && e != evs.last() {
                let k = choose|k: int| 0 <= k < evs.len() && evs[k] == e;
                assert(front[k] == e);
            }
        }
    }
}

/// Law: build a set by adding any sequence of kinds, in any order and with
/// any repetition, and iteration yields exactly the distinct kinds added,
/// each once, in ascending bit order.
pub proof fn lemma_build_then_iterate(evs: Seq<PollEvent>)
    ensures
        forall|e: PollEvent|
            events_in(set_of_adds(evs)).contains(e) <==> evs.contains(e),
        events_in(set_of_adds(evs)).no_duplicates(),
        forall|k1: int, k2: int|
            0 <= k1 < k2 < events_in(set_of_adds(evs)).len() ==> event_index(
                events_in(set_of_adds(evs))[k1],
            ) < event_index(events_in(set_of_adds(evs))[k2]),
{
    lemma_has_event_of_adds(evs);
    lemma_events_in_exact(set_of_adds(evs));
    assert forall|e: PollEvent|
        events_in(set_of_adds(evs)).contains(e) <==> evs.contains(e) by {
        assert(has_event(set_of_adds(evs), e) <==> evs.contains(e));
    }
}

/// Law: iteration yields exactly the kinds the set holds, each once, in
/// ascending bit order — never insertion order.
pub proof fn lemma_events_in_exact(s: PollEventSet)
    ensures
        forall|e: PollEvent| events_in(s).contains(e) <==> has_event(s, e),
        events_in(s).no_duplicates(),
        forall|k1: int, k2: int|
            0 <= k1 < k2 < events_in(s).len() ==> event_index(events_in(s)[k1]) < event_index(
                events_in(s)[k2],
            ),
{
    lemma_events_from_exact(s, 0);
}

/// The inductive core of `lemma_events_in_exact`, over the suffix of bit
/// positions at and above `i`.
proof fn lemma_events_from_exact(s: PollEventSet, i: int)
    requires
        0 <= i,
    ensures
        forall|e: PollEvent|
            events_from(s, i).contains(e) <==> (has_event(s, e) && event_index(e) >= i),
        events_from(s, i).no_duplicates(),
        forall|k1: int, k2: int|
            0 <= k1 < k2 < events_from(s, i).len() ==> event_index(events_from(s, i)[k1])
                < event_index(events_from(s, i)[k2]),
        forall|k: int| 0 <= k < events_from(s, i).len() ==> event_index(events_from(s, i)[k]) >= i,
    decreases 5 - i,
{
    if i < 0 || i >= 5 {
    } else {
        lemma_events_from_exact(s, i + 1);
        let e = event_of_index(i);
        let rest = events_from(s, i + 1);
        if s & event_bit(e) != 0 {
            let whole = seq![e] + rest;
            assert(events_from(s, i) == whole);
            assert forall|q: PollEvent|
                whole.contains(q) <==> (has_event(s, q) && event_index(q) >= i) by {
                if whole.contains(q) {
                    let k = choose|k: int| 0 <= k < whole.len() && whole[k] == q;
                    if k == 0 {
                        assert(q == e);
                    } else {
                        assert(rest[k - 1] == q);
                        assert(rest.contains(q));
                    }
                }
                if has_event(s, q) && event_index(q) >= i {
                    if q == e {
                        assert(whole[0] == q);
                    } else {
                        assert(event_index(q) != event_index(e));
                        assert(rest.contains(q));
                        let k = choose|k: int| 0 <= k < rest.len() && rest[k] == q;
                        assert(whole[k + 1] == q);
                    }
                }
            }
            assert forall|k: int| 0 <= k < whole.len() implies event_index(whole[k]) >= i by {
                if k > 0 {
                    assert(whole[k] == rest[k - 1]);
                }
            }
            assert(whole.no_duplicates()) by {
                assert forall|k1: int, k2: int|
                    0 <= k1 < whole.len() && 0 <= k2 < whole.len() && k1 != k2 implies whole[k1]
                    != whole[k2] by {
                    if k1 == 0 && k2 > 0 {
                        assert(event_index(whole[k2]) == event_index(rest[k2 - 1]) >= i + 1);
                    } else if k2 == 0 && k1 > 0 {
                        assert(event_index(whole[k1]) == event_index(rest[k1 - 1]) >= i + 1);
                    } else if k1 > 0 && k2 > 0 {
                        assert(whole[k1] == rest[k1 - 1] && whole[k2] == rest[k2 - 1]);
                    }
                }
            }
            assert forall|k1: int, k2: int|
                0 <= k1 < k2 < whole.len() implies event_index(whole[k1]) < event_index(
                whole[k2],
            ) by {
                if k1 == 0 {
                    assert(event_index(whole[k2]) == event_index(rest[k2 - 1]) >= i + 1);
                } else {
                    assert(whole[k1] == rest[k1 - 1] && whole[k2] == rest[k2 - 1]);
                }
            }
        } else {
            assert(events_from(s, i) == rest);
            assert forall|q: PollEvent|
                rest.contains(q) <==> (has_event(s, q) && event_index(q) >= i) by {
                if has_event(s, q) && event_index(q) >= i {
                    assert(q != e);
                    assert(event_index(q) != event_index(e));
                    assert(event_index(q) >= i + 1);
                }
            }
        }
    }
}

} // verus!
