//! The keypad reactor: turns successive samples of the pressed keys into press
//! and release events, and hands every event to each open subscription.
use crate::input::Key;
use crate::queue::{lemma_offer_all_prefix, offer_all, BoundedQueue};
use crate::wake::{Poll, WakeMarker, WakerSlot};
use vstd::prelude::*;

verus! {

/// The state of the key, either pressed or released.
#[derive(PartialEq, Eq, Structural, Clone, Copy, Debug, Hash)]
pub enum KeyState {
    Pressed,
    Released,
}

/// One event representing a key press or release.
#[derive(PartialEq, Eq, Structural, Clone, Copy, Debug, Hash)]
pub struct KeyEvent {
    pub key: Key,
    pub state: KeyState,
}

pub open spec fn press_of(k: Key) -> KeyEvent {
    KeyEvent { key: k, state: KeyState::Pressed }
}

pub open spec fn release_of(k: Key) -> KeyEvent {
    KeyEvent { key: k, state: KeyState::Released }
}

/// The press events for the keys of `sample` that `prev` does not hold, in
/// the order of `sample`.
pub open spec fn presses(prev: Seq<Key>, sample: Seq<Key>) -> Seq<KeyEvent>
    decreases sample.len(),
{
    if sample.len() == 0 {
        Seq::empty()
    } else {
        let k = sample.last();
        presses(prev, sample.drop_last()) + if prev.contains(k) {
            Seq::empty()
        } else {
            seq![press_of(k)]
        }
    }
}

/// `events` are release events, one for each key that `prev` holds and `sample`
/// does not, each exactly once, in any order.
pub open spec fn are_releases(prev: Seq<Key>, sample: Seq<Key>, events: Seq<KeyEvent>) -> bool {
    &&& forall|i: int| 0 <= i < events.len() ==> #[trigger] events[i].state == KeyState::Released
    &&& forall|i: int, j: int|
        0 <= i < events.len() && 0 <= j < events.len() && i != j ==> #[trigger] events[i].key
            != #[trigger] events[j].key
    &&& forall|k: Key|
        (exists|i: int| 0 <= i < events.len() && #[trigger] events[i].key == k) <==> (prev.contains(k)
            && !sample.contains(k))
}

/// `events` are the transitions from the pressed keys `prev` to the sampled
/// keys `sample`: first the presses, in the order of `sample`, then one release
/// for every key let go.
pub open spec fn is_key_diff(prev: Seq<Key>, sample: Seq<Key>, events: Seq<KeyEvent>) -> bool {
    let p = presses(prev, sample);
    &&& p.len() <= events.len()
    &&& events.subrange(0, p.len() as int) == p
    &&& are_releases(prev, sample, events.subrange(p.len() as int, events.len() as int))
}

/// Swapping two entries keeps a sequence free of duplicates and keeps which
/// keys it holds.
proof fn lemma_swap_keeps(s: Seq<Key>, a: int, b: int)
    requires
        0 <= a < s.len(),
        0 <= b < s.len(),
        s.no_duplicates(),
    ensures
        ({
            let t = s.update(a, s[b]).update(b, s[a]);
            &&& t.no_duplicates()
            &&& t.len() == s.len()
            &&& t[a] == s[b]
            &&& t[b] == s[a]
            &&& forall|c: int| 0 <= c < s.len() && c != a && c != b ==> t[c] == s[c]
            &&& forall|k: Key| #[trigger] t.contains(k) <==> s.contains(k)
        }),
{
    let t = s.update(a, s[b]).update(b, s[a]);
    assert forall|k: Key| #[trigger] t.contains(k) implies s.contains(k) by {
        let c = choose|c: int| 0 <= c < t.len() && #[trigger] t[c] == k;
        if c == a {
            assert(s[b] == k);
        } else if c == b {
            assert(s[a] == k);
        } else {
            assert(s[c] == k);
        }
    }
    assert forall|k: Key| s.contains(k) implies #[trigger] t.contains(k) by {
        let c = choose|c: int| 0 <= c < s.len() && #[trigger] s[c] == k;
        if c == a {
            assert(t[b] == k);
        } else if c == b {
            assert(t[a] == k);
        } else {
            assert(t[c] == k);
        }
    }
}

/// The first index of `key` in `keys`, if any.
fn find_key(keys: &Vec<Key>, key: Key) -> (r: Option<usize>)
    ensures
        match r {
            Some(i) => i < keys@.len() && keys@[i as int] == key && forall|j: int|
                0 <= j < i ==> keys@[j] != key,
            None => !keys@.contains(key),
        },
{
    let mut i: usize = 0;
    while i < keys.len()
        invariant
            i <= keys@.len(),
            forall|j: int| 0 <= j < i ==> keys@[j] != key,
        decreases keys@.len() - i,
    {
        if keys[i] == key {
            return Some(i);
        }
        i = i + 1;
    }
    None
}

/// Updates the pressed keys `keys` to the freshly sampled `sample` in place and
/// returns the transitions. Keys still pressed are kept, newly pressed keys are
/// moved to the front region in sample order, and keys let go end up at the
/// tail, from which they are removed one by one.
pub fn diff_keys(keys: &mut Vec<Key>, sample: &Vec<Key>) -> (events: Vec<KeyEvent>)
    requires
        old(keys)@.no_duplicates(),
        sample@.no_duplicates(),
    ensures
        final(keys)@ == sample@,
        is_key_diff(old(keys)@, sample@, events@),
{
    let ghost prev = keys@;
    let mut events: Vec<KeyEvent> = Vec::new();
    let mut j: usize = 0;
    while j < sample.len()
        invariant
            j <= sample@.len(),
            sample@.no_duplicates(),
            prev.no_duplicates(),
            j <= keys@.len(),
            keys@.no_duplicates(),
            keys@.subrange(0, j as int) == sample@.subrange(0, j as int),
            forall|k: Key|
                #[trigger] keys@.contains(k) <==> (sample@.subrange(0, j as int).contains(k)
                    || prev.contains(k)),
            events@ == presses(prev, sample@.subrange(0, j as int)),
        decreases sample@.len() - j,
    {
        let key = sample[j];
        let ghost before = keys@;
        assert(sample@.subrange(0, j + 1).drop_last() == sample@.subrange(0, j as int));
        assert(!sample@.subrange(0, j as int).contains(key)) by {
            if sample@.subrange(0, j as int).contains(key) {
                let t = choose|t: int| 0 <= t < j && #[trigger] sample@.subrange(0, j as int)[t] == key;
                assert(sample@[t] == sample@[j as int]);
            }
        }
        assert(forall|k: Key| #[trigger] sample@.subrange(0, j + 1).contains(k) <==> (
        sample@.subrange(0, j as int).contains(k) || k == key)) by {
            assert forall|k: Key| #[trigger] sample@.subrange(0, j + 1).contains(k) implies (
            sample@.subrange(0, j as int).contains(k) || k == key) by {
                let t = choose|t: int| 0 <= t < j + 1 && #[trigger] sample@.subrange(0, j + 1)[t] == k;
                if t < j {
                    assert(sample@.subrange(0, j as int)[t] == k);
                }
            }
            assert forall|k: Key| sample@.subrange(0, j as int).contains(k) implies #[trigger] sample@.subrange(0, j + 1).contains(k) by {
                let t = choose|t: int| 0 <= t < j && #[trigger] sample@.subrange(0, j as int)[t] == k;
                assert(sample@.subrange(0, j + 1)[t] == k);
            }
            assert(sample@.subrange(0, j + 1)[j as int] == key);
        }
        match find_key(keys, key) {
            Some(i) => {
                assert(i >= j) by {
                    if i < j {
                        assert(keys@[i as int] == sample@.subrange(0, j as int)[i as int]);
                    }
                }
                assert(keys@[i as int] == key);
                assert(keys@.contains(key));
                assert(prev.contains(key));
                if i > j {
                    let a = keys[j];
                    keys[j] = key;
                    keys[i] = a;
                    proof {
                        lemma_swap_keeps(before, j as int, i as int);
                    }
                }
            },
            None => {
                assert(!prev.contains(key));
                events.push(KeyEvent { key, state: KeyState::Pressed });
                keys.push(key);
                let ghost mid = keys@;
                assert(forall|k: Key| #[trigger] mid.contains(k) <==> (before.contains(k) || k == key)) by {
                    assert forall|k: Key| #[trigger] mid.contains(k) implies (before.contains(k) || k == key) by {
                        let t = choose|t: int| 0 <= t < mid.len() && #[trigger] mid[t] == k;
                        if t < before.len() {
                            assert(before[t] == k);
                        }
                    }
                    assert forall|k: Key| (before.contains(k) || k == key) implies #[trigger] mid.contains(k) by {
                        if k == key {
                            assert(mid[before.len() as int] == k);
                        } else {
                            let t = choose|t: int| 0 <= t < before.len() && #[trigger] before[t] == k;
                            assert(mid[t] == k);
                        }
                    }
                }
                assert(mid.no_duplicates());
                assert(mid.subrange(0, j as int) == before.subrange(0, j as int));
                let last = keys.len() - 1;
                if last > j {
                    let a = keys[j];
                    keys[j] = key;
                    keys[last] = a;
                    proof {
                        lemma_swap_keeps(mid, j as int, last as int);
                    }
                }
            },
        }
        assert(keys@.subrange(0, j + 1) =~= sample@.subrange(0, j + 1)) by {
            assert forall|t: int| 0 <= t < j + 1 implies #[trigger] keys@.subrange(0, j + 1)[t] == sample@.subrange(0, j + 1)[t] by {
                if t < j {
                    assert(keys@[t] == before.subrange(0, j as int)[t]);
                }
            }
        }
        j = j + 1;
    }
    assert(sample@.subrange(0, sample@.len() as int) == sample@);
    let n = sample.len();
    let ghost full = keys@;
    let ghost p = events@;
    assert(forall|k: Key| #[trigger] full.subrange(n as int, full.len() as int).contains(k) <==> (
    prev.contains(k) && !sample@.contains(k))) by {
        assert forall|k: Key| #[trigger] full.subrange(n as int, full.len() as int).contains(k) implies (
        prev.contains(k) && !sample@.contains(k)) by {
            let t = choose|t: int| 0 <= t < full.len() - n && #[trigger] full.subrange(n as int, full.len() as int)[t] == k;
            assert(full[n + t] == k);
            assert(full.contains(k));
            if sample@.contains(k) {
                let u = choose|u: int| 0 <= u < n && #[trigger] sample@[u] == k;
                assert(full.subrange(0, n as int)[u] == k);
                assert(full[u] == k);
            }
        }
        assert forall|k: Key| prev.contains(k) && !sample@.contains(k) implies #[trigger] full.subrange(n as int, full.len() as int).contains(k) by {
            assert(full.contains(k));
            let t = choose|t: int| 0 <= t < full.len() && #[trigger] full[t] == k;
            if t < n {
                assert(full.subrange(0, n as int)[t] == k);
                assert(sample@[t] == k);
            }
            assert(full.subrange(n as int, full.len() as int)[t - n] == k);
        }
    }
    while keys.len() > n
        invariant
            n <= keys@.len() <= full.len(),
            n == sample@.len(),
            keys@ == full.subrange(0, keys@.len() as int),
            events@.len() == p.len() + (full.len() - keys@.len()),
            events@.subrange(0, p.len() as int) == p,
            forall|i: int|
                0 <= i < full.len() - keys@.len() ==> #[trigger] events@[p.len() + i] == release_of(full[full.len() - 1 - i]),
        decreases keys@.len(),
    {
        let k = keys.pop().unwrap();
        events.push(KeyEvent { key: k, state: KeyState::Released });
        assert(events@.subrange(0, p.len() as int) =~= p);
    }
    assert(keys@ =~= sample@) by {
        assert(full.subrange(0, n as int) == sample@.subrange(0, n as int));
    }
    let ghost rel = events@.subrange(p.len() as int, events@.len() as int);
    assert(rel.len() == full.len() - n);
    assert(forall|i: int| 0 <= i < rel.len() ==> #[trigger] rel[i] == release_of(full[full.len() - 1 - i])) by {
        assert forall|i: int| 0 <= i < rel.len() implies #[trigger] rel[i] == release_of(full[full.len() - 1 - i]) by {
            assert(rel[i] == events@[p.len() + i]);
        }
    }
    assert(are_releases(prev, sample@, rel)) by {
        assert forall|k: Key|
            (exists|i: int| 0 <= i < rel.len() && #[trigger] rel[i].key == k) implies (prev.contains(k)
                && !sample@.contains(k)) by {
            let i = choose|i: int| 0 <= i < rel.len() && #[trigger] rel[i].key == k;
            assert(rel[i] == release_of(full[full.len() - 1 - i]));
            assert(full.subrange(n as int, full.len() as int)[full.len() - 1 - i - n] == k);
            assert(full.subrange(n as int, full.len() as int).contains(k));
        }
        assert forall|k: Key| (prev.contains(k) && !sample@.contains(k)) implies (exists|i: int|
            0 <= i < rel.len() && #[trigger] rel[i].key == k) by {
            let tail = full.subrange(n as int, full.len() as int);
            assert(tail.contains(k));
            let t = choose|t: int| 0 <= t < tail.len() && #[trigger] tail[t] == k;
            assert(rel[full.len() - 1 - n - t].key == k);
        }
    }
    events
}

/// The states that `events` report for the key `k`, in order.
pub open spec fn key_history(events: Seq<KeyEvent>, k: Key) -> Seq<KeyState>
    decreases events.len(),
{
    if events.len() == 0 {
        Seq::empty()
    } else {
        key_history(events.drop_last(), k) + if events.last().key == k {
            seq![events.last().state]
        } else {
            Seq::empty()
        }
    }
}

/// The event a key owes when it goes from being held (or not) to being held
/// (or not): a press, a release, or nothing.
pub open spec fn transition(before: bool, after: bool) -> Seq<KeyState> {
    if !before && after {
        seq![KeyState::Pressed]
    } else if before && !after {
        seq![KeyState::Released]
    } else {
        Seq::empty()
    }
}

/// The events of successive polls, one after the other.
pub open spec fn concat_events(chunks: Seq<Seq<KeyEvent>>) -> Seq<KeyEvent>
    decreases chunks.len(),
{
    if chunks.len() == 0 {
        Seq::empty()
    } else {
        concat_events(chunks.drop_last()) + chunks.last()
    }
}

/// The keys held before the sample at `i`: the starting keys for the first
/// sample, the previous sample otherwise.
pub open spec fn held_before(start: Seq<Key>, samples: Seq<Seq<Key>>, i: int) -> Seq<Key> {
    if i == 0 {
        start
    } else {
        samples[i - 1]
    }
}

/// The transitions of the key `k` implied by the successive samples, starting
/// from the keys `start`.
pub open spec fn sampled_history(start: Seq<Key>, samples: Seq<Seq<Key>>, k: Key) -> Seq<KeyState>
    decreases samples.len(),
{
    if samples.len() == 0 {
        Seq::empty()
    } else {
        let i = samples.len() - 1;
        sampled_history(start, samples.drop_last(), k) + transition(
            held_before(start, samples, i).contains(k),
            samples[i].contains(k),
        )
    }
}

proof fn lemma_history_add(a: Seq<KeyEvent>, b: Seq<KeyEvent>, k: Key)
    ensures
        key_history(a + b, k) == key_history(a, k) + key_history(b, k),
    decreases b.len(),
{
    if b.len() == 0 {
        assert(a + b =~= a);
        assert(key_history(a, k) + key_history(b, k) =~= key_history(a, k));
    } else {
        lemma_history_add(a, b.drop_last(), k);
        assert((a + b).drop_last() =~= a + b.drop_last());
        assert((a + b).last() == b.last());
        assert(key_history(a + b, k) =~= key_history(a, k) + key_history(b, k));
    }
}

proof fn lemma_presses_history(prev: Seq<Key>, sample: Seq<Key>, k: Key)
    requires
        sample.no_duplicates(),
    ensures
        key_history(presses(prev, sample), k) == if sample.contains(k) && !prev.contains(k) {
            seq![KeyState::Pressed]
        } else {
            Seq::<KeyState>::empty()
        },
    decreases sample.len(),
{
    if sample.len() > 0 {
        let rest = sample.drop_last();
        let x = sample.last();
        assert(rest.no_duplicates());
        lemma_presses_history(prev, rest, k);
        let added = if prev.contains(x) {
            Seq::<KeyEvent>::empty()
        } else {
            seq![press_of(x)]
        };
        lemma_history_add(presses(prev, rest), added, k);
        assert(key_history(added, k) == if x == k && !prev.contains(k) {
            seq![KeyState::Pressed]
        } else {
            Seq::<KeyState>::empty()
        }) by {
            if !prev.contains(x) {
                assert(added.drop_last() =~= Seq::<KeyEvent>::empty());
                assert(added.last() == press_of(x));
                assert(key_history(Seq::<KeyEvent>::empty(), k) == Seq::<KeyState>::empty());
                if x == k {
                    assert(key_history(added, k) =~= seq![KeyState::Pressed]);
                } else {
                    assert(key_history(added, k) =~= Seq::<KeyState>::empty());
                }
            }
        }
        assert(sample.contains(k) <==> (rest.contains(k) || x == k)) by {
            if sample.contains(k) && x != k {
                let t = choose|t: int| 0 <= t < sample.len() && #[trigger] sample[t] == k;
                assert(rest[t] == k);
            }
            if rest.contains(k) {
                let t = choose|t: int| 0 <= t < rest.len() && #[trigger] rest[t] == k;
                assert(sample[t] == k);
            }
            if x == k {
                assert(sample[sample.len() - 1] == k);
            }
        }
        if x == k {
            assert(!rest.contains(k)) by {
                if rest.contains(k) {
                    let t = choose|t: int| 0 <= t < rest.len() && #[trigger] rest[t] == k;
                    assert(sample[t] == sample[sample.len() - 1]);
                }
            }
        }
        assert(key_history(presses(prev, sample), k) =~= key_history(presses(prev, rest), k)
            + key_history(added, k));
    }
}

proof fn lemma_releases_history(rel: Seq<KeyEvent>, k: Key)
    requires
        forall|i: int| 0 <= i < rel.len() ==> #[trigger] rel[i].state == KeyState::Released,
        forall|i: int, j: int|
            0 <= i < rel.len() && 0 <= j < rel.len() && i != j ==> #[trigger] rel[i].key
                != #[trigger] rel[j].key,
    ensures
        key_history(rel, k) == if exists|i: int| 0 <= i < rel.len() && #[trigger] rel[i].key == k {
            seq![KeyState::Released]
        } else {
            Seq::<KeyState>::empty()
        },
    decreases rel.len(),
{
    if rel.len() > 0 {
        let rest = rel.drop_last();
        let e = rel.last();
        assert forall|i: int| 0 <= i < rest.len() implies #[trigger] rest[i].state
            == KeyState::Released by {
            assert(rest[i] == rel[i]);
        }
        assert forall|i: int, j: int|
            0 <= i < rest.len() && 0 <= j < rest.len() && i != j implies #[trigger] rest[i].key
                != #[trigger] rest[j].key by {
            assert(rest[i] == rel[i]);
            assert(rest[j] == rel[j]);
        }
        lemma_releases_history(rest, k);
        assert(rel[rel.len() - 1] == e);
        if e.key == k {
            assert(!exists|i: int| 0 <= i < rest.len() && #[trigger] rest[i].key == k) by {
                if exists|i: int| 0 <= i < rest.len() && #[trigger] rest[i].key == k {
                    let i = choose|i: int| 0 <= i < rest.len() && #[trigger] rest[i].key == k;
                    assert(rel[i].key == rel[rel.len() - 1].key);
                }
            }
            assert(key_history(rel, k) =~= seq![KeyState::Released]);
        } else {
            if exists|i: int| 0 <= i < rel.len() && #[trigger] rel[i].key == k {
                let i = choose|i: int| 0 <= i < rel.len() && #[trigger] rel[i].key == k;
                assert(rest[i].key == k);
            }
            if exists|i: int| 0 <= i < rest.len() && #[trigger] rest[i].key == k {
                let i = choose|i: int| 0 <= i < rest.len() && #[trigger] rest[i].key == k;
                assert(rel[i].key == k);
            }
            assert(key_history(rel, k) =~= key_history(rest, k));
        }
    }
}

/// What one poll reports for a single key is exactly its transition between
/// the two samples.
pub proof fn lemma_diff_history(prev: Seq<Key>, sample: Seq<Key>, events: Seq<KeyEvent>, k: Key)
    requires
        sample.no_duplicates(),
        is_key_diff(prev, sample, events),
    ensures
        key_history(events, k) == transition(prev.contains(k), sample.contains(k)),
{
    let p = presses(prev, sample);
    let rel = events.subrange(p.len() as int, events.len() as int);
    assert(events =~= p + rel);
    lemma_history_add(p, rel, k);
    lemma_presses_history(prev, sample, k);
    lemma_releases_history(rel, k);
    if prev.contains(k) && !sample.contains(k) {
        assert(exists|i: int| 0 <= i < rel.len() && #[trigger] rel[i].key == k);
    }
    assert(key_history(events, k) =~= transition(prev.contains(k), sample.contains(k)));
}

/// Over any run of polls, the events reported for each key are exactly the
/// press and release transitions implied by consecutive samples, in order,
/// with none repeated and none missing.
pub proof fn lemma_key_stream(
    start: Seq<Key>,
    samples: Seq<Seq<Key>>,
    chunks: Seq<Seq<KeyEvent>>,
    k: Key,
)
    requires
        samples.len() == chunks.len(),
        forall|i: int| 0 <= i < samples.len() ==> (#[trigger] samples[i]).no_duplicates(),
        forall|i: int|
            0 <= i < samples.len() ==> is_key_diff(
                held_before(start, samples, i),
                samples[i],
                #[trigger] chunks[i],
            ),
    ensures
        key_history(concat_events(chunks), k) == sampled_history(start, samples, k),
    decreases samples.len(),
{
    if samples.len() > 0 {
        let i = samples.len() - 1;
        let s2 = samples.drop_last();
        let c2 = chunks.drop_last();
        assert forall|j: int| 0 <= j < s2.len() implies (#[trigger] s2[j]).no_duplicates() by {
            assert(s2[j] == samples[j]);
        }
        assert forall|j: int| 0 <= j < s2.len() implies is_key_diff(
            held_before(start, s2, j),
            s2[j],
            #[trigger] c2[j],
        ) by {
            assert(s2[j] == samples[j]);
            assert(c2[j] == chunks[j]);
            assert(held_before(start, s2, j) == held_before(start, samples, j));
        }
        lemma_key_stream(start, s2, c2, k);
        assert(samples[i].no_duplicates());
        assert(is_key_diff(held_before(start, samples, i), samples[i], chunks[i]));
        lemma_diff_history(held_before(start, samples, i), samples[i], chunks[i], k);
        lemma_history_add(concat_events(c2), chunks.last(), k);
    }
}

/// Events a subscription buffers when no size is given.
pub const DEFAULT_KEY_BUFFER: usize = 100;

/// One subscriber's slot: its bounded event queue and waker, and whether a
/// stream still holds it. A closed slot is reused, under a new generation, by
/// the next subscription.
pub struct Subscription {
    generation: u64,
    open: bool,
    queue: BoundedQueue<KeyEvent>,
    waker: WakerSlot,
}

impl Subscription {
    pub closed spec fn spec_generation(&self) -> u64 {
        self.generation
    }

    pub closed spec fn spec_open(&self) -> bool {
        self.open
    }

    /// The events waiting to be read, oldest first.
    pub closed spec fn events(&self) -> Seq<KeyEvent> {
        self.queue@
    }

    pub closed spec fn spec_capacity(&self) -> nat {
        self.queue.spec_capacity()
    }

    pub closed spec fn registered(&self) -> bool {
        self.waker@
    }

    pub open spec fn wf(&self) -> bool {
        &&& self.events().len() <= self.spec_capacity()
        &&& self.spec_capacity() > 0
    }

    /// Queues each event in turn, dropping those that find the queue full, and
    /// wakes the subscriber when there was anything to deliver.
    fn deliver(&mut self, events: &Vec<KeyEvent>, marker: &mut WakeMarker)
        requires
            old(self).wf(),
        ensures
            final(self).wf(),
            final(self).spec_generation() == old(self).spec_generation(),
            final(self).spec_open() == old(self).spec_open(),
            final(self).spec_capacity() == old(self).spec_capacity(),
            final(self).events() == offer_all(old(self).events(), old(self).spec_capacity(), events@),
            final(self).events() == (old(self).events() + events@).take(
                if old(self).events().len() + events@.len() <= old(self).spec_capacity() {
                    (old(self).events().len() + events@.len()) as int
                } else {
                    old(self).spec_capacity() as int
                },
            ),
            final(self).registered() == (old(self).registered() && events@.len() == 0),
            final(marker)@ == (old(marker)@ || (old(self).registered() && events@.len() > 0)),
    {
        let ghost start = self.queue@;
        let mut t: usize = 0;
        while t < events.len()
            invariant
                t <= events@.len(),
                self.queue.wf(),
                self.queue.spec_capacity() == old(self).spec_capacity(),
                self.generation == old(self).generation,
                self.open == old(self).open,
                self.waker == old(self).waker,
                *marker == *old(marker),
                self.queue@ == offer_all(start, self.queue.spec_capacity(), events@.take(t as int)),
            decreases events@.len() - t,
        {
            assert(events@.take(t + 1).drop_last() =~= events@.take(t as int));
            let _ = self.queue.push(events[t]);
            t = t + 1;
        }
        assert(events@.take(events@.len() as int) =~= events@);
        proof {
            lemma_offer_all_prefix(start, self.queue.spec_capacity(), events@);
        }
        if events.len() > 0 {
            self.waker.wake(marker);
        }
    }
}

/// A handle on one subscription of a [`KeypadListener`]; every event the
/// listener reports after the subscription is made is queued for it.
pub struct KeyStream {
    index: usize,
    generation: u64,
}

impl KeyStream {
    pub closed spec fn spec_index(&self) -> int {
        self.index as int
    }

    pub closed spec fn spec_generation(&self) -> u64 {
        self.generation
    }
}

/// The keypad reactor: the keys held at the last sample, and the subscriber
/// slots.
pub struct KeypadListener {
    slots: Vec<Subscription>,
    keys: Vec<Key>,
}

/// What one poll of the keypad does, from the listener `before` to the
/// listener `after`, given the sampled keys and the events it reports.
pub open spec fn keypad_polled(
    before: KeypadListener,
    after: KeypadListener,
    sample: Seq<Key>,
    events: Seq<KeyEvent>,
) -> bool {
    if !before.has_subscribers() {
        &&& after.slots() == before.slots()
        &&& after.pressed() == before.pressed()
        &&& events.len() == 0
    } else {
        &&& is_key_diff(before.pressed(), sample, events)
        &&& after.pressed() == sample
        &&& after.slots().len() == before.slots().len()
        &&& forall|i: int|
            0 <= i < before.slots().len() ==> slot_polled(
                before.slots()[i],
                #[trigger] after.slots()[i],
                events,
            )
    }
}

/// What a poll that reports `events` does to one subscriber slot.
pub open spec fn slot_polled(before: Subscription, after: Subscription, events: Seq<KeyEvent>) -> bool {
    &&& after.spec_open() == before.spec_open()
    &&& after.spec_generation() == before.spec_generation()
    &&& after.spec_capacity() == before.spec_capacity()
    &&& after.events() == if before.spec_open() {
        offer_all(before.events(), before.spec_capacity(), events)
    } else {
        before.events()
    }
    &&& after.registered() == (before.registered() && !(before.spec_open() && events.len() > 0))
}

impl KeypadListener {
    pub closed spec fn slots(&self) -> Seq<Subscription> {
        self.slots@
    }

    /// The keys held at the last sample.
    pub closed spec fn pressed(&self) -> Seq<Key> {
        self.keys@
    }

    pub open spec fn wf(&self) -> bool {
        &&& forall|i: int| 0 <= i < self.slots().len() ==> (#[trigger] self.slots()[i]).wf()
        &&& self.pressed().no_duplicates()
    }

    /// The stream's subscription is still open.
    pub open spec fn live(&self, s: &KeyStream) -> bool {
        &&& 0 <= s.spec_index() < self.slots().len()
        &&& self.slots()[s.spec_index()].spec_open()
        &&& self.slots()[s.spec_index()].spec_generation() == s.spec_generation()
    }

    /// The events waiting for the stream `s`.
    pub open spec fn stream_events(&self, s: &KeyStream) -> Seq<KeyEvent> {
        self.slots()[s.spec_index()].events()
    }

    pub open spec fn stream_capacity(&self, s: &KeyStream) -> nat {
        self.slots()[s.spec_index()].spec_capacity()
    }

    pub open spec fn has_subscribers(&self) -> bool {
        exists|i: int| 0 <= i < self.slots().len() && (#[trigger] self.slots()[i]).spec_open()
    }

    /// Some open subscription has a waker registered.
    pub open spec fn any_registered(&self) -> bool {
        exists|i: int|
            0 <= i < self.slots().len() && (#[trigger] self.slots()[i]).spec_open()
                && self.slots()[i].registered()
    }

    /// A listener with no subscriptions and no key held.
    pub fn new() -> (r: KeypadListener)
        ensures
            r.wf(),
            r.slots().len() == 0,
            r.pressed().len() == 0,
    {
        KeypadListener { slots: Vec::new(), keys: Vec::new() }
    }

    /// Tells whether any subscription is open; the keypad is only sampled then.
    pub fn is_listening(&self) -> (r: bool)
        ensures
            r == self.has_subscribers(),
    {
        let mut i: usize = 0;
        while i < self.slots.len()
            invariant
                i <= self.slots@.len(),
                forall|j: int| 0 <= j < i ==> !(#[trigger] self.slots()[j]).spec_open(),
            decreases self.slots@.len() - i,
        {
            if self.slots[i].open {
                assert(self.slots()[i as int].spec_open());
                return true;
            }
            i = i + 1;
        }
        false
    }

    /// The keys held at the last sample, in the order they were sampled.
    pub fn list_keys(&self) -> (r: &Vec<Key>)
        ensures
            r@ == self.pressed(),
    {
        &self.keys
    }

    /// Samples the keypad: when some subscription is open, turns the change
    /// from the keys held last time to `sample` into events, queues them for
    /// every open subscription (dropping what finds a queue full) and wakes
    /// the subscribers if there was any. Returns the events.
    pub fn poll(&mut self, sample: &Vec<Key>, marker: &mut WakeMarker) -> (events: Vec<KeyEvent>)
        requires
            old(self).wf(),
            sample@.no_duplicates(),
        ensures
            final(self).wf(),
            keypad_polled(*old(self), *final(self), sample@, events@),
            final(marker)@ == (old(marker)@ || (events@.len() > 0 && old(self).any_registered())),
    {
        if !self.is_listening() {
            return Vec::new();
        }
        let events = diff_keys(&mut self.keys, sample);
        let ghost start = self.slots@;
        let ghost start_marker = marker@;
        let mut i: usize = 0;
        while i < self.slots.len()
            invariant
                i <= self.slots@.len(),
                self.slots@.len() == start.len(),
                self.keys@ == sample@,
                sample@.no_duplicates(),
                forall|j: int| 0 <= j < start.len() ==> (#[trigger] start[j]).wf(),
                forall|j: int|
                    0 <= j < i ==> slot_polled(start[j], #[trigger] self.slots@[j], events@),
                forall|j: int| i <= j < start.len() ==> #[trigger] self.slots@[j] == start[j],
                forall|j: int| 0 <= j < i ==> (#[trigger] self.slots@[j]).wf(),
                marker@ == (start_marker || (events@.len() > 0 && exists|j: int|
                    0 <= j < i && (#[trigger] start[j]).spec_open() && start[j].registered())),
            decreases self.slots@.len() - i,
        {
            if self.slots[i].open {
                self.slots[i].deliver(&events, marker);
            }
            i = i + 1;
        }
        events
    }

    /// Opens a subscription whose queue holds at most `size` events.
    pub fn stream_with_buffer(&mut self, size: usize) -> (r: KeyStream)
        requires
            old(self).wf(),
            size > 0,
        ensures
            final(self).wf(),
            final(self).live(&r),
            final(self).stream_events(&r) == Seq::<KeyEvent>::empty(),
            final(self).stream_capacity(&r) == size,
            !final(self).slots()[r.spec_index()].registered(),
            final(self).pressed() == old(self).pressed(),
            old(self).slots().len() <= final(self).slots().len(),
            forall|j: int|
                0 <= j < old(self).slots().len() && j != r.spec_index() ==> #[trigger] final(self).slots()[j]
                    == old(self).slots()[j],
            forall|s: &KeyStream| old(self).live(s) ==> final(self).live(s),
            !old(self).live(&r),
    {
        let sub = Subscription {
            generation: 0,
            open: true,
            queue: BoundedQueue::new(size),
            waker: WakerSlot::new(),
        };
        let mut i: usize = 0;
        while i < self.slots.len()
            invariant
                i <= self.slots@.len(),
                *self == *old(self),
                self.wf(),
                sub.open,
                sub.queue@ == Seq::<KeyEvent>::empty(),
                sub.queue.spec_capacity() == size,
                size > 0,
                !sub.waker@,
            decreases self.slots@.len() - i,
        {
            if !self.slots[i].open && self.slots[i].generation < u64::MAX {
                let generation = self.slots[i].generation + 1;
                self.slots[i] = Subscription { generation, ..sub };
                let r = KeyStream { index: i, generation };
                assert forall|j: int| 0 <= j < self.slots().len() implies (#[trigger] self.slots()[j]).wf() by {
                    if j != i {
                        assert(self.slots()[j] == old(self).slots()[j]);
                    }
                }
                return r;
            }
            i = i + 1;
        }
        let index = self.slots.len();
        self.slots.push(sub);
        KeyStream { index, generation: 0 }
    }

    /// Opens a subscription with room for [`DEFAULT_KEY_BUFFER`] events.
    pub fn stream(&mut self) -> (r: KeyStream)
        requires
            old(self).wf(),
        ensures
            final(self).wf(),
            final(self).live(&r),
            final(self).stream_events(&r) == Seq::<KeyEvent>::empty(),
            final(self).stream_capacity(&r) == DEFAULT_KEY_BUFFER,
            !final(self).slots()[r.spec_index()].registered(),
            final(self).pressed() == old(self).pressed(),
            old(self).slots().len() <= final(self).slots().len(),
            forall|j: int|
                0 <= j < old(self).slots().len() && j != r.spec_index() ==> #[trigger] final(self).slots()[j]
                    == old(self).slots()[j],
            forall|s: &KeyStream| old(self).live(s) ==> final(self).live(s),
            !old(self).live(&r),
    {
        self.stream_with_buffer(DEFAULT_KEY_BUFFER)
    }

    /// Polls the stream `s`: registers its waker, then yields the oldest queued
    /// event, or nothing yet. A key stream never ends.
    pub fn poll_next(&mut self, s: &KeyStream) -> (r: Poll<Option<KeyEvent>>)
        requires
            old(self).wf(),
            old(self).live(s),
        ensures
            final(self).wf(),
            final(self).live(s),
            r == (if old(self).stream_events(s).len() > 0 {
                Poll::Ready(Some(old(self).stream_events(s)[0]))
            } else {
                Poll::<Option<KeyEvent>>::Pending
            }),
            final(self).stream_events(s) == if old(self).stream_events(s).len() > 0 {
                old(self).stream_events(s).drop_first()
            } else {
                old(self).stream_events(s)
            },
            final(self).stream_capacity(s) == old(self).stream_capacity(s),
            final(self).slots()[s.spec_index()].registered(),
            final(self).pressed() == old(self).pressed(),
            final(self).slots().len() == old(self).slots().len(),
            forall|j: int|
                0 <= j < old(self).slots().len() && j != s.spec_index() ==> #[trigger] final(self).slots()[j]
                    == old(self).slots()[j],
    {
        let i = s.index;
        self.slots[i].waker.register();
        match self.slots[i].queue.pop() {
            Some(e) => Poll::Ready(Some(e)),
            None => Poll::Pending,
        }
    }

    /// Closes the subscription of `s`; its slot may be reused.
    pub fn close(&mut self, s: KeyStream)
        requires
            old(self).wf(),
            old(self).live(&s),
        ensures
            final(self).wf(),
            !final(self).slots()[s.spec_index()].spec_open(),
            final(self).pressed() == old(self).pressed(),
            final(self).slots().len() == old(self).slots().len(),
            forall|j: int|
                0 <= j < old(self).slots().len() && j != s.spec_index() ==> #[trigger] final(self).slots()[j]
                    == old(self).slots()[j],
    {
        self.slots[s.index].open = false;
    }
}

/// Two subscriptions opened with the same buffer size before any poll hold the
/// same events after every poll: each poll queues the same events for both.
pub proof fn lemma_fan_out_equal(
    before: KeypadListener,
    after: KeypadListener,
    sample: Seq<Key>,
    events: Seq<KeyEvent>,
    a: &KeyStream,
    b: &KeyStream,
)
    requires
        before.live(a),
        before.live(b),
        before.stream_events(a) == before.stream_events(b),
        before.stream_capacity(a) == before.stream_capacity(b),
        keypad_polled(before, after, sample, events),
    ensures
        after.live(a),
        after.live(b),
        after.stream_events(a) == after.stream_events(b),
        after.stream_capacity(a) == after.stream_capacity(b),
{
    assert(before.slots()[a.spec_index()].spec_open());
}

} // verus!
