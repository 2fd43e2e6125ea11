use std::collections::HashMap;
use vstd::prelude::*;

use crate::geometry::{contains_strictly, point_in_range, rect_in_range, strictly_inside, Point, Rect};

verus! {

broadcast use vstd::std_specs::hash::group_hash_axioms;

/// Native event-type codes that the window logic tells apart.
pub const LEFT_MOUSE_DOWN: u64 = 1;
pub const LEFT_MOUSE_UP: u64 = 2;
pub const RIGHT_MOUSE_DOWN: u64 = 3;
pub const RIGHT_MOUSE_UP: u64 = 4;
pub const MOUSE_MOVED: u64 = 5;
pub const MOUSE_ENTERED: u64 = 8;
pub const MOUSE_EXITED: u64 = 9;

/// What the logic reads of a native input event. `location` is in native
/// screen space; `timestamp` is system uptime in nanoseconds.
#[derive(Clone, Copy, Debug, PartialEq, Eq, Structural)]
pub struct NativeEvent {
    pub kind: u64,
    pub location: Point,
    pub modifiers: u64,
    pub timestamp: u64,
    pub window_number: i64,
    pub event_number: i64,
}

/// An event as the ledger holds it, stamped with the ledger's own sequence
/// number at the time it was recorded.
#[derive(Clone, Copy, Debug, PartialEq, Eq, Structural)]
pub struct Recorded {
    pub event: NativeEvent,
    pub seq: u64,
}

/// The pointer state of the host at the moment a hover move may be needed.
#[derive(Clone, Copy, Debug, PartialEq, Eq, Structural)]
pub struct PointerState {
    pub location: Point,
    pub modifiers: u64,
    pub now: u64,
}

pub open spec fn button_kinds() -> Seq<u64> {
    seq![LEFT_MOUSE_DOWN, LEFT_MOUSE_UP, RIGHT_MOUSE_DOWN, RIGHT_MOUSE_UP]
}

/// Pointer-class events: every kind from left-press to hover-exit.
pub open spec fn pointer_kinds() -> Seq<u64> {
    seq![1u64, 2, 3, 4, 5, 6, 7, 8, 9]
}

/// `r` is the most recently recorded event in `m` whose kind is one of `kinds`,
/// or `None` where `m` holds none of them.
pub open spec fn is_latest(m: Map<u64, Recorded>, kinds: Seq<u64>, r: Option<Recorded>) -> bool {
    match r {
        None => forall|i: int| 0 <= i < kinds.len() ==> !m.contains_key(#[trigger] kinds[i]),
        Some(rec) => (exists|i: int|
            0 <= i < kinds.len() && m.contains_key(#[trigger] kinds[i]) && m[kinds[i]] == rec)
            && (forall|j: int|
            0 <= j < kinds.len() && m.contains_key(#[trigger] kinds[j]) ==> m[kinds[j]].seq
                <= rec.seq),
    }
}

/// No two recorded events share a sequence number.
pub open spec fn distinct_seqs(m: Map<u64, Recorded>) -> bool {
    forall|a: u64, b: u64|
        m.contains_key(a) && m.contains_key(b) && a != b ==> #[trigger] m[a].seq != #[trigger] m[b].seq
}

/// A ledger's contents are consistent with its next stamp: each event sits
/// under its own kind, was stamped before `stamp`, and no two share a stamp.
pub open spec fn valid_ledger(m: Map<u64, Recorded>, stamp: u64) -> bool {
    &&& forall|k: u64| #[trigger] m.contains_key(k) ==> m[k].event.kind == k && m[k].seq < stamp
    &&& distinct_seqs(m)
}

/// The ledger's contents after `e` is recorded with stamp `stamp`.
pub open spec fn after_record(m: Map<u64, Recorded>, stamp: u64, e: NativeEvent) -> Map<u64, Recorded> {
    m.insert(e.kind, Recorded { event: e, seq: stamp })
}

/// The release that matches a press: same place, modifiers, time, window and
/// event number. Anything but a press has none.
pub open spec fn release_of(e: NativeEvent) -> Option<NativeEvent> {
    if e.kind == LEFT_MOUSE_DOWN {
        Some(NativeEvent { kind: LEFT_MOUSE_UP, ..e })
    } else if e.kind == RIGHT_MOUSE_DOWN {
        Some(NativeEvent { kind: RIGHT_MOUSE_UP, ..e })
    } else {
        None
    }
}

pub open spec fn release_after(latest: Option<Recorded>) -> Option<NativeEvent> {
    match latest {
        Some(rec) => release_of(rec.event),
        None => None,
    }
}

/// The hover move that restores pointer feedback, given the latest pointer
/// event, the pointer and the native content rectangle.
pub open spec fn hover_move_after(latest: Option<Recorded>, pointer: PointerState, content: Rect) -> Option<NativeEvent> {
    match latest {
        Some(rec) => if strictly_inside(pointer.location, content) {
            Some(
                NativeEvent {
                    kind: MOUSE_MOVED,
                    location: pointer.location,
                    modifiers: pointer.modifiers,
                    timestamp: pointer.now,
                    window_number: 0,
                    event_number: rec.event.event_number,
                },
            )
        } else {
            None
        },
        None => None,
    }
}

/// The latest event of each kind seen by a window.
pub struct EventLedger {
    last: HashMap<u64, Recorded>,
    next_seq: u64,
}

impl View for EventLedger {
    type V = Map<u64, Recorded>;

    closed spec fn view(&self) -> Map<u64, Recorded> {
        self.last@
    }
}

impl EventLedger {
    /// The sequence number that the next recorded event gets.
    pub closed spec fn stamp(&self) -> u64 {
        self.next_seq
    }

    pub closed spec fn wf(&self) -> bool {
        &&& forall|k: u64| #[trigger] self.last@.contains_key(k) ==> self.last@[k].event.kind == k
            && self.last@[k].seq < self.next_seq
        &&& distinct_seqs(self.last@)
    }

    /// Facts about a well-formed ledger that its users rely on.
    pub proof fn lemma_wf(&self)
        requires
            self.wf(),
        ensures
            valid_ledger(self@, self.stamp()),
    {
    }

    pub fn new() -> (r: EventLedger)
        ensures
            r.wf(),
            r@ == Map::<u64, Recorded>::empty(),
            r.stamp() == 0,
    {
        EventLedger { last: HashMap::new(), next_seq: 0 }
    }

    /// The sequence number that the next recorded event gets.
    pub fn next_stamp(&self) -> (r: u64)
        ensures
            r == self.stamp(),
    {
        self.next_seq
    }

    /// Stores `event` as the latest of its kind, replacing any earlier one.
    pub fn record(&mut self, event: NativeEvent)
        requires
            old(self).wf(),
            old(self).stamp() < u64::MAX,
        ensures
            final(self).wf(),
            final(self)@ == after_record(old(self)@, old(self).stamp(), event),
            final(self).stamp() == old(self).stamp() + 1,
    {
        let rec = Recorded { event, seq: self.next_seq };
        self.last.insert(event.kind, rec);
        self.next_seq = self.next_seq + 1;
    }

    /// The latest recorded event of the given kind.
    pub fn last_of(&self, kind: u64) -> (r: Option<Recorded>)
        ensures
            r == (if self@.contains_key(kind) {
                Some(self@[kind])
            } else {
                None
            }),
    {
        match self.last.get(&kind) {
            Some(rec) => Some(*rec),
            None => None,
        }
    }

    /// The most recently recorded event among the given kinds.
    pub fn latest_of(&self, kinds: &Vec<u64>) -> (r: Option<Recorded>)
        ensures
            is_latest(self@, kinds@, r),
    {
        let mut best: Option<Recorded> = None;
        let mut i: usize = 0;
        while i < kinds.len()
            invariant
                i <= kinds.len(),
                is_latest(self@, kinds@.subrange(0, i as int), best),
            decreases kinds.len() - i,
        {
            let k = kinds[i];
            let found = self.last_of(k);
            proof {
                let pre = kinds@.subrange(0, i as int);
                let post = kinds@.subrange(0, i + 1);
                assert(forall|j: int| 0 <= j < i ==> post[j] == pre[j]);
                assert(post[i as int] == k);
            }
            match found {
                Some(rec) => {
                    match best {
                        Some(b) => {
                            if b.seq < rec.seq {
                                best = Some(rec);
                            }
                        },
                        None => {
                            best = Some(rec);
                        },
                    }
                },
                None => {},
            }
            i = i + 1;
        }
        assert(kinds@.subrange(0, kinds@.len() as int) =~= kinds@);
        best
    }

    /// The release that a press left without its button-up needs: where the
    /// latest press or release of a mouse button is a press, the matching
    /// release; otherwise none.
    pub fn synthesize_release_for_last_press(&self) -> (r: Option<NativeEvent>)
        ensures
            exists|l: Option<Recorded>| is_latest(self@, button_kinds(), l) && r == release_after(l),
    {
        let kinds: Vec<u64> = vec![LEFT_MOUSE_DOWN, LEFT_MOUSE_UP, RIGHT_MOUSE_DOWN, RIGHT_MOUSE_UP];
        assert(kinds@ =~= button_kinds());
        let latest = self.latest_of(&kinds);
        let r = match latest {
            Some(rec) => release_for(rec.event),
            None => None,
        };
        assert(is_latest(self@, button_kinds(), latest) && r == release_after(latest));
        r
    }

    /// The hover move that restores pointer feedback after a transient overlay:
    /// present when some pointer event was seen and the pointer lies strictly
    /// inside the native content rectangle.
    pub fn synthesize_hover_move_if_needed(&self, pointer: PointerState, content: Rect) -> (r: Option<NativeEvent>)
        requires
            rect_in_range(content),
            point_in_range(pointer.location),
        ensures
            exists|l: Option<Recorded>|
                is_latest(self@, pointer_kinds(), l) && r == hover_move_after(l, pointer, content),
    {
        let kinds: Vec<u64> = vec![1u64, 2, 3, 4, 5, 6, 7, 8, 9];
        assert(kinds@ =~= pointer_kinds());
        let latest = self.latest_of(&kinds);
        let r = match latest {
            Some(rec) => {
                if contains_strictly(content, pointer.location) {
                    Some(
                        NativeEvent {
                            kind: MOUSE_MOVED,
                            location: pointer.location,
                            modifiers: pointer.modifiers,
                            timestamp: pointer.now,
                            window_number: 0,
                            event_number: rec.event.event_number,
                        },
                    )
                } else {
                    None
                }
            },
            None => None,
        };
        assert(is_latest(self@, pointer_kinds(), latest) && r == hover_move_after(latest, pointer, content));
        r
    }
}

/// The release matching a press, or `None` for any other event.
pub fn release_for(e: NativeEvent) -> (r: Option<NativeEvent>)
    ensures
        r == release_of(e),
{
    if e.kind == LEFT_MOUSE_DOWN {
        Some(NativeEvent { kind: LEFT_MOUSE_UP, ..e })
    } else if e.kind == RIGHT_MOUSE_DOWN {
        Some(NativeEvent { kind: RIGHT_MOUSE_UP, ..e })
    } else {
        None
    }
}

/// Where sequence numbers are distinct, the latest event among some kinds is
/// unique.
pub proof fn lemma_latest_unique(m: Map<u64, Recorded>, kinds: Seq<u64>, a: Option<Recorded>, b: Option<Recorded>)
    requires
        distinct_seqs(m),
        is_latest(m, kinds, a),
        is_latest(m, kinds, b),
    ensures
        a == b,
{
    match (a, b) {
        (Some(ra), Some(rb)) => {
            let i = choose|i: int| 0 <= i < kinds.len() && m.contains_key(#[trigger] kinds[i]) && m[kinds[i]] == ra;
            let j = choose|j: int| 0 <= j < kinds.len() && m.contains_key(#[trigger] kinds[j]) && m[kinds[j]] == rb;
            assert(m[kinds[j]].seq <= ra.seq);
            assert(m[kinds[i]].seq <= rb.seq);
        },
        (Some(ra), None) => {
            let i = choose|i: int| 0 <= i < kinds.len() && m.contains_key(#[trigger] kinds[i]) && m[kinds[i]] == ra;
        },
        (None, Some(rb)) => {
            let j = choose|j: int| 0 <= j < kinds.len() && m.contains_key(#[trigger] kinds[j]) && m[kinds[j]] == rb;
        },
        (None, None) => {},
    }
}

/// Recording two events of one kind keeps only the later one: the kind's
/// entry is the second event, with the later stamp, and every other kind is
/// left as it was.
pub proof fn lemma_overwrite_keeps_later(m: Map<u64, Recorded>, stamp: u64, a: NativeEvent, b: NativeEvent)
    requires
        a.kind == b.kind,
        stamp < u64::MAX,
    ensures
        ({
            let m2 = after_record(after_record(m, stamp, a), (stamp + 1) as u64, b);
            &&& m2.contains_key(b.kind)
            &&& m2[b.kind] == Recorded { event: b, seq: (stamp + 1) as u64 }
            &&& forall|k: u64| k != b.kind ==> (#[trigger] m2.contains_key(k) == m.contains_key(k))
            &&& forall|k: u64| k != b.kind && m.contains_key(k) ==> #[trigger] m2[k] == m[k]
        }),
{
}

/// Recording keeps a ledger consistent.
pub proof fn lemma_record_valid(m: Map<u64, Recorded>, stamp: u64, e: NativeEvent)
    requires
        valid_ledger(m, stamp),
        stamp < u64::MAX,
    ensures
        valid_ledger(after_record(m, stamp, e), (stamp + 1) as u64),
{
    let m2 = after_record(m, stamp, e);
    assert forall|a: u64, b: u64| m2.contains_key(a) && m2.contains_key(b) && a != b implies #[trigger] m2[a].seq != #[trigger] m2[b].seq by {
        if a == e.kind {
            assert(m[b].seq < stamp);
        } else if b == e.kind {
            assert(m[a].seq < stamp);
        }
    }
}

/// Where the latest button event is a press, the synthesized release sits at
/// the press's place with its modifiers, and once it has passed through the
/// window's event path (and so been recorded), no further release is
/// synthesized.
pub proof fn lemma_release_resolves_press(m: Map<u64, Recorded>, stamp: u64, latest: Option<Recorded>)
    requires
        valid_ledger(m, stamp),
        stamp < u64::MAX,
        is_latest(m, button_kinds(), latest),
        release_after(latest) is Some,
    ensures
        ({
            let press = latest->Some_0.event;
            let r = release_after(latest)->Some_0;
            &&& r.kind == (if press.kind == LEFT_MOUSE_DOWN { LEFT_MOUSE_UP } else { RIGHT_MOUSE_UP })
            &&& r.location == press.location
            &&& r.modifiers == press.modifiers
            &&& r.timestamp == press.timestamp
            &&& r.window_number == press.window_number
            &&& forall|l: Option<Recorded>|
                is_latest(after_record(m, stamp, r), button_kinds(), l) ==> #[trigger] release_after(l) is None
        }),
{
    let r = release_after(latest)->Some_0;
    let m2 = after_record(m, stamp, r);
    let kinds = button_kinds();
    assert(r.kind == LEFT_MOUSE_UP || r.kind == RIGHT_MOUSE_UP);
    assert forall|l: Option<Recorded>| is_latest(m2, kinds, l) implies #[trigger] release_after(l) is None by {
        let ri: int = if r.kind == LEFT_MOUSE_UP { 1 } else { 3 };
        assert(kinds[ri] == r.kind);
        assert(m2.contains_key(kinds[ri]));
        match l {
            Some(rec) => {
                let i = choose|i: int| 0 <= i < kinds.len() && m2.contains_key(#[trigger] kinds[i]) && m2[kinds[i]] == rec;
                assert(m2[kinds[ri]].seq <= rec.seq);
                if kinds[i] != r.kind {
                    assert(m.contains_key(kinds[i]));
                    assert(m[kinds[i]].seq < stamp);
                }
                assert(rec.event == r);
            },
            None => {},
        }
    }
}

} // verus!
