//! Per-entity trajectory stores.
//!
//! A [`PositionHistory`] is an ordered series of keyframes, one per timestamp,
//! that ingests unordered position samples, elides samples that carry no new
//! information for piecewise-linear motion, and answers position queries at
//! arbitrary times by exact linear interpolation between the surrounding
//! keyframes, clamping at both ends of the recorded span.

use vstd::prelude::*;

verus! {

/// A two-dimensional position in the integer coordinates carried by the wire
/// protocol.
#[derive(Clone, Copy, PartialEq, Eq, Structural, Debug)]
pub struct Position {
    pub x: i64,
    pub y: i64,
}

/// One stored sample of a trajectory: a timestamp in milliseconds and the
/// position observed at that time.
#[derive(Clone, Copy, PartialEq, Eq, Structural, Debug)]
pub struct Keyframe {
    pub timestamp: i64,
    pub position: Position,
}

/// Returned when a position is requested from a trajectory that holds no
/// keyframes; the store never invents a default position.
#[derive(Clone, Copy, PartialEq, Eq, Structural, Debug)]
pub struct EmptyTrajectoryError;

/// The position reported at a query time, one exact rational per axis: the x
/// coordinate is `x_num / den` and the y coordinate is `y_num / den`, with
/// `den >= 1`. Exact hits and clamped results carry `den == 1`.
#[derive(Clone, Copy, PartialEq, Eq, Structural, Debug)]
pub struct InterpolatedPosition {
    pub x_num: i128,
    pub y_num: i128,
    pub den: i128,
}

/// The keyframes are strictly ordered by timestamp, so each timestamp occurs
/// at most once.
pub open spec fn times_sorted(s: Seq<Keyframe>) -> bool {
    forall|i: int, j: int| 0 <= i < j < s.len() ==> s[i].timestamp < s[j].timestamp
}

/// Index of the first keyframe whose timestamp is at or after `t`, or
/// `s.len()` if every keyframe lies before `t`.
pub open spec fn first_on_or_after(s: Seq<Keyframe>, t: i64) -> int
    decreases s.len(),
{
    if s.len() == 0 {
        0
    } else if s[0].timestamp >= t {
        0
    } else {
        1 + first_on_or_after(s.subrange(1, s.len() as int), t)
    }
}

pub proof fn lemma_first_on_or_after(s: Seq<Keyframe>, t: i64)
    ensures
        0 <= first_on_or_after(s, t) <= s.len(),
        forall|i: int| 0 <= i < first_on_or_after(s, t) ==> s[i].timestamp < t,
        first_on_or_after(s, t) < s.len() ==> s[first_on_or_after(s, t)].timestamp >= t,
    decreases s.len(),
{
    if s.len() == 0 {
    } else if s[0].timestamp >= t {
    } else {
        let sub = s.subrange(1, s.len() as int);
        let f = first_on_or_after(s, t);
        lemma_first_on_or_after(sub, t);
        assert forall|i: int| 0 <= i < f implies s[i].timestamp < t by {
            if i >= 1 {
                assert(sub[i - 1] == s[i]);
            }
        }
        if f < s.len() {
            assert(sub[f - 1] == s[f]);
        }
    }
}

/// `first_on_or_after` is the unique boundary between the strictly-earlier
/// prefix and the rest.
pub proof fn lemma_first_on_or_after_is(s: Seq<Keyframe>, t: i64, j: int)
    requires
        0 <= j <= s.len(),
        forall|i: int| 0 <= i < j ==> s[i].timestamp < t,
        j < s.len() ==> s[j].timestamp >= t,
    ensures
        first_on_or_after(s, t) == j,
{
    let f = first_on_or_after(s, t);
    lemma_first_on_or_after(s, t);
    if f < j {
        assert(s[f].timestamp < t);
        assert(s[f].timestamp >= t);
    } else if j < f {
        assert(s[j].timestamp < t);
        assert(s[j].timestamp >= t);
    }
}

/// The store after one insertion of the sample `(t, p)`: a duplicate of a
/// stored timestamp is ignored; a sample that only restates the constant
/// segment between its two neighbours is dropped; a neighbour that would
/// become the interior point of a constant run is replaced by the new sample;
/// otherwise the sample is inserted in timestamp order.
pub open spec fn spec_add_update(s: Seq<Keyframe>, t: i64, p: Position) -> Seq<Keyframe> {
    let j = first_on_or_after(s, t);
    let kf = Keyframe { timestamp: t, position: p };
    if j < s.len() && s[j].timestamp == t {
        s
    } else if 0 < j && j < s.len() && s[j - 1].position == s[j].position && s[j].position == p {
        s
    } else if 0 < j && s[j - 1].position == p && 1 < j && s[j - 2].position == p {
        s.update(j - 1, kf)
    } else if j < s.len() && s[j].position == p && j + 1 < s.len() && s[j + 1].position == p {
        s.update(j, kf)
    } else {
        s.insert(j, kf)
    }
}

/// Insertion keeps the keyframes strictly ordered by timestamp.
pub proof fn lemma_add_update_sorted(s: Seq<Keyframe>, t: i64, p: Position)
    requires
        times_sorted(s),
    ensures
        times_sorted(spec_add_update(s, t, p)),
{
    lemma_first_on_or_after(s, t);
    let j = first_on_or_after(s, t);
    let kf = Keyframe { timestamp: t, position: p };
    let r = spec_add_update(s, t, p);
    if j < s.len() && s[j].timestamp == t {
    } else if 0 < j && j < s.len() && s[j - 1].position == s[j].position && s[j].position == p {
    } else if 0 < j && s[j - 1].position == p && 1 < j && s[j - 2].position == p {
        assert(r == s.update(j - 1, kf));
        assert forall|a: int, b: int| 0 <= a < b < r.len() implies r[a].timestamp
            < r[b].timestamp by {
            if a == j - 1 {
                assert(s[j].timestamp > t);
                if b > j {
                    assert(s[j].timestamp < s[b].timestamp);
                }
            } else if b == j - 1 {
                assert(s[a].timestamp < t);
            }
        }
    } else if j < s.len() && s[j].position == p && j + 1 < s.len() && s[j + 1].position == p {
        assert(r == s.update(j, kf));
        assert forall|a: int, b: int| 0 <= a < b < r.len() implies r[a].timestamp
            < r[b].timestamp by {
            if a == j {
                assert(s[j].timestamp <= s[b].timestamp);
            } else if b == j {
                assert(s[a].timestamp < t);
            }
        }
    } else {
        assert(r == s.insert(j, kf));
        s.insert_ensures(j, kf);
        assert forall|a: int, b: int| 0 <= a < b < r.len() implies r[a].timestamp
            < r[b].timestamp by {
            if a < j && b < j {
                assert(r[a] == s[a]);
                assert(r[b] == s[b]);
            } else if a < j && b == j {
                assert(r[a] == s[a]);
                assert(s[a].timestamp < t);
            } else if a < j && b > j {
                assert(r[a] == s[a]);
                assert(r[b] == s[b - 1]);
                assert(s[a].timestamp < t);
                assert(s[b - 1].timestamp >= t);
            } else if a == j {
                assert(r[b] == s[b - 1]);
                assert(s[b - 1].timestamp >= t);
                assert(s[b - 1].timestamp != t);
            } else {
                assert(r[a] == s[a - 1]);
                assert(r[b] == s[b - 1]);
            }
        }
    }
}

/// Inserting the same sample a second time changes nothing: the first call
/// either stored a keyframe at `t` or found the sample redundant, and in both
/// cases the second call is a no-op.
pub proof fn lemma_add_update_idempotent(s: Seq<Keyframe>, t: i64, p: Position)
    requires
        times_sorted(s),
    ensures
        spec_add_update(spec_add_update(s, t, p), t, p) == spec_add_update(s, t, p),
{
    lemma_first_on_or_after(s, t);
    let j = first_on_or_after(s, t);
    let kf = Keyframe { timestamp: t, position: p };
    let s1 = spec_add_update(s, t, p);
    if j < s.len() && s[j].timestamp == t {
    } else if 0 < j && j < s.len() && s[j - 1].position == s[j].position && s[j].position == p {
    } else if 0 < j && s[j - 1].position == p && 1 < j && s[j - 2].position == p {
        assert(s1 == s.update(j - 1, kf));
        lemma_first_on_or_after_is(s1, t, j - 1);
        assert(s1[j - 1].timestamp == t);
    } else if j < s.len() && s[j].position == p && j + 1 < s.len() && s[j + 1].position == p {
        assert(s1 == s.update(j, kf));
        lemma_first_on_or_after_is(s1, t, j);
        assert(s1[j].timestamp == t);
    } else {
        assert(s1 == s.insert(j, kf));
        s.insert_ensures(j, kf);
        assert forall|i: int| 0 <= i < j implies s1[i].timestamp < t by {
            assert(s1[i] == s[i]);
        }
        lemma_first_on_or_after_is(s1, t, j);
        assert(s1[j].timestamp == t);
    }
}

/// An empty store after one insertion of each sample `(times[i], p)`, in
/// order.
pub open spec fn spec_insert_run(times: Seq<i64>, p: Position) -> Seq<Keyframe>
    decreases times.len(),
{
    if times.len() == 0 {
        Seq::empty()
    } else {
        spec_add_update(spec_insert_run(times.drop_last(), p), times.last(), p)
    }
}

/// A stationary run is compacted to its end points: inserting samples at
/// strictly increasing times, all sharing one position, leaves exactly the
/// first and the last of them as keyframes.
pub proof fn lemma_stationary_run_compacts(times: Seq<i64>, p: Position)
    requires
        times.len() >= 2,
        forall|i: int, j: int| 0 <= i < j < times.len() ==> times[i] < times[j],
    ensures
        spec_insert_run(times, p) =~= seq![
            Keyframe { timestamp: times[0], position: p },
            Keyframe { timestamp: times.last(), position: p },
        ],
    decreases times.len(),
{
    let first = Keyframe { timestamp: times[0], position: p };
    let last = Keyframe { timestamp: times.last(), position: p };
    if times.len() == 2 {
        let empty = Seq::<Keyframe>::empty();
        let once = spec_insert_run(times.drop_last(), p);
        assert(times.drop_last().drop_last().len() == 0);
        assert(spec_insert_run(times.drop_last().drop_last(), p) == Seq::<Keyframe>::empty());
        assert(times.drop_last().last() == times[0]);
        assert(first_on_or_after(empty, times[0]) == 0);
        assert(once == spec_add_update(empty, times[0], p));
        assert(once =~= empty.insert(0, first));
        assert(once =~= seq![first]);
        lemma_first_on_or_after_is(once, times.last(), 1);
        assert(spec_insert_run(times, p) =~= once.insert(1, last));
    } else {
        let prefix = times.drop_last();
        lemma_stationary_run_compacts(prefix, p);
        let stored = spec_insert_run(prefix, p);
        assert(stored =~= seq![
            Keyframe { timestamp: prefix[0], position: p },
            Keyframe { timestamp: prefix.last(), position: p },
        ]);
        assert(prefix[0] == times[0]);
        assert(prefix.last() == times[times.len() - 2]);
        assert(stored[0].timestamp < times.last());
        assert(stored[1].timestamp < times.last());
        lemma_first_on_or_after_is(stored, times.last(), 2);
        // The middle keyframe is the interior of the run: the new sample
        // replaces it.
        assert(spec_insert_run(times, p) =~= stored.update(1, last));
    }
}

/// The exact position the store reports at time `t`, as a rational triple
/// `(x numerator, y numerator, denominator)`: the stored position on an exact
/// hit, the first or last position when `t` lies outside the recorded span,
/// and otherwise the linear interpolation between the surrounding keyframes.
/// Meaningful only for a non-empty store.
pub open spec fn spec_position_at(s: Seq<Keyframe>, t: i64) -> (int, int, int) {
    let j = first_on_or_after(s, t);
    if j < s.len() && s[j].timestamp == t {
        (s[j].position.x as int, s[j].position.y as int, 1int)
    } else if j == 0 {
        (s[0].position.x as int, s[0].position.y as int, 1int)
    } else if j == s.len() {
        (s[s.len() - 1].position.x as int, s[s.len() - 1].position.y as int, 1int)
    } else {
        let prev = s[j - 1];
        let next = s[j];
        (
            prev.position.x * (next.timestamp - t) + next.position.x * (t - prev.timestamp),
            prev.position.y * (next.timestamp - t) + next.position.y * (t - prev.timestamp),
            next.timestamp - prev.timestamp,
        )
    }
}

/// The rational triple for a plain integer position (denominator one).
pub open spec fn exact_point(p: Position) -> InterpolatedPosition {
    InterpolatedPosition { x_num: p.x as i128, y_num: p.y as i128, den: 1 }
}

/// Per-entity compacted time series of positions: keyframes strictly ordered
/// by timestamp, mutated only through [`PositionHistory::add_update`].
#[derive(Debug)]
pub struct PositionHistory {
    entries: Vec<Keyframe>,
}

impl View for PositionHistory {
    type V = Seq<Keyframe>;

    closed spec fn view(&self) -> Seq<Keyframe> {
        self.entries@
    }
}

impl Default for PositionHistory {
    fn default() -> (h: Self)
        ensures
            h@ == Seq::<Keyframe>::empty(),
            times_sorted(h@),
    {
        PositionHistory { entries: Vec::new() }
    }
}

impl PositionHistory {
    /// Creates an empty trajectory.
    pub fn new() -> (h: Self)
        ensures
            h@ == Seq::<Keyframe>::empty(),
            times_sorted(h@),
    {
        PositionHistory { entries: Vec::new() }
    }

    /// Number of stored keyframes.
    pub fn len(&self) -> (n: usize)
        ensures
            n == self@.len(),
    {
        self.entries.len()
    }

    /// Whether the trajectory holds no keyframes.
    pub fn is_empty(&self) -> (b: bool)
        ensures
            b == (self@.len() == 0),
    {
        self.entries.is_empty()
    }

    /// The keyframe at `index`, in timestamp order.
    pub fn keyframe(&self, index: usize) -> (r: Option<Keyframe>)
        ensures
            index < self@.len() ==> r == Some(self@[index as int]),
            index >= self@.len() ==> r is None,
    {
        if index < self.entries.len() {
            Some(self.entries[index])
        } else {
            None
        }
    }

    /// Index of the first stored keyframe at or after `t`.
    fn lower_index(&self, t: i64) -> (j: usize)
        ensures
            j == first_on_or_after(self@, t),
            j <= self@.len(),
    {
        let mut i: usize = 0;
        while i < self.entries.len() && self.entries[i].timestamp < t
            invariant
                i <= self.entries.len(),
                forall|k: int| 0 <= k < i ==> self.entries@[k].timestamp < t,
            decreases self.entries.len() - i,
        {
            i = i + 1;
        }
        proof {
            lemma_first_on_or_after_is(self@, t, i as int);
        }
        i
    }

    /// Records the sample `(timestamp, position)`, eliding redundant
    /// keyframes: a duplicate timestamp is ignored; a sample whose two
    /// neighbours already describe a constant segment at `position` is
    /// dropped; a neighbour that shares `position` with its own further
    /// neighbour is replaced, collapsing the interior of a constant run.
    ///
    /// Each collapse step looks only one hop away from the new sample, so a
    /// stationary run is reduced to its first and last members when samples
    /// arrive in increasing timestamp order; samples arriving out of order
    /// are stored correctly but may leave interior keyframes standing.
    pub fn add_update(&mut self, timestamp: i64, position: Position)
        requires
            times_sorted(old(self)@),
        ensures
            final(self)@ == spec_add_update(old(self)@, timestamp, position),
            times_sorted(final(self)@),
    {
        proof {
            lemma_first_on_or_after(self@, timestamp);
            lemma_add_update_sorted(self@, timestamp, position);
        }
        let j = self.lower_index(timestamp);
        let n = self.entries.len();
        let kf = Keyframe { timestamp, position };

        // Don't record a timestamp we already have.
        if j < n && self.entries[j].timestamp == timestamp {
            return;
        }

        // If the previous and next keyframes both equal the new sample, the
        // segment between them is already a constant run through it.
        if 0 < j && j < n {
            if self.entries[j - 1].position == self.entries[j].position
                && self.entries[j].position == position {
                return;
            }
        }

        // If the previous keyframe and its own predecessor both equal the new
        // sample, the previous keyframe becomes a redundant interior point.
        if 0 < j && self.entries[j - 1].position == position {
            if 1 < j && self.entries[j - 2].position == position {
                self.entries.set(j - 1, kf);
                return;
            }
        }

        // Symmetrically for the next keyframe and its own successor.
        if j < n && self.entries[j].position == position {
            if j + 1 < n && self.entries[j + 1].position == position {
                self.entries.set(j, kf);
                return;
            }
        }

        self.entries.insert(j, kf);
    }

    /// The position at `timestamp`, assuming linear motion between keyframes
    /// and clamping outside the recorded span. Fails if and only if the
    /// trajectory is empty.
    pub fn get_position_at(&self, timestamp: i64) -> (r: Result<
        InterpolatedPosition,
        EmptyTrajectoryError,
    >)
        requires
            times_sorted(self@),
        ensures
            r is Err <==> self@.len() == 0,
            r is Err ==> r == Err::<InterpolatedPosition, EmptyTrajectoryError>(
                EmptyTrajectoryError,
            ),
            r is Ok ==> r->Ok_0.x_num as int == spec_position_at(self@, timestamp).0
                && r->Ok_0.y_num as int == spec_position_at(self@, timestamp).1
                && r->Ok_0.den as int == spec_position_at(self@, timestamp).2
                && r->Ok_0.den >= 1,
            forall|i: int|
                0 <= i < self@.len() && self@[i].timestamp == timestamp ==> r == Ok::<
                    InterpolatedPosition,
                    EmptyTrajectoryError,
                >(exact_point(self@[i].position)),
            self@.len() > 0 && timestamp <= self@[0].timestamp ==> r == Ok::<
                InterpolatedPosition,
                EmptyTrajectoryError,
            >(exact_point(self@[0].position)),
            self@.len() > 0 && timestamp >= self@[self@.len() - 1].timestamp ==> r == Ok::<
                InterpolatedPosition,
                EmptyTrajectoryError,
            >(exact_point(self@[self@.len() - 1].position)),
            self@.len() == 1 ==> r == Ok::<InterpolatedPosition, EmptyTrajectoryError>(
                exact_point(self@[0].position),
            ),
    {
        let n = self.entries.len();
        if n == 0 {
            return Err(EmptyTrajectoryError);
        }
        proof {
            lemma_first_on_or_after(self@, timestamp);
        }
        let j = self.lower_index(timestamp);

        // Simple case: there is a keyframe at the requested timestamp.
        if j < n && self.entries[j].timestamp == timestamp {
            let p = self.entries[j].position;
            proof {
                assert forall|i: int|
                    0 <= i < self@.len() && self@[i].timestamp == timestamp implies i == j by {
                    if i < j {
                        assert(self@[i].timestamp < timestamp);
                    }
                    if i > j {
                        assert(self@[j as int].timestamp < self@[i].timestamp);
                    }
                }
            }
            return Ok(InterpolatedPosition { x_num: p.x as i128, y_num: p.y as i128, den: 1 });
        }

        proof {
            assert forall|i: int| 0 <= i < self@.len() implies self@[i].timestamp != timestamp by {
                if i < j {
                    assert(self@[i].timestamp < timestamp);
                }
                if i == j {
                    assert(self@[i].timestamp >= timestamp);
                }
                if i > j && j < self@.len() {
                    assert(self@[j as int].timestamp < self@[i].timestamp);
                    assert(self@[j as int].timestamp >= timestamp);
                }
            }
        }

        // The query time precedes every keyframe: clamp to the first one.
        if j == 0 {
            let p = self.entries[0].position;
            return Ok(InterpolatedPosition { x_num: p.x as i128, y_num: p.y as i128, den: 1 });
        }

        // The query time follows every keyframe: clamp to the last one.
        if j == n {
            let p = self.entries[n - 1].position;
            return Ok(InterpolatedPosition { x_num: p.x as i128, y_num: p.y as i128, den: 1 });
        }

        // Linearly interpolate between the surrounding keyframes.
        let prev = self.entries[j - 1];
        let next = self.entries[j];
        let wp: i128 = (next.timestamp as i128) - (timestamp as i128);
        let wn: i128 = (timestamp as i128) - (prev.timestamp as i128);
        let den: i128 = (next.timestamp as i128) - (prev.timestamp as i128);
        proof {
            let bound: int = 0x8000_0000_0000_0000;
            let px = prev.position.x as int;
            let nx = next.position.x as int;
            let py = prev.position.y as int;
            let ny = next.position.y as int;
            assert(1 <= wp as int && 1 <= wn as int && wp as int + wn as int == den as int);
            assert({
                &&& -(bound * den) <= px * wp <= bound * den
                &&& -(bound * den) <= nx * wn <= bound * den
                &&& -(bound * den) <= px * wp + nx * wn <= bound * den
                &&& -(bound * den) <= py * wp <= bound * den
                &&& -(bound * den) <= ny * wn <= bound * den
                &&& -(bound * den) <= py * wp + ny * wn <= bound * den
            }) by (nonlinear_arith)
                requires
                    -bound <= px <= bound,
                    -bound <= nx <= bound,
                    -bound <= py <= bound,
                    -bound <= ny <= bound,
                    0 <= wp as int,
                    0 <= wn as int,
                    wp as int + wn as int == den as int,
            ;
            let d = den as int;
            assert(bound * d <= bound * 0xFFFF_FFFF_FFFF_FFFF) by (nonlinear_arith)
                requires
                    0 <= d <= 0xFFFF_FFFF_FFFF_FFFF,
                    bound == 0x8000_0000_0000_0000,
            ;
        }
        let x_num = (prev.position.x as i128) * wp + (next.position.x as i128) * wn;
        let y_num = (prev.position.y as i128) * wp + (next.position.y as i128) * wn;
        Ok(InterpolatedPosition { x_num, y_num, den })
    }
}

/// Each entity id occurs at most once, and every trajectory is strictly
/// ordered by timestamp.
pub open spec fn histories_wf(s: Seq<(i64, Seq<Keyframe>)>) -> bool {
    &&& forall|a: int, b: int| 0 <= a < b < s.len() ==> (#[trigger] s[a]).0 != (#[trigger] s[b]).0
    &&& forall|k: int| 0 <= k < s.len() ==> times_sorted((#[trigger] s[k]).1)
}

/// Whether some entity `id` already owns a trajectory.
pub open spec fn has_entity(s: Seq<(i64, Seq<Keyframe>)>, id: i64) -> bool {
    exists|k: int| 0 <= k < s.len() && (#[trigger] s[k]).0 == id
}

/// The index of entity `id`'s trajectory; meaningful when `has_entity` holds
/// and the ids are unique.
pub open spec fn entity_index(s: Seq<(i64, Seq<Keyframe>)>, id: i64) -> int {
    choose|k: int| 0 <= k < s.len() && (#[trigger] s[k]).0 == id
}

/// One sample routed to its entity's trajectory: the existing trajectory is
/// extended, or a fresh one is created for a first-seen entity.
pub open spec fn spec_add_sample(
    s: Seq<(i64, Seq<Keyframe>)>,
    id: i64,
    t: i64,
    p: Position,
) -> Seq<(i64, Seq<Keyframe>)> {
    if has_entity(s, id) {
        let k = entity_index(s, id);
        s.update(k, (id, spec_add_update(s[k].1, t, p)))
    } else {
        s.push((id, spec_add_update(Seq::empty(), t, p)))
    }
}

/// One event folded into the trajectories: its source sample, if reported,
/// then its target sample, if reported.
pub open spec fn spec_ingest_event(s: Seq<(i64, Seq<Keyframe>)>, e: crate::events::Event) -> Seq<
    (i64, Seq<Keyframe>),
> {
    let s1 = match e.spec_source_resources() {
        Some(pr) => spec_add_sample(s, pr.0, e.spec_timestamp(), Position { x: pr.1.x, y: pr.1.y }),
        None => s,
    };
    match e.spec_target_resources() {
        Some(pr) => spec_add_sample(
            s1,
            pr.0,
            e.spec_timestamp(),
            Position { x: pr.1.x, y: pr.1.y },
        ),
        None => s1,
    }
}

/// An event sequence folded into the trajectories, in order.
pub open spec fn spec_ingest(s: Seq<(i64, Seq<Keyframe>)>, events: Seq<crate::events::Event>) -> Seq<
    (i64, Seq<Keyframe>),
>
    decreases events.len(),
{
    if events.len() == 0 {
        s
    } else {
        spec_ingest_event(spec_ingest(s, events.drop_last()), events.last())
    }
}

/// All tracked entities' trajectories, keyed by entity id, in first-seen
/// order. Entities share no state, so each sample touches exactly one
/// trajectory.
#[derive(Debug)]
pub struct EntityHistories {
    entries: Vec<(i64, PositionHistory)>,
}

impl View for EntityHistories {
    type V = Seq<(i64, Seq<Keyframe>)>;

    closed spec fn view(&self) -> Seq<(i64, Seq<Keyframe>)> {
        self.entries@.map_values(|p: (i64, PositionHistory)| (p.0, p.1@))
    }
}

impl EntityHistories {
    /// Creates an empty collection of trajectories.
    pub fn new() -> (h: Self)
        ensures
            h@ == Seq::<(i64, Seq<Keyframe>)>::empty(),
            histories_wf(h@),
    {
        let h = EntityHistories { entries: Vec::new() };
        proof {
            assert(h@ =~= Seq::<(i64, Seq<Keyframe>)>::empty());
        }
        h
    }

    /// Number of tracked entities.
    pub fn entity_count(&self) -> (n: usize)
        ensures
            n == self@.len(),
    {
        self.entries.len()
    }

    /// The `index`-th entity and its trajectory, in first-seen order.
    pub fn entry(&self, index: usize) -> (r: Option<&(i64, PositionHistory)>)
        ensures
            index < self@.len() ==> (r matches Some(p) && self@[index as int] == (p.0, p.1@)),
            index >= self@.len() ==> r is None,
    {
        if index < self.entries.len() {
            Some(&self.entries[index])
        } else {
            None
        }
    }

    /// The trajectory of entity `id`, if any sample for it was ingested.
    pub fn get(&self, id: i64) -> (r: Option<&PositionHistory>)
        requires
            histories_wf(self@),
        ensures
            match r {
                Some(h) => has_entity(self@, id) && h@ == self@[entity_index(self@, id)].1
                    && times_sorted(h@),
                None => !has_entity(self@, id),
            },
    {
        let mut k: usize = 0;
        while k < self.entries.len() && self.entries[k].0 != id
            invariant
                k <= self.entries.len(),
                forall|a: int| 0 <= a < k ==> (#[trigger] self@[a]).0 != id,
            decreases self.entries.len() - k,
        {
            k = k + 1;
        }
        if k < self.entries.len() {
            proof {
                assert(self@[k as int].0 == id);
                let kc = entity_index(self@, id);
                assert(0 <= kc < self@.len() && self@[kc].0 == id);
                if kc != k as int {
                    assert(self@[kc].0 != self@[k as int].0);
                }
            }
            Some(&self.entries[k].1)
        } else {
            None
        }
    }

    /// Routes one sample to entity `id`'s trajectory, creating it on first
    /// sight of the entity.
    pub fn add_sample(&mut self, id: i64, t: i64, p: Position)
        requires
            histories_wf(old(self)@),
        ensures
            final(self)@ == spec_add_sample(old(self)@, id, t, p),
            histories_wf(final(self)@),
    {
        let ghost s0 = self@;
        let mut k: usize = 0;
        while k < self.entries.len() && self.entries[k].0 != id
            invariant
                k <= self.entries.len(),
                forall|a: int| 0 <= a < k ==> (#[trigger] self@[a]).0 != id,
            decreases self.entries.len() - k,
        {
            k = k + 1;
        }
        if k < self.entries.len() {
            proof {
                assert(s0[k as int].0 == id);
                let kc = entity_index(s0, id);
                assert(0 <= kc < s0.len() && s0[kc].0 == id);
                if kc != k as int {
                    assert(s0[kc].0 != s0[k as int].0);
                }
                assert(entity_index(s0, id) == k as int);
            }
            let mut kv = self.entries.remove(k);
            kv.1.add_update(t, p);
            self.entries.insert(k, kv);
            proof {
                let e0 = old(self).entries@;
                let e2 = self.entries@;
                e0.remove_ensures(k as int);
                e0.remove(k as int).insert_ensures(k as int, kv);
                assert forall|i: int| 0 <= i < e2.len() && i != k implies e2[i] == e0[i] by {
                    if i < k {
                        assert(e0.remove(k as int)[i] == e0[i]);
                    } else {
                        assert(e2[i] == e0.remove(k as int)[i - 1]);
                        assert(e0.remove(k as int)[i - 1] == e0[i]);
                    }
                }
                assert(e2[k as int] == kv);
                assert(final(self)@ =~= spec_add_sample(s0, id, t, p));
            }
        } else {
            let mut h = PositionHistory::new();
            h.add_update(t, p);
            self.entries.push((id, h));
            proof {
                assert(!has_entity(s0, id));
                assert(final(self)@ =~= spec_add_sample(s0, id, t, p));
            }
        }
    }

    /// Folds an event sequence into the trajectories: for each event in
    /// order, its source sample and then its target sample, wherever the
    /// event reports them.
    pub fn ingest(&mut self, events: &Vec<crate::events::Event>)
        requires
            histories_wf(old(self)@),
        ensures
            final(self)@ == spec_ingest(old(self)@, events@),
            histories_wf(final(self)@),
    {
        let ghost s0 = self@;
        let mut i: usize = 0;
        while i < events.len()
            invariant
                i <= events.len(),
                histories_wf(self@),
                self@ == spec_ingest(s0, events@.take(i as int)),
            decreases events.len() - i,
        {
            let e = &events[i];
            let t = e.get_timestamp();
            if let Some((id, res)) = e.get_source_resources() {
                self.add_sample(id, t, Position { x: res.x, y: res.y });
            }
            if let Some((id, res)) = e.get_target_resources() {
                self.add_sample(id, t, Position { x: res.x, y: res.y });
            }
            proof {
                assert(events@.take(i as int + 1).drop_last() =~= events@.take(i as int));
                assert(events@.take(i as int + 1).last() == events@[i as int]);
            }
            i = i + 1;
        }
        proof {
            assert(events@.take(events@.len() as int) =~= events@);
        }
    }
}

} // verus!
