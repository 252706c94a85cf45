//! Segments of track points, and the derivation of missing speeds.
//!
//! Speed derivation needs the geodesic distance between consecutive points
//! and the elapsed time between their timestamps, a computation on binary64
//! numbers that lives with the surrounding driver. The split here is a small
//! protocol: [`speed_fill_plan`] decides which points need a speed and hands
//! out the inputs of each computation (rejecting points without timestamps),
//! the driver computes one speed per request, and [`fill_speed_on_missing`]
//! stores the results and applies the first-point mirroring rule.

use vstd::prelude::*;

use crate::error::Error;

verus! {

/// A point in time: whole seconds since the Unix epoch, plus the sub-second
/// part in nanoseconds.
#[derive(Clone, Copy, PartialEq, Eq, Structural, Debug)]
pub struct Timestamp {
    pub seconds: i64,
    pub nanos: u32,
}

/// One recorded track point.
///
/// `latitude`, `longitude`, `elevation`, `geoidheight`, `hdop`, `vdop`,
/// `pdop` and `speed` are binary64 bit patterns; `speed` is in km/h.
#[derive(Clone, Debug)]
pub struct Point {
    /// Latitude in degrees (bit pattern). Required.
    pub latitude: u64,
    /// Longitude in degrees (bit pattern). Required.
    pub longitude: u64,
    /// Elevation in meters (bit pattern).
    pub elevation: Option<u64>,
    /// Speed in km/h (bit pattern); filled in when absent.
    pub speed: Option<u64>,
    /// Time of the recording; required for speed derivation and row mapping.
    pub time: Option<Timestamp>,
    /// Height of the geoid above the ellipsoid, in meters (bit pattern).
    pub geoidheight: Option<u64>,
    /// GPS comment.
    pub comment: Option<String>,
    /// Description of the point.
    pub description: Option<String>,
    /// Source of the data.
    pub source: Option<String>,
    /// Symbol of the point.
    pub symbol: Option<String>,
    /// Horizontal dilution of precision (bit pattern).
    pub hdop: Option<u64>,
    /// Vertical dilution of precision (bit pattern).
    pub vdop: Option<u64>,
    /// Position dilution of precision (bit pattern).
    pub pdop: Option<u64>,
    /// Number of satellites used for the fix.
    pub sat: Option<u64>,
}

/// A contiguous ordered run of points within a track.
#[derive(Clone, Debug)]
pub struct Segment {
    pub points: Vec<Point>,
}

/// The inputs of one speed computation: the point at `index` has no speed,
/// and its speed is to be derived from the geodesic distance between the
/// previous point (`prev_`) and the point itself (`next_`), divided by the
/// elapsed time between their timestamps.
#[derive(Clone, Copy, PartialEq, Eq, Structural, Debug)]
pub struct SpeedRequest {
    /// Index of the point whose speed is to be filled; at least 1.
    pub index: usize,
    /// Latitude of the previous point, in degrees (bit pattern).
    pub prev_latitude: u64,
    /// Longitude of the previous point, in degrees (bit pattern).
    pub prev_longitude: u64,
    /// Latitude of the point to fill, in degrees (bit pattern).
    pub next_latitude: u64,
    /// Longitude of the point to fill, in degrees (bit pattern).
    pub next_longitude: u64,
    /// Timestamp of the previous point.
    pub prev_time: Timestamp,
    /// Timestamp of the point to fill.
    pub next_time: Timestamp,
}

/// The point at index `i` is missing its speed and is due for filling
/// (the first point is never computed on its own: it mirrors the second).
pub open spec fn needs_speed(s: Seq<Point>, i: int) -> bool {
    1 <= i < s.len() && s[i].speed is None
}

/// Both points that the speed computation at index `i` reads carry a
/// timestamp.
pub open spec fn fill_times_ok_at(s: Seq<Point>, i: int) -> bool {
    s[i].time is Some && s[i - 1].time is Some
}

/// Every point due for filling, and its predecessor, carries a timestamp:
/// exactly when speed filling succeeds.
pub open spec fn fill_times_ok(s: Seq<Point>) -> bool {
    forall|i: int| #[trigger] needs_speed(s, i) ==> fill_times_ok_at(s, i)
}

/// The speed request for index `i`, read off the points at `i - 1` and `i`.
pub open spec fn request_at(s: Seq<Point>, i: int) -> SpeedRequest {
    SpeedRequest {
        index: i as usize,
        prev_latitude: s[i - 1].latitude,
        prev_longitude: s[i - 1].longitude,
        next_latitude: s[i].latitude,
        next_longitude: s[i].longitude,
        prev_time: s[i - 1].time.unwrap(),
        next_time: s[i].time.unwrap(),
    }
}

/// The full plan: one request per missing speed, in index order.
pub open spec fn plan_spec(s: Seq<Point>) -> Seq<SpeedRequest>
    decreases s.len(),
{
    if s.len() <= 1 {
        Seq::empty()
    } else if s.last().speed is None {
        plan_spec(s.drop_last()).push(request_at(s, s.len() - 1))
    } else {
        plan_spec(s.drop_last())
    }
}

/// Extending the points by one extends the plan by at most one request.
proof fn lemma_plan_spec_step(s: Seq<Point>, i: int)
    requires
        1 <= i < s.len(),
    ensures
        plan_spec(s.take(i + 1)) == if s[i].speed is None {
            plan_spec(s.take(i)).push(request_at(s, i))
        } else {
            plan_spec(s.take(i))
        },
{
    let t = s.take(i + 1);
    assert(t.drop_last() =~= s.take(i));
    assert(t.last() == s[i]);
    if s[i].speed is None {
        assert(request_at(t, i) == request_at(s, i));
    }
}

/// Decides which points of the segment need a speed, and returns the inputs
/// of each computation, in index order. A point due for filling whose own or
/// previous timestamp is absent is a fatal error for the whole segment.
pub fn speed_fill_plan(segment: &Segment) -> (r: Result<Vec<SpeedRequest>, Error>)
    ensures
        r is Ok <==> fill_times_ok(segment.points@),
        r matches Ok(plan) ==> plan@ == plan_spec(segment.points@),
        r matches Err(e) ==> e is TimestampNotPresent,
{
    let ghost s = segment.points@;
    let n = segment.points.len();
    let mut plan: Vec<SpeedRequest> = Vec::new();
    if n == 0 {
        proof {
            assert(plan@ =~= plan_spec(s));
        }
        return Ok(plan);
    }
    proof {
        assert(plan@ =~= plan_spec(s.take(1)));
    }
    let mut idx: usize = 1;
    while idx < n
        invariant
            1 <= idx <= n,
            n == s.len(),
            s == segment.points@,
            plan@ == plan_spec(s.take(idx as int)),
            forall|i: int| #[trigger] needs_speed(s, i) && i < idx ==> fill_times_ok_at(s, i),
        decreases n - idx,
    {
        let p = &segment.points[idx];
        if p.speed.is_none() {
            let prev = &segment.points[idx - 1];
            match (p.time, prev.time) {
                (Some(next_time), Some(prev_time)) => {
                    let req = SpeedRequest {
                        index: idx,
                        prev_latitude: prev.latitude,
                        prev_longitude: prev.longitude,
                        next_latitude: p.latitude,
                        next_longitude: p.longitude,
                        prev_time,
                        next_time,
                    };
                    plan.push(req);
                    proof {
                        lemma_plan_spec_step(s, idx as int);
                        assert(req == request_at(s, idx as int));
                    }
                },
                _ => {
                    proof {
                        assert(needs_speed(s, idx as int) && !fill_times_ok_at(s, idx as int));
                    }
                    return Err(Error::TimestampNotPresent);
                },
            }
        } else {
            proof {
                lemma_plan_spec_step(s, idx as int);
            }
        }
        idx = idx + 1;
    }
    proof {
        assert(s.take(n as int) =~= s);
    }
    Ok(plan)
}

/// `p` with its speed replaced.
pub open spec fn with_speed(p: Point, sp: Option<u64>) -> Point {
    Point { speed: sp, ..p }
}

/// Position of index `i`'s request within the plan: the number of requests
/// for smaller indices.
pub open spec fn rank(s: Seq<Point>, i: int) -> int {
    plan_spec(s.take(i)).len() as int
}

/// The point at index `i` after the filling walk: missing speeds take the
/// computed value of their request, everything else is untouched.
pub open spec fn filled_point(s: Seq<Point>, speeds: Seq<u64>, i: int) -> Point {
    if needs_speed(s, i) {
        with_speed(s[i], Some(speeds[rank(s, i)]))
    } else {
        s[i]
    }
}

/// The points after the filling walk has processed every index below `bound`.
pub open spec fn loop_filled_upto(s: Seq<Point>, speeds: Seq<u64>, bound: int) -> Seq<Point> {
    Seq::new(s.len(), |i: int| if i < bound { filled_point(s, speeds, i) } else { s[i] })
}

/// The points after the whole fill: the walk over every index, then the
/// mirroring rule — with more than one point, the first point's speed is
/// overwritten with the second's; a lone point is left untouched.
pub open spec fn fill_spec(s: Seq<Point>, speeds: Seq<u64>) -> Seq<Point> {
    let t = loop_filled_upto(s, speeds, s.len() as int);
    if s.len() > 1 {
        t.update(0, with_speed(t[0], t[1].speed))
    } else {
        t
    }
}

/// A prefix of the points never plans more requests than the whole.
proof fn lemma_plan_prefix_len(s: Seq<Point>, j: int)
    requires
        0 <= j <= s.len(),
    ensures
        plan_spec(s.take(j)).len() <= plan_spec(s).len(),
    decreases s.len() - j,
{
    if j == s.len() {
        assert(s.take(j) =~= s);
    } else {
        if j >= 1 {
            lemma_plan_spec_step(s, j);
        } else {
            assert(plan_spec(s.take(0)).len() == 0);
            assert(s.take(1).len() == 1);
        }
        lemma_plan_prefix_len(s, j + 1);
    }
}

/// Stores the computed speeds of [`speed_fill_plan`]'s requests, one per
/// request in plan order, then applies the mirroring rule: with more than
/// one point, the first point's speed is overwritten with the (by then
/// present) speed of the second. Points whose speed was already present are
/// never overwritten, and nothing but speeds changes.
pub fn fill_speed_on_missing(segment: &mut Segment, computed: &Vec<u64>)
    requires
        computed@.len() == plan_spec(old(segment).points@).len(),
    ensures
        final(segment).points@ == fill_spec(old(segment).points@, computed@),
{
    let ghost s = old(segment).points@;
    let n = segment.points.len();
    if n == 0 {
        proof {
            assert(segment.points@ =~= fill_spec(s, computed@));
        }
        return;
    }
    let mut k: usize = 0;
    let mut idx: usize = 1;
    proof {
        assert(segment.points@ =~= loop_filled_upto(s, computed@, 1));
        assert(plan_spec(s.take(1)) =~= Seq::<SpeedRequest>::empty());
    }
    while idx < n
        invariant
            1 <= idx <= n,
            n == s.len(),
            computed@.len() == plan_spec(s).len(),
            segment.points@ == loop_filled_upto(s, computed@, idx as int),
            k == plan_spec(s.take(idx as int)).len(),
        decreases n - idx,
    {
        if segment.points[idx].speed.is_none() {
            proof {
                lemma_plan_spec_step(s, idx as int);
                lemma_plan_prefix_len(s, idx as int + 1);
                broadcast use vstd::std_specs::vec::axiom_spec_len;

                assert(computed.len() == computed@.len());
                assert(k + 1 <= computed@.len());
            }
            segment.points[idx].speed = Some(computed[k]);
            k = k + 1;
            proof {
                assert(segment.points@ =~= loop_filled_upto(s, computed@, idx as int + 1));
            }
        } else {
            proof {
                lemma_plan_spec_step(s, idx as int);
                assert(segment.points@ =~= loop_filled_upto(s, computed@, idx as int + 1));
            }
        }
        idx = idx + 1;
    }
    if n > 1 {
        let sp = segment.points[1].speed;
        segment.points[0].speed = sp;
        proof {
            assert(segment.points@ =~= fill_spec(s, computed@));
        }
    } else {
        proof {
            assert(segment.points@ =~= fill_spec(s, computed@));
        }
    }
}

/// Law: a segment with no points plans nothing, always succeeds, and is
/// left unchanged by the fill.
pub proof fn lemma_fill_empty(s: Seq<Point>, speeds: Seq<u64>)
    requires
        s.len() == 0,
    ensures
        fill_times_ok(s),
        plan_spec(s).len() == 0,
        fill_spec(s, speeds) == s,
{
    assert(fill_spec(s, speeds) =~= s);
}

/// Law: a segment with exactly one point plans nothing, always succeeds,
/// and is left unchanged by the fill — in particular no speed is fabricated
/// for the lone point: absent stays absent.
pub proof fn lemma_fill_single(s: Seq<Point>, speeds: Seq<u64>)
    requires
        s.len() == 1,
    ensures
        fill_times_ok(s),
        plan_spec(s).len() == 0,
        fill_spec(s, speeds) == s,
        fill_spec(s, speeds)[0].speed == s[0].speed,
{
    assert(fill_spec(s, speeds) =~= s);
}

/// Law: in a segment of at least two points whose timestamps are all
/// present, planning succeeds, and after the fill every point carries a
/// speed and the first point's speed equals the second's.
pub proof fn lemma_fill_complete(s: Seq<Point>, speeds: Seq<u64>)
    requires
        s.len() >= 2,
        forall|i: int| 0 <= i < s.len() ==> (#[trigger] s[i]).time is Some,
        speeds.len() == plan_spec(s).len(),
    ensures
        fill_times_ok(s),
        forall|i: int| 0 <= i < s.len() ==> (#[trigger] fill_spec(s, speeds)[i]).speed is Some,
        fill_spec(s, speeds)[0].speed == fill_spec(s, speeds)[1].speed,
{
    let t = fill_spec(s, speeds);
    assert forall|i: int| 0 <= i < s.len() implies (#[trigger] t[i]).speed is Some by {
        if i >= 1 {
            assert(t[i] == filled_point(s, speeds, i));
        } else {
            assert(t[0].speed == filled_point(s, speeds, 1).speed);
        }
    }
}

} // verus!
