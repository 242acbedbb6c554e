//! Axis-aligned bounding boxes over single-precision coordinates.
//!
//! A coordinate is carried as its IEEE-754 bit pattern. Bounds are kept over
//! the pattern's *ordering key*: an integer that places the value on the
//! number line, so that for non-NaN values `a < b` exactly when
//! `key(a) < key(b)` (with `-0.0` placed just below `+0.0`).

use vstd::prelude::*;

verus! {

/// The sign bit of a single-precision bit pattern.
pub const SIGN_BIT: u32 = 0x8000_0000;

/// Where the float with bit pattern `bits` sits on the number line:
/// a non-negative pattern keeps its magnitude, a negative one is mirrored
/// below zero.
pub open spec fn key_of(bits: u32) -> int {
    if bits < SIGN_BIT {
        bits as int
    } else {
        -1 - (bits - SIGN_BIT)
    }
}

/// The ordering key of a coordinate's bit pattern.
pub fn coord_key(bits: u32) -> (k: i32)
    ensures
        k == key_of(bits),
{
    if bits < SIGN_BIT {
        bits as i32
    } else {
        -1 - ((bits - SIGN_BIT) as i32)
    }
}

/// The bit pattern whose ordering key is `key`; inverse of `coord_key`.
pub fn coord_bits(key: i32) -> (bits: u32)
    ensures
        key_of(bits) == key,
{
    if key >= 0 {
        key as u32
    } else {
        ((-1 - key) as u32) + SIGN_BIT
    }
}

/// The ordering key of axis `axis` of a point given as bit patterns.
pub open spec fn point_key(p: [u32; 3], axis: int) -> int {
    key_of(p[axis])
}

/// The smallest key on axis `a` among `init` and the points of `pts`.
pub open spec fn min_key(pts: Seq<[u32; 3]>, a: int, init: int) -> int
    decreases pts.len(),
{
    if pts.len() == 0 {
        init
    } else {
        let m = min_key(pts.drop_last(), a, init);
        let k = point_key(pts.last(), a);
        if k < m {
            k
        } else {
            m
        }
    }
}

/// The largest key on axis `a` among `init` and the points of `pts`.
pub open spec fn max_key(pts: Seq<[u32; 3]>, a: int, init: int) -> int
    decreases pts.len(),
{
    if pts.len() == 0 {
        init
    } else {
        let m = max_key(pts.drop_last(), a, init);
        let k = point_key(pts.last(), a);
        if k > m {
            k
        } else {
            m
        }
    }
}

/// An axis-aligned box, as ordering keys of its corner coordinates.
#[derive(Clone, Copy, Debug, PartialEq, Eq)]
pub struct AABB {
    pub min: [i32; 3],
    pub max: [i32; 3],
}

impl AABB {
    /// The box contains the point on every axis.
    pub open spec fn contains_point(self, p: [u32; 3]) -> bool {
        forall|a: int| 0 <= a < 3 ==> self.min[a] <= #[trigger] point_key(p, a) <= self.max[a]
    }

    /// Some point of `pts` has ordering key `v` on axis `a`.
    pub open spec fn attained(pts: Seq<[u32; 3]>, a: int, v: int) -> bool {
        exists|i: int| 0 <= i < pts.len() && #[trigger] point_key(pts[i], a) == v
    }

    /// Every bound of the box is attained by one of `pts`.
    pub open spec fn attained_by(self, pts: Seq<[u32; 3]>) -> bool {
        &&& forall|a: int| 0 <= a < 3 ==> #[trigger] Self::attained(pts, a, self.min[a] as int)
        &&& forall|a: int| 0 <= a < 3 ==> #[trigger] Self::attained(pts, a, self.max[a] as int)
    }

    /// The box that holds no point: every minimum above every maximum.
    pub open spec fn is_empty_box(self) -> bool {
        forall|a: int| 0 <= a < 3 ==> self.min[a] == i32::MAX && self.max[a] == i32::MIN
    }

    /// The empty box, neutral for `union`.
    pub fn empty() -> (b: AABB)
        ensures
            b.is_empty_box(),
    {
        AABB { min: [i32::MAX, i32::MAX, i32::MAX], max: [i32::MIN, i32::MIN, i32::MIN] }
    }

    /// Grows the box to hold `point` (bit patterns of x, y, z).
    pub fn union(&mut self, point: &[u32; 3])
        ensures
            forall|a: int|
                0 <= a < 3 ==> {
                    &&& final(self).min[a] == if point_key(*point, a) < old(self).min[a] {
                        point_key(*point, a)
                    } else {
                        old(self).min[a] as int
                    }
                    &&& final(self).max[a] == if point_key(*point, a) > old(self).max[a] {
                        point_key(*point, a)
                    } else {
                        old(self).max[a] as int
                    }
                },
    {
        let kx = coord_key(point[0]);
        let ky = coord_key(point[1]);
        let kz = coord_key(point[2]);
        let min = self.min;
        let max = self.max;
        self.min = [
            if kx < min[0] { kx } else { min[0] },
            if ky < min[1] { ky } else { min[1] },
            if kz < min[2] { kz } else { min[2] },
        ];
        self.max = [
            if kx > max[0] { kx } else { max[0] },
            if ky > max[1] { ky } else { max[1] },
            if kz > max[2] { kz } else { max[2] },
        ];
    }
}

impl AABB {
    /// Grows the box to hold every point of `points`.
    pub fn union_all(&mut self, points: &Vec<[u32; 3]>)
        ensures
            forall|a: int|
                0 <= a < 3 ==> {
                    &&& final(self).min[a] == min_key(points@, a, old(self).min[a] as int)
                    &&& final(self).max[a] == max_key(points@, a, old(self).max[a] as int)
                },
    {
        let ghost start = *self;
        let mut i: usize = 0;
        while i < points.len()
            invariant
                i <= points.len(),
                forall|a: int|
                    0 <= a < 3 ==> {
                        &&& self.min[a] == min_key(points@.take(i as int), a, start.min[a] as int)
                        &&& self.max[a] == max_key(points@.take(i as int), a, start.max[a] as int)
                    },
            decreases points.len() - i,
        {
            proof {
                assert(points@.take(i + 1).drop_last() =~= points@.take(i as int));
            }
            self.union(&points[i]);
            i = i + 1;
        }
        proof {
            assert(points@.take(i as int) =~= points@);
        }
    }
}

/// The bounds of `pts` grown from `init` lie at or beyond `init` and every point.
proof fn lemma_keys_bound(pts: Seq<[u32; 3]>, a: int, lo: int, hi: int)
    ensures
        min_key(pts, a, lo) <= lo,
        max_key(pts, a, hi) >= hi,
        forall|i: int|
            0 <= i < pts.len() ==> min_key(pts, a, lo) <= #[trigger] point_key(pts[i], a) <= max_key(
                pts,
                a,
                hi,
            ),
    decreases pts.len(),
{
    if pts.len() > 0 {
        let rest = pts.drop_last();
        lemma_keys_bound(rest, a, lo, hi);
        assert forall|i: int| 0 <= i < pts.len() implies min_key(pts, a, lo) <= #[trigger] point_key(
            pts[i],
            a,
        ) <= max_key(pts, a, hi) by {
            if i < pts.len() - 1 {
                assert(point_key(rest[i], a) == point_key(pts[i], a));
            }
        }
    }
}

/// Each bound of `pts` grown from `init` is `init` or the key of one of the points.
proof fn lemma_keys_attained(pts: Seq<[u32; 3]>, a: int, lo: int, hi: int)
    ensures
        min_key(pts, a, lo) == lo || AABB::attained(pts, a, min_key(pts, a, lo)),
        max_key(pts, a, hi) == hi || AABB::attained(pts, a, max_key(pts, a, hi)),
    decreases pts.len(),
{
    if pts.len() > 0 {
        let rest = pts.drop_last();
        lemma_keys_attained(rest, a, lo, hi);
        let n = pts.len() - 1;
        assert(point_key(pts[n], a) == point_key(pts.last(), a));
        if AABB::attained(rest, a, min_key(rest, a, lo)) {
            let i = choose|i: int| 0 <= i < rest.len() && #[trigger] point_key(rest[i], a) == min_key(rest, a, lo);
            assert(rest[i] == pts[i]);
        }
        if AABB::attained(rest, a, max_key(rest, a, hi)) {
            let j = choose|j: int| 0 <= j < rest.len() && #[trigger] point_key(rest[j], a) == max_key(rest, a, hi);
            assert(rest[j] == pts[j]);
        }
    }
}

/// On one axis, the bounds of a non-empty point set grown from the empty box
/// hold every point and are each attained by one.
proof fn lemma_axis_tight(pts: Seq<[u32; 3]>, a: int)
    requires
        pts.len() > 0,
        0 <= a < 3,
    ensures
        forall|i: int|
            0 <= i < pts.len() ==> min_key(pts, a, i32::MAX as int) <= #[trigger] point_key(pts[i], a)
                <= max_key(pts, a, i32::MIN as int),
        AABB::attained(pts, a, min_key(pts, a, i32::MAX as int)),
        AABB::attained(pts, a, max_key(pts, a, i32::MIN as int)),
{
    let lo = i32::MAX as int;
    let hi = i32::MIN as int;
    lemma_keys_bound(pts, a, lo, hi);
    lemma_keys_attained(pts, a, lo, hi);
    lemma_key_range(pts[0][a]);
    assert(point_key(pts[0], a) <= lo);
    assert(point_key(pts[0], a) >= hi);
    if min_key(pts, a, lo) == lo {
        assert(point_key(pts[0], a) == lo);
    }
    if max_key(pts, a, hi) == hi {
        assert(point_key(pts[0], a) == hi);
    }
}

/// The box grown from the empty box by a non-empty point set contains every
/// point, and each of its six faces touches some point: no bound can move
/// inward without leaving a point outside.
pub proof fn lemma_bounds_tight(pts: Seq<[u32; 3]>, b: AABB)
    requires
        pts.len() > 0,
        forall|a: int|
            0 <= a < 3 ==> {
                &&& b.min[a] == min_key(pts, a, i32::MAX as int)
                &&& b.max[a] == max_key(pts, a, i32::MIN as int)
            },
    ensures
        forall|i: int| 0 <= i < pts.len() ==> b.contains_point(#[trigger] pts[i]),
        b.attained_by(pts),
{
    assert forall|a: int| 0 <= a < 3 implies {
        &&& AABB::attained(pts, a, b.min[a] as int)
        &&& AABB::attained(pts, a, b.max[a] as int)
        &&& forall|i: int|
            0 <= i < pts.len() ==> b.min[a] <= #[trigger] point_key(pts[i], a) <= b.max[a]
    } by {
        lemma_axis_tight(pts, a);
    }
    assert forall|i: int| 0 <= i < pts.len() implies b.contains_point(#[trigger] pts[i]) by {
        assert forall|a: int| 0 <= a < 3 implies b.min[a] <= #[trigger] point_key(pts[i], a)
            <= b.max[a] by {
            lemma_axis_tight(pts, a);
        }
    }
}

/// Growing by two point lists in turn is growing by their concatenation.
pub proof fn lemma_keys_concat(s1: Seq<[u32; 3]>, s2: Seq<[u32; 3]>, a: int, lo: int, hi: int)
    ensures
        min_key(s1 + s2, a, lo) == min_key(s2, a, min_key(s1, a, lo)),
        max_key(s1 + s2, a, hi) == max_key(s2, a, max_key(s1, a, hi)),
    decreases s2.len(),
{
    if s2.len() == 0 {
        assert(s1 + s2 =~= s1);
    } else {
        lemma_keys_concat(s1, s2.drop_last(), a, lo, hi);
        assert((s1 + s2).drop_last() =~= s1 + s2.drop_last());
        assert((s1 + s2).last() == s2.last());
    }
}

/// Every ordering key fits in an `i32`.
pub proof fn lemma_key_range(bits: u32)
    ensures
        i32::MIN <= key_of(bits) <= i32::MAX,
{
}

} // verus!
