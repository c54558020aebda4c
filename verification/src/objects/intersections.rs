//! Intersections of rays with shapes: sorted lists of parametric
//! distances, hit selection, and the prepared shading context.

use vstd::prelude::*;

use crate::constants::EPSILON_RAW;
use crate::constants::FX_SCALE;
use crate::fx::Fx;
use crate::fx::fx_abs;
use crate::fx::fx_add;
use crate::fx::fx_div;
use crate::fx::fx_mul;
use crate::fx::fx_neg;
use crate::fx::fx_powi;
use crate::fx::fx_sqrt;
use crate::fx::fx_sub;
use crate::math::point::Point;
use crate::math::ray::Ray;
use crate::math::ray::RayV;
use crate::math::ray::ray_position;
use crate::math::vector::V3;
use crate::math::vector::Vector;
use crate::math::vector::v_add;
use crate::math::vector::v_dot;
use crate::math::vector::v_neg;
use crate::math::vector::v_reflect;
use crate::math::vector::v_scale;
use crate::objects::shape::Shape;
use crate::objects::shape::spec_normal_at;

verus! {

/// One intersection: the parametric distance along the ray, and the shape
/// that was hit.  Negative distances lie behind the ray origin.
#[derive(Clone, Copy, Debug, PartialEq)]
pub struct Intersection {
    pub intersects_at: Fx,
    pub object: Shape,
}

/// A list of intersections, kept sorted ascending by distance after any
/// mutation through this type's own operations.
#[derive(Clone, Debug, PartialEq)]
pub struct Intersections {
    pub list: Vec<Intersection>,
}

/// The list is sorted ascending by parametric distance.
pub open spec fn sorted_xs(s: Seq<Intersection>) -> bool {
    forall|i: int, j: int|
        0 <= i < j < s.len() ==> s[i].intersects_at@ <= s[j].intersects_at@
}

/// The distances of a list of intersections.
pub open spec fn ts_of(s: Seq<Intersection>) -> Seq<int> {
    s.map_values(|x: Intersection| x.intersects_at@)
}

/// Every entry records the given shape.
pub open spec fn all_object(s: Seq<Intersection>, shape: Shape) -> bool {
    forall|i: int| 0 <= i < s.len() ==> #[trigger] s[i].object == shape
}

/// A local intersection result matches a specified list of distances,
/// every entry tagged with the given shape.
pub open spec fn xs_matches(r: Option<Intersections>, shape: Shape, ts: Option<Seq<int>>) -> bool {
    match r {
        None => ts is None,
        Some(xs) => ts is Some && ts_of(xs.list@) == ts->Some_0 && all_object(xs.list@, shape),
    }
}

/// Insert an intersection before the first entry with a strictly larger
/// distance (so equal distances keep their insertion order).
pub open spec fn ins_sorted(s: Seq<Intersection>, x: Intersection) -> Seq<Intersection>
    decreases s.len(),
{
    if s.len() == 0 {
        seq![x]
    } else if s.first().intersects_at@ <= x.intersects_at@ {
        seq![s.first()] + ins_sorted(s.drop_first(), x)
    } else {
        seq![x] + s
    }
}

/// Insertion sort, processing the input front to back.
pub open spec fn sort_go(acc: Seq<Intersection>, s: Seq<Intersection>) -> Seq<Intersection>
    decreases s.len(),
{
    if s.len() == 0 {
        acc
    } else {
        sort_go(ins_sorted(acc, s.first()), s.drop_first())
    }
}

/// The input sorted ascending by distance, stably.
pub open spec fn sort_xs(s: Seq<Intersection>) -> Seq<Intersection> {
    sort_go(Seq::empty(), s)
}

/// The first intersection with a non-negative distance, scanning front to
/// back; in a sorted list this is the hit: the smallest non-negative
/// distance.
pub open spec fn spec_hit(s: Seq<Intersection>) -> Option<Intersection>
    decreases s.len(),
{
    if s.len() == 0 {
        None
    } else if s.first().intersects_at@ >= 0 {
        Some(s.first())
    } else {
        spec_hit(s.drop_first())
    }
}

/// Insert a distance before the first strictly larger one: the
/// distance-level view of `ins_sorted`.
pub open spec fn ins_ts(s: Seq<int>, t: int) -> Seq<int>
    decreases s.len(),
{
    if s.len() == 0 {
        seq![t]
    } else if s.first() <= t {
        seq![s.first()] + ins_ts(s.drop_first(), t)
    } else {
        seq![t] + s
    }
}

/// `ins_sorted` and `ins_ts` agree through the distances of a list.
pub proof fn lemma_ins_sorted_ts(s: Seq<Intersection>, x: Intersection)
    ensures
        ts_of(ins_sorted(s, x)) == ins_ts(ts_of(s), x.intersects_at@),
    decreases s.len(),
{
    if s.len() == 0 {
        assert(ts_of(s) =~= Seq::<int>::empty());
        assert(ts_of(seq![x]) =~= seq![x.intersects_at@]);
    } else {
        assert(ts_of(s).first() == s.first().intersects_at@);
        assert(ts_of(s).len() == s.len());
        if s.first().intersects_at@ <= x.intersects_at@ {
            lemma_ins_sorted_ts(s.drop_first(), x);
            assert(ts_of(s.drop_first()) =~= ts_of(s).drop_first());
            assert(ts_of(seq![s.first()] + ins_sorted(s.drop_first(), x)) =~= seq![
                ts_of(s).first(),
            ] + ts_of(ins_sorted(s.drop_first(), x)));
        } else {
            assert(ts_of(seq![x] + s) =~= seq![x.intersects_at@] + ts_of(s));
        }
    }
}

/// `ins_sorted` keeps every entry's shape tag.
pub proof fn lemma_ins_sorted_object(s: Seq<Intersection>, x: Intersection, shape: Shape)
    requires
        all_object(s, shape),
        x.object == shape,
    ensures
        all_object(ins_sorted(s, x), shape),
    decreases s.len(),
{
    if s.len() == 0 {
        assert(ins_sorted(s, x) =~= seq![x]);
        assert(seq![x][0].object == shape);
    } else if s.first().intersects_at@ <= x.intersects_at@ {
        assert(all_object(s.drop_first(), shape)) by {
            assert(forall|i: int|
                0 <= i < s.drop_first().len() ==> #[trigger] s.drop_first()[i].object == s[i
                    + 1].object);
        }
        lemma_ins_sorted_object(s.drop_first(), x, shape);
        let r = seq![s.first()] + ins_sorted(s.drop_first(), x);
        assert forall|i: int| 0 <= i < r.len() implies #[trigger] r[i].object == shape by {
            if i == 0 {
                assert(r[0] == s.first());
                assert(s[0].object == shape);
            } else {
                assert(r[i] == ins_sorted(s.drop_first(), x)[i - 1]);
            }
        }
    } else {
        let r = seq![x] + s;
        assert forall|i: int| 0 <= i < r.len() implies #[trigger] r[i].object == shape by {
            if i >= 1 {
                assert(r[i] == s[i - 1]);
            }
        }
    }
}

/// Inserts one distance, tagged with `object`, keeping the list sorted.
pub fn insert_t(xs: &mut Intersections, t: Fx, object: Shape)
    ensures
        ts_of(final(xs).list@) == ins_ts(ts_of(old(xs).list@), t@),
        all_object(old(xs).list@, object) ==> all_object(final(xs).list@, object),
        sorted_xs(old(xs).list@) ==> sorted_xs(final(xs).list@),
{
    let x: Intersection = Intersection { intersects_at: t, object };
    insert_sorted(&mut xs.list, x);
    proof {
        lemma_ins_sorted_ts(old(xs).list@, x);
        if all_object(old(xs).list@, object) {
            lemma_ins_sorted_object(old(xs).list@, x, object);
        }
    }
}

/// The first position with a non-negative distance (the list's length
/// when every distance is negative).
pub open spec fn spec_hit_index(s: Seq<Intersection>) -> int
    decreases s.len(),
{
    if s.len() == 0 {
        0
    } else if s.first().intersects_at@ >= 0 {
        0
    } else {
        1 + spec_hit_index(s.drop_first())
    }
}

/// What `spec_hit` returns: `None` exactly when every distance is
/// negative, otherwise the entry at the first non-negative position.
pub proof fn lemma_hit_characterization(s: Seq<Intersection>)
    ensures
        0 <= spec_hit_index(s) <= s.len(),
        forall|j: int| 0 <= j < spec_hit_index(s) ==> s[j].intersects_at@ < 0,
        spec_hit_index(s) == s.len() ==> spec_hit(s) is None,
        spec_hit_index(s) < s.len() ==> {
            &&& spec_hit(s) == Some(s[spec_hit_index(s)])
            &&& s[spec_hit_index(s)].intersects_at@ >= 0
        },
    decreases s.len(),
{
    if s.len() > 0 && s.first().intersects_at@ < 0 {
        lemma_hit_characterization(s.drop_first());
        assert forall|j: int| 0 <= j < spec_hit_index(s) implies s[j].intersects_at@ < 0 by {
            if j >= 1 {
                assert(s.drop_first()[j - 1] == s[j]);
            }
        }
        if spec_hit_index(s) < s.len() {
            assert(s.drop_first()[spec_hit_index(s.drop_first())] == s[spec_hit_index(s)]);
        }
    }
}

/// In a sorted list, the hit has the smallest non-negative distance: it
/// is the hit in the sense of the design, not merely the first found.
pub proof fn lemma_hit_smallest(s: Seq<Intersection>)
    requires
        sorted_xs(s),
        spec_hit(s) is Some,
    ensures
        forall|i: int|
            0 <= i < s.len() && s[i].intersects_at@ >= 0 ==> spec_hit(
                s,
            )->Some_0.intersects_at@ <= #[trigger] s[i].intersects_at@,
{
    lemma_hit_characterization(s);
    let h = spec_hit_index(s);
    assert forall|i: int|
        0 <= i < s.len() && s[i].intersects_at@ >= 0 implies spec_hit(
        s,
    )->Some_0.intersects_at@ <= #[trigger] s[i].intersects_at@ by {
        if i < h {
            assert(s[i].intersects_at@ < 0);
        }
    }
}

/// `ins_sorted` is insertion at the first position whose distance is
/// strictly larger.
proof fn lemma_ins_at(s: Seq<Intersection>, x: Intersection, k: int)
    requires
        0 <= k <= s.len(),
        forall|i: int| 0 <= i < k ==> s[i].intersects_at@ <= x.intersects_at@,
        k < s.len() ==> s[k].intersects_at@ > x.intersects_at@,
    ensures
        ins_sorted(s, x) == s.insert(k, x),
    decreases s.len(),
{
    if s.len() == 0 {
        assert(ins_sorted(s, x) =~= s.insert(0, x));
    } else if s.first().intersects_at@ <= x.intersects_at@ {
        assert(k >= 1);
        lemma_ins_at(s.drop_first(), x, k - 1);
        assert(seq![s.first()] + s.drop_first().insert(k - 1, x) =~= s.insert(k, x));
    } else {
        assert(k == 0) by {
            if k >= 1 {
                assert(s[0].intersects_at@ <= x.intersects_at@);
            }
        }
        assert(seq![x] + s =~= s.insert(0, x));
    }
}

/// Inserts `x` into `v` before the first entry with a strictly larger
/// distance; keeps a sorted list sorted.
pub fn insert_sorted(v: &mut Vec<Intersection>, x: Intersection)
    ensures
        final(v)@ == ins_sorted(old(v)@, x),
        sorted_xs(old(v)@) ==> sorted_xs(final(v)@),
{
    let mut k: usize = 0;
    while k < v.len() && v[k].intersects_at.raw <= x.intersects_at.raw
        invariant
            0 <= k <= v.len(),
            forall|i: int| 0 <= i < k ==> v@[i].intersects_at@ <= x.intersects_at@,
            v == old(v),
        decreases v.len() - k,
    {
        k = k + 1;
    }
    proof {
        lemma_ins_at(v@, x, k as int);
    }
    v.insert(k, x);
    proof {
        if sorted_xs(old(v)@) {
            assert forall|a: int, b: int|
                0 <= a < b < v@.len() implies v@[a].intersects_at@ <= v@[b].intersects_at@ by {
                assert(v@ == old(v)@.insert(k as int, x));
                if a < k && b < k {
                } else if a == k {
                    assert(v@[b] == old(v)@[b - 1]);
                    assert(old(v)@[k as int].intersects_at@ > x.intersects_at@);
                } else if b == k {
                } else if a > k {
                    assert(v@[a] == old(v)@[a - 1] && v@[b] == old(v)@[b - 1]);
                }
            }
        }
    }
}

impl Intersection {
    pub fn new(intersects_at: Fx, object: Shape) -> (r: Intersection)
        ensures
            r == (Intersection { intersects_at, object }),
    {
        Intersection { intersects_at, object }
    }

    /// Pairs two intersections into a list, ordered ascending by
    /// distance, upholding the sortedness invariant of `Intersections`
    /// (equal distances keep the argument order).
    pub fn agregate(self, rhs: Self) -> (r: Intersections)
        ensures
            r.list@ == if self.intersects_at@ <= rhs.intersects_at@ {
                seq![self, rhs]
            } else {
                seq![rhs, self]
            },
            sorted_xs(r.list@),
    {
        let list: Vec<Intersection> = if self.intersects_at.raw <= rhs.intersects_at.raw {
            vec![self, rhs]
        } else {
            vec![rhs, self]
        };
        proof {
            if self.intersects_at@ <= rhs.intersects_at@ {
                assert(list@ =~= seq![self, rhs]);
            } else {
                assert(list@ =~= seq![rhs, self]);
            }
        }
        Intersections { list }
    }
}

impl Intersections {
    /// Count of intersections, equal to `self.list.len()`.
    pub fn count(&self) -> (r: usize)
        ensures
            r == self.list@.len(),
    {
        self.list.len()
    }

    /// Returns the intersection at `index`, or `None` when out of range.
    pub fn get(&self, index: usize) -> (r: Option<Intersection>)
        ensures
            index < self.list@.len() ==> r == Some(self.list@[index as int]),
            index >= self.list@.len() ==> r is None,
    {
        if index >= self.list.len() {
            None
        } else {
            Some(self.list[index])
        }
    }

    /// Returns the distance at `index`, or `None` when out of range.
    pub fn get_intersection(&self, index: usize) -> (r: Option<Fx>)
        ensures
            index < self.list@.len() ==> r == Some(self.list@[index as int].intersects_at),
            index >= self.list@.len() ==> r is None,
    {
        match self.get(index) {
            Some(intersection) => Some(intersection.intersects_at),
            None => None,
        }
    }

    /// Returns the shape at `index`, or `None` when out of range.
    pub fn get_object(&self, index: usize) -> (r: Option<Shape>)
        ensures
            index < self.list@.len() ==> r == Some(self.list@[index as int].object),
            index >= self.list@.len() ==> r is None,
    {
        match self.get(index) {
            Some(intersection) => Some(intersection.object),
            None => None,
        }
    }

    /// The hit: the first intersection with a non-negative distance.  When
    /// the list is sorted (the type's invariant after its own mutations),
    /// this is the smallest non-negative distance;
    /// see `lemma_hit_smallest`.
    pub fn hit(&self) -> (r: Option<Intersection>)
        ensures
            r == spec_hit(self.list@),
    {
        let mut i: usize = 0;
        proof {
            assert(self.list@.skip(0int) =~= self.list@);
        }
        while i < self.list.len()
            invariant
                0 <= i <= self.list@.len(),
                spec_hit(self.list@.skip(i as int)) == spec_hit(self.list@),
            decreases self.list@.len() - i,
        {
            proof {
                assert(self.list@.skip(i as int).first() == self.list@[i as int]);
                assert(self.list@.skip(i as int).drop_first() =~= self.list@.skip(i as int + 1));
            }
            if self.list[i].intersects_at.raw >= 0 {
                return Some(self.list[i]);
            }
            i = i + 1;
        }
        proof {
            assert(self.list@.skip(i as int) =~= Seq::empty());
        }
        None
    }

    /// Adds one intersection and returns the whole list sorted ascending
    /// by distance (stably), restoring the sortedness invariant.
    pub fn agregate(self, rhs: Intersection) -> (r: Intersections)
        ensures
            r.list@ == sort_xs(self.list@.push(rhs)),
            sorted_xs(r.list@),
    {
        let ghost input = self.list@.push(rhs);
        let mut out: Vec<Intersection> = Vec::new();
        let mut i: usize = 0;
        proof {
            assert(input.skip(0int) =~= input);
            assert(out@ =~= Seq::<Intersection>::empty());
        }
        while i < self.list.len()
            invariant
                0 <= i <= self.list@.len(),
                input == self.list@.push(rhs),
                sorted_xs(out@),
                sort_go(out@, input.skip(i as int)) == sort_xs(input),
            decreases self.list@.len() - i,
        {
            proof {
                assert(input.skip(i as int).first() == self.list@[i as int]);
                assert(input.skip(i as int).drop_first() =~= input.skip(i as int + 1));
            }
            insert_sorted(&mut out, self.list[i]);
            i = i + 1;
        }
        proof {
            assert(input.skip(i as int) =~= seq![rhs]);
        }
        let ghost out_before = out@;
        insert_sorted(&mut out, rhs);
        proof {
            assert(seq![rhs].first() == rhs);
            assert(seq![rhs].drop_first() =~= Seq::<Intersection>::empty());
            assert(sort_go(out_before, seq![rhs]) == sort_go(
                ins_sorted(out_before, rhs),
                Seq::<Intersection>::empty(),
            ));
            assert(sort_go(ins_sorted(out_before, rhs), Seq::<Intersection>::empty())
                == ins_sorted(out_before, rhs));
        }
        Intersections { list: out }
    }
}

/// Mathematical model of the prepared shading context for one hit.
pub struct PreCompV {
    pub t: int,
    pub object: Shape,
    pub inside: bool,
    pub point: V3,
    pub eyev: V3,
    pub normalv: V3,
    pub reflectv: V3,
    pub over_point: V3,
    pub under_point: V3,
    pub n_exit: int,
    pub n_enter: int,
}

/// Derived, ephemeral shading context for one hit.
#[derive(Clone, Copy, Debug, PartialEq)]
pub struct PreComputed {
    pub intersects_at: Fx,
    pub object: Shape,
    /// Whether the ray origin lies inside the shape (the normal is then
    /// flipped).
    pub inside: bool,
    pub point: Point,
    pub eyev: Vector,
    pub normalv: Vector,
    /// Reflected ray direction (assuming there is reflection).
    pub reflectv: Vector,
    /// Offset toward the normal; prevents shadow acne.
    pub over_point: Point,
    /// Offset against the normal; refracted rays originate here.
    pub under_point: Point,
    /// Refractive index of the material being exited.
    pub refractive_exited: Fx,
    /// Refractive index of the material being entered.
    pub refractive_entered: Fx,
}

impl View for PreComputed {
    type V = PreCompV;

    open spec fn view(&self) -> PreCompV {
        PreCompV {
            t: self.intersects_at@,
            object: self.object,
            inside: self.inside,
            point: self.point@,
            eyev: self.eyev@,
            normalv: self.normalv@,
            reflectv: self.reflectv@,
            over_point: self.over_point@,
            under_point: self.under_point@,
            n_exit: self.refractive_exited@,
            n_enter: self.refractive_entered@,
        }
    }
}

/// Whether a walked entry is the target hit: same shape identity and a
/// distance within epsilon of the hit's.
pub open spec fn spec_is_hit_entry(hit: Intersection, x: Intersection) -> bool {
    hit.object.uid == x.object.uid && fx_abs(
        fx_sub(hit.intersects_at@, x.intersects_at@),
    ) < EPSILON_RAW as int
}

/// Index of the first shape with this identity, or -1 when absent.
pub open spec fn find_uid(cs: Seq<Shape>, uid: u128) -> int
    decreases cs.len(),
{
    if cs.len() == 0 {
        -1
    } else if cs.first().uid == uid {
        0
    } else {
        let r = find_uid(cs.drop_first(), uid);
        if r == -1 {
            -1
        } else {
            r + 1
        }
    }
}

/// What `find_uid` returns: -1 exactly when no entry has the identity,
/// else the first position that does.
pub proof fn lemma_find_uid(cs: Seq<Shape>, uid: u128)
    ensures
        find_uid(cs, uid) == -1 ==> forall|j: int| 0 <= j < cs.len() ==> s_uid(cs[j]) != uid,
        find_uid(cs, uid) != -1 ==> {
            &&& 0 <= find_uid(cs, uid) < cs.len()
            &&& s_uid(cs[find_uid(cs, uid)]) == uid
            &&& forall|j: int| 0 <= j < find_uid(cs, uid) ==> s_uid(cs[j]) != uid
        },
    decreases cs.len(),
{
    if cs.len() > 0 && cs.first().uid != uid {
        lemma_find_uid(cs.drop_first(), uid);
        let r = find_uid(cs.drop_first(), uid);
        if r == -1 {
            assert forall|j: int| 0 <= j < cs.len() implies s_uid(cs[j]) != uid by {
                if j >= 1 {
                    assert(cs[j] == cs.drop_first()[j - 1]);
                    assert(s_uid(cs.drop_first()[j - 1]) != uid);
                }
            }
        } else {
            assert(cs[r + 1] == cs.drop_first()[r]);
            assert forall|j: int| 0 <= j < r + 1 implies s_uid(cs[j]) != uid by {
                if j >= 1 {
                    assert(cs[j] == cs.drop_first()[j - 1]);
                    assert(s_uid(cs.drop_first()[j - 1]) != uid);
                }
            }
        }
    }
}

/// The identity of a shape (a trigger helper).
pub open spec fn s_uid(s: Shape) -> u128 {
    s.uid
}

/// The pair (refractive index exited, refractive index entered) for the
/// target hit: the walk keeps a stack of shapes currently being
/// traversed; meeting a shape already on the stack exits it, any other
/// enters.  At the hit, the index exited is read from the stack top just
/// before the update and the index entered just after (vacuum, 1, when
/// the stack is empty).  A walk that never meets the hit yields (1, 1).
pub open spec fn ri_walk(hit: Intersection, xs: Seq<Intersection>, cs: Seq<Shape>) -> (int, int)
    decreases xs.len(),
{
    let one = FX_SCALE as int;
    if xs.len() == 0 {
        (one, one)
    } else {
        let x = xs.first();
        let n1 = if cs.len() == 0 {
            one
        } else {
            cs.last().material.refractive_index@
        };
        let idx = find_uid(cs, x.object.uid);
        let cs2 = if idx >= 0 {
            cs.remove(idx)
        } else {
            cs.push(x.object)
        };
        let n2 = if cs2.len() == 0 {
            one
        } else {
            cs2.last().material.refractive_index@
        };
        if spec_is_hit_entry(hit, x) {
            (n1, n2)
        } else {
            ri_walk(hit, xs.drop_first(), cs2)
        }
    }
}

/// The refractive pair of a hit within a full intersection list.
pub open spec fn spec_refractive(hit: Intersection, xs: Seq<Intersection>) -> (int, int) {
    ri_walk(hit, xs, Seq::empty())
}

/// Index of the first container with this identity, if any.
fn find_container(cs: &Vec<Shape>, uid: u128) -> (r: Option<usize>)
    ensures
        r is None ==> find_uid(cs@, uid) == -1,
        r is Some ==> r->Some_0 as int == find_uid(cs@, uid) && r->Some_0 < cs@.len(),
{
    let mut k: usize = 0;
    while k < cs.len()
        invariant
            0 <= k <= cs@.len(),
            forall|j: int| 0 <= j < k ==> s_uid(cs@[j]) != uid,
        decreases cs@.len() - k,
    {
        if cs[k].uid == uid {
            proof {
                lemma_find_uid(cs@, uid);
                assert(s_uid(cs@[k as int]) == uid);
                let idx = find_uid(cs@, uid);
                if idx == -1 {
                    assert(s_uid(cs@[k as int]) != uid);
                } else if idx < k as int {
                    assert(s_uid(cs@[idx]) != uid);
                    assert(s_uid(cs@[idx]) == uid);
                } else if idx > k as int {
                    assert(s_uid(cs@[k as int]) != uid);
                }
            }
            return Some(k);
        }
        proof {
            assert(s_uid(cs@[k as int]) != uid);
        }
        k = k + 1;
    }
    proof {
        lemma_find_uid(cs@, uid);
        let idx = find_uid(cs@, uid);
        if idx != -1 {
            assert(s_uid(cs@[idx]) == uid);
            assert(s_uid(cs@[idx]) != uid);
        }
    }
    None
}

/// Walks the full sorted intersection list and resolves the refractive
/// indices exited and entered at the target hit; see `ri_walk`.
fn refractive_index(hit: &Intersection, xs: &Intersections) -> (r: (Fx, Fx))
    ensures
        r.0@ == spec_refractive(*hit, xs.list@).0,
        r.1@ == spec_refractive(*hit, xs.list@).1,
{
    let mut containers: Vec<Shape> = Vec::new();
    let mut i: usize = 0;
    proof {
        assert(xs.list@.skip(0int) =~= xs.list@);
        assert(containers@ =~= Seq::<Shape>::empty());
    }
    while i < xs.list.len()
        invariant
            0 <= i <= xs.list@.len(),
            ri_walk(*hit, xs.list@.skip(i as int), containers@) == spec_refractive(
                *hit,
                xs.list@,
            ),
        decreases xs.list@.len() - i,
    {
        proof {
            assert(xs.list@.skip(i as int).first() == xs.list@[i as int]);
            assert(xs.list@.skip(i as int).drop_first() =~= xs.list@.skip(i as int + 1));
        }
        let x: Intersection = xs.list[i];
        let is_hit: bool = hit.object.uid == x.object.uid && hit.intersects_at.sub(
            x.intersects_at,
        ).abs().raw < EPSILON_RAW;
        let n1: Fx = if containers.len() == 0 {
            Fx::one()
        } else {
            containers[containers.len() - 1].material.refractive_index
        };
        match find_container(&containers, x.object.uid) {
            Some(idx) => {
                // the intersection is exiting the shape it entered earlier
                containers.remove(idx);
            },
            None => {
                // the intersection is entering the shape
                containers.push(x.object);
            },
        }
        if is_hit {
            let n2: Fx = if containers.len() == 0 {
                Fx::one()
            } else {
                containers[containers.len() - 1].material.refractive_index
            };
            return (n1, n2);
        }
        i = i + 1;
    }
    (Fx::one(), Fx::one())
}

/// The prepared shading context: hit point, eye vector, (possibly
/// flipped) normal, reflection vector, the two offset points, and the
/// refractive pair read from the full intersection list.  `None` exactly
/// when the hit shape's transform is singular.
pub open spec fn spec_prepare(hit: Intersection, ray: RayV, xs: Seq<Intersection>) -> Option<
    PreCompV,
> {
    let point = ray_position(ray, hit.intersects_at@);
    match spec_normal_at(hit.object, point) {
        None => None,
        Some(n) => {
            let eyev = v_neg(ray.direction);
            let ri = spec_refractive(hit, xs);
            let inside = v_dot(n, eyev) < 0;
            let normalv = if inside {
                v_neg(n)
            } else {
                n
            };
            let reflectv = v_reflect(ray.direction, normalv);
            let over_point = v_add(point, v_scale(normalv, EPSILON_RAW as int));
            let under_point = v_add(point, v_scale(normalv, fx_neg(EPSILON_RAW as int)));
            Some(
                PreCompV {
                    t: hit.intersects_at@,
                    object: hit.object,
                    inside,
                    point,
                    eyev,
                    normalv,
                    reflectv,
                    over_point,
                    under_point,
                    n_exit: ri.0,
                    n_enter: ri.1,
                },
            )
        },
    }
}

impl Intersection {
    /// Precomputes the shading context at this hit; `xs` is the full
    /// sorted intersection list of the ray, needed for the refractive
    /// bookkeeping of transparent shapes.  `None` exactly when the hit
    /// shape's transform is singular.
    pub fn prepare_computations(&self, ray: Ray, xs: &Intersections) -> (r: Option<PreComputed>)
        ensures
            r is Some <==> spec_prepare(*self, ray@, xs.list@) is Some,
            r is Some ==> r->Some_0@ == spec_prepare(*self, ray@, xs.list@)->Some_0,
    {
        let intersects_at: Fx = self.intersects_at;
        let point: Point = ray.position(intersects_at);
        let object: Shape = self.object;
        let eyev: Vector = ray.direction.negate();
        let normal: Vector = match self.object.normal_at(point) {
            Some(n) => n,
            None => {
                return None;
            },
        };
        let ri: (Fx, Fx) = refractive_index(self, xs);

        let inside: bool = normal.dot_product(&eyev).raw < 0;
        let normalv: Vector = if inside {
            normal.negate()
        } else {
            normal
        };
        let reflectv: Vector = ray.direction.reflect(normalv);
        let eps: Fx = Fx { raw: EPSILON_RAW };
        let over_point: Point = point.displacment(&normalv.scale(eps));
        let under_point: Point = point.displacment(&normalv.scale(eps.neg()));

        Some(
            PreComputed {
                intersects_at,
                object,
                inside,
                point,
                eyev,
                normalv,
                reflectv,
                over_point,
                under_point,
                refractive_exited: ri.0,
                refractive_entered: ri.1,
            },
        )
    }
}

/// The refractive bookkeeping round-trip on one glass shape: entering it
/// exits the vacuum into the shape, and leaving it exits the shape back
/// into the vacuum, whenever the two crossings are farther apart than
/// epsilon.
pub proof fn lemma_single_shape_refraction(s: Shape, t1: Fx, t2: Fx)
    requires
        fx_abs(fx_sub(t2@, t1@)) >= EPSILON_RAW as int,
    ensures
        ({
            let enter = Intersection { intersects_at: t1, object: s };
            let exit = Intersection { intersects_at: t2, object: s };
            let xs = seq![enter, exit];
            &&& spec_refractive(enter, xs) == (FX_SCALE as int, s.material.refractive_index@)
            &&& spec_refractive(exit, xs) == (s.material.refractive_index@, FX_SCALE as int)
        }),
{
    let enter = Intersection { intersects_at: t1, object: s };
    let exit = Intersection { intersects_at: t2, object: s };
    let xs = seq![enter, exit];
    assert(xs.first() == enter);
    assert(xs.drop_first() =~= seq![exit]);
    assert(seq![exit].first() == exit);
    assert(spec_is_hit_entry(enter, enter));
    assert(!spec_is_hit_entry(exit, enter)) by {
        assert(fx_abs(fx_sub(exit.intersects_at@, enter.intersects_at@)) >= EPSILON_RAW as int);
    }
    assert(find_uid(Seq::<Shape>::empty(), s.uid) == -1);
    let one_stack = Seq::<Shape>::empty().push(s);
    assert(one_stack.first() == s);
    assert(one_stack.last() == s);
    assert(find_uid(one_stack, s.uid) == 0);
    assert(one_stack.remove(0) =~= Seq::<Shape>::empty());
    assert(ri_walk(enter, xs, Seq::empty()) == (
        FX_SCALE as int,
        s.material.refractive_index@,
    ));
    assert(ri_walk(exit, xs, Seq::empty()) == ri_walk(exit, seq![exit], one_stack));
    assert(ri_walk(exit, seq![exit], one_stack) == (
        s.material.refractive_index@,
        FX_SCALE as int,
    ));
}

/// The tail of the Schlick formula once the effective cosine is known:
/// `r0 + (1 - r0) * (1 - cos)^5` with `r0 = ((n1 - n2) / (n1 + n2))^2`,
/// clamped into `[0, 1]`: a reflectance is a fraction of the light, and
/// the clamp keeps that so even for degenerate (non-unit) eye or normal
/// vectors, where the raw polynomial can stray outside the range.
pub open spec fn schlick_tail(n_exit: int, n_enter: int, cosv: int) -> int {
    let one = FX_SCALE as int;
    let q = fx_div(fx_sub(n_exit, n_enter), fx_add(n_exit, n_enter));
    let r0 = fx_mul(q, q);
    let raw = fx_add(r0, fx_mul(fx_sub(one, r0), fx_powi(fx_sub(one, cosv), 5)));
    if raw < 0 {
        0
    } else if raw > one {
        one
    } else {
        raw
    }
}

/// The Schlick reflectance approximation: when exiting a denser medium,
/// total internal reflection (`sin^2 > 1`) gives reflectance one, and
/// otherwise the cosine of the refracted angle replaces the cosine of
/// the incident angle in the tail formula.
pub open spec fn spec_schlick(c: PreCompV) -> int {
    let one = FX_SCALE as int;
    let cos_i = v_dot(c.eyev, c.normalv);
    if c.n_exit > c.n_enter {
        let n = fx_div(c.n_exit, c.n_enter);
        let sin2_t = fx_mul(fx_mul(n, n), fx_sub(one, fx_mul(cos_i, cos_i)));
        if sin2_t > one {
            one
        } else {
            schlick_tail(c.n_exit, c.n_enter, fx_sqrt(fx_sub(one, sin2_t)))
        }
    } else {
        schlick_tail(c.n_exit, c.n_enter, cos_i)
    }
}

impl PreComputed {
    /// The Schlick reflectance approximation at this hit: always a
    /// fraction in `[0, 1]`, and exactly one on total internal
    /// reflection.
    pub fn schlick(&self) -> (r: Fx)
        ensures
            r@ == spec_schlick(self@),
            0 <= r@ <= FX_SCALE as int,
            ({
                let one = FX_SCALE as int;
                let cos_i = v_dot(self@.eyev, self@.normalv);
                let n = fx_div(self@.n_exit, self@.n_enter);
                let sin2_t = fx_mul(fx_mul(n, n), fx_sub(one, fx_mul(cos_i, cos_i)));
                self@.n_exit > self@.n_enter && sin2_t > one
            }) ==> r@ == FX_SCALE as int,
    {
        let one: Fx = Fx::one();
        let cos_i: Fx = self.eyev.dot_product(&self.normalv);
        if self.refractive_exited.raw > self.refractive_entered.raw {
            let n: Fx = self.refractive_exited.div(self.refractive_entered);
            let sin2_t: Fx = n.mul(n).mul(one.sub(cos_i.mul(cos_i)));
            if sin2_t.raw > one.raw {
                return one;
            }
            let cos_t: Fx = one.sub(sin2_t).sqrt();
            self.schlick_with_cos(cos_t)
        } else {
            self.schlick_with_cos(cos_i)
        }
    }

    /// The tail of the Schlick formula; see `schlick_tail`.
    fn schlick_with_cos(&self, cosv: Fx) -> (r: Fx)
        ensures
            r@ == schlick_tail(self@.n_exit, self@.n_enter, cosv@),
            0 <= r@ <= FX_SCALE as int,
    {
        let one: Fx = Fx::one();
        let q: Fx = self.refractive_exited.sub(self.refractive_entered).div(
            self.refractive_exited.add(self.refractive_entered),
        );
        let r0: Fx = q.mul(q);
        let raw: Fx = r0.add(one.sub(r0).mul(one.sub(cosv).powi(5)));
        if raw.raw < 0 {
            Fx::zero()
        } else if raw.raw > FX_SCALE {
            one
        } else {
            raw
        }
    }
}

} // verus!
