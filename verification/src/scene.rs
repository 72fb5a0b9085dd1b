//! The scene: a list of objects, and the nearest of their hits.

use vstd::prelude::*;
use crate::geometry::HittableObject;
use crate::geometry::Roots;
use crate::scalar::Scalar;

verus! {

/// The objects that rays are traced against, in the order in which they were
/// added.
#[derive(Clone, PartialEq, Eq, Debug)]
pub struct Scene {
    pub objects: Vec<HittableObject>,
}

/// The nearest hit of a ray in a scene.
#[derive(Clone, Copy, PartialEq, Eq, Structural, Debug)]
pub struct Nearest {
    /// The object's place in the scene.
    pub index: usize,
    /// The object.
    pub object: HittableObject,
    /// The ray's parameter at the hit.
    pub t: Scalar,
}

/// The hit of the ray on object `j` alone, in the window from `t_min` to
/// `t_max`, where `roots[j]` holds the roots of the ray and that object.
pub open spec fn candidate(roots: Seq<Option<Roots>>, j: int, t_min: Scalar, t_max: Scalar) -> Option<
    Scalar,
> {
    match roots[j] {
        Some(r) => r.spec_select(t_min, t_max),
        None => None,
    }
}

/// None of the first `len` objects is hit.
pub open spec fn all_missed(roots: Seq<Option<Roots>>, len: int, t_min: Scalar, t_max: Scalar) -> bool {
    forall|j: int| 0 <= j < len ==> #[trigger] candidate(roots, j, t_min, t_max) is None
}

/// Among the first `len` objects, object `index` is hit at `t`, no object is
/// hit before `t`, and no later object is hit at `t` as well: of several
/// objects hit at the same distance the last one counts.
pub open spec fn is_nearest(
    roots: Seq<Option<Roots>>,
    len: int,
    t_min: Scalar,
    t_max: Scalar,
    index: int,
    t: Scalar,
) -> bool {
    &&& 0 <= index < len
    &&& !t.is_nan()
    &&& candidate(roots, index, t_min, t_max) == Some(t)
    &&& forall|j: int|
        0 <= j < len ==> (#[trigger] candidate(roots, j, t_min, t_max) matches Some(u)
            ==> t.spec_le(u))
    &&& forall|j: int|
        index < j < len ==> (#[trigger] candidate(roots, j, t_min, t_max) matches Some(u)
            ==> t.spec_lt(u))
}

impl Scene {
    /// Every object of the scene is valid.
    pub open spec fn valid(self) -> bool {
        forall|i: int| 0 <= i < self.objects@.len() ==> (#[trigger] self.objects@[i]).valid()
    }

    pub fn new() -> (scene: Scene)
        ensures
            scene.objects@ == Seq::<HittableObject>::empty(),
            scene.valid(),
    {
        Scene { objects: Vec::new() }
    }

    /// Appends `object` to the scene. An object that is not valid has no
    /// place in a scene.
    pub fn add(&mut self, object: HittableObject)
        requires
            object.valid(),
        ensures
            final(self).objects@ == old(self).objects@.push(object),
            old(self).valid() ==> final(self).valid(),
    {
        self.objects.push(object);
    }

    /// The globally nearest hit of one ray in the window from `t_min` to
    /// `t_max`, or none if the ray misses every object.
    ///
    /// `roots` holds, for each object in the scene's order, the roots of the
    /// ray and that object, or none where they do not meet. Each object is
    /// tested against a window that ends at the nearest hit found so far.
    pub fn hit(&self, roots: &[Option<Roots>], t_min: Scalar, t_max: Scalar) -> (r: Option<
        Nearest,
    >)
        requires
            roots@.len() == self.objects@.len(),
        ensures
            r is None <==> all_missed(roots@, roots@.len() as int, t_min, t_max),
            r matches Some(n) ==> is_nearest(
                roots@,
                roots@.len() as int,
                t_min,
                t_max,
                n.index as int,
                n.t,
            ) && n.object == self.objects@[n.index as int],
            r matches Some(n) ==> (self.valid() ==> n.object.valid()),
    {
        let n: usize = roots.len();
        let mut best: Option<Nearest> = None;
        let mut closest_so_far: Scalar = t_max;
        let mut i: usize = 0;
        while i < n
            invariant
                i <= n,
                n == roots@.len(),
                n == self.objects@.len(),
                best is None ==> closest_so_far == t_max && all_missed(
                    roots@,
                    i as int,
                    t_min,
                    t_max,
                ),
                best matches Some(b) ==> b.t == closest_so_far && !t_max.spec_lt(closest_so_far)
                    && b.object == self.objects@[b.index as int] && is_nearest(
                    roots@,
                    i as int,
                    t_min,
                    t_max,
                    b.index as int,
                    b.t,
                ),
            decreases n - i,
        {
            match roots[i] {
                Some(r) => {
                    proof {
                        use_type_invariant(&r);
                        r.lemma_select_narrowed(t_min, t_max, closest_so_far);
                    }
                    match r.select(t_min, closest_so_far) {
                        Some(t) => {
                            best = Some(Nearest { index: i, object: self.objects[i], t });
                            closest_so_far = t;
                        },
                        None => {},
                    }
                },
                None => {},
            }
            i = i + 1;
        }
        best
    }
}

/// The distance of the nearest hit does not depend on the order of the
/// objects: if two scenes hold the same objects, their nearest hits lie at
/// the same parameter, up to the sign of a zero.
pub proof fn lemma_nearest_in_any_order(
    a: Seq<Option<Roots>>,
    b: Seq<Option<Roots>>,
    t_min: Scalar,
    t_max: Scalar,
    index_a: int,
    t_a: Scalar,
    index_b: int,
    t_b: Scalar,
)
    requires
        a.to_multiset() == b.to_multiset(),
        is_nearest(a, a.len() as int, t_min, t_max, index_a, t_a),
        is_nearest(b, b.len() as int, t_min, t_max, index_b, t_b),
    ensures
        t_a.rank() == t_b.rank(),
{
    a.to_multiset_ensures();
    b.to_multiset_ensures();
    assert(a.contains(a[index_a]));
    assert(b.to_multiset().count(a[index_a]) > 0);
    let ja = choose|j: int| 0 <= j < b.len() && b[j] == a[index_a];
    assert(candidate(b, ja, t_min, t_max) == Some(t_a));
    assert(b.contains(b[index_b]));
    assert(a.to_multiset().count(b[index_b]) > 0);
    let jb = choose|j: int| 0 <= j < a.len() && a[j] == b[index_b];
    assert(candidate(a, jb, t_min, t_max) == Some(t_b));
}

/// Whether a ray hits anything does not depend on the order of the objects.
pub proof fn lemma_missed_in_any_order(
    a: Seq<Option<Roots>>,
    b: Seq<Option<Roots>>,
    t_min: Scalar,
    t_max: Scalar,
)
    requires
        a.to_multiset() == b.to_multiset(),
        all_missed(a, a.len() as int, t_min, t_max),
    ensures
        all_missed(b, b.len() as int, t_min, t_max),
{
    a.to_multiset_ensures();
    b.to_multiset_ensures();
    assert forall|j: int| 0 <= j < b.len() implies #[trigger] candidate(b, j, t_min, t_max)
        is None by {
        assert(b.contains(b[j]));
        assert(a.to_multiset().count(b[j]) > 0);
        let k = choose|k: int| 0 <= k < a.len() && a[k] == b[j];
        assert(candidate(a, k, t_min, t_max) is None);
    }
}

} // verus!
