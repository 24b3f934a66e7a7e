//! Scenes: lists of surfaces, searched for the nearest hit.

use crate::common::scalar::Scalar;
use crate::hittable::hit_record::HitRecord;
use crate::hittable::Hittable;
use vstd::prelude::*;

verus! {

/// The objects of a scene, in the order they were added. Nothing is
/// deduplicated or indexed: a ray is tested against every object in turn.
pub struct HittableList<H: Hittable> {
    pub objects: Vec<H>,
}

impl<H: Hittable> View for HittableList<H> {
    type V = Seq<H>;

    open spec fn view(&self) -> Seq<H> {
        self.objects@
    }
}

/// The parameter up to which the next object is tested: that of the hit
/// found so far, or `t_max` if there is none.
pub open spec fn closest_so_far(found: Option<HitRecord>, t_max: Scalar) -> Scalar {
    match found {
        Some(record) => record.t,
        None => t_max,
    }
}

/// The hit that a scan of `objects` in order arrives at. Each object is
/// tested within `[t_min, closest_so_far]`; a hit takes the place of the one
/// found before.
pub open spec fn nearest<H: Hittable>(
    objects: Seq<H>,
    probes: Seq<H::Probe>,
    t_min: Scalar,
    t_max: Scalar,
) -> Option<HitRecord>
    decreases objects.len(),
{
    if objects.len() == 0 {
        None
    } else {
        let earlier = nearest(objects.drop_last(), probes.drop_last(), t_min, t_max);
        match objects.last().spec_hit(&probes.last(), t_min, closest_so_far(earlier, t_max)) {
            Some(record) => Some(record),
            None => earlier,
        }
    }
}

/// Every probe is definite for the object in its place.
pub open spec fn all_definite<H: Hittable>(objects: Seq<H>, probes: Seq<H::Probe>) -> bool {
    forall|i: int|
        #![trigger probes[i]]
        0 <= i < objects.len() && i < probes.len() ==> objects[i].is_definite(&probes[i])
}

impl<H: Hittable> HittableList<H> {
    /// The number of objects that have a probe in their place.
    pub open spec fn paired(&self, probe: &Vec<H::Probe>) -> int {
        if probe@.len() < self@.len() {
            probe@.len() as int
        } else {
            self@.len() as int
        }
    }

    /// The empty scene.
    pub fn new() -> (r: HittableList<H>)
        ensures
            r@ == Seq::<H>::empty(),
    {
        HittableList { objects: Vec::new() }
    }

    /// Adds an object at the end of the scene.
    pub fn add(&mut self, object: H)
        ensures
            final(self)@ == old(self)@.push(object),
    {
        self.objects.push(object);
    }

    /// The number of objects in the scene.
    pub fn len(&self) -> (n: usize)
        ensures
            n == self@.len(),
    {
        self.objects.len()
    }
}

impl<H: Hittable> Hittable for HittableList<H> {
    /// One probe for each object, in the order of the objects.
    type Probe = Vec<H::Probe>;

    /// The hit that the scan arrives at. The objects are tested each with
    /// the probe in its own place; an object that has none is not tested.
    open spec fn spec_hit(&self, probe: &Vec<H::Probe>, t_min: Scalar, t_max: Scalar) -> Option<
        HitRecord,
    > {
        nearest(self@.take(self.paired(probe)), probe@.take(self.paired(probe)), t_min, t_max)
    }

    open spec fn is_definite(&self, probe: &Vec<H::Probe>) -> bool {
        all_definite(self@, probe@)
    }

    fn hit(&self, probe: &Vec<H::Probe>, t_min: Scalar, t_max: Scalar) -> (r: Option<HitRecord>)
        ensures
            self@.len() == 0 ==> r is None,
    {
        let paired: usize = if probe.len() < self.objects.len() {
            probe.len()
        } else {
            self.objects.len()
        };
        let mut closest = t_max;
        let mut best: Option<HitRecord> = None;
        let mut i: usize = 0;
        while i < paired
            invariant
                i <= paired,
                paired <= self.objects@.len(),
                paired <= probe@.len(),
                best == nearest(self.objects@.take(i as int), probe@.take(i as int), t_min, t_max),
                closest == closest_so_far(best, t_max),
            decreases paired - i,
        {
            proof {
                let next = i + 1;
                assert(self.objects@.take(next).drop_last() =~= self.objects@.take(i as int));
                assert(probe@.take(next).drop_last() =~= probe@.take(i as int));
            }
            match self.objects[i].hit(&probe[i], t_min, closest) {
                Some(record) => {
                    closest = record.t;
                    best = Some(record);
                },
                None => {},
            }
            i = i + 1;
        }
        best
    }

    proof fn lemma_hit_lies_within(&self, probe: &Vec<H::Probe>, t_min: Scalar, t_max: Scalar) {
        let paired = self.paired(probe);
        lemma_nearest_is_nearest(self@.take(paired), probe@.take(paired), t_min, t_max);
    }

    proof fn lemma_hit_is_kept(
        &self,
        probe: &Vec<H::Probe>,
        t_min: Scalar,
        lower: Scalar,
        upper: Scalar,
    ) {
        let paired = self.paired(probe);
        lemma_nearest_is_kept(
            self@.take(paired),
            probe@.take(paired),
            t_min,
            lower,
            upper,
        );
    }
}

/// The scan finds the nearest hit. Where the ends of the interval are
/// numbers and every probe is definite: the scan finds nothing exactly when
/// no object is hit within `[t_min, t_max]`; and what it finds is the hit of
/// one of the objects within `[t_min, t_max]`, and no object is hit within
/// that interval nearer along the ray. So the distance of what is found does
/// not depend on the order of the objects; only which of several equally
/// near objects is found does.
pub proof fn lemma_nearest_is_nearest<H: Hittable>(
    objects: Seq<H>,
    probes: Seq<H::Probe>,
    t_min: Scalar,
    t_max: Scalar,
)
    requires
        objects.len() == probes.len(),
        !t_min.spec_is_nan(),
        !t_max.spec_is_nan(),
        all_definite(objects, probes),
    ensures
        match nearest(objects, probes, t_min, t_max) {
            None => forall|i: int|
                #![trigger probes[i]]
                0 <= i < objects.len() ==> objects[i].spec_hit(&probes[i], t_min, t_max) is None,
            Some(record) => {
                &&& t_min.spec_le(record.t)
                &&& record.t.spec_le(t_max)
                &&& exists|i: int|
                    #![trigger probes[i]]
                    0 <= i < objects.len() && objects[i].spec_hit(&probes[i], t_min, t_max)
                        == Some(record)
                &&& forall|i: int|
                    #![trigger probes[i]]
                    0 <= i < objects.len() ==> (objects[i].spec_hit(&probes[i], t_min, t_max)
                        matches Some(other) ==> record.t.spec_le(other.t))
            },
        },
    decreases objects.len(),
{
    if objects.len() > 0 {
        let n = objects.len() - 1;
        let front = objects.drop_last();
        let front_probes = probes.drop_last();
        lemma_front_is_definite(objects, probes);
        lemma_nearest_is_nearest(front, front_probes, t_min, t_max);
        let earlier = nearest(front, front_probes, t_min, t_max);
        let bound = closest_so_far(earlier, t_max);
        let last = objects[n];
        let last_probe = probes[n];
        assert(last.is_definite(&last_probe));
        last.lemma_hit_lies_within(&last_probe, t_min, bound);
        last.lemma_hit_is_kept(&last_probe, t_min, bound, t_max);
        match nearest(objects, probes, t_min, t_max) {
            None => {
                assert forall|i: int|
                    #![trigger probes[i]]
                    0 <= i < objects.len() implies objects[i].spec_hit(
                    &probes[i],
                    t_min,
                    t_max,
                ) is None by {
                    if i < n {
                        assert(front[i].spec_hit(&front_probes[i], t_min, t_max) is None);
                    }
                }
            },
            Some(record) => {
                if last.spec_hit(&last_probe, t_min, bound) is Some {
                    assert(objects[n].spec_hit(&probes[n], t_min, t_max) == Some(record));
                } else {
                    let i = choose|i: int|
                        #![trigger front_probes[i]]
                        0 <= i < front.len() && front[i].spec_hit(&front_probes[i], t_min, t_max)
                            == Some(record);
                    assert(objects[i].spec_hit(&probes[i], t_min, t_max) == Some(record));
                }
                assert forall|i: int|
                    #![trigger probes[i]]
                    0 <= i < objects.len() implies (objects[i].spec_hit(&probes[i], t_min, t_max)
                    matches Some(other) ==> record.t.spec_le(other.t)) by {
                    if i < n {
                        assert(front[i].spec_hit(&front_probes[i], t_min, t_max)
                            == objects[i].spec_hit(&probes[i], t_min, t_max));
                    }
                }
            },
        }
    }
}

/// A scan obeys the law of its objects: raising the upper end of the
/// interval from `lower` to `upper` keeps a hit that was found, and where
/// none was found, one that is found now lies beyond `lower`.
pub proof fn lemma_nearest_is_kept<H: Hittable>(
    objects: Seq<H>,
    probes: Seq<H::Probe>,
    t_min: Scalar,
    lower: Scalar,
    upper: Scalar,
)
    requires
        objects.len() == probes.len(),
        !t_min.spec_is_nan(),
        lower.spec_le(upper),
        all_definite(objects, probes),
    ensures
        nearest(objects, probes, t_min, lower) is Some ==> nearest(objects, probes, t_min, upper)
            == nearest(objects, probes, t_min, lower),
        nearest(objects, probes, t_min, lower) is None ==> (nearest(
            objects,
            probes,
            t_min,
            upper,
        ) matches Some(beyond) ==> lower.spec_lt(beyond.t)),
    decreases objects.len(),
{
    if objects.len() > 0 {
        let n = objects.len() - 1;
        let front = objects.drop_last();
        let front_probes = probes.drop_last();
        lemma_front_is_definite(objects, probes);
        lemma_nearest_is_kept(front, front_probes, t_min, lower, upper);
        lemma_nearest_is_nearest(front, front_probes, t_min, lower);
        lemma_nearest_is_nearest(front, front_probes, t_min, upper);
        let low = closest_so_far(nearest(front, front_probes, t_min, lower), lower);
        let high = closest_so_far(nearest(front, front_probes, t_min, upper), upper);
        assert(low.spec_le(high));
        let last = objects[n];
        let last_probe = probes[n];
        assert(last.is_definite(&last_probe));
        last.lemma_hit_is_kept(&last_probe, t_min, low, high);
        last.lemma_hit_lies_within(&last_probe, t_min, low);
        last.lemma_hit_lies_within(&last_probe, t_min, high);
    }
}

/// Every object of the first scene, with its probe, is also in the second.
pub open spec fn covered_by<H: Hittable>(
    objects: Seq<H>,
    probes: Seq<H::Probe>,
    others: Seq<H>,
    other_probes: Seq<H::Probe>,
) -> bool {
    forall|i: int|
        #![trigger probes[i]]
        0 <= i < objects.len() ==> exists|j: int|
            #![trigger other_probes[j]]
            0 <= j < others.len() && others[j] == objects[i] && other_probes[j] == probes[i]
}

/// The order of the objects does not change how far the nearest hit is.
/// Two scenes that hold the same objects with the same probes, in whatever
/// order and however often, are both missed or both hit, and at the same
/// distance.
pub proof fn lemma_nearest_distance_ignores_order<H: Hittable>(
    objects: Seq<H>,
    probes: Seq<H::Probe>,
    others: Seq<H>,
    other_probes: Seq<H::Probe>,
    t_min: Scalar,
    t_max: Scalar,
)
    requires
        objects.len() == probes.len(),
        others.len() == other_probes.len(),
        !t_min.spec_is_nan(),
        !t_max.spec_is_nan(),
        all_definite(objects, probes),
        all_definite(others, other_probes),
        covered_by(objects, probes, others, other_probes),
        covered_by(others, other_probes, objects, probes),
    ensures
        nearest(objects, probes, t_min, t_max) is None <==> nearest(
            others,
            other_probes,
            t_min,
            t_max,
        ) is None,
        nearest(objects, probes, t_min, t_max) matches Some(one) ==> nearest(
            others,
            other_probes,
            t_min,
            t_max,
        ) matches Some(other) && one.t.spec_num_eq(other.t),
{
    lemma_nearest_is_nearest(objects, probes, t_min, t_max);
    lemma_nearest_is_nearest(others, other_probes, t_min, t_max);
    lemma_found_in_a_covering_scene(objects, probes, others, other_probes, t_min, t_max);
    lemma_found_in_a_covering_scene(others, other_probes, objects, probes, t_min, t_max);
}

/// What a scan finds in one scene bounds what a scan finds in a scene that
/// covers it: the covering scene is hit too, and no farther away.
proof fn lemma_found_in_a_covering_scene<H: Hittable>(
    objects: Seq<H>,
    probes: Seq<H::Probe>,
    others: Seq<H>,
    other_probes: Seq<H::Probe>,
    t_min: Scalar,
    t_max: Scalar,
)
    requires
        objects.len() == probes.len(),
        others.len() == other_probes.len(),
        !t_min.spec_is_nan(),
        !t_max.spec_is_nan(),
        all_definite(objects, probes),
        all_definite(others, other_probes),
        covered_by(objects, probes, others, other_probes),
    ensures
        nearest(objects, probes, t_min, t_max) matches Some(one) ==> nearest(
            others,
            other_probes,
            t_min,
            t_max,
        ) matches Some(other) && other.t.spec_le(one.t),
{
    lemma_nearest_is_nearest(objects, probes, t_min, t_max);
    lemma_nearest_is_nearest(others, other_probes, t_min, t_max);
    if let Some(one) = nearest(objects, probes, t_min, t_max) {
        let i = choose|i: int|
            #![trigger probes[i]]
            0 <= i < objects.len() && objects[i].spec_hit(&probes[i], t_min, t_max) == Some(one);
        let j = choose|j: int|
            #![trigger other_probes[j]]
            0 <= j < others.len() && others[j] == objects[i] && other_probes[j] == probes[i];
        assert(others[j].spec_hit(&other_probes[j], t_min, t_max) == Some(one));
    }
}

/// Probes that are definite for a list of objects are so for the list
/// without its last object.
proof fn lemma_front_is_definite<H: Hittable>(objects: Seq<H>, probes: Seq<H::Probe>)
    requires
        objects.len() == probes.len(),
        objects.len() > 0,
        all_definite(objects, probes),
    ensures
        all_definite(objects.drop_last(), probes.drop_last()),
        forall|i: int|
            0 <= i < objects.len() - 1 ==> objects.drop_last()[i] == objects[i]
                && probes.drop_last()[i] == probes[i],
{
    let front = objects.drop_last();
    let front_probes = probes.drop_last();
    assert forall|i: int|
        #![trigger front_probes[i]]
        0 <= i < front.len() && i < front_probes.len() implies front[i].is_definite(
        &front_probes[i],
    ) by {
        assert(front_probes[i] == probes[i]);
        assert(front[i] == objects[i]);
    }
}

} // verus!
