use vstd::prelude::*;

use crate::sphere::Sphere;

verus! {

/// The emissive spheres of `world`, in their order there.
pub open spec fn lights_of<S, C>(world: Seq<Sphere<S, C>>) -> Seq<Sphere<S, C>>
    decreases world.len(),
{
    if world.len() == 0 {
        Seq::empty()
    } else {
        let rest = lights_of(world.drop_last());
        if world.last().material.is_emissive() {
            rest.push(world.last())
        } else {
            rest
        }
    }
}

/// How many spheres of `world` are emissive.
pub open spec fn count_lights<S, C>(world: Seq<Sphere<S, C>>) -> nat
    decreases world.len(),
{
    if world.len() == 0 {
        0
    } else {
        count_lights(world.drop_last()) + if world.last().material.is_emissive() {
            1nat
        } else {
            0nat
        }
    }
}

proof fn lemma_lights_of_push<S, C>(world: Seq<Sphere<S, C>>, s: Sphere<S, C>)
    ensures
        lights_of(world.push(s)) == if s.material.is_emissive() {
            lights_of(world).push(s)
        } else {
            lights_of(world)
        },
        count_lights(world.push(s)) == count_lights(world) + if s.material.is_emissive() {
            1nat
        } else {
            0nat
        },
{
    assert(world.push(s).drop_last() =~= world);
}

/// Selecting the lights keeps exactly the emissive spheres: as many as the
/// world has, each of them emissive, each taken from the world, and the
/// world's own order kept.
pub proof fn lemma_lights_of_exact<S, C>(world: Seq<Sphere<S, C>>)
    ensures
        lights_of(world).len() == count_lights(world),
        forall|i: int|
            0 <= i < lights_of(world).len() ==> (#[trigger] lights_of(world)[i]).material.is_emissive(),
        lights_of(world).to_multiset() =~= world.to_multiset().filter(
            |s: Sphere<S, C>| s.material.is_emissive(),
        ),
        lights_of(world).len() <= world.len(),
        forall|i: int| 0 <= i < lights_of(world).len() ==> world.contains(#[trigger] lights_of(world)[i]),
    decreases world.len(),
{
    broadcast use vstd::multiset::group_multiset_axioms;
    broadcast use vstd::seq_lib::group_to_multiset_ensures;

    if world.len() > 0 {
        let rest = world.drop_last();
        let s = world.last();
        lemma_lights_of_exact(rest);
        assert(rest.push(s) =~= world);
        lemma_lights_of_push(rest, s);
        assert forall|i: int| 0 <= i < lights_of(world).len() implies world.contains(
            #[trigger] lights_of(world)[i],
        ) by {
            if i < lights_of(rest).len() {
                let j = choose|j: int| 0 <= j < rest.len() && rest[j] == lights_of(rest)[i];
                assert(world[j] == rest[j]);
            } else {
                assert(world[world.len() - 1] == s);
            }
        }
    }
}

/// The emissive spheres of `world`, copied in their order there.
pub fn find_lights<S: Copy, C: Copy>(world: &Vec<Sphere<S, C>>) -> (r: Vec<Sphere<S, C>>)
    ensures
        r@ == lights_of(world@),
        r@.len() == count_lights(world@),
{
    let mut lights: Vec<Sphere<S, C>> = Vec::new();
    let mut i: usize = 0;
    while i < world.len()
        invariant
            i <= world.len(),
            lights@ == lights_of(world@.take(i as int)),
            lights@.len() == count_lights(world@.take(i as int)),
        decreases world.len() - i,
    {
        let s = world[i];
        proof {
            assert(world@.take(i as int + 1) =~= world@.take(i as int).push(s));
            lemma_lights_of_push(world@.take(i as int), s);
        }
        if s.material.is_light() {
            lights.push(s);
        }
        i = i + 1;
    }
    proof {
        assert(world@.take(world.len() as int) =~= world@);
    }
    lights
}

} // verus!
