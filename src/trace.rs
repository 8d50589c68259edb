use vstd::arithmetic::power2::{lemma_pow2_unfold, pow2};
use vstd::prelude::*;

use crate::color::Color;

verus! {

// A depth is a non-negative distance along a ray, handed over as a `u32` key
// that orders as the distances do (the bit pattern of a non-negative IEEE-754
// single is such a key). `None` stands for a ray that met nothing: infinitely
// far.

/// The colour of a ray that meets nothing.
pub open spec fn background() -> Color {
    Color { r: 4, g: 12, b: 36 }
}

/// The colour of a ray cast with no depth left.
pub open spec fn exhausted() -> Color {
    Color { r: 0, g: 0, b: 0 }
}

/// Some object was hit.
pub open spec fn any_hit(depths: Seq<Option<u32>>) -> bool {
    exists|j: int| 0 <= j < depths.len() && (#[trigger] depths[j]) is Some
}

/// Object `i` was hit, no hit is nearer, and every earlier hit is farther: the
/// first object at the least depth.
pub open spec fn is_nearest(depths: Seq<Option<u32>>, i: int) -> bool {
    &&& 0 <= i < depths.len()
    &&& depths[i] is Some
    &&& forall|j: int| 0 <= j < depths.len() && (#[trigger] depths[j]) is Some
        ==> depths[i]->Some_0 <= depths[j]->Some_0
    &&& forall|j: int| 0 <= j < i && (#[trigger] depths[j]) is Some
        ==> depths[i]->Some_0 < depths[j]->Some_0
}

/// Number of objects hit strictly nearer than `limit`.
pub open spec fn blockers(depths: Seq<Option<u32>>, limit: u32) -> nat
    decreases depths.len(),
{
    if depths.len() == 0 {
        0
    } else {
        blockers(depths.drop_last(), limit) + match depths.last() {
            Some(d) if d < limit => 1nat,
            _ => 0nat,
        }
    }
}

/// Share of the light, in percent, that blockers take away: half of it for each
/// one, all of it from two on.
pub open spec fn spec_shadow_percent(depths: Seq<Option<u32>>, limit: u32) -> nat {
    let n = blockers(depths, limit);
    if n >= 2 {
        100
    } else {
        50 * n
    }
}

/// The first object at the least depth, or `None` where no object was hit.
pub fn nearest_hit(depths: &Vec<Option<u32>>) -> (r: Option<usize>)
    ensures
        r is None <==> !any_hit(depths@),
        r is Some ==> is_nearest(depths@, r->Some_0 as int),
{
    let mut best: Option<usize> = None;
    let mut best_depth: u32 = 0;
    let mut i: usize = 0;
    while i < depths.len()
        invariant
            i <= depths@.len(),
            best is None <==> forall|j: int| 0 <= j < i ==> (#[trigger] depths@[j]) is None,
            best is Some ==> is_nearest(depths@.take(i as int), best->Some_0 as int)
                && depths@[best->Some_0 as int] == Some(best_depth),
        decreases depths@.len() - i,
    {
        if let Some(d) = depths[i] {
            let closer = match best {
                None => true,
                Some(_) => d < best_depth,
            };
            if closer {
                best = Some(i);
                best_depth = d;
            }
        }
        i = i + 1;
        assert(forall|j: int| 0 <= j < i ==> depths@.take(i as int)[j] == depths@[j]);
    }
    assert(depths@.take(i as int) =~= depths@);
    proof {
        if best is None {
            assert(!any_hit(depths@));
        }
    }
    best
}

/// How much a point is shadowed, in percent of the light: `depths` holds, for
/// each object, where the ray from the point towards the light meets it, and
/// `light_depth` how far the light is. Each object met before the light takes
/// half of the light away, until none is left.
pub fn shadow_percent(depths: &Vec<Option<u32>>, light_depth: u32) -> (r: u32)
    ensures
        r == spec_shadow_percent(depths@, light_depth),
        r <= 100,
{
    let mut count: usize = 0;
    let mut i: usize = 0;
    while i < depths.len()
        invariant
            i <= depths@.len(),
            count == blockers(depths@.take(i as int), light_depth),
            count <= i,
        decreases depths@.len() - i,
    {
        assert(depths@.take(i + 1).drop_last() =~= depths@.take(i as int));
        if let Some(d) = depths[i] {
            if d < light_depth {
                count = count + 1;
            }
        }
        i = i + 1;
    }
    assert(depths@.take(i as int) =~= depths@);
    if count >= 2 {
        100
    } else {
        50 * count as u32
    }
}

/// Where a point has a clear line to the light, nothing shadows it.
pub proof fn lemma_clear_path_casts_no_shadow(depths: Seq<Option<u32>>, light_depth: u32)
    requires
        forall|j: int| 0 <= j < depths.len() ==> match #[trigger] depths[j] {
            Some(d) => d >= light_depth,
            None => true,
        },
    ensures
        blockers(depths, light_depth) == 0,
        spec_shadow_percent(depths, light_depth) == 0,
    decreases depths.len(),
{
    if depths.len() > 0 {
        let rest = depths.drop_last();
        assert forall|j: int| 0 <= j < rest.len() implies match #[trigger] rest[j] {
            Some(d) => d >= light_depth,
            None => true,
        } by {
            assert(rest[j] == depths[j]);
        }
        lemma_clear_path_casts_no_shadow(rest, light_depth);
        assert(depths.last() == depths[depths.len() - 1]);
    }
}

/// What a cast does once the hits of its ray are known.
#[derive(Clone, Copy, Debug, PartialEq, Eq, Structural)]
pub enum CastStep {
    /// Nothing more to trace: the cast yields `color`, infinitely far.
    Done { color: Color },
    /// Shade object `index`, the one that the ray meets first, at its depth;
    /// any secondary ray (reflection, refraction) is cast with `child_depth` left.
    Shade { index: usize, child_depth: u32 },
}

/// The step that a cast with `depth` left takes on a ray whose hits are `depths`.
pub open spec fn is_cast_step(depth: u32, depths: Seq<Option<u32>>, step: CastStep) -> bool {
    if depth == 0 {
        step == (CastStep::Done { color: exhausted() })
    } else if !any_hit(depths) {
        step == (CastStep::Done { color: background() })
    } else {
        &&& step is Shade
        &&& is_nearest(depths, step->index as int)
        &&& step->child_depth == depth - 1
    }
}

/// Decides a cast with `depth` left on a ray whose hits are `depths`: with no
/// depth left it ends in black whatever the scene holds; a ray that meets
/// nothing ends in the background colour; otherwise the nearest hit is shaded
/// and its secondary rays get one level less.
pub fn step_cast(depth: u32, depths: &Vec<Option<u32>>) -> (step: CastStep)
    ensures
        is_cast_step(depth, depths@, step),
{
    if depth == 0 {
        return CastStep::Done { color: Color::black() };
    }
    match nearest_hit(depths) {
        None => CastStep::Done { color: Color { r: 4, g: 12, b: 36 } },
        Some(index) => CastStep::Shade { index, child_depth: depth - 1 },
    }
}

/// The most casts that one cast with `depth` left leads to, itself included,
/// where each shaded hit casts at most two secondary rays (a reflection and a
/// refraction).
pub open spec fn cast_budget(depth: nat) -> nat
    decreases depth,
{
    if depth == 0 {
        1
    } else {
        1 + 2 * cast_budget((depth - 1) as nat)
    }
}

/// Recursion stays bounded: a step that shades hands its secondary rays one
/// level less depth, so that the cast and two secondary casts, each within its
/// own budget, stay within the cast's budget, which is 2^(depth + 1) - 1.
pub proof fn lemma_cast_recursion_bounded(depth: u32, depths: Seq<Option<u32>>, step: CastStep)
    requires
        is_cast_step(depth, depths, step),
    ensures
        cast_budget(depth as nat) == pow2(depth as nat + 1) - 1,
        step is Shade ==> step->child_depth < depth
            && 1 + 2 * cast_budget(step->child_depth as nat) == cast_budget(depth as nat),
{
    lemma_cast_budget_closed_form(depth as nat);
}

proof fn lemma_cast_budget_closed_form(depth: nat)
    ensures
        cast_budget(depth) == pow2(depth + 1) - 1,
    decreases depth,
{
    lemma_pow2_unfold(depth + 1);
    if depth > 0 {
        lemma_cast_budget_closed_form((depth - 1) as nat);
    } else {
        lemma_pow2_unfold(0 + 1);
        assert(pow2(0) == 1) by {
            vstd::arithmetic::power2::lemma2_to64();
        }
    }
}

} // verus!
