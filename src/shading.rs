use vstd::prelude::*;

verus! {

/// The optical regime of a material: a mirror, a dielectric (non-zero
/// refractive index), or an opaque diffuse surface.
#[derive(Clone, Copy, Debug, PartialEq, Eq, Structural)]
pub enum Regime {
    Specular,
    Refractive,
    Opaque,
}

/// The regime of a material from its specular flag and whether its refractive
/// index is non-zero. A specular flag wins over a refractive index.
pub fn regime_of(specular: bool, refractive: bool) -> (r: Regime)
    ensures
        r == Regime::Specular <==> specular,
        r == Regime::Refractive <==> !specular && refractive,
        r == Regime::Opaque <==> !specular && !refractive,
{
    if specular {
        Regime::Specular
    } else if refractive {
        Regime::Refractive
    } else {
        Regime::Opaque
    }
}

/// What a ray met: nothing that counts (no shape, or a hit beyond the far
/// cutoff), or the surface of a material of the given regime.
#[derive(Clone, Copy, Debug, PartialEq, Eq, Structural)]
pub enum Hit {
    Background,
    Surface(Regime),
}

/// What one shading step does.
#[derive(Clone, Copy, Debug, PartialEq, Eq, Structural)]
pub enum Step {
    /// The colour is the background's (black).
    Background,
    /// Mirror the ray at the hit and return the colour it brings back, traced
    /// with `next` bounces left.
    Reflect { next: u8 },
    /// Carry the ray across the dielectric boundary and return the colour it
    /// brings back, traced with `next` bounces left.
    Refract { next: u8 },
    /// Send the ray in a random direction of the hemisphere about the normal,
    /// trace it with `next` bounces left, and add the direct light at the hit.
    Scatter { next: u8 },
    /// The colour is the direct light at the hit alone.
    Direct,
}

/// The shading step for a ray that met `hit` with `remaining` bounces left,
/// diffuse bounces being sampled where `diffused` holds.
pub open spec fn step_for(hit: Hit, remaining: u8, diffused: bool) -> Step {
    match hit {
        Hit::Background => Step::Background,
        Hit::Surface(regime) => if remaining == 0 {
            Step::Direct
        } else {
            match regime {
                Regime::Specular => Step::Reflect { next: (remaining - 1) as u8 },
                Regime::Refractive => Step::Refract { next: (remaining - 1) as u8 },
                Regime::Opaque => if diffused {
                    Step::Scatter { next: (remaining - 1) as u8 }
                } else {
                    Step::Direct
                },
            }
        },
    }
}

/// Decides one step of the recursive shading of a ray: mirrors and dielectrics
/// pass the ray on while bounces remain; an opaque surface adds a diffuse
/// bounce when those are sampled; with no bounce left only direct light counts.
pub fn shading_step(hit: Hit, remaining: u8, diffused: bool) -> (r: Step)
    ensures
        r == step_for(hit, remaining, diffused),
{
    match hit {
        Hit::Background => Step::Background,
        Hit::Surface(regime) => {
            if remaining == 0 {
                Step::Direct
            } else {
                match regime {
                    Regime::Specular => Step::Reflect { next: remaining - 1 },
                    Regime::Refractive => Step::Refract { next: remaining - 1 },
                    Regime::Opaque => {
                        if diffused {
                            Step::Scatter { next: remaining - 1 }
                        } else {
                            Step::Direct
                        }
                    },
                }
            }
        },
    }
}

/// The bounce budget of the ray that a step traces further, if it traces one.
pub open spec fn traced_budget(s: Step) -> Option<u8> {
    match s {
        Step::Reflect { next } => Some(next),
        Step::Refract { next } => Some(next),
        Step::Scatter { next } => Some(next),
        _ => None,
    }
}

/// How many intersection searches one shading call makes when the successive
/// searches meet `hits[0]`, `hits[1]`, ... (at most as many as `hits` holds).
pub open spec fn searches(hits: Seq<Hit>, remaining: u8, diffused: bool) -> nat
    decreases hits.len(),
{
    if hits.len() == 0 {
        0
    } else {
        match traced_budget(step_for(hits[0], remaining, diffused)) {
            Some(next) => 1 + searches(hits.drop_first(), next, diffused),
            None => 1,
        }
    }
}

/// Each step that traces a ray further spends exactly one bounce.
pub proof fn lemma_step_spends_one_bounce(hit: Hit, remaining: u8, diffused: bool)
    ensures
        traced_budget(step_for(hit, remaining, diffused)) matches Some(next) ==> remaining > 0
            && next == remaining - 1,
        remaining == 0 ==> traced_budget(step_for(hit, remaining, diffused)) is None,
{
}

/// The recursion of shading is bounded by the bounce budget: whatever the rays
/// meet, one shading call with `remaining` bounces makes at most
/// `remaining + 1` intersection searches.
pub proof fn lemma_bounce_budget(hits: Seq<Hit>, remaining: u8, diffused: bool)
    ensures
        searches(hits, remaining, diffused) <= remaining + 1,
    decreases hits.len(),
{
    if hits.len() > 0 {
        lemma_step_spends_one_bounce(hits[0], remaining, diffused);
        if let Some(next) = traced_budget(step_for(hits[0], remaining, diffused)) {
            lemma_bounce_budget(hits.drop_first(), next, diffused);
        }
    }
}

/// How a ray crosses the boundary of a dielectric.
#[derive(Clone, Copy, Debug, PartialEq, Eq, Structural)]
pub enum Crossing {
    /// The ray enters the medium, bent toward the normal; it restarts a little
    /// inside the surface.
    Enter,
    /// The ray leaves the medium, bent about the inverted normal; it restarts a
    /// little outside the surface.
    Exit,
    /// The ray cannot leave the medium and is mirrored instead.
    TotalInternalReflection,
}

/// Decides how a ray crosses a dielectric boundary. `entering` holds where the
/// ray's direction points against the outward normal; `exit_discriminant_negative`
/// where, for a ray leaving, Snell's law has no real solution. A ray that enters
/// is always bent; one that leaves is mirrored when the law has no solution.
pub fn crossing(entering: bool, exit_discriminant_negative: bool) -> (r: Crossing)
    ensures
        r == Crossing::Enter <==> entering,
        r == Crossing::Exit <==> !entering && !exit_discriminant_negative,
        r == Crossing::TotalInternalReflection <==> !entering && exit_discriminant_negative,
{
    if entering {
        Crossing::Enter
    } else if exit_discriminant_negative {
        Crossing::TotalInternalReflection
    } else {
        Crossing::Exit
    }
}

} // verus!
