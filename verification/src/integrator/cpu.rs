use vstd::prelude::*;

use crate::config::{DEBUG_RAY_INDEX, MAX_BOUNCES};
use crate::graphics::ray::StopReason;

verus! {

/// Whether the ray with index `ray_index` in a batch is the one whose trajectory
/// is recorded: only when debugging, and only the ray numbered `DEBUG_RAY_INDEX`
/// (the index is compared as a 32-bit number).
pub fn is_traced_ray(debug: bool, ray_index: usize) -> (traced: bool)
    ensures
        traced == (debug && ray_index as u32 == DEBUG_RAY_INDEX),
{
    debug && ray_index as u32 == DEBUG_RAY_INDEX
}

/// Whether integration stops after a step, and why. The checks are made in this
/// order: the horizon, then the edge of the scene, then the objects; a ray that
/// meets none of them stops once `max_steps` steps have been taken.
pub open spec fn spec_stop_after_step(
    steps_taken: u32,
    max_steps: u32,
    horizon_reached: bool,
    background_reached: bool,
    object_hit: bool,
) -> Option<StopReason> {
    if horizon_reached {
        Some(StopReason::HorizonHit)
    } else if background_reached {
        Some(StopReason::BackgroundReached)
    } else if object_hit {
        Some(StopReason::ObjectHit)
    } else if steps_taken >= max_steps {
        Some(StopReason::MaxStepsReached)
    } else {
        None
    }
}

/// Decides whether integration stops after a step, given what the step found.
pub fn stop_after_step(
    steps_taken: u32,
    max_steps: u32,
    horizon_reached: bool,
    background_reached: bool,
    object_hit: bool,
) -> (reason: Option<StopReason>)
    ensures
        reason == spec_stop_after_step(
            steps_taken,
            max_steps,
            horizon_reached,
            background_reached,
            object_hit,
        ),
        horizon_reached ==> reason == Some(StopReason::HorizonHit),
        !horizon_reached && background_reached ==> reason == Some(StopReason::BackgroundReached),
        !horizon_reached && !background_reached && object_hit ==> reason == Some(StopReason::ObjectHit),
        !horizon_reached && !background_reached && !object_hit && steps_taken >= max_steps ==> reason
            == Some(StopReason::MaxStepsReached),
        !horizon_reached && !background_reached && !object_hit && steps_taken < max_steps ==> reason
            is None,
{
    if horizon_reached {
        Some(StopReason::HorizonHit)
    } else if background_reached {
        Some(StopReason::BackgroundReached)
    } else if object_hit {
        Some(StopReason::ObjectHit)
    } else if steps_taken >= max_steps {
        Some(StopReason::MaxStepsReached)
    } else {
        None
    }
}

/// How much light an object lets through where a ray hits it, read from the
/// alpha of its texture (objects without a texture are opaque).
#[derive(Clone, Copy, PartialEq, Eq, Debug, Structural)]
pub enum Opacity {
    /// Alpha at most zero.
    Transparent,
    /// Alpha strictly between zero and one.
    Translucent,
    /// Alpha at least one.
    Opaque,
}

/// What the path tracer does with a ray that hits an object.
#[derive(Clone, Copy, PartialEq, Eq, Debug, Structural)]
pub enum HitAction {
    /// The object is transparent: the ray goes on to the next object unchanged.
    PassThrough,
    /// The ray has bounced too often: it ends with the light gathered so far.
    Drop,
    /// The object is opaque and does not scatter the ray: its emission is
    /// gathered and the ray ends.
    Absorb,
    /// The object is opaque and scatters the ray: its emission is gathered, and
    /// the ray starts again from the hit point in the scattered direction.
    Scatter,
    /// The object is translucent: a share of its emission is gathered and the
    /// ray goes on through it to the next object.
    Transmit,
}

/// The action taken on a hit; transparency is checked first, then the bounce limit.
pub open spec fn spec_hit_action(bounce_count: u32, opacity: Opacity, scatters: bool) -> HitAction {
    if opacity == Opacity::Transparent {
        HitAction::PassThrough
    } else if bounce_count >= MAX_BOUNCES {
        HitAction::Drop
    } else if opacity == Opacity::Opaque {
        if scatters {
            HitAction::Scatter
        } else {
            HitAction::Absorb
        }
    } else {
        HitAction::Transmit
    }
}

/// Whether an action counts as a bounce of the ray.
pub open spec fn is_bounce(action: HitAction) -> bool {
    action == HitAction::Scatter || action == HitAction::Transmit
}

/// Decides what happens to a ray that has bounced `bounce_count` times and hits
/// an object of the given opacity, which `scatters` it or not, and returns the
/// bounce count after the hit.
pub fn on_object_hit(bounce_count: u32, opacity: Opacity, scatters: bool) -> (outcome: (HitAction, u32))
    ensures
        outcome.0 == spec_hit_action(bounce_count, opacity, scatters),
        outcome.1 == if is_bounce(outcome.0) {
            bounce_count + 1
        } else {
            bounce_count as int
        },
        opacity == Opacity::Transparent ==> outcome == (HitAction::PassThrough, bounce_count),
        opacity != Opacity::Transparent && bounce_count >= MAX_BOUNCES ==> outcome == (
            HitAction::Drop,
            bounce_count,
        ),
        opacity == Opacity::Opaque && bounce_count < MAX_BOUNCES && scatters ==> outcome.0
            == HitAction::Scatter && outcome.1 == bounce_count + 1,
        opacity == Opacity::Opaque && bounce_count < MAX_BOUNCES && !scatters ==> outcome == (
            HitAction::Absorb,
            bounce_count,
        ),
        opacity == Opacity::Translucent && bounce_count < MAX_BOUNCES ==> outcome.0
            == HitAction::Transmit && outcome.1 == bounce_count + 1,
{
    match opacity {
        Opacity::Transparent => (HitAction::PassThrough, bounce_count),
        _ => {
            if bounce_count >= MAX_BOUNCES {
                (HitAction::Drop, bounce_count)
            } else {
                match opacity {
                    Opacity::Opaque => {
                        if scatters {
                            (HitAction::Scatter, bounce_count + 1)
                        } else {
                            (HitAction::Absorb, bounce_count)
                        }
                    },
                    _ => (HitAction::Transmit, bounce_count + 1),
                }
            }
        },
    }
}

/// A ray never bounces more than `MAX_BOUNCES` times: from a bounce count within
/// the limit every hit leaves the count within the limit, and a ray at the limit
/// that meets anything but a transparent object is dropped.
pub proof fn lemma_bounces_bounded(bounce_count: u32, opacity: Opacity, scatters: bool)
    requires
        bounce_count <= MAX_BOUNCES,
    ensures
        is_bounce(spec_hit_action(bounce_count, opacity, scatters)) ==> bounce_count + 1 <= MAX_BOUNCES,
        bounce_count == MAX_BOUNCES && opacity != Opacity::Transparent ==> spec_hit_action(
            bounce_count,
            opacity,
            scatters,
        ) == HitAction::Drop,
{
}

/// A ray that has met nothing stops exactly when its step budget is spent, and a
/// ray that has reached the horizon stops there whatever else the step found.
pub proof fn lemma_stop_after_step(steps_taken: u32, max_steps: u32, background_reached: bool, object_hit: bool)
    ensures
        spec_stop_after_step(steps_taken, max_steps, false, false, false) is Some <==> steps_taken
            >= max_steps,
        spec_stop_after_step(steps_taken, max_steps, true, background_reached, object_hit) == Some(
            StopReason::HorizonHit,
        ),
{
}

/// Every way a step can end, for all inputs: the horizon stops the ray whatever
/// else the step found; otherwise leaving the scene stops it at the sky, even if
/// an object was also hit; otherwise an object hit stops it; otherwise it stops
/// exactly when the step budget is spent, and then for that reason.
pub proof fn lemma_stop_reasons(
    steps_taken: u32,
    max_steps: u32,
    horizon_reached: bool,
    background_reached: bool,
    object_hit: bool,
)
    ensures
        horizon_reached ==> spec_stop_after_step(
            steps_taken,
            max_steps,
            horizon_reached,
            background_reached,
            object_hit,
        ) == Some(StopReason::HorizonHit),
        !horizon_reached && background_reached ==> spec_stop_after_step(
            steps_taken,
            max_steps,
            horizon_reached,
            background_reached,
            object_hit,
        ) == Some(StopReason::BackgroundReached),
        !horizon_reached && !background_reached && object_hit ==> spec_stop_after_step(
            steps_taken,
            max_steps,
            horizon_reached,
            background_reached,
            object_hit,
        ) == Some(StopReason::ObjectHit),
        !horizon_reached && !background_reached && !object_hit ==> spec_stop_after_step(
            steps_taken,
            max_steps,
            horizon_reached,
            background_reached,
            object_hit,
        ) == if steps_taken >= max_steps {
            Some(StopReason::MaxStepsReached)
        } else {
            None::<StopReason>
        },
{
}

/// Every outcome of a hit, for all inputs: a transparent object is passed through
/// with the bounce count unchanged; any other object drops a ray that has used up
/// its bounces; below the limit, an opaque object that scatters the ray makes it
/// bounce (one more bounce), an opaque object that does not scatter absorbs it
/// (no bounce), and a translucent object transmits it (one more bounce).
pub proof fn lemma_hit_outcomes(bounce_count: u32, opacity: Opacity, scatters: bool)
    ensures
        opacity == Opacity::Transparent ==> spec_hit_action(bounce_count, opacity, scatters)
            == HitAction::PassThrough && !is_bounce(HitAction::PassThrough),
        opacity != Opacity::Transparent && bounce_count >= MAX_BOUNCES ==> spec_hit_action(
            bounce_count,
            opacity,
            scatters,
        ) == HitAction::Drop && !is_bounce(HitAction::Drop),
        opacity == Opacity::Opaque && bounce_count < MAX_BOUNCES && scatters ==> spec_hit_action(
            bounce_count,
            opacity,
            scatters,
        ) == HitAction::Scatter && is_bounce(HitAction::Scatter),
        opacity == Opacity::Opaque && bounce_count < MAX_BOUNCES && !scatters ==> spec_hit_action(
            bounce_count,
            opacity,
            scatters,
        ) == HitAction::Absorb && !is_bounce(HitAction::Absorb),
        opacity == Opacity::Translucent && bounce_count < MAX_BOUNCES ==> spec_hit_action(
            bounce_count,
            opacity,
            scatters,
        ) == HitAction::Transmit && is_bounce(HitAction::Transmit),
{
}

} // verus!
