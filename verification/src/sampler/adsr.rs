use vstd::prelude::*;

verus! {

/// The stage an ADSR amplitude envelope is in.
#[derive(Debug, Clone, Copy, PartialEq, Eq, Structural)]
pub enum AdsrPhase {
    Attack,
    Decay,
    Sustain,
    Release,
    Idle,
}

/// The stage an envelope moves to in one step from `phase`.
///
/// While gated: an idle envelope starts its attack; the attack
/// gives way to the decay once the level reached full scale
/// (`target_reached`); the decay gives way to the sustain once the level
/// came down to the sustain level (`target_reached`); the sustain holds;
/// a releasing envelope goes idle. While not gated: the envelope
/// releases while its level, as the step began, is above zero
/// (`level_above_zero`), and is idle otherwise.
pub open spec fn phase_after_step(
    phase: AdsrPhase,
    is_gated: bool,
    target_reached: bool,
    level_above_zero: bool,
) -> AdsrPhase {
    if is_gated {
        match phase {
            AdsrPhase::Idle => AdsrPhase::Attack,
            AdsrPhase::Attack => if target_reached {
                AdsrPhase::Decay
            } else {
                AdsrPhase::Attack
            },
            AdsrPhase::Decay => if target_reached {
                AdsrPhase::Sustain
            } else {
                AdsrPhase::Decay
            },
            AdsrPhase::Sustain => AdsrPhase::Sustain,
            AdsrPhase::Release => AdsrPhase::Idle,
        }
    } else if level_above_zero {
        AdsrPhase::Release
    } else {
        AdsrPhase::Idle
    }
}

/// The stage an envelope moves to in one step (see `phase_after_step`);
/// the level comparisons of the step come in as `target_reached` and
/// `level_above_zero`.
pub fn next_phase(
    phase: AdsrPhase,
    is_gated: bool,
    target_reached: bool,
    level_above_zero: bool,
) -> (next: AdsrPhase)
    ensures
        next == phase_after_step(phase, is_gated, target_reached, level_above_zero),
{
    if is_gated {
        match phase {
            AdsrPhase::Idle => AdsrPhase::Attack,
            AdsrPhase::Attack => if target_reached {
                AdsrPhase::Decay
            } else {
                AdsrPhase::Attack
            },
            AdsrPhase::Decay => if target_reached {
                AdsrPhase::Sustain
            } else {
                AdsrPhase::Decay
            },
            AdsrPhase::Sustain => AdsrPhase::Sustain,
            AdsrPhase::Release => AdsrPhase::Idle,
        }
    } else if level_above_zero {
        AdsrPhase::Release
    } else {
        AdsrPhase::Idle
    }
}

/// The stage reached in one step depends only on what matters to it: while
/// gated, not on the level at the start of the step, so an attack that
/// reached full scale always moves on to the decay and a decay that reached
/// the sustain level always moves on to the sustain, while a step short of
/// its target stays in its stage; while not gated, neither on the stage nor
/// on the target comparison.
pub proof fn lemma_stage_inputs(
    phase: AdsrPhase,
    target_reached: bool,
    level_above_zero: bool,
    other_phase: AdsrPhase,
    other_target: bool,
    other_level: bool,
)
    ensures
        phase_after_step(phase, true, target_reached, level_above_zero) == phase_after_step(
            phase,
            true,
            target_reached,
            other_level,
        ),
        phase_after_step(phase, false, target_reached, level_above_zero) == phase_after_step(
            other_phase,
            false,
            other_target,
            level_above_zero,
        ),
        phase_after_step(AdsrPhase::Attack, true, true, level_above_zero) == AdsrPhase::Decay,
        phase_after_step(AdsrPhase::Decay, true, true, level_above_zero) == AdsrPhase::Sustain,
        phase_after_step(AdsrPhase::Attack, true, false, level_above_zero) == AdsrPhase::Attack,
        phase_after_step(AdsrPhase::Decay, true, false, level_above_zero) == AdsrPhase::Decay,
        phase_after_step(AdsrPhase::Release, true, target_reached, level_above_zero)
            == AdsrPhase::Idle,
{
}

/// The stages follow the gating: an envelope that is not gated is
/// releasing or idle, releasing exactly while its level is above zero; a
/// gated envelope never enters the release; it moves on from the attack
/// and the decay only once their target level is reached; and it holds the
/// sustain as long as it stays gated.
pub proof fn lemma_stages_follow_gate(
    phase: AdsrPhase,
    is_gated: bool,
    target_reached: bool,
    level_above_zero: bool,
)
    ensures
        ({
            let next = phase_after_step(phase, is_gated, target_reached, level_above_zero);
            &&& !is_gated ==> (next == AdsrPhase::Release <==> level_above_zero)
            &&& !is_gated ==> (next == AdsrPhase::Release || next == AdsrPhase::Idle)
            &&& is_gated ==> next != AdsrPhase::Release
            &&& is_gated && !target_reached && (phase == AdsrPhase::Attack || phase
                == AdsrPhase::Decay) ==> next == phase
            &&& is_gated && phase == AdsrPhase::Sustain ==> next == AdsrPhase::Sustain
            &&& is_gated && phase == AdsrPhase::Idle ==> next == AdsrPhase::Attack
        }),
{
}

} // verus!
