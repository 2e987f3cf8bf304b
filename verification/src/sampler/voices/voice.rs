use vstd::prelude::*;

use crate::sampler::adsr::AdsrPhase;
use crate::sampler::sample_player::SamplePlayerStatus;
use crate::sampler::voices::note::Note;

verus! {

/// What a voice is doing, as the voice allocator sees it.
#[derive(Debug, Clone, Copy, PartialEq, Eq, Structural)]
pub enum VoiceStatus {
    /// The voice is silent.
    Inactive,
    /// The envelope of the voice is in its attack, decay or sustain stage.
    Playing,
    /// The envelope of the voice is in its release stage.
    Releasing,
}

/// The status that a voice takes after its envelope reached `phase`.
pub open spec fn status_for_phase(phase: AdsrPhase) -> VoiceStatus {
    match phase {
        AdsrPhase::Attack | AdsrPhase::Decay | AdsrPhase::Sustain => VoiceStatus::Playing,
        AdsrPhase::Release => VoiceStatus::Releasing,
        AdsrPhase::Idle => VoiceStatus::Inactive,
    }
}

/// The stage the envelope of a voice is in once its step is concluded: idle
/// when the sample player reached its end mark, since the voice is then
/// reset, and `phase` otherwise.
pub open spec fn stage_after_conclusion(phase: AdsrPhase, player: SamplePlayerStatus) -> AdsrPhase {
    if player == SamplePlayerStatus::PlayEnd {
        AdsrPhase::Idle
    } else {
        phase
    }
}

/// A voice's status names the stage of its envelope: it is playing exactly
/// while the envelope is in its attack, decay or sustain, releasing exactly
/// while the envelope releases, and inactive exactly while the envelope is
/// idle. After a step the stage is `stage_after_conclusion`, which
/// `Voice::conclude_step` gives its status from.
pub proof fn lemma_status_names_stage(phase: AdsrPhase, player: SamplePlayerStatus)
    ensures
        ({
            let stage = stage_after_conclusion(phase, player);
            let status = status_for_phase(stage);
            &&& (stage == AdsrPhase::Attack || stage == AdsrPhase::Decay || stage
                == AdsrPhase::Sustain) <==> status == VoiceStatus::Playing
            &&& stage == AdsrPhase::Release <==> status == VoiceStatus::Releasing
            &&& stage == AdsrPhase::Idle <==> status == VoiceStatus::Inactive
            &&& status == (if player == SamplePlayerStatus::PlayEnd {
                VoiceStatus::Inactive
            } else {
                status_for_phase(phase)
            })
        }),
{
}

/// What the audio side of a voice has to do once the step's envelope stage
/// and sample-player status are known.
#[derive(Debug, Clone, Copy, PartialEq, Eq, Structural)]
pub struct VoiceStepActions {
    /// The envelope went idle: release its gate and silence the step.
    pub gate_off: bool,
    /// The sample player reached the end mark: reset the voice and silence
    /// the step.
    pub reset: bool,
}

/// The control state of one voice: its status and the note it holds.
#[derive(Debug)]
pub struct Voice<V> {
    pub status: VoiceStatus,
    pub note: Note<V>,
}

impl<V> Voice<V> {
    /// A fresh voice: silent, holding note 64 with the default velocity.
    pub fn new() -> (voice: Self)
        where V: Default
        ensures
            voice.status == VoiceStatus::Inactive,
            voice.note.number == 64,
            call_ensures(V::default, (), voice.note.velocity),
    {
        Voice { status: VoiceStatus::Inactive, note: Note { number: 64, velocity: V::default() } }
    }

    /// The note the voice holds.
    pub fn get_note(&self) -> (note: Note<V>)
        where V: Copy
        ensures
            note == self.note,
    {
        self.note
    }

    /// Gives the voice a new note; its status stays as it was.
    pub fn set_note(&mut self, note: Note<V>)
        ensures
            final(self).note == note,
            final(self).status == old(self).status,
    {
        self.note = note;
    }

    /// Silences the voice; it keeps its note.
    pub fn reset(&mut self)
        ensures
            final(self).status == VoiceStatus::Inactive,
            final(self).note == old(self).note,
    {
        self.status = VoiceStatus::Inactive;
    }

    /// Gates the voice on: its status becomes `Playing`.
    pub fn gate_on(&mut self)
        ensures
            final(self).status == VoiceStatus::Playing,
            final(self).note == old(self).note,
    {
        self.status = VoiceStatus::Playing;
    }

    /// Closes a step of the voice: its status follows the stage `phase`
    /// of its envelope; an idle envelope has its gate released; a sample
    /// player that reached its end mark resets the voice.
    pub fn conclude_step(&mut self, phase: AdsrPhase, player: SamplePlayerStatus) -> (actions:
        VoiceStepActions)
        ensures
            actions.gate_off == (phase == AdsrPhase::Idle),
            actions.reset == (player == SamplePlayerStatus::PlayEnd),
            final(self).status == (if actions.reset {
                VoiceStatus::Inactive
            } else {
                status_for_phase(phase)
            }),
            final(self).status == status_for_phase(stage_after_conclusion(phase, player)),
            final(self).note == old(self).note,
    {
        let mut gate_off = false;
        match phase {
            AdsrPhase::Attack | AdsrPhase::Decay | AdsrPhase::Sustain => {
                self.status = VoiceStatus::Playing;
            },
            AdsrPhase::Release => {
                self.status = VoiceStatus::Releasing;
            },
            AdsrPhase::Idle => {
                self.status = VoiceStatus::Inactive;
                gate_off = true;
            },
        }
        let reset = match player {
            SamplePlayerStatus::PlayEnd => true,
            _ => false,
        };
        if reset {
            self.reset();
        }
        VoiceStepActions { gate_off, reset }
    }
}

} // verus!
