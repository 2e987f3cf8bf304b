use micro_sampler::sampler::adsr::{next_phase, AdsrPhase};
use micro_sampler::sampler::decoded_audio::{next_channel, previous_channel};
use micro_sampler::sampler::sample_player::{next_status, SamplePlayerStatus};
use micro_sampler::sampler::voices::note::{event_is_due, note_event_action, NoteAction, NoteEventKind};
use micro_sampler::sampler::voices::voice::{Voice, VoiceStatus};

#[test]
fn fresh_voice_has_zero_velocity() {
    let voice: Voice<f32> = Voice::new();
    assert_eq!(voice.get_note().number, 64);
    assert_eq!(voice.get_note().velocity, 0.0);
}

#[test]
fn channel_keys_step_within_the_channels() {
    assert_eq!(previous_channel(0, 3), 0);
    assert_eq!(previous_channel(2, 3), 1);
    assert_eq!(next_channel(0, 3), 1);
    assert_eq!(next_channel(2, 3), 2);
    assert_eq!(next_channel(0, 1), 0);
    assert_eq!(previous_channel(7, 3), 2);
    assert_eq!(next_channel(usize::MAX, 3), 2);
    assert_eq!(previous_channel(next_channel(1, 4), 4), 1);
}

#[test]
fn envelope_stages_with_gate_open() {
    assert_eq!(next_phase(AdsrPhase::Idle, true, false, false), AdsrPhase::Attack);
    assert_eq!(next_phase(AdsrPhase::Attack, true, false, true), AdsrPhase::Attack);
    assert_eq!(next_phase(AdsrPhase::Attack, true, true, true), AdsrPhase::Decay);
    assert_eq!(next_phase(AdsrPhase::Decay, true, false, true), AdsrPhase::Decay);
    assert_eq!(next_phase(AdsrPhase::Decay, true, true, true), AdsrPhase::Sustain);
    assert_eq!(next_phase(AdsrPhase::Sustain, true, true, true), AdsrPhase::Sustain);
    assert_eq!(next_phase(AdsrPhase::Release, true, false, true), AdsrPhase::Idle);
}

#[test]
fn envelope_stages_with_gate_closed() {
    for phase in [AdsrPhase::Attack, AdsrPhase::Decay, AdsrPhase::Sustain, AdsrPhase::Release, AdsrPhase::Idle] {
        assert_eq!(next_phase(phase, false, true, true), AdsrPhase::Release);
        assert_eq!(next_phase(phase, false, true, false), AdsrPhase::Idle);
    }
}

#[test]
fn player_status_steps() {
    assert_eq!(next_status(SamplePlayerStatus::PlayingNormal, true, false, false), SamplePlayerStatus::PlayingNormal);
    assert_eq!(next_status(SamplePlayerStatus::PlayingNormal, true, true, false), SamplePlayerStatus::PlayingLoop);
    assert_eq!(next_status(SamplePlayerStatus::PlayingNormal, false, true, false), SamplePlayerStatus::PlayingNormal);
    assert_eq!(next_status(SamplePlayerStatus::PlayingNormal, true, true, true), SamplePlayerStatus::PlayEnd);
    assert_eq!(next_status(SamplePlayerStatus::PlayingNormal, false, false, true), SamplePlayerStatus::PlayEnd);
    assert_eq!(next_status(SamplePlayerStatus::PlayingLoop, true, true, true), SamplePlayerStatus::PlayingLoop);
    assert_eq!(next_status(SamplePlayerStatus::PlayEnd, true, true, false), SamplePlayerStatus::PlayEnd);
    assert_eq!(SamplePlayerStatus::default(), SamplePlayerStatus::PlayingNormal);
}

#[test]
fn note_events_map_to_actions() {
    assert_eq!(note_event_action(NoteEventKind::NoteOn, true), NoteAction::Insert);
    assert_eq!(note_event_action(NoteEventKind::NoteOn, false), NoteAction::Remove);
    assert_eq!(note_event_action(NoteEventKind::NoteOff, true), NoteAction::Remove);
    assert_eq!(note_event_action(NoteEventKind::NoteOff, false), NoteAction::Remove);
    assert_eq!(note_event_action(NoteEventKind::Other, true), NoteAction::Ignore);
}

#[test]
fn events_are_due_once_their_time_comes() {
    assert!(event_is_due(0, 0));
    assert!(event_is_due(3, 3));
    assert!(!event_is_due(4, 3));
    assert!(event_is_due(2, 10));
}

#[test]
fn ended_player_leaves_the_voice_inactive_whatever_the_stage() {
    for phase in [AdsrPhase::Attack, AdsrPhase::Decay, AdsrPhase::Sustain, AdsrPhase::Release, AdsrPhase::Idle] {
        let mut voice: Voice<f32> = Voice::new();
        voice.gate_on();
        let actions = voice.conclude_step(phase, SamplePlayerStatus::PlayEnd);
        assert!(actions.reset);
        assert_eq!(voice.status, VoiceStatus::Inactive);
    }
}
