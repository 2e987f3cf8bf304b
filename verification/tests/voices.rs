use micro_sampler::sampler::adsr::AdsrPhase;
use micro_sampler::sampler::params::MAX_POLYPHONY;
use micro_sampler::sampler::sample_player::SamplePlayerStatus;
use micro_sampler::sampler::voices::note::Note;
use micro_sampler::sampler::voices::voice::{Voice, VoiceStatus};
use micro_sampler::sampler::voices::VoiceManager;

fn note(number: u8, velocity: f32) -> Note<f32> {
    Note { number, velocity }
}

#[test]
fn common_test() {
    let mut vm: VoiceManager<f32> = VoiceManager::new(4, true);
    vm.retrigger = true;
    let started = vm.insert_note(note(69, 1.0));
    assert_eq!(started, Some(1));
    assert_eq!(vm.voice(1).status, VoiceStatus::Playing);
    assert_eq!(vm.voice(1).get_note().number, 69);
    assert_eq!(vm.voice(1).get_note().velocity, 1.0);
    assert_eq!(vm.active_voices(), vec![1]);
    for _ in 0..100 {
        for i in vm.active_voices() {
            let actions = vm.conclude_voice_step(i, AdsrPhase::Sustain, SamplePlayerStatus::PlayingLoop);
            assert!(!actions.gate_off && !actions.reset);
        }
    }
    assert_eq!(vm.voice(1).status, VoiceStatus::Playing);
}

#[test]
fn new_manager_is_silent() {
    let vm: VoiceManager<f32> = VoiceManager::new(MAX_POLYPHONY as usize, false);
    assert_eq!(vm.voice_count(), 16);
    assert_eq!(vm.polyphony(), 16);
    assert_eq!(vm.last_voice_index(), 0);
    assert!(vm.active_voices().is_empty());
    for i in 0..vm.voice_count() {
        assert_eq!(vm.voice(i).status, VoiceStatus::Inactive);
        assert_eq!(vm.voice(i).get_note().number, 64);
        assert_eq!(vm.voice(i).get_note().velocity, 0.0);
    }
}

#[test]
fn new_notes_take_voices_round_robin() {
    let mut vm: VoiceManager<f32> = VoiceManager::new(3, false);
    assert_eq!(vm.insert_note(note(60, 0.5)), Some(1));
    assert_eq!(vm.insert_note(note(61, 0.5)), Some(2));
    assert_eq!(vm.insert_note(note(62, 0.5)), Some(0));
    assert_eq!(vm.last_voice_index(), 0);
    // all voices busy: the next new note steals voice 1
    assert_eq!(vm.insert_note(note(63, 0.5)), Some(1));
    assert_eq!(vm.voice(1).get_note().number, 63);
    assert_eq!(vm.active_voices(), vec![0, 1, 2]);
    // voices beyond the polyphony stay silent
    assert_eq!(vm.voice(3).status, VoiceStatus::Inactive);
}

#[test]
fn playing_note_without_retrigger_is_left_alone() {
    let mut vm: VoiceManager<f32> = VoiceManager::new(4, false);
    assert_eq!(vm.insert_note(note(60, 0.25)), Some(1));
    assert_eq!(vm.insert_note(note(60, 0.75)), None);
    assert_eq!(vm.voice(1).get_note().velocity, 0.25);
    assert_eq!(vm.last_voice_index(), 1);
}

#[test]
fn playing_note_with_retrigger_restarts_its_voice() {
    let mut vm: VoiceManager<f32> = VoiceManager::new(4, true);
    assert_eq!(vm.insert_note(note(60, 0.25)), Some(1));
    assert_eq!(vm.insert_note(note(60, 0.75)), Some(1));
    assert_eq!(vm.voice(1).get_note().velocity, 0.75);
    assert_eq!(vm.voice(1).status, VoiceStatus::Playing);
    assert_eq!(vm.last_voice_index(), 1);
}

#[test]
fn releasing_note_is_restarted_without_retrigger() {
    let mut vm: VoiceManager<f32> = VoiceManager::new(4, false);
    assert_eq!(vm.insert_note(note(60, 0.25)), Some(1));
    let actions = vm.conclude_voice_step(1, AdsrPhase::Release, SamplePlayerStatus::PlayingNormal);
    assert!(!actions.gate_off && !actions.reset);
    assert_eq!(vm.voice(1).status, VoiceStatus::Releasing);
    assert_eq!(vm.insert_note(note(60, 0.5)), Some(1));
    assert_eq!(vm.voice(1).status, VoiceStatus::Playing);
    assert_eq!(vm.voice(1).get_note().velocity, 0.5);
}

#[test]
fn note_off_releases_every_voice_of_that_number() {
    let mut vm: VoiceManager<f32> = VoiceManager::new(4, false);
    assert_eq!(vm.insert_note(note(60, 1.0)), Some(1));
    assert_eq!(vm.remove_note(note(60, 0.0)), vec![1]);
    // the fresh voices hold note 64, whatever their status
    assert_eq!(vm.remove_note(note(64, 0.0)), vec![0, 2, 3]);
    assert_eq!(vm.remove_note(note(61, 0.0)), Vec::<usize>::new());
    // a note-off changes no status
    assert_eq!(vm.voice(1).status, VoiceStatus::Playing);
}

#[test]
fn idle_envelope_and_ended_player_silence_the_voice() {
    let mut vm: VoiceManager<f32> = VoiceManager::new(4, false);
    vm.insert_note(note(60, 1.0));
    vm.insert_note(note(61, 1.0));
    let idle = vm.conclude_voice_step(1, AdsrPhase::Idle, SamplePlayerStatus::PlayingNormal);
    assert!(idle.gate_off && !idle.reset);
    assert_eq!(vm.voice(1).status, VoiceStatus::Inactive);
    let ended = vm.conclude_voice_step(2, AdsrPhase::Attack, SamplePlayerStatus::PlayEnd);
    assert!(!ended.gate_off && ended.reset);
    assert_eq!(vm.voice(2).status, VoiceStatus::Inactive);
    assert!(vm.active_voices().is_empty());
}

#[test]
fn polyphony_is_clamped() {
    let mut vm: VoiceManager<f32> = VoiceManager::new(4, false);
    assert_eq!(vm.set_polyphony(0), vec![1, 2, 3]);
    assert_eq!(vm.polyphony(), 1);
    assert!(vm.set_polyphony(100).is_empty());
    assert_eq!(vm.polyphony(), 16);
    assert_eq!(vm.set_polyphony(-7), (1..16).collect::<Vec<usize>>());
    assert_eq!(vm.polyphony(), 1);
    assert!(vm.set_polyphony(1).is_empty());
}

#[test]
fn shrinking_polyphony_resets_voices_beyond_it() {
    let mut vm: VoiceManager<f32> = VoiceManager::new(4, false);
    vm.insert_note(note(60, 1.0));
    vm.insert_note(note(61, 1.0));
    vm.insert_note(note(62, 1.0));
    assert_eq!(vm.last_voice_index(), 3);
    assert_eq!(vm.set_polyphony(2), vec![2, 3]);
    assert_eq!(vm.polyphony(), 2);
    assert_eq!(vm.last_voice_index(), 0);
    assert_eq!(vm.voice(1).status, VoiceStatus::Playing);
    assert_eq!(vm.voice(2).status, VoiceStatus::Inactive);
    assert_eq!(vm.voice(3).status, VoiceStatus::Inactive);
    assert_eq!(vm.voice(3).get_note().number, 62);
    // asking again changes nothing
    assert!(vm.set_polyphony(2).is_empty());
    // growing resets nothing and keeps the last voice
    assert!(vm.set_polyphony(5).is_empty());
    assert_eq!(vm.polyphony(), 5);
    // the next voice is taken even though it still plays
    assert_eq!(vm.insert_note(note(70, 1.0)), Some(1));
    assert_eq!(vm.voice(1).get_note().number, 70);
}

#[test]
fn init_from_default_gives_fresh_voices() {
    let mut vm: VoiceManager<f32> = VoiceManager::new(4, true);
    vm.insert_note(note(60, 1.0));
    vm.init_from_default();
    assert_eq!(vm.polyphony(), 4);
    assert_eq!(vm.last_voice_index(), 1);
    assert!(vm.active_voices().is_empty());
    assert_eq!(vm.voice(1).get_note().number, 64);
    assert_eq!(vm.insert_note(note(60, 1.0)), Some(2));
}

#[test]
fn voice_follows_its_envelope() {
    let mut voice: Voice<f32> = Voice::new();
    assert_eq!(voice.status, VoiceStatus::Inactive);
    voice.gate_on();
    assert_eq!(voice.status, VoiceStatus::Playing);
    voice.set_note(note(70, 0.5));
    assert_eq!(voice.get_note().number, 70);
    let a = voice.conclude_step(AdsrPhase::Decay, SamplePlayerStatus::PlayingLoop);
    assert!(!a.gate_off && !a.reset);
    assert_eq!(voice.status, VoiceStatus::Playing);
    voice.conclude_step(AdsrPhase::Release, SamplePlayerStatus::PlayingLoop);
    assert_eq!(voice.status, VoiceStatus::Releasing);
    let b = voice.conclude_step(AdsrPhase::Idle, SamplePlayerStatus::PlayEnd);
    assert!(b.gate_off && b.reset);
    assert_eq!(voice.status, VoiceStatus::Inactive);
    voice.gate_on();
    voice.reset();
    assert_eq!(voice.status, VoiceStatus::Inactive);
    assert_eq!(voice.get_note().number, 70);
}

#[test]
fn notes_compare_by_number() {
    assert!(note(60, 0.1).has_same_number(note(60, 0.9)));
    assert!(!note(60, 0.1).has_same_number(note(61, 0.1)));
}
