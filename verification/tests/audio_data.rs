use micro_sampler::background_task::load_file::deinterleave_into;
use micro_sampler::background_task::{load_follow_up, stored_path_to_load, BackgroundTask, LoadFollowUp};
use micro_sampler::sampler::decoded_audio::clamp_channel;

#[test]
fn stereo_block_is_split_by_channel() {
    let mut channels: Vec<Vec<f32>> = vec![Vec::new(); 2];
    deinterleave_into(&mut channels, &[0.1, -0.1, 0.2, -0.2, 0.3, -0.3]);
    assert_eq!(channels, vec![vec![0.1, 0.2, 0.3], vec![-0.1, -0.2, -0.3]]);
    // a second block is appended behind the first
    deinterleave_into(&mut channels, &[0.4, -0.4]);
    assert_eq!(channels, vec![vec![0.1, 0.2, 0.3, 0.4], vec![-0.1, -0.2, -0.3, -0.4]]);
}

#[test]
fn partial_frame_goes_to_the_first_channels() {
    let mut channels: Vec<Vec<i32>> = vec![vec![9], Vec::new(), Vec::new()];
    deinterleave_into(&mut channels, &[1, 2, 3, 4, 5]);
    assert_eq!(channels, vec![vec![9, 1, 4], vec![2, 5], vec![3]]);
}

#[test]
fn sample_lands_at_its_frame_index() {
    let samples: Vec<u32> = (0..24).collect();
    let mut channels: Vec<Vec<u32>> = vec![Vec::new(); 4];
    deinterleave_into(&mut channels, &samples);
    for j in 0..24usize {
        assert_eq!(channels[j % 4][j / 4], samples[j]);
    }
    for c in 0..4 {
        assert_eq!(channels[c].len(), 6);
    }
}

#[test]
fn no_channels_take_an_empty_block() {
    let mut channels: Vec<Vec<f32>> = Vec::new();
    deinterleave_into(&mut channels, &[]);
    assert!(channels.is_empty());
}

#[test]
fn channel_request_is_kept_within_the_channels() {
    assert_eq!(clamp_channel(0, 2), 0);
    assert_eq!(clamp_channel(1, 2), 1);
    assert_eq!(clamp_channel(5, 2), 1);
    assert_eq!(clamp_channel(usize::MAX, 1), 0);
}

#[test]
fn background_tasks_are_distinct() {
    let tasks = [BackgroundTask::LoadSampleWithDialog, BackgroundTask::LoadSampleWithoutDialog];
    assert!(matches!(tasks[0], BackgroundTask::LoadSampleWithDialog));
    assert!(matches!(tasks[1], BackgroundTask::LoadSampleWithoutDialog));
}

#[test]
fn only_a_non_empty_stored_path_is_loaded() {
    assert_eq!(stored_path_to_load(None), None);
    assert_eq!(stored_path_to_load(Some(String::new())), None);
    assert_eq!(stored_path_to_load(Some("a.wav".to_string())), Some("a.wav".to_string()));
}

#[test]
fn load_follow_ups() {
    let stored = BackgroundTask::LoadSampleWithoutDialog;
    let picked = BackgroundTask::LoadSampleWithDialog;
    assert_eq!(load_follow_up(&stored, true), LoadFollowUp::InstallLoaded);
    assert_eq!(load_follow_up(&stored, false), LoadFollowUp::InstallDefaultAndForgetPath);
    assert_eq!(load_follow_up(&picked, true), LoadFollowUp::InstallLoadedAndStorePath);
    assert_eq!(load_follow_up(&picked, false), LoadFollowUp::KeepCurrent);
}
