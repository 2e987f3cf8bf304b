pub mod load_file;

use vstd::prelude::*;

verus! {

/// Work that the plugin hands to its background thread.
pub enum BackgroundTask {
    /// Ask the user for a file, then load it.
    LoadSampleWithDialog,
    /// Load the file whose path was stored with the plugin state.
    LoadSampleWithoutDialog,
}

/// The stored path that a load without dialog reads: a stored path that
/// is not empty; nothing is loaded otherwise.
pub open spec fn path_to_load(stored: Option<String>) -> Option<String> {
    match stored {
        Some(path) => if path@.len() > 0 {
            Some(path)
        } else {
            None
        },
        None => None,
    }
}

/// A load without dialog reads the stored path itself, and it reads one
/// exactly when a path is stored and it is not empty.
pub proof fn lemma_path_to_load(stored: Option<String>)
    ensures
        path_to_load(stored) matches Some(path) ==> stored == Some(path) && path@.len() > 0,
        (stored matches Some(path) && path@.len() > 0) ==> path_to_load(stored) == stored,
        stored is None ==> path_to_load(stored) is None,
{
}

/// The path that a load without dialog reads (see `path_to_load`).
pub fn stored_path_to_load(stored: Option<String>) -> (path: Option<String>)
    ensures
        path == path_to_load(stored),
{
    match stored {
        Some(path) => if path.as_str().is_empty() {
            None
        } else {
            Some(path)
        },
        None => None,
    }
}

/// What follows the loading of a file.
#[derive(Debug, Clone, Copy, PartialEq, Eq, Structural)]
pub enum LoadFollowUp {
    /// Play the loaded audio.
    InstallLoaded,
    /// Play the loaded audio and store the path of the picked file.
    InstallLoadedAndStorePath,
    /// Play the default audio and forget the stored path.
    InstallDefaultAndForgetPath,
    /// Keep the audio and the stored path as they are.
    KeepCurrent,
}

/// After a load for `task` that succeeded (`loaded`) or failed: a loaded
/// file is played, and a file picked in the dialog has its path stored; a
/// stored path that fails to load is forgotten and the default audio is
/// played; a picked file that fails to load changes nothing.
pub open spec fn follow_up_for(task: BackgroundTask, loaded: bool) -> LoadFollowUp {
    match task {
        BackgroundTask::LoadSampleWithoutDialog => if loaded {
            LoadFollowUp::InstallLoaded
        } else {
            LoadFollowUp::InstallDefaultAndForgetPath
        },
        BackgroundTask::LoadSampleWithDialog => if loaded {
            LoadFollowUp::InstallLoadedAndStorePath
        } else {
            LoadFollowUp::KeepCurrent
        },
    }
}

/// What follows a load for `task` (see `follow_up_for`).
pub fn load_follow_up(task: &BackgroundTask, loaded: bool) -> (follow_up: LoadFollowUp)
    ensures
        follow_up == follow_up_for(*task, loaded),
{
    match task {
        BackgroundTask::LoadSampleWithoutDialog => if loaded {
            LoadFollowUp::InstallLoaded
        } else {
            LoadFollowUp::InstallDefaultAndForgetPath
        },
        BackgroundTask::LoadSampleWithDialog => if loaded {
            LoadFollowUp::InstallLoadedAndStorePath
        } else {
            LoadFollowUp::KeepCurrent
        },
    }
}

/// A path is stored only after a file picked in the dialog loaded; a
/// failed load never installs the loaded audio; a stored path is forgotten
/// only after it failed to load; every successful load installs the loaded
/// audio, and one from the dialog stores its path; a failed load from the
/// dialog changes nothing and a failed load of the stored path falls back
/// to the default audio.
pub proof fn lemma_follow_up(task: BackgroundTask, loaded: bool)
    ensures
        loaded && task is LoadSampleWithDialog ==> follow_up_for(task, loaded)
            == LoadFollowUp::InstallLoadedAndStorePath,
        loaded && task is LoadSampleWithoutDialog ==> follow_up_for(task, loaded)
            == LoadFollowUp::InstallLoaded,
        !loaded && task is LoadSampleWithDialog ==> follow_up_for(task, loaded)
            == LoadFollowUp::KeepCurrent,
        !loaded && task is LoadSampleWithoutDialog ==> follow_up_for(task, loaded)
            == LoadFollowUp::InstallDefaultAndForgetPath,
        follow_up_for(task, loaded) == LoadFollowUp::InstallLoadedAndStorePath ==> loaded
            && task is LoadSampleWithDialog,
        !loaded ==> follow_up_for(task, loaded) != LoadFollowUp::InstallLoaded
            && follow_up_for(task, loaded) != LoadFollowUp::InstallLoadedAndStorePath,
        follow_up_for(task, loaded) == LoadFollowUp::InstallDefaultAndForgetPath ==> !loaded
            && task is LoadSampleWithoutDialog,
{
}

} // verus!
