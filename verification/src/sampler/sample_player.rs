use vstd::prelude::*;

verus! {

/// Where a sample player stands in its sample.
#[derive(Debug, Clone, Copy, Default, PartialEq, Eq, Structural)]
pub enum SamplePlayerStatus {
    /// Playing from the start mark towards the end mark.
    #[default]
    PlayingNormal,
    /// Cycling between the loop marks.
    PlayingLoop,
    /// The end mark was reached.
    PlayEnd,
}

/// The status a player moves to in one step from `status`: playing
/// normally, it enters the loop when the loop is enabled and the position
/// reached the loop start (`reached_loop_start`), and it ends when the
/// position reached the end mark (`reached_end`), which wins over the
/// loop; looping and ended players keep their status.
pub open spec fn status_after_step(
    status: SamplePlayerStatus,
    loop_enabled: bool,
    reached_loop_start: bool,
    reached_end: bool,
) -> SamplePlayerStatus {
    match status {
        SamplePlayerStatus::PlayingNormal => if reached_end {
            SamplePlayerStatus::PlayEnd
        } else if reached_loop_start && loop_enabled {
            SamplePlayerStatus::PlayingLoop
        } else {
            SamplePlayerStatus::PlayingNormal
        },
        _ => status,
    }
}

/// The status a player moves to in one step (see `status_after_step`); the
/// position comparisons of the step come in as `reached_loop_start` and
/// `reached_end`.
pub fn next_status(
    status: SamplePlayerStatus,
    loop_enabled: bool,
    reached_loop_start: bool,
    reached_end: bool,
) -> (next: SamplePlayerStatus)
    ensures
        next == status_after_step(status, loop_enabled, reached_loop_start, reached_end),
{
    match status {
        SamplePlayerStatus::PlayingNormal => {
            let mut next = SamplePlayerStatus::PlayingNormal;
            if reached_loop_start && loop_enabled {
                next = SamplePlayerStatus::PlayingLoop;
            }
            if reached_end {
                next = SamplePlayerStatus::PlayEnd;
            }
            next
        },
        _ => status,
    }
}

/// From normal play a step ends the player whenever the position reached
/// the end mark, whether or not the loop is enabled; short of the end it
/// enters the loop exactly when the loop is enabled and its start was
/// reached, and plays on normally otherwise.
pub proof fn lemma_normal_play_step(loop_enabled: bool, reached_loop_start: bool, reached_end: bool)
    ensures
        reached_end ==> status_after_step(
            SamplePlayerStatus::PlayingNormal,
            loop_enabled,
            reached_loop_start,
            reached_end,
        ) == SamplePlayerStatus::PlayEnd,
        !reached_end ==> (status_after_step(
            SamplePlayerStatus::PlayingNormal,
            loop_enabled,
            reached_loop_start,
            reached_end,
        ) == SamplePlayerStatus::PlayingLoop <==> loop_enabled && reached_loop_start),
        !reached_end ==> status_after_step(
            SamplePlayerStatus::PlayingNormal,
            loop_enabled,
            reached_loop_start,
            reached_end,
        ) != SamplePlayerStatus::PlayEnd,
{
}

/// A player's status changes only forwards and only as its marks allow:
/// an ended player stays ended and a looping player keeps looping (only a
/// reset brings a player back to normal play); the loop is entered only
/// when it is enabled and its start was reached; and the end is reached
/// only from normal play.
pub proof fn lemma_status_steps(
    status: SamplePlayerStatus,
    loop_enabled: bool,
    reached_loop_start: bool,
    reached_end: bool,
)
    ensures
        ({
            let next = status_after_step(status, loop_enabled, reached_loop_start, reached_end);
            &&& status == SamplePlayerStatus::PlayEnd ==> next == SamplePlayerStatus::PlayEnd
            &&& status == SamplePlayerStatus::PlayingLoop ==> next
                == SamplePlayerStatus::PlayingLoop
            &&& next == SamplePlayerStatus::PlayingNormal ==> status
                == SamplePlayerStatus::PlayingNormal
            &&& (next == SamplePlayerStatus::PlayingLoop && status
                != SamplePlayerStatus::PlayingLoop) ==> loop_enabled && reached_loop_start
            &&& (next == SamplePlayerStatus::PlayEnd && status != SamplePlayerStatus::PlayEnd)
                ==> reached_end
            &&& !loop_enabled && status == SamplePlayerStatus::PlayingNormal ==> next
                != SamplePlayerStatus::PlayingLoop
        }),
{
}

} // verus!
