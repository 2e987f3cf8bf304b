use vstd::prelude::*;

verus! {

/// The channel that a request for channel `channel_number` selects among
/// `channel_count` channels: the request, kept within the last channel.
pub fn clamp_channel(channel_number: usize, channel_count: usize) -> (channel: usize)
    requires
        channel_count >= 1,
    ensures
        channel == if channel_number < channel_count {
            channel_number
        } else {
            (channel_count - 1) as usize
        },
{
    let last = channel_count - 1;
    if channel_number > last {
        last
    } else {
        channel_number
    }
}

/// The channel before `current_channel`, staying at channel 0, kept
/// within the last of `channel_count` channels.
pub open spec fn channel_before(current_channel: int, channel_count: int) -> int {
    if current_channel == 0 {
        0
    } else if current_channel - 1 < channel_count {
        current_channel - 1
    } else {
        channel_count - 1
    }
}

/// The channel after `current_channel`, stopping at the last of
/// `channel_count` channels.
pub open spec fn channel_after(current_channel: int, channel_count: int) -> int {
    if current_channel + 1 < channel_count {
        current_channel + 1
    } else {
        channel_count - 1
    }
}

/// The channel that the "-" key selects from `current_channel` among
/// `channel_count` channels.
pub fn previous_channel(current_channel: usize, channel_count: usize) -> (channel: usize)
    requires
        channel_count >= 1,
    ensures
        channel == channel_before(current_channel as int, channel_count as int),
{
    if current_channel == 0 {
        0
    } else {
        clamp_channel(current_channel - 1, channel_count)
    }
}

/// The channel that the "+" key selects from `current_channel` among
/// `channel_count` channels.
pub fn next_channel(current_channel: usize, channel_count: usize) -> (channel: usize)
    requires
        channel_count >= 1,
    ensures
        channel == channel_after(current_channel as int, channel_count as int),
{
    if current_channel >= channel_count - 1 {
        channel_count - 1
    } else {
        current_channel + 1
    }
}

/// Stepping through the channels never leaves them: from any of
/// `channel_count` channels the "+" and "-" keys select one of them; "-"
/// from the first and "+" from the last stay where they are; elsewhere
/// each moves by one, and "-" undoes "+".
pub proof fn lemma_channel_steps(current_channel: int, channel_count: int)
    requires
        0 <= current_channel < channel_count,
    ensures
        0 <= channel_before(current_channel, channel_count) < channel_count,
        0 <= channel_after(current_channel, channel_count) < channel_count,
        current_channel == 0 ==> channel_before(current_channel, channel_count) == 0,
        current_channel == channel_count - 1 ==> channel_after(current_channel, channel_count)
            == current_channel,
        current_channel > 0 ==> channel_before(current_channel, channel_count) == current_channel
            - 1,
        current_channel < channel_count - 1 ==> channel_after(current_channel, channel_count)
            == current_channel + 1,
        current_channel < channel_count - 1 ==> channel_before(
            channel_after(current_channel, channel_count),
            channel_count,
        ) == current_channel,
{
}

} // verus!
