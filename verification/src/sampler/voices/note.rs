use vstd::prelude::*;

verus! {

/// A MIDI note: its number and the velocity it was struck with.
///
/// The velocity is carried along unread by the voice logic; the plugin
/// stores a floating-point velocity in it.
#[derive(Debug, Clone, Copy, Default)]
pub struct Note<V> {
    pub number: u8,
    pub velocity: V,
}

impl<V> Note<V> {
    /// Two notes are the same key when their numbers agree, whatever
    /// their velocities.
    pub fn has_same_number(self, other: Self) -> (same: bool)
        ensures
            same == (self.number == other.number),
    {
        self.number == other.number
    }
}

/// The kind of a MIDI event that reaches the sampler.
#[derive(Debug, Clone, Copy, PartialEq, Eq, Structural)]
pub enum NoteEventKind {
    NoteOn,
    NoteOff,
    /// Any other event.
    Other,
}

/// What the voice allocator does with a MIDI event.
#[derive(Debug, Clone, Copy, PartialEq, Eq, Structural)]
pub enum NoteAction {
    /// Put the note into play.
    Insert,
    /// Take the note out of play.
    Remove,
    /// Nothing.
    Ignore,
}

/// A note-on with a velocity above zero puts the note into play; a note-on
/// without velocity and a note-off take it out of play; other events are
/// ignored.
pub open spec fn action_for_event(kind: NoteEventKind, velocity_above_zero: bool) -> NoteAction {
    match kind {
        NoteEventKind::NoteOn => if velocity_above_zero {
            NoteAction::Insert
        } else {
            NoteAction::Remove
        },
        NoteEventKind::NoteOff => NoteAction::Remove,
        NoteEventKind::Other => NoteAction::Ignore,
    }
}

/// Only note events act on the allocation, and only a note-on's velocity
/// counts: any other event is ignored whatever its velocity, a note-off
/// always takes its note out of play, and a note-on puts its note into play
/// exactly when its velocity is above zero, taking it out of play otherwise.
pub proof fn lemma_event_actions(velocity_above_zero: bool)
    ensures
        action_for_event(NoteEventKind::Other, velocity_above_zero) == NoteAction::Ignore,
        action_for_event(NoteEventKind::NoteOff, velocity_above_zero) == NoteAction::Remove,
        action_for_event(NoteEventKind::NoteOn, velocity_above_zero) == NoteAction::Insert
            <==> velocity_above_zero,
        action_for_event(NoteEventKind::NoteOn, velocity_above_zero) != NoteAction::Ignore,
        action_for_event(NoteEventKind::NoteOff, velocity_above_zero) != NoteAction::Insert,
{
}

/// What the allocator does with an event of kind `kind` (see
/// `action_for_event`); whether the velocity is above zero comes in as
/// `velocity_above_zero`.
pub fn note_event_action(kind: NoteEventKind, velocity_above_zero: bool) -> (action: NoteAction)
    ensures
        action == action_for_event(kind, velocity_above_zero),
{
    match kind {
        NoteEventKind::NoteOn => if velocity_above_zero {
            NoteAction::Insert
        } else {
            NoteAction::Remove
        },
        NoteEventKind::NoteOff => NoteAction::Remove,
        NoteEventKind::Other => NoteAction::Ignore,
    }
}

/// An event stamped `timing` samples into the buffer is due at sample
/// `sample_index` (taken as a `u32`, as event times are) once its time has
/// come.
pub fn event_is_due(timing: u32, sample_index: usize) -> (due: bool)
    ensures
        due == (timing <= sample_index as u32),
{
    timing <= sample_index as u32
}

} // verus!
