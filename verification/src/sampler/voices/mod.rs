pub mod note;
pub mod voice;

use vstd::prelude::*;

use vstd::seq_lib::lemma_seq_contains_after_push;

use crate::sampler::adsr::AdsrPhase;
use crate::sampler::params::MAX_POLYPHONY;
use crate::sampler::sample_player::SamplePlayerStatus;
use crate::sampler::voices::note::Note;
use crate::sampler::voices::voice::{status_for_phase, Voice, VoiceStatus, VoiceStepActions};

verus! {

/// A voice sounds `number` when it is active and holds a note of that number.
pub open spec fn is_sounding<V>(voice: Voice<V>, number: u8) -> bool {
    voice.status != VoiceStatus::Inactive && voice.note.number == number
}

/// The first index in `from..end` whose voice sounds `number`.
pub open spec fn first_sounding<V>(voices: Seq<Voice<V>>, number: u8, from: int, end: int) -> Option<
    usize,
>
    decreases end - from,
{
    if from >= end {
        None
    } else if is_sounding(voices[from], number) {
        Some(from as usize)
    } else {
        first_sounding(voices, number, from + 1, end)
    }
}

/// `first_sounding` finds the first voice in the range that sounds the
/// number, or tells that none does.
pub proof fn lemma_first_sounding<V>(voices: Seq<Voice<V>>, number: u8, from: int, end: int)
    requires
        0 <= from,
        end <= voices.len(),
        end <= usize::MAX,
    ensures
        match first_sounding(voices, number, from, end) {
            Some(k) => {
                &&& from <= k < end
                &&& is_sounding(voices[k as int], number)
                &&& forall|j: int| from <= j < k ==> !is_sounding(#[trigger] voices[j], number)
            },
            None => forall|j: int| from <= j < end ==> !is_sounding(#[trigger] voices[j], number),
        },
    decreases end - from,
{
    if from < end && !is_sounding(voices[from], number) {
        lemma_first_sounding(voices, number, from + 1, end);
    }
}

/// The indices below `end` whose voices hold a note of `number`, in
/// increasing order.
pub open spec fn indices_with_number<V>(voices: Seq<Voice<V>>, number: u8, end: int) -> Seq<usize>
    decreases end,
{
    if end <= 0 {
        Seq::empty()
    } else {
        let before = indices_with_number(voices, number, end - 1);
        if voices[end - 1].note.number == number {
            before.push((end - 1) as usize)
        } else {
            before
        }
    }
}

/// The indices below `end` whose voices are not inactive, in increasing
/// order.
pub open spec fn active_indices<V>(voices: Seq<Voice<V>>, end: int) -> Seq<usize>
    decreases end,
{
    if end <= 0 {
        Seq::empty()
    } else {
        let before = active_indices(voices, end - 1);
        if voices[end - 1].status != VoiceStatus::Inactive {
            before.push((end - 1) as usize)
        } else {
            before
        }
    }
}

/// The polyphony that a requested value gives: it is kept within
/// `1..=MAX_POLYPHONY`.
pub open spec fn clamped_polyphony(polyphony: i32) -> usize {
    if polyphony < 1 {
        1
    } else if polyphony > MAX_POLYPHONY {
        MAX_POLYPHONY as usize
    } else {
        polyphony as usize
    }
}

/// The indices `from..to`, in increasing order.
pub open spec fn index_range(from: usize, to: usize) -> Seq<usize> {
    Seq::new((to - from) as nat, |k: int| (from + k) as usize)
}

/// The abstract state of a voice manager.
pub struct VoiceManagerView<V> {
    /// How many voices, counted from the first, may sound.
    pub polyphony: usize,
    /// The voice that was taken last for a new note.
    pub last_voice_index: usize,
    /// Whether a note struck again while it still plays restarts its voice.
    pub retrigger: bool,
    pub voices: Seq<Voice<V>>,
}

impl<V> VoiceManagerView<V> {
    /// There are `MAX_POLYPHONY` voices; the polyphony lies in
    /// `1..=MAX_POLYPHONY`; the last voice taken lies within it; the voices
    /// beyond it are inactive; and no two voices sound the same note number.
    pub open spec fn wf(self) -> bool {
        &&& self.voices.len() == MAX_POLYPHONY
        &&& 1 <= self.polyphony <= MAX_POLYPHONY
        &&& self.last_voice_index < self.polyphony
        &&& forall|i: int|
            self.polyphony <= i < self.voices.len() ==> #[trigger] self.voices[i].status
                == VoiceStatus::Inactive
        &&& forall|i: int, j: int|
            0 <= i < self.voices.len() && 0 <= j < self.voices.len() && i != j
                && #[trigger] is_sounding(self.voices[i], self.voices[j].note.number)
                ==> #[trigger] self.voices[j].status == VoiceStatus::Inactive
    }

    /// The first voice within the polyphony that sounds `number`.
    pub open spec fn sounding_voice(self, number: u8) -> Option<usize> {
        first_sounding(self.voices, number, 0, self.polyphony as int)
    }

    /// The state in which voice `index` plays `note`.
    pub open spec fn start_voice(self, index: usize, note: Note<V>) -> Self {
        VoiceManagerView {
            voices: self.voices.update(index as int, Voice { status: VoiceStatus::Playing, note }),
            ..self
        }
    }

    /// A note-on: a voice within the polyphony that already sounds the
    /// note's number is restarted with the note, unless it is playing and
    /// retriggering is off, in which case nothing changes; when no voice
    /// sounds it, the voice after the last one taken, counted round the
    /// polyphony, is taken for it. The second component is the voice that
    /// was (re)started.
    pub open spec fn note_on(self, note: Note<V>) -> (Self, Option<usize>) {
        match self.sounding_voice(note.number) {
            Some(k) => {
                if self.voices[k as int].status == VoiceStatus::Playing && !self.retrigger {
                    (self, None)
                } else {
                    (self.start_voice(k, note), Some(k))
                }
            },
            None => {
                let j = ((self.last_voice_index + 1) % (self.polyphony as int)) as usize;
                (VoiceManagerView { last_voice_index: j, ..self.start_voice(j, note) }, Some(j))
            },
        }
    }

    /// The voices that a note-off of `number` releases: those within the
    /// polyphony that hold a note of that number, whatever their status.
    pub open spec fn note_off(self, number: u8) -> Seq<usize> {
        indices_with_number(self.voices, number, self.polyphony as int)
    }

    /// The voices that are processed in an audio step: those within the
    /// polyphony that are not inactive.
    pub open spec fn active_voices(self) -> Seq<usize> {
        active_indices(self.voices, self.polyphony as int)
    }

    /// A change of polyphony to the clamped value `n` of `polyphony`: when
    /// it shrinks, the voices from `n` up to the former polyphony are reset,
    /// and a last voice index outside the new polyphony goes back to 0. The
    /// second component lists the voices that were reset.
    pub open spec fn with_polyphony(self, polyphony: i32) -> (Self, Seq<usize>) {
        let n = clamped_polyphony(polyphony);
        if n == self.polyphony {
            (self, Seq::empty())
        } else {
            let shrinks = self.polyphony > n;
            let voices = Seq::new(
                self.voices.len(),
                |i: int|
                    if shrinks && n <= i < self.polyphony {
                        Voice { status: VoiceStatus::Inactive, note: self.voices[i].note }
                    } else {
                        self.voices[i]
                    },
            );
            let reset = if shrinks {
                index_range(n, self.polyphony)
            } else {
                Seq::empty()
            };
            let last = if self.last_voice_index >= n {
                0
            } else {
                self.last_voice_index
            };
            (
                VoiceManagerView {
                    polyphony: n,
                    last_voice_index: last,
                    retrigger: self.retrigger,
                    voices,
                },
                reset,
            )
        }
    }

    /// The end of an audio step of voice `index`, as
    /// `Voice::conclude_step` describes it.
    pub open spec fn step_concluded(
        self,
        index: usize,
        phase: AdsrPhase,
        player: SamplePlayerStatus,
    ) -> Self {
        let status = if player == SamplePlayerStatus::PlayEnd {
            VoiceStatus::Inactive
        } else {
            status_for_phase(phase)
        };
        VoiceManagerView {
            voices: self.voices.update(
                index as int,
                Voice { status, note: self.voices[index as int].note },
            ),
            ..self
        }
    }
}

/// `indices_with_number` lists exactly the indices below `end` whose voices
/// hold a note of `number`.
pub proof fn lemma_indices_with_number<V>(voices: Seq<Voice<V>>, number: u8, end: int, i: int)
    requires
        0 <= i < end <= voices.len(),
        end <= usize::MAX,
    ensures
        indices_with_number(voices, number, end).contains(i as usize) <==> voices[i].note.number
            == number,
    decreases end,
{
    let before = indices_with_number(voices, number, end - 1);
    lemma_indices_below(voices, number, end - 1);
    lemma_seq_contains_after_push(before, (end - 1) as usize, i as usize);
    if i < end - 1 {
        lemma_indices_with_number(voices, number, end - 1, i);
    } else if before.contains(i as usize) {
        let k = choose|k: int| 0 <= k < before.len() && before[k] == i as usize;
        assert(before[k] < end - 1);
    }
}

/// Every index that `indices_with_number` lists lies below `end`.
pub proof fn lemma_indices_below<V>(voices: Seq<Voice<V>>, number: u8, end: int)
    requires
        0 <= end <= usize::MAX,
    ensures
        forall|k: int|
            0 <= k < indices_with_number(voices, number, end).len() ==> #[trigger] indices_with_number(
                voices,
                number,
                end,
            )[k] < end,
    decreases end,
{
    if end > 0 {
        lemma_indices_below(voices, number, end - 1);
        let before = indices_with_number(voices, number, end - 1);
        assert forall|k: int|
            0 <= k < indices_with_number(voices, number, end).len() implies #[trigger] indices_with_number(
            voices,
            number,
            end,
        )[k] < end by {
            if k < before.len() {
                assert(indices_with_number(voices, number, end)[k] == before[k]);
            }
        }
    }
}

/// A note-on leaves the manager well formed, and afterwards some voice
/// within the polyphony plays a note of the struck number.
pub proof fn lemma_note_on_sounds<V>(manager: VoiceManagerView<V>, note: Note<V>)
    requires
        manager.wf(),
    ensures
        manager.note_on(note).0.wf(),
        exists|i: int|
            0 <= i < manager.note_on(note).0.polyphony && #[trigger] manager.note_on(
                note,
            ).0.voices[i].status == VoiceStatus::Playing && manager.note_on(note).0.voices[i].note.number
                == note.number,
        manager.note_on(note).1 matches Some(i) ==> i < manager.polyphony,
{
    lemma_first_sounding(manager.voices, note.number, 0, manager.polyphony as int);
    let after = manager.note_on(note).0;
    match manager.sounding_voice(note.number) {
        Some(k) => {
            assert(after.voices[k as int].status == VoiceStatus::Playing);
        },
        None => {
            let j = ((manager.last_voice_index + 1) % (manager.polyphony as int)) as usize;
            assert(after.voices[j as int].status == VoiceStatus::Playing);
        },
    }
}

/// A note-on changes no voice but the one it returns.
pub proof fn lemma_note_on_touches_one_voice<V>(
    manager: VoiceManagerView<V>,
    note: Note<V>,
    i: int,
)
    requires
        manager.wf(),
        0 <= i < manager.voices.len(),
        manager.note_on(note).1 != Some(i as usize),
    ensures
        manager.note_on(note).0.voices[i] == manager.voices[i],
{
    lemma_first_sounding(manager.voices, note.number, 0, manager.polyphony as int);
}

/// Round robin: a note that no active voice within the polyphony holds
/// takes the voice after the last one taken, counted round the polyphony,
/// whatever that voice was doing; that voice plays the note and becomes the
/// last one taken, and nothing else changes.
pub proof fn lemma_new_note_takes_next_voice<V>(manager: VoiceManagerView<V>, note: Note<V>)
    requires
        manager.wf(),
        forall|i: int|
            0 <= i < manager.polyphony ==> #[trigger] manager.voices[i].status
                == VoiceStatus::Inactive || manager.voices[i].note.number != note.number,
    ensures
        ({
            let j = (manager.last_voice_index + 1) % (manager.polyphony as int);
            let (after, started) = manager.note_on(note);
            &&& started == Some(j as usize)
            &&& after.last_voice_index == j
            &&& after.voices[j] == (Voice { status: VoiceStatus::Playing, note })
            &&& after.voices.len() == manager.voices.len()
            &&& forall|i: int|
                0 <= i < manager.voices.len() && i != j ==> #[trigger] after.voices[i]
                    == manager.voices[i]
            &&& after.polyphony == manager.polyphony
            &&& after.retrigger == manager.retrigger
        }),
{
    lemma_first_sounding(manager.voices, note.number, 0, manager.polyphony as int);
    let f = manager.sounding_voice(note.number);
    if f is Some {
        let k = f->0 as int;
        assert(manager.voices[k].status == VoiceStatus::Inactive || manager.voices[k].note.number
            != note.number);
    }
}

/// Restarting leaves the round robin alone: when an active voice within the
/// polyphony holds the note's number, a note-on keeps the last voice taken.
/// That voice, and no other, is restarted with the note when it is
/// releasing or retriggering is on; when it is playing and retriggering is
/// off, nothing changes at all.
pub proof fn lemma_restart_keeps_last_voice<V>(manager: VoiceManagerView<V>, note: Note<V>, i: int)
    requires
        manager.wf(),
        0 <= i < manager.polyphony,
        manager.voices[i].status != VoiceStatus::Inactive,
        manager.voices[i].note.number == note.number,
    ensures
        ({
            let (after, started) = manager.note_on(note);
            &&& after.last_voice_index == manager.last_voice_index
            &&& after.polyphony == manager.polyphony
            &&& after.retrigger == manager.retrigger
            &&& (manager.voices[i].status == VoiceStatus::Releasing || manager.retrigger) ==> {
                &&& started == Some(i as usize)
                &&& after.voices[i] == (Voice { status: VoiceStatus::Playing, note })
                &&& after.voices.len() == manager.voices.len()
                &&& forall|j: int|
                    0 <= j < manager.voices.len() && j != i ==> #[trigger] after.voices[j]
                        == manager.voices[j]
            }
            &&& (manager.voices[i].status == VoiceStatus::Playing && !manager.retrigger) ==> {
                &&& started is None
                &&& after == manager
            }
        }),
{
    lemma_first_sounding(manager.voices, note.number, 0, manager.polyphony as int);
    let f = manager.sounding_voice(note.number);
    assert(is_sounding(manager.voices[i], note.number));
    assert(f is Some);
    let k = f->0 as int;
    if k != i {
        assert(is_sounding(manager.voices[k], manager.voices[i].note.number));
    }
    assert(k == i);
}

/// Retriggering: a note struck again while a voice within the polyphony
/// plays it is left alone when retriggering is off, and restarts that same
/// voice with the new note when it is on.
pub proof fn lemma_retrigger<V>(manager: VoiceManagerView<V>, note: Note<V>, k: int)
    requires
        manager.wf(),
        0 <= k < manager.polyphony,
        manager.voices[k].status == VoiceStatus::Playing,
        manager.voices[k].note.number == note.number,
    ensures
        !manager.retrigger ==> manager.note_on(note) == (manager, None::<usize>),
        manager.retrigger ==> manager.note_on(note).1 is Some && manager.note_on(note).0.voices[
            manager.note_on(note).1->0 as int] == (Voice { status: VoiceStatus::Playing, note }),
{
    lemma_first_sounding(manager.voices, note.number, 0, manager.polyphony as int);
    let f = manager.sounding_voice(note.number);
    assert(f is Some);
    let j = f->0;
    assert(manager.voices[j as int].status == VoiceStatus::Playing) by {
        if j < k {
        } else if j > k {
            assert(!is_sounding(manager.voices[k], note.number));
        }
    }
}

/// A note-off of the number that a note-on struck releases the voice that
/// the note-on started.
pub proof fn lemma_note_off_releases_started_voice<V>(manager: VoiceManagerView<V>, note: Note<V>)
    requires
        manager.wf(),
    ensures
        manager.note_on(note).1 matches Some(i) ==> manager.note_on(note).0.note_off(
            note.number,
        ).contains(i),
{
    lemma_note_on_sounds(manager, note);
    let (after, started) = manager.note_on(note);
    if let Some(i) = started {
        lemma_indices_with_number(after.voices, note.number, after.polyphony as int, i as int);
    }
}

/// The voices that a note-off releases all lie within the polyphony and
/// hold a note of its number.
pub proof fn lemma_note_off_selects<V>(manager: VoiceManagerView<V>, number: u8, k: int)
    requires
        manager.wf(),
        0 <= k < manager.note_off(number).len(),
    ensures
        manager.note_off(number)[k] < manager.polyphony,
        manager.voices[manager.note_off(number)[k] as int].note.number == number,
{
    lemma_indices_below(manager.voices, number, manager.polyphony as int);
    let i = manager.note_off(number)[k];
    assert(manager.note_off(number).contains(i));
    lemma_indices_with_number(manager.voices, number, manager.polyphony as int, i as int);
}

/// A change of polyphony keeps the manager well formed, sets the polyphony
/// to the requested value kept within `1..=MAX_POLYPHONY`, starts no voice,
/// and gives the same state when it is asked for twice.
pub proof fn lemma_with_polyphony<V>(manager: VoiceManagerView<V>, polyphony: i32)
    requires
        manager.wf(),
    ensures
        manager.with_polyphony(polyphony).0.wf(),
        manager.with_polyphony(polyphony).0.polyphony == clamped_polyphony(polyphony),
        forall|i: int|
            0 <= i < manager.voices.len() ==> {
                let after = #[trigger] manager.with_polyphony(polyphony).0.voices[i];
                after == manager.voices[i] || (after.status == VoiceStatus::Inactive
                    && after.note == manager.voices[i].note)
            },
        manager.with_polyphony(polyphony).0.with_polyphony(polyphony) == (
            manager.with_polyphony(polyphony).0,
            Seq::<usize>::empty(),
        ),
{
}

/// `active_indices` lists exactly the indices below `end` whose voices are
/// not inactive, and nothing at or above `end`.
pub proof fn lemma_active_indices<V>(voices: Seq<Voice<V>>, end: int)
    requires
        0 <= end <= voices.len(),
        end <= usize::MAX,
    ensures
        forall|k: int|
            0 <= k < active_indices(voices, end).len() ==> #[trigger] active_indices(voices, end)[k]
                < end,
        forall|i: int|
            0 <= i < end ==> (active_indices(voices, end).contains(i as usize) <==> #[trigger] voices[i].status
                != VoiceStatus::Inactive),
    decreases end,
{
    if end > 0 {
        lemma_active_indices(voices, end - 1);
        let before = active_indices(voices, end - 1);
        assert forall|k: int|
            0 <= k < active_indices(voices, end).len() implies #[trigger] active_indices(voices, end)[k]
            < end by {
            if k < before.len() {
                assert(active_indices(voices, end)[k] == before[k]);
            }
        }
        assert forall|i: int| 0 <= i < end implies (active_indices(voices, end).contains(i as usize)
            <==> #[trigger] voices[i].status != VoiceStatus::Inactive) by {
            lemma_seq_contains_after_push(before, (end - 1) as usize, i as usize);
            if i == end - 1 && before.contains(i as usize) {
                let k = choose|k: int| 0 <= k < before.len() && before[k] == i as usize;
                assert(before[k] < end - 1);
            }
        }
    }
}

/// An audio step processes exactly the voices within the polyphony that are
/// not inactive, playing or releasing alike, and no voice beyond it.
pub proof fn lemma_active_voices<V>(manager: VoiceManagerView<V>)
    requires
        manager.wf(),
    ensures
        forall|k: int|
            0 <= k < manager.active_voices().len() ==> #[trigger] manager.active_voices()[k]
                < manager.polyphony,
        forall|i: int|
            0 <= i < manager.polyphony ==> (manager.active_voices().contains(i as usize) <==> #[trigger] manager.voices[i].status
                != VoiceStatus::Inactive),
        forall|i: int|
            0 <= i < manager.polyphony && #[trigger] manager.voices[i].status
                == VoiceStatus::Releasing ==> manager.active_voices().contains(i as usize),
{
    lemma_active_indices(manager.voices, manager.polyphony as int);
}

/// A note-off releases exactly the voices within the polyphony that hold a
/// note of its number, whatever their status.
pub proof fn lemma_note_off_members<V>(manager: VoiceManagerView<V>, number: u8)
    requires
        manager.wf(),
    ensures
        forall|i: int|
            0 <= i < manager.polyphony ==> (manager.note_off(number).contains(i as usize) <==> #[trigger] manager.voices[i].note.number
                == number),
{
    assert forall|i: int| 0 <= i < manager.polyphony implies (manager.note_off(number).contains(
        i as usize,
    ) <==> #[trigger] manager.voices[i].note.number == number) by {
        lemma_indices_with_number(manager.voices, number, manager.polyphony as int, i);
    }
}

/// Closing the step of a voice changes that voice's status alone: its note,
/// the other voices, the polyphony, the last voice taken and the retrigger
/// setting stay; an ended player makes it inactive, and otherwise it takes
/// the status of its envelope's stage.
pub proof fn lemma_step_concluded<V>(
    manager: VoiceManagerView<V>,
    index: usize,
    phase: AdsrPhase,
    player: SamplePlayerStatus,
)
    requires
        manager.wf(),
        index < manager.polyphony,
    ensures
        ({
            let after = manager.step_concluded(index, phase, player);
            &&& after.polyphony == manager.polyphony
            &&& after.last_voice_index == manager.last_voice_index
            &&& after.retrigger == manager.retrigger
            &&& after.voices.len() == manager.voices.len()
            &&& after.voices[index as int].note == manager.voices[index as int].note
            &&& player == SamplePlayerStatus::PlayEnd ==> after.voices[index as int].status
                == VoiceStatus::Inactive
            &&& (phase == AdsrPhase::Attack || phase == AdsrPhase::Decay || phase
                == AdsrPhase::Sustain) && player != SamplePlayerStatus::PlayEnd
                ==> after.voices[index as int].status == VoiceStatus::Playing
            &&& phase == AdsrPhase::Release && player != SamplePlayerStatus::PlayEnd
                ==> after.voices[index as int].status == VoiceStatus::Releasing
            &&& phase == AdsrPhase::Idle ==> after.voices[index as int].status
                == VoiceStatus::Inactive
            &&& forall|j: int|
                0 <= j < manager.voices.len() && j != index ==> #[trigger] after.voices[j]
                    == manager.voices[j]
        }),
{
}

/// A change of polyphony to `n`, the request kept within
/// `1..=MAX_POLYPHONY`: the voices below both the old and the new polyphony
/// and those at or above the old one are left as they were; when it
/// shrinks, the voices from `n` up to the old polyphony are made inactive,
/// keeping their notes, and exactly those are listed as reset; when it does
/// not shrink, none is reset. The last voice taken stays when it lies below
/// `n` and goes back to 0 otherwise; the retrigger setting stays.
pub proof fn lemma_polyphony_change<V>(manager: VoiceManagerView<V>, polyphony: i32)
    requires
        manager.wf(),
    ensures
        ({
            let n = clamped_polyphony(polyphony);
            let (after, reset) = manager.with_polyphony(polyphony);
            &&& 1 <= n <= MAX_POLYPHONY
            &&& (polyphony >= 1 && polyphony <= MAX_POLYPHONY) ==> n == polyphony
            &&& polyphony < 1 ==> n == 1
            &&& polyphony > MAX_POLYPHONY ==> n == MAX_POLYPHONY
            &&& after.polyphony == n
            &&& after.retrigger == manager.retrigger
            &&& after.voices.len() == manager.voices.len()
            &&& manager.last_voice_index < n ==> after.last_voice_index
                == manager.last_voice_index
            &&& manager.last_voice_index >= n ==> after.last_voice_index == 0
            &&& forall|i: int|
                0 <= i < manager.voices.len() && (i < n || i >= manager.polyphony)
                    ==> #[trigger] after.voices[i] == manager.voices[i]
            &&& forall|i: int|
                n <= i < manager.polyphony ==> #[trigger] after.voices[i] == (Voice {
                    status: VoiceStatus::Inactive,
                    note: manager.voices[i].note,
                })
            &&& forall|k: usize| (n <= k < manager.polyphony) <==> #[trigger] reset.contains(k)
            &&& reset.len() == if n < manager.polyphony {
                manager.polyphony - n
            } else {
                0
            }
        }),
{
    let n = clamped_polyphony(polyphony);
    let (after, reset) = manager.with_polyphony(polyphony);
    assert forall|k: usize| (n <= k < manager.polyphony) <==> #[trigger] reset.contains(k) by {
        if n <= k < manager.polyphony {
            assert(reset[k - n] == k);
        }
        if reset.contains(k) {
            let m = choose|m: int| 0 <= m < reset.len() && reset[m] == k;
            assert(reset[m] == (n + m) as usize);
        }
    }
}

/// Allocates the voices of the sampler to notes in a round-robin scheme.
#[derive(Debug)]
pub struct VoiceManager<V> {
    current_polyphony: usize,
    pub retrigger: bool,
    last_voice_index: usize,
    voices: Vec<Voice<V>>,
}

impl<V> View for VoiceManager<V> {
    type V = VoiceManagerView<V>;

    closed spec fn view(&self) -> VoiceManagerView<V> {
        VoiceManagerView {
            polyphony: self.current_polyphony,
            last_voice_index: self.last_voice_index,
            retrigger: self.retrigger,
            voices: self.voices@,
        }
    }
}

/// `MAX_POLYPHONY` fresh voices, each holding note 64 with the default
/// velocity.
fn fresh_voices<V: Default>() -> (voices: Vec<Voice<V>>)
    ensures
        voices@.len() == MAX_POLYPHONY,
        forall|i: int|
            0 <= i < voices@.len() ==> #[trigger] voices@[i].status == VoiceStatus::Inactive
                && voices@[i].note.number == 64 && call_ensures(V::default, (), voices@[i].note.velocity),
{
    let mut voices: Vec<Voice<V>> = Vec::new();
    let count: usize = MAX_POLYPHONY as usize;
    while voices.len() < count
        invariant
            count == MAX_POLYPHONY,
            voices@.len() <= count,
            forall|i: int|
                0 <= i < voices@.len() ==> #[trigger] voices@[i].status == VoiceStatus::Inactive
                    && voices@[i].note.number == 64 && call_ensures(V::default, (), voices@[i].note.velocity),
        decreases count - voices@.len(),
    {
        voices.push(Voice::new());
    }
    voices
}

impl<V> VoiceManager<V> {
    /// The manager's invariant.
    pub open spec fn wf(&self) -> bool {
        self@.wf()
    }

    /// A manager of `MAX_POLYPHONY` fresh voices, of which the first
    /// `current_polyphony` may sound.
    pub fn new(current_polyphony: usize, retrigger: bool) -> (manager: Self)
        where V: Default
        requires
            1 <= current_polyphony <= MAX_POLYPHONY,
        ensures
            manager.wf(),
            manager@.polyphony == current_polyphony,
            manager@.last_voice_index == 0,
            manager@.retrigger == retrigger,
            forall|i: int|
                0 <= i < manager@.voices.len() ==> #[trigger] manager@.voices[i].status
                    == VoiceStatus::Inactive && manager@.voices[i].note.number == 64 && call_ensures(
                    V::default,
                    (),
                    manager@.voices[i].note.velocity,
                ),
    {
        VoiceManager { current_polyphony, retrigger, last_voice_index: 0, voices: fresh_voices() }
    }

    /// How many voices, counted from the first, may sound.
    pub fn polyphony(&self) -> (polyphony: usize)
        ensures
            polyphony == self@.polyphony,
    {
        self.current_polyphony
    }

    /// The voice that was taken last for a new note.
    pub fn last_voice_index(&self) -> (index: usize)
        ensures
            index == self@.last_voice_index,
    {
        self.last_voice_index
    }

    /// The number of voices the manager holds.
    pub fn voice_count(&self) -> (count: usize)
        ensures
            count == self@.voices.len(),
    {
        self.voices.len()
    }

    /// Voice `index`.
    pub fn voice(&self, index: usize) -> (voice: &Voice<V>)
        requires
            index < self@.voices.len(),
        ensures
            *voice == self@.voices[index as int],
    {
        &self.voices[index]
    }

    /// The first voice within the polyphony that sounds `number`.
    fn find_sounding(&self, number: u8) -> (found: Option<usize>)
        requires
            self.wf(),
        ensures
            found == self@.sounding_voice(number),
    {
        let poly = self.current_polyphony;
        let mut i: usize = 0;
        while i < poly
            invariant
                self.wf(),
                poly == self@.polyphony,
                i <= poly,
                self@.sounding_voice(number) == first_sounding(self@.voices, number, i as int, poly as int),
            decreases poly - i,
        {
            let voice = &self.voices[i];
            let sounding = match voice.status {
                VoiceStatus::Inactive => false,
                _ => voice.note.number == number,
            };
            if sounding {
                return Some(i);
            }
            i = i + 1;
        }
        None
    }

    /// Puts a note into play (see `VoiceManagerView::note_on`) and returns
    /// the voice that was (re)started, if any; the audio side of that voice
    /// is to be reset, given the note and gated on.
    pub fn insert_note(&mut self, note: Note<V>) -> (started: Option<usize>)
        requires
            old(self).wf(),
        ensures
            final(self).wf(),
            (final(self)@, started) == old(self)@.note_on(note),
    {
        let ghost pre = self@;
        proof {
            lemma_first_sounding(pre.voices, note.number, 0, pre.polyphony as int);
        }
        match self.find_sounding(note.number) {
            Some(k) => {
                let playing = match self.voices[k].status {
                    VoiceStatus::Playing => true,
                    _ => false,
                };
                if playing && !self.retrigger {
                    None
                } else {
                    self.voices[k].reset();
                    self.voices[k].gate_on();
                    self.voices[k].set_note(note);
                    assert(self@.voices =~= pre.note_on(note).0.voices);
                    Some(k)
                }
            },
            None => {
                self.last_voice_index = (self.last_voice_index + 1) % self.current_polyphony;
                let j = self.last_voice_index;
                self.voices[j].reset();
                self.voices[j].set_note(note);
                self.voices[j].gate_on();
                assert(self@.voices =~= pre.note_on(note).0.voices);
                Some(j)
            },
        }
    }

    /// Takes a note out of play: returns the voices within the polyphony
    /// that hold a note of its number, whose envelopes are to be gated off.
    /// The allocation itself does not change.
    pub fn remove_note(&self, note: Note<V>) -> (released: Vec<usize>)
        requires
            self.wf(),
        ensures
            released@ == self@.note_off(note.number),
    {
        let poly = self.current_polyphony;
        let mut released: Vec<usize> = Vec::new();
        let mut i: usize = 0;
        while i < poly
            invariant
                self.wf(),
                poly == self@.polyphony,
                i <= poly,
                released@ == indices_with_number(self@.voices, note.number, i as int),
            decreases poly - i,
        {
            if self.voices[i].note.number == note.number {
                released.push(i);
            }
            i = i + 1;
        }
        released
    }

    /// The voices to process in an audio step, in order: those within the
    /// polyphony that are not inactive.
    pub fn active_voices(&self) -> (active: Vec<usize>)
        requires
            self.wf(),
        ensures
            active@ == self@.active_voices(),
    {
        let poly = self.current_polyphony;
        let mut active: Vec<usize> = Vec::new();
        let mut i: usize = 0;
        while i < poly
            invariant
                self.wf(),
                poly == self@.polyphony,
                i <= poly,
                active@ == active_indices(self@.voices, i as int),
            decreases poly - i,
        {
            match self.voices[i].status {
                VoiceStatus::Inactive => {},
                _ => {
                    active.push(i);
                },
            }
            i = i + 1;
        }
        active
    }

    /// Closes the audio step of voice `index`, one of the active voices
    /// (see `Voice::conclude_step`).
    pub fn conclude_voice_step(
        &mut self,
        index: usize,
        phase: AdsrPhase,
        player: SamplePlayerStatus,
    ) -> (actions: VoiceStepActions)
        requires
            old(self).wf(),
            index < old(self)@.polyphony,
            old(self)@.voices[index as int].status != VoiceStatus::Inactive,
        ensures
            final(self).wf(),
            final(self)@ == old(self)@.step_concluded(index, phase, player),
            actions.gate_off == (phase == AdsrPhase::Idle),
            actions.reset == (player == SamplePlayerStatus::PlayEnd),
    {
        let ghost pre = self@;
        let actions = self.voices[index].conclude_step(phase, player);
        assert(self@.voices =~= pre.step_concluded(index, phase, player).voices);
        assert forall|i: int, j: int|
            0 <= i < self@.voices.len() && 0 <= j < self@.voices.len() && i != j
                && #[trigger] is_sounding(self@.voices[i], self@.voices[j].note.number)
                implies #[trigger] self@.voices[j].status == VoiceStatus::Inactive by {
            assert(is_sounding(pre.voices[i], pre.voices[j].note.number));
        }
        actions
    }

    /// Sets the polyphony to `polyphony` kept within `1..=MAX_POLYPHONY`
    /// (see `VoiceManagerView::with_polyphony`) and returns the voices that
    /// were reset, whose audio side is to be reset too.
    pub fn set_polyphony(&mut self, polyphony: i32) -> (reset: Vec<usize>)
        requires
            old(self).wf(),
        ensures
            final(self).wf(),
            (final(self)@, reset@) == old(self)@.with_polyphony(polyphony),
    {
        let ghost pre = self@;
        let n: usize = if polyphony < 1 {
            1
        } else if polyphony > MAX_POLYPHONY {
            MAX_POLYPHONY as usize
        } else {
            polyphony as usize
        };
        let mut reset: Vec<usize> = Vec::new();
        if self.current_polyphony != n {
            if self.current_polyphony > n {
                let mut i: usize = n;
                while i < self.current_polyphony
                    invariant
                        pre.wf(),
                        n < pre.polyphony,
                        self.current_polyphony == pre.polyphony,
                        self.last_voice_index == pre.last_voice_index,
                        self.retrigger == pre.retrigger,
                        n <= i <= pre.polyphony,
                        self.voices@.len() == pre.voices.len(),
                        reset@ == index_range(n, i),
                        forall|k: int|
                            0 <= k < pre.voices.len() ==> #[trigger] self.voices@[k] == (
                            if n <= k < i {
                                Voice { status: VoiceStatus::Inactive, note: pre.voices[k].note }
                            } else {
                                pre.voices[k]
                            }),
                    decreases pre.polyphony - i,
                {
                    self.voices[i].reset();
                    reset.push(i);
                    i = i + 1;
                }
            }
            if self.last_voice_index >= n {
                self.last_voice_index = 0;
            }
            self.current_polyphony = n;
        }
        assert(self@.voices =~= pre.with_polyphony(polyphony).0.voices);
        assert(reset@ =~= pre.with_polyphony(polyphony).1);
        reset
    }

    /// Replaces every voice by a fresh one; the polyphony, the last voice
    /// taken and the retrigger setting stay.
    pub fn init_from_default(&mut self)
        where V: Default
        requires
            old(self).wf(),
        ensures
            final(self).wf(),
            final(self)@.polyphony == old(self)@.polyphony,
            final(self)@.last_voice_index == old(self)@.last_voice_index,
            final(self)@.retrigger == old(self)@.retrigger,
            final(self)@.voices.len() == MAX_POLYPHONY,
            forall|i: int|
                0 <= i < final(self)@.voices.len() ==> #[trigger] final(self)@.voices[i].status
                    == VoiceStatus::Inactive && final(self)@.voices[i].note.number == 64
                    && call_ensures(V::default, (), final(self)@.voices[i].note.velocity),
    {
        self.voices = fresh_voices();
    }
}

} // verus!
