//! What the synthesizer does with each decoded MIDI message.
use vstd::prelude::*;
use vstd::string::*;
use crate::midi::{ControlChange, MidiMessage, Note};

verus! {

/// The pitch bend value that bends nothing.
pub const BEND_CENTER: u16 = 8192;

/// The largest bend down, in tenths of a cent (from bend value 0).
pub const MAX_BEND_DOWN: i32 = -8192;

/// The largest bend up, in tenths of a cent (from bend value 16383).
pub const MAX_BEND_UP: i32 = 8191;

/// What the voice should do for one message.
#[derive(Clone, Copy, Debug, PartialEq, Eq)]
pub enum Action {
    /// Set the frequency to the note's and start the attack towards the gain
    /// that the velocity maps to.
    Play { note: u8, velocity: u8 },
    /// Start the release.
    Release,
    /// Bend the pitch by `tenth_cents` tenths of a cent from the last note.
    Bend { tenth_cents: i32 },
    /// Nothing: the message is of a kind the voice does not act on.
    Ignore,
}

/// The bend, in tenths of a cent, of a pitch bend value: a tenth of a cent
/// per step away from the centre.
pub open spec fn bend_tenth_cents(value: u16) -> int {
    value as int - BEND_CENTER as int
}

/// The action for a message: note-on plays, note-off releases, pitch bend
/// bends, and every other kind is ignored.
pub open spec fn action_for(message: MidiMessage) -> Action {
    match message {
        MidiMessage::NoteOn(Note(_, note, velocity)) => Action::Play { note, velocity },
        MidiMessage::NoteOff(_) => Action::Release,
        MidiMessage::PitchBend(_, value) => Action::Bend {
            tenth_cents: bend_tenth_cents(value) as i32,
        },
        _ => Action::Ignore,
    }
}

/// Maps a decoded message to the action the voice takes.
pub fn dispatch(message: &MidiMessage) -> (r: Action)
    ensures
        r == action_for(*message),
{
    match message {
        MidiMessage::NoteOn(note) => Action::Play { note: note.1, velocity: note.2 },
        MidiMessage::NoteOff(_) => Action::Release,
        MidiMessage::PitchBend(_, value) => Action::Bend {
            tenth_cents: (*value as i32) - (BEND_CENTER as i32),
        },
        MidiMessage::ControlChange(ControlChange::Normal(_, _, _)) => Action::Ignore,
        MidiMessage::ControlChange(ControlChange::ChannelMode(_, _, _)) => Action::Ignore,
        MidiMessage::ProgramChange(_, _) => Action::Ignore,
    }
}

/// A 14-bit bend value bends by no more than the largest bends down and up;
/// the centre bends by nothing, and the two ends by the largest bends.
pub proof fn lemma_bend_range(channel: u8, value: u16)
    requires
        value <= 16383,
    ensures
        action_for(MidiMessage::PitchBend(channel, value)) is Bend,
        MAX_BEND_DOWN <= action_for(MidiMessage::PitchBend(channel, value))->tenth_cents
            <= MAX_BEND_UP,
        action_for(MidiMessage::PitchBend(channel, value))->tenth_cents == 0 <==> value
            == BEND_CENTER,
        value == 0 ==> action_for(MidiMessage::PitchBend(channel, value))->tenth_cents
            == MAX_BEND_DOWN,
        value == 16383 ==> action_for(MidiMessage::PitchBend(channel, value))->tenth_cents
            == MAX_BEND_UP,
{
}

/// A higher bend value bends higher.
pub proof fn lemma_bend_increasing(channel: u8, lower: u16, higher: u16)
    requires
        lower < higher,
    ensures
        action_for(MidiMessage::PitchBend(channel, lower))->tenth_cents < action_for(
            MidiMessage::PitchBend(channel, higher),
        )->tenth_cents,
{
}

/// Whether `c` opens the contents of a debug-formatted value.
pub open spec fn is_bracket(c: char) -> bool {
    c == '{' || c == '('
}

/// Whether `k` is where the contents of the debug-formatted `s` start: the
/// first `{` or `(`, or the end of `s` where it has neither.
pub open spec fn is_contents_start(s: Seq<char>, k: int) -> bool {
    &&& 0 <= k <= s.len()
    &&& forall|i: int| 0 <= i < k ==> !is_bracket(#[trigger] s[i])
    &&& k < s.len() ==> is_bracket(s[k])
}

/// The type name at the front of a debug-formatted value: the text before
/// the first `{` or `(` (all of `string` where it has neither), without the
/// spaces that end it.
pub fn debug_struct_name(string: String) -> (r: String)
    ensures
        r@ == string@.subrange(0, r@.len() as int),
        forall|i: int| 0 <= i < r@.len() ==> !is_bracket(#[trigger] r@[i]),
        r@.len() > 0 ==> r@.last() != ' ',
        forall|k: int|
            is_contents_start(string@, k) ==> r@.len() <= k && forall|j: int|
                r@.len() <= j < k ==> #[trigger] string@[j] == ' ',
{
    let s = string.as_str();
    let n = s.unicode_len();
    let mut i: usize = 0;
    while i < n
        invariant
            0 <= i <= n,
            n == s@.len(),
            s@ == string@,
            forall|j: int| 0 <= j < i ==> !is_bracket(#[trigger] s@[j]),
        ensures
            0 <= i <= n,
            forall|j: int| 0 <= j < i ==> !is_bracket(#[trigger] s@[j]),
            i < n ==> is_bracket(s@[i as int]),
        decreases n - i,
    {
        let c = s.get_char(i);
        if c == '{' || c == '(' {
            break;
        }
        i = i + 1;
    }
    assert(is_contents_start(s@, i as int));
    assert forall|k: int| is_contents_start(s@, k) implies k == i as int by {
        if k < i {
            assert(is_bracket(s@[k]));
        } else if k > i {
            assert(!is_bracket(s@[i as int]));
        }
    }
    let mut end: usize = i;
    while end > 0 && s.get_char(end - 1) == ' '
        invariant
            0 <= end <= i <= n,
            n == s@.len(),
            forall|j: int| end <= j < i ==> #[trigger] s@[j] == ' ',
        decreases end,
    {
        end = end - 1;
    }
    let r = String::from_str(s.substring_char(0, end));
    assert(r@ =~= string@.subrange(0, end as int));
    r
}

} // verus!
