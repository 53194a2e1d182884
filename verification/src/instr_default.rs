use vstd::prelude::*;

verus! {

/// What happens to the note that plays on a channel when a new one starts.
#[derive(Clone, Copy, Debug, PartialEq, Eq, Structural)]
pub enum NewNoteAction {
    NoteCut,
    Continue,
    NoteOff,
    NoteFadeOut,
}

impl NewNoteAction {
    pub fn default() -> (r: NewNoteAction)
        ensures
            r == NewNoteAction::NoteCut,
    {
        NewNoteAction::NoteCut
    }
}

/// What happens to the active note when a duplicate of it is played.
#[derive(Clone, Copy, Debug, PartialEq, Eq, Structural)]
pub enum DuplicateCheckAction {
    /// The active note is cut at once.
    NoteCut(NewNoteAction),
    /// The active note is released.
    NoteOff(NewNoteAction),
    /// The active note fades out.
    NoteFadeOut(NewNoteAction),
}

impl DuplicateCheckAction {
    pub fn default() -> (r: DuplicateCheckAction)
        ensures
            r == DuplicateCheckAction::NoteCut(NewNoteAction::NoteCut),
    {
        DuplicateCheckAction::NoteCut(NewNoteAction::default())
    }
}

/// By what a new note is held to be a duplicate of the active one.
#[derive(Clone, Copy, Debug, PartialEq, Eq, Structural)]
pub enum DuplicateCheckType {
    /// Nothing is compared.
    Off(NewNoteAction),
    /// The pitch is compared.
    Note(DuplicateCheckAction),
    /// The sample is compared.
    Sample(DuplicateCheckAction),
    /// The instrument is compared.
    Instrument(DuplicateCheckAction),
}

impl DuplicateCheckType {
    pub fn default() -> (r: DuplicateCheckType)
        ensures
            r == DuplicateCheckType::Off(NewNoteAction::NoteCut),
    {
        DuplicateCheckType::Off(NewNoteAction::default())
    }
}

/// The MIDI side of an instrument.
#[derive(Clone, Copy, Debug, PartialEq, Eq, Structural)]
pub struct InstrMidi {
    pub muted: bool,
    /// MIDI channel, 0 to 16.
    pub channel: u8,
    /// MIDI program, 1 to 128.
    pub program: u16,
    /// MIDI bank, 0 to 16384.
    pub bank: u16,
    pub bend: u16,
}

} // verus!
