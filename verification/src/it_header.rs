use vstd::prelude::*;

verus! {

/// The header of an IT file ("IMPM").
pub struct ItHeader {
    /// "IMPM"
    pub id: [u8; 4],
    pub song_name: String,
    /// Rows per beat and rows per measure, for the editor.
    pub pattern_highlight: [u8; 2],
    pub order_number: u16,
    pub instrument_number: u16,
    pub sample_number: u16,
    pub pattern_number: u16,
    /// Version of the tracker that wrote the file, the major part in the
    /// high byte.
    pub created_with_tracker: u16,
    pub compatible_with_tracker: u16,
    pub flags: u16,
    pub special_flags: u16,
    /// Global volume, 0 to 128.
    pub global_volume: u8,
    /// Mix volume, 0 to 128.
    pub mix_volume: u8,
    pub initial_speed: u8,
    pub initial_tempo: u8,
    /// Panning separation between channels, 0 to 128.
    pub pan_separation: u8,
    pub pitch_wheel_depth: u8,
    pub message_length: u16,
    pub message_offset: u32,
    /// "OMPT" in files that OpenMPT wrote.
    pub reserved: [u8; 4],
    pub initial_channel_pan: [u8; 64],
    pub initial_channel_volume: [u8; 64],
}

/// Whether `word` has a bit of `mask` set.
pub open spec fn has_flag(word: u16, mask: u16) -> bool {
    word & mask != 0
}

/// Whether the four bytes are the given four letters.
pub open spec fn is_tag(bytes: Seq<u8>, a: u8, b: u8, c: u8, d: u8) -> bool {
    bytes[0] == a && bytes[1] == b && bytes[2] == c && bytes[3] == d
}

impl ItHeader {
    /// Whether the header starts with "IMPM".
    pub fn is_it_header(&self) -> (r: bool)
        ensures
            r == is_tag(self.id@, 0x49, 0x4D, 0x50, 0x4D),
    {
        self.id[0] == 0x49 && self.id[1] == 0x4D && self.id[2] == 0x50 && self.id[3] == 0x4D
    }

    /// Whether the reserved bytes are "OMPT".
    pub fn is_ompt(&self) -> (r: bool)
        ensures
            r == is_tag(self.reserved@, 0x4F, 0x4D, 0x50, 0x54),
    {
        self.reserved[0] == 0x4F && self.reserved[1] == 0x4D && self.reserved[2] == 0x50
            && self.reserved[3] == 0x54
    }

    /// Whether the file was written by a tracker of version 2 or later.
    pub fn is_post20(&self) -> (r: bool)
        ensures
            r == (self.created_with_tracker >= 0x0200),
    {
        let v: u16 = self.created_with_tracker;
        assert(((v >> 8) >= 2) == (v >= 0x0200)) by (bit_vector);
        (v >> 8) >= 2
    }


    /// Whether the song is stereo.
    pub fn is_stereo(&self) -> (r: bool)
        ensures
            r == has_flag(self.flags, 0x0001),
    {
        (self.flags & 0x0001) != 0
    }

    /// Whether Vol0 mix optimisations are on.
    pub fn is_mixing(&self) -> (r: bool)
        ensures
            r == has_flag(self.flags, 0x0002),
    {
        (self.flags & 0x0002) != 0
    }

    /// Whether the song uses instruments, not samples alone.
    pub fn is_instruments_used(&self) -> (r: bool)
        ensures
            r == has_flag(self.flags, 0x0004),
    {
        (self.flags & 0x0004) != 0
    }

    /// Whether slides are linear, not Amiga slides.
    pub fn is_linear_slides(&self) -> (r: bool)
        ensures
            r == has_flag(self.flags, 0x0008),
    {
        (self.flags & 0x0008) != 0
    }

    /// Whether the old effects are used.
    pub fn is_old_effects(&self) -> (r: bool)
        ensures
            r == has_flag(self.flags, 0x0010),
    {
        (self.flags & 0x0010) != 0
    }

    /// Whether the memory of `G` is linked with that of `E` and `F`.
    pub fn is_g_linked_with_e_f(&self) -> (r: bool)
        ensures
            r == has_flag(self.flags, 0x0020),
    {
        (self.flags & 0x0020) != 0
    }

    /// Whether a MIDI pitch controller is used.
    pub fn is_midi_pitch_controlled(&self) -> (r: bool)
        ensures
            r == has_flag(self.flags, 0x0040),
    {
        (self.flags & 0x0040) != 0
    }

    /// Whether the file asks for embedded MIDI macros.
    pub fn is_embedded_midi_macros(&self) -> (r: bool)
        ensures
            r == has_flag(self.flags, 0x0080),
    {
        (self.flags & 0x0080) != 0
    }

    /// Whether a song message is attached.
    pub fn is_song_message_attached(&self) -> (r: bool)
        ensures
            r == has_flag(self.special_flags, 0x0001),
    {
        (self.special_flags & 0x0001) != 0
    }

    /// Whether an edit history is embedded.
    pub fn is_edit_history_embedded(&self) -> (r: bool)
        ensures
            r == has_flag(self.special_flags, 0x0002),
    {
        (self.special_flags & 0x0002) != 0
    }

    /// Whether the row highlights are embedded.
    pub fn is_highlight_embedded(&self) -> (r: bool)
        ensures
            r == has_flag(self.special_flags, 0x0004),
    {
        (self.special_flags & 0x0004) != 0
    }

    /// Whether a MIDI macro configuration is embedded.
    pub fn is_embedded_midi_macro(&self) -> (r: bool)
        ensures
            r == has_flag(self.special_flags, 0x0008),
    {
        (self.special_flags & 0x0008) != 0
    }
}

} // verus!
