//! The piano keyboard from C2 (MIDI 36) to middle C (MIDI 60), the diatonic
//! staff step of a MIDI note, and what the bass staff shows for the active note.
use vstd::prelude::*;
use crate::notes::{frequency_centihz, staff_step};

verus! {

/// MIDI number of the lowest key, C2.
pub const LOWEST_MIDI: u8 = 36;

/// MIDI number of the highest key, C4 (middle C).
pub const HIGHEST_MIDI: u8 = 60;

// ---------------------------------------------------------------------------
// Keys
// ---------------------------------------------------------------------------

/// Whether the pitch class of a MIDI note is a black key (C#, D#, F#, G#, A#).
pub open spec fn is_black_midi(midi: int) -> bool {
    let pc: int = midi % 12;
    pc == 1 || pc == 3 || pc == 6 || pc == 8 || pc == 10
}

/// The number of white keys of the keyboard below `midi`.
pub open spec fn white_keys_below(midi: int) -> nat
    decreases midi - LOWEST_MIDI,
{
    if midi <= LOWEST_MIDI {
        0
    } else {
        white_keys_below(midi - 1) + if is_black_midi(midi - 1) { 0nat } else { 1nat }
    }
}

/// The white-key column of a key: a white key's own index among the white
/// keys, a black key's that of the white key just below it.
pub open spec fn white_column(midi: int) -> int {
    if is_black_midi(midi) {
        white_keys_below(midi) - 1
    } else {
        white_keys_below(midi) as int
    }
}

/// One key of the keyboard.
pub struct KeyDef {
    /// MIDI number of the key.
    pub midi: u8,
    /// Whether the key is black.
    pub is_black: bool,
    /// The white-key column the key stands in (see `white_column`).
    pub white_idx: usize,
}

impl KeyDef {
    /// Horizontal offset, in pixels, of a black key (it straddles the right
    /// edge of its 40-pixel-wide white column, 12 pixels to its left);
    /// white keys are laid out in flow and have none.
    pub fn left_px(&self) -> (px: Option<usize>)
        requires
            self.white_idx * 40 + 40 <= usize::MAX,
        ensures
            self.is_black ==> px == Some((self.white_idx * 40 + 40 - 12) as usize),
            !self.is_black ==> px is None,
    {
        if self.is_black {
            Some(self.white_idx * 40 + 40 - 12)
        } else {
            None
        }
    }
}

proof fn lemma_white_keys_below_positive(midi: int)
    requires
        midi > LOWEST_MIDI,
    ensures
        white_keys_below(midi) >= 1,
    decreases midi - LOWEST_MIDI,
{
    if midi - 1 > LOWEST_MIDI {
        lemma_white_keys_below_positive(midi - 1);
    }
}

/// Generates the keys from C2 (MIDI 36) to C4 / middle C (MIDI 60), one per
/// semitone, from the lowest up.
pub fn generate_keys() -> (keys: Vec<KeyDef>)
    ensures
        keys@.len() == HIGHEST_MIDI - LOWEST_MIDI + 1,
        forall|i: int|
            0 <= i < keys@.len() ==> {
                &&& (#[trigger] keys@[i]).midi == LOWEST_MIDI + i
                &&& keys@[i].is_black == is_black_midi(LOWEST_MIDI + i)
                &&& keys@[i].white_idx == white_column(LOWEST_MIDI + i)
            },
{
    let mut keys: Vec<KeyDef> = Vec::new();
    let mut current_white: usize = 0;
    let mut midi: u8 = LOWEST_MIDI;
    while midi <= HIGHEST_MIDI
        invariant
            LOWEST_MIDI <= midi <= HIGHEST_MIDI + 1,
            keys@.len() == midi - LOWEST_MIDI,
            current_white == white_keys_below(midi as int),
            current_white <= midi,
            forall|i: int|
                0 <= i < keys@.len() ==> {
                    &&& (#[trigger] keys@[i]).midi == LOWEST_MIDI + i
                    &&& keys@[i].is_black == is_black_midi(LOWEST_MIDI + i)
                    &&& keys@[i].white_idx == white_column(LOWEST_MIDI + i)
                },
        decreases HIGHEST_MIDI + 1 - midi,
    {
        let pitch_class: u8 = midi % 12;
        let is_black = pitch_class == 1 || pitch_class == 3 || pitch_class == 6 || pitch_class == 8
            || pitch_class == 10;
        proof {
            if is_black {
                lemma_white_keys_below_positive(midi as int);
            }
        }
        keys.push(
            KeyDef {
                midi,
                is_black,
                white_idx: if is_black {
                    current_white - 1
                } else {
                    current_white
                },
            },
        );
        if !is_black {
            current_white = current_white + 1;
        }
        midi = midi + 1;
    }
    keys
}

// ---------------------------------------------------------------------------
// Staff steps of MIDI notes
// ---------------------------------------------------------------------------

/// Diatonic offset within an octave from C, and whether the pitch class is a
/// sharp, for the pitch classes 0..=11.
pub open spec fn pitch_class_step(pitch_class: int) -> (int, bool) {
    if pitch_class == 0 { (0, false) }
    else if pitch_class == 1 { (0, true) }
    else if pitch_class == 2 { (1, false) }
    else if pitch_class == 3 { (1, true) }
    else if pitch_class == 4 { (2, false) }
    else if pitch_class == 5 { (3, false) }
    else if pitch_class == 6 { (3, true) }
    else if pitch_class == 7 { (4, false) }
    else if pitch_class == 8 { (4, true) }
    else if pitch_class == 9 { (5, false) }
    else if pitch_class == 10 { (5, true) }
    else { (6, false) }
}

/// The diatonic staff step of a MIDI note counted from C2 (0), seven steps to
/// the octave, and whether the note is a sharp. Below C2 the octave counts
/// down (B1 is step -1, A#1 is step -2 and a sharp).
pub open spec fn midi_step(midi: int) -> (int, bool) {
    let note_idx: int = midi - LOWEST_MIDI;
    let offset: (int, bool) = pitch_class_step(note_idx % 12);
    ((note_idx / 12) * 7 + offset.0, offset.1)
}

/// Maps a MIDI note to diatonic staff steps relative to C2 (0) and detects
/// accidentals. The bass staff is anchored on G2 at the bottom line and A3 at
/// the top line, so each diatonic step changes vertical position by 10px.
pub fn midi_to_step(midi: u8) -> (res: (i32, bool))
    ensures
        res.0 == midi_step(midi as int).0,
        res.1 == midi_step(midi as int).1,
{
    // octave (rounded down) and pitch class (0..=11) of the note, from C2
    let (octave, pitch_class): (i32, u8) = if midi >= LOWEST_MIDI {
        let note_idx: u8 = midi - LOWEST_MIDI;
        ((note_idx / 12) as i32, note_idx % 12)
    } else {
        let below: u8 = LOWEST_MIDI - midi;
        let ghost note_idx: int = midi as int - LOWEST_MIDI as int;
        if below % 12 == 0 {
            assert(note_idx / 12 == -(below / 12) && note_idx % 12 == 0);
            (-((below / 12) as i32), 0)
        } else {
            assert(note_idx / 12 == -(below / 12) - 1 && note_idx % 12 == 12 - below % 12);
            (-((below / 12) as i32) - 1, 12 - below % 12)
        }
    };
    let (step_offset, is_sharp): (i32, bool) = if pitch_class == 0 { (0, false) }
    else if pitch_class == 1 { (0, true) }
    else if pitch_class == 2 { (1, false) }
    else if pitch_class == 3 { (1, true) }
    else if pitch_class == 4 { (2, false) }
    else if pitch_class == 5 { (3, false) }
    else if pitch_class == 6 { (3, true) }
    else if pitch_class == 7 { (4, false) }
    else if pitch_class == 8 { (4, true) }
    else if pitch_class == 9 { (5, false) }
    else if pitch_class == 10 { (5, true) }
    else { (6, false) };
    (octave * 7 + step_offset, is_sharp)
}

// ---------------------------------------------------------------------------
// The bass staff of the active note
// ---------------------------------------------------------------------------

/// Height, in pixels, of the middle line of the staff (D3, eight steps above C2).
pub const STAFF_MIDDLE_Y: i32 = 100;

/// Height of the note head of a MIDI note: the middle line is step 8 (D3) and
/// each diatonic step moves the head up by 10 pixels.
pub open spec fn note_head_y(midi: int) -> int {
    STAFF_MIDDLE_Y - (midi_step(midi).0 - 8) * 10
}

/// What the bass staff shows for the active note.
pub struct StaffView {
    /// Height of the note head (that of the middle line when no note is active).
    pub note_y: i32,
    /// Baseline height of the sharp sign, just below the note head's centre.
    pub sharp_y: i32,
    /// Whether the note head shows.
    pub note_visible: bool,
    /// Whether the sharp sign shows.
    pub sharp_visible: bool,
    /// Whether the ledger line above the staff (y = 40, C4) shows.
    pub ledger_40_visible: bool,
    /// Whether the first ledger line below the staff (y = 160, E2) shows.
    pub ledger_160_visible: bool,
    /// Whether the second ledger line below the staff (y = 180, C2) shows.
    pub ledger_180_visible: bool,
}

/// What `staff_view` shows for `active_note`.
pub open spec fn shows_staff(active_note: Option<u8>, view: StaffView) -> bool {
    &&& view.note_visible == active_note is Some
    &&& view.note_y == match active_note {
        Some(m) => note_head_y(m as int),
        None => STAFF_MIDDLE_Y as int,
    }
    &&& view.sharp_y == view.note_y + 7
    &&& view.sharp_visible == (active_note matches Some(m) && midi_step(m as int).1)
    &&& view.ledger_40_visible == (active_note is Some && view.note_y <= 40)
    &&& view.ledger_160_visible == (active_note is Some && view.note_y >= 160)
    &&& view.ledger_180_visible == (active_note is Some && view.note_y >= 180)
}

/// Computes what the bass staff shows while `active_note` (if any) is the
/// last key pressed: the head at the height of its step, the sharp sign for
/// a sharp, and the ledger lines the head reaches.
pub fn staff_view(active_note: Option<u8>) -> (view: StaffView)
    ensures
        shows_staff(active_note, view),
{
    let note_data: Option<(i32, bool)> = match active_note {
        Some(midi) => {
            let (step, is_sharp): (i32, bool) = midi_to_step(midi);
            Some((STAFF_MIDDLE_Y - (step - 8) * 10, is_sharp))
        },
        None => None,
    };
    let is_active = active_note.is_some();
    let note_y: i32 = match note_data {
        Some((y, _)) => y,
        None => STAFF_MIDDLE_Y,
    };
    let note_sharp = match note_data {
        Some((_, sharp)) => sharp,
        None => false,
    };
    StaffView {
        note_y,
        sharp_y: note_y + 7,
        note_visible: is_active,
        sharp_visible: is_active && note_sharp,
        ledger_40_visible: is_active && note_y <= 40,
        ledger_160_visible: is_active && note_y >= 160,
        ledger_180_visible: is_active && note_y >= 180,
    }
}

// ---------------------------------------------------------------------------
// Laws of the staff steps
// ---------------------------------------------------------------------------

/// One semitone up moves a note by at most one diatonic step: the step stays
/// when the new note is a sharp, and grows by one when it is a natural.
pub proof fn lemma_semitone_step(midi: int)
    ensures
        midi_step(midi + 1).1 ==> midi_step(midi + 1).0 == midi_step(midi).0,
        !midi_step(midi + 1).1 ==> midi_step(midi + 1).0 == midi_step(midi).0 + 1,
{
    let idx: int = midi - LOWEST_MIDI;
    if idx % 12 == 11 {
        assert((idx + 1) / 12 == idx / 12 + 1);
        assert((idx + 1) % 12 == 0);
    } else {
        assert((idx + 1) / 12 == idx / 12);
        assert((idx + 1) % 12 == idx % 12 + 1);
    }
}

/// A sharp sits on the staff step of the natural a semitone below it.
pub proof fn lemma_sharp_on_natural_step(midi: int)
    requires
        midi_step(midi).1,
    ensures
        !midi_step(midi - 1).1,
        midi_step(midi - 1).0 == midi_step(midi).0,
{
    lemma_semitone_step(midi - 1);
    let idx: int = midi - 1 - LOWEST_MIDI;
    if idx % 12 == 11 {
        assert((idx + 1) % 12 == 0);
    } else {
        assert((idx + 1) % 12 == idx % 12 + 1);
    }
}

/// An octave up adds seven diatonic steps and keeps the accidental.
pub proof fn lemma_octave_step(midi: int)
    ensures
        midi_step(midi + 12).0 == midi_step(midi).0 + 7,
        midi_step(midi + 12).1 == midi_step(midi).1,
{
    let idx: int = midi - LOWEST_MIDI;
    assert((idx + 12) / 12 == idx / 12 + 1);
    assert((idx + 12) % 12 == idx % 12);
}

/// A higher note never sits lower on the staff.
pub proof fn lemma_step_monotonic(low: int, high: int)
    requires
        low <= high,
    ensures
        midi_step(low).0 <= midi_step(high).0,
    decreases high - low,
{
    if low < high {
        lemma_step_monotonic(low, high - 1);
        lemma_semitone_step(high - 1);
    }
}

/// The black keys are exactly the notes the staff marks as sharps.
pub proof fn lemma_black_keys_are_sharps(midi: int)
    ensures
        is_black_midi(midi) == midi_step(midi).1,
{
    assert((midi - LOWEST_MIDI) % 12 == midi % 12);
}

// ---------------------------------------------------------------------------
// Key names, and what the two staves and the pitch table agree on
// ---------------------------------------------------------------------------

/// Letter of the natural a pitch class is written with (C# is written on C).
pub open spec fn pitch_class_letter(pitch_class: int) -> char {
    if pitch_class <= 1 { 'C' }
    else if pitch_class <= 3 { 'D' }
    else if pitch_class == 4 { 'E' }
    else if pitch_class <= 6 { 'F' }
    else if pitch_class <= 8 { 'G' }
    else if pitch_class <= 10 { 'A' }
    else { 'B' }
}

/// The name of a key of the keyboard: letter, `#` for a black key, and octave
/// digit ("C2", "C#2", ..., "C4").
pub open spec fn key_name(midi: int) -> Seq<char> {
    let pc: int = midi % 12;
    let octave: char = if midi < 48 { '2' } else if midi < 60 { '3' } else { '4' };
    if is_black_midi(midi) {
        seq![pitch_class_letter(pc), '#', octave]
    } else {
        seq![pitch_class_letter(pc), octave]
    }
}

/// The two staves agree: the staff step of a key's name (counted from D3, the
/// middle line of the canvas staff) is its MIDI staff step (counted from C2)
/// less eight, the step of D3.
pub proof fn lemma_name_step_matches_midi_step(midi: int)
    requires
        LOWEST_MIDI <= midi <= HIGHEST_MIDI,
    ensures
        staff_step(key_name(midi)) == midi_step(midi).0 - 8,
{
    let name: Seq<char> = key_name(midi);
    assert(vstd::utf8::is_ascii_chars(name));
}

/// Every key sounds higher than the key below it.
pub proof fn lemma_key_pitch_rises(midi: int)
    requires
        LOWEST_MIDI <= midi < HIGHEST_MIDI,
    ensures
        frequency_centihz(key_name(midi)) < frequency_centihz(key_name(midi + 1)),
{
}

/// A key higher on the keyboard sounds higher.
pub proof fn lemma_key_pitch_monotonic(low: int, high: int)
    requires
        LOWEST_MIDI <= low < high <= HIGHEST_MIDI,
    ensures
        frequency_centihz(key_name(low)) < frequency_centihz(key_name(high)),
    decreases high - low,
{
    lemma_key_pitch_rises(high - 1);
    if low < high - 1 {
        lemma_key_pitch_monotonic(low, high - 1);
    }
}

/// A key's name carries a sharp sign exactly when the key is black.
pub proof fn lemma_key_name_sharp(midi: int)
    requires
        LOWEST_MIDI <= midi <= HIGHEST_MIDI,
    ensures
        key_name(midi).contains('#') == is_black_midi(midi),
{
    let name: Seq<char> = key_name(midi);
    if is_black_midi(midi) {
        assert(name[1] == '#');
    } else {
        assert(name.len() == 2 && name[0] != '#' && name[1] != '#');
    }
}

/// Each diatonic step moves the note head of the bass staff by 10 pixels:
/// the heads of two notes are ten pixels apart per step between them.
pub proof fn lemma_ten_pixels_per_step(a: int, b: int)
    ensures
        note_head_y(a) - note_head_y(b) == 10 * (midi_step(b).0 - midi_step(a).0),
{
}

/// A black key stands in the column of the white key just below it: the key
/// a semitone below a black key is white and shares its column.
pub proof fn lemma_black_key_over_white_below(midi: int)
    requires
        LOWEST_MIDI <= midi,
        is_black_midi(midi),
    ensures
        midi > LOWEST_MIDI,
        !is_black_midi(midi - 1),
        white_column(midi) == white_column(midi - 1),
{
    assert(midi % 12 != 0);
    assert(midi != LOWEST_MIDI);
    assert((midi - 1) % 12 == midi % 12 - 1);
}

/// White keys fill consecutive columns: the next white key above a white key
/// stands one column to its right.
pub proof fn lemma_white_columns_consecutive(midi: int, next: int)
    requires
        LOWEST_MIDI <= midi < next,
        !is_black_midi(midi),
        !is_black_midi(next),
        forall|m: int| midi < m < next ==> is_black_midi(m),
    ensures
        white_column(next) == white_column(midi) + 1,
{
    if next > midi + 2 {
        // two black keys are never neighbours
        assert(is_black_midi(next - 2) && is_black_midi(next - 1));
        assert((next - 1) % 12 == (next - 2) % 12 + 1);
        assert(false);
    } else if next == midi + 2 {
        assert(is_black_midi(midi + 1));
        assert(white_keys_below(next) == white_keys_below(midi + 1));
    }
}

/// The bass staff is anchored on G2 at the bottom line (y = 140) and A3 at the
/// top line (y = 60), with D3 on the middle line (y = 100); with no active
/// note nothing shows.
pub proof fn lemma_staff_anchors(active_note: Option<u8>, view: StaffView)
    requires
        shows_staff(active_note, view),
    ensures
        active_note == Some(43u8) ==> view.note_y == 140,
        active_note == Some(57u8) ==> view.note_y == 60,
        active_note == Some(50u8) ==> view.note_y == 100,
        active_note is None ==> !view.note_visible && !view.sharp_visible && !view.ledger_40_visible
            && !view.ledger_160_visible && !view.ledger_180_visible,
{
}

/// Any two shown note heads are 10 pixels apart per diatonic step between
/// them, the higher note drawn higher (smaller y).
pub proof fn lemma_shown_heads_apart(a: u8, view_a: StaffView, b: u8, view_b: StaffView)
    requires
        shows_staff(Some(a), view_a),
        shows_staff(Some(b), view_b),
    ensures
        view_a.note_y - view_b.note_y == 10 * (midi_step(b as int).0 - midi_step(a as int).0),
        a <= b ==> view_b.note_y <= view_a.note_y,
{
    if a <= b {
        lemma_step_monotonic(a as int, b as int);
    }
}

/// C2 is step 0 and a natural; with the semitone and octave laws this fixes
/// the step of every MIDI note.
pub proof fn lemma_c2_is_step_zero()
    ensures
        midi_step(LOWEST_MIDI as int) == (0int, false),
{
}

/// The lowest key stands in the first white column, and the highest, middle C,
/// in the fifteenth.
pub proof fn lemma_key_columns_span()
    ensures
        white_column(LOWEST_MIDI as int) == 0,
        white_column(HIGHEST_MIDI as int) == 14,
{
    reveal_with_fuel(white_keys_below, 25);
}

/// An octave up doubles a key's pitch, to within a hundredth of a hertz.
pub proof fn lemma_key_pitch_octave(midi: int)
    requires
        LOWEST_MIDI <= midi <= HIGHEST_MIDI - 12,
    ensures
        2 * frequency_centihz(key_name(midi)) - 1 <= frequency_centihz(key_name(midi + 12))
            <= 2 * frequency_centihz(key_name(midi)) + 1,
{
}

/// A semitone up multiplies a key's pitch by the equal-tempered ratio
/// 2^(1/12) = 1.05946..., to within 0.0002.
pub proof fn lemma_key_pitch_semitone(midi: int)
    requires
        LOWEST_MIDI <= midi < HIGHEST_MIDI,
    ensures
        10593 * frequency_centihz(key_name(midi)) <= 10000 * frequency_centihz(key_name(midi + 1)),
        10000 * frequency_centihz(key_name(midi + 1)) <= 10596 * frequency_centihz(key_name(midi)),
{
}

/// The keyboard is tuned to A = 220 Hz at A3 (and 110 Hz at A2).
pub proof fn lemma_key_pitch_anchor()
    ensures
        frequency_centihz(key_name(57)) == 22000,
        frequency_centihz(key_name(45)) == 11000,
{
}

} // verus!
