//! Note names of the bass-clef piano (C2 up to C4): their pitches, where they
//! sit on the staff, and what a staff drawing of the last played note holds.
use vstd::prelude::*;
use vstd::string::StringSliceAdditionalSpecFns;
use vstd::string::is_ascii;
use vstd::utf8::is_ascii_chars;

verus! {

// ---------------------------------------------------------------------------
// Pitches
// ---------------------------------------------------------------------------

/// Pitch, in hundredths of a hertz, of a natural note named by its letter and
/// its octave digit; `None` for a pair that names no key of the keyboard.
pub open spec fn natural_centihz(letter: char, octave: char) -> Option<u32> {
    if letter == 'C' && octave == '2' { Some(6541u32) }
    else if letter == 'D' && octave == '2' { Some(7342u32) }
    else if letter == 'E' && octave == '2' { Some(8241u32) }
    else if letter == 'F' && octave == '2' { Some(8731u32) }
    else if letter == 'G' && octave == '2' { Some(9800u32) }
    else if letter == 'A' && octave == '2' { Some(11000u32) }
    else if letter == 'B' && octave == '2' { Some(12347u32) }
    else if letter == 'C' && octave == '3' { Some(13081u32) }
    else if letter == 'D' && octave == '3' { Some(14683u32) }
    else if letter == 'E' && octave == '3' { Some(16481u32) }
    else if letter == 'F' && octave == '3' { Some(17461u32) }
    else if letter == 'G' && octave == '3' { Some(19600u32) }
    else if letter == 'A' && octave == '3' { Some(22000u32) }
    else if letter == 'B' && octave == '3' { Some(24694u32) }
    else if letter == 'C' && octave == '4' { Some(26163u32) }
    else { None }
}

/// Pitch, in hundredths of a hertz, of the sharp of `letter` in `octave`;
/// `None` for a pair that names no black key of the keyboard.
pub open spec fn sharp_centihz(letter: char, octave: char) -> Option<u32> {
    if letter == 'C' && octave == '2' { Some(6930u32) }
    else if letter == 'D' && octave == '2' { Some(7778u32) }
    else if letter == 'F' && octave == '2' { Some(9250u32) }
    else if letter == 'G' && octave == '2' { Some(10383u32) }
    else if letter == 'A' && octave == '2' { Some(11654u32) }
    else if letter == 'C' && octave == '3' { Some(13859u32) }
    else if letter == 'D' && octave == '3' { Some(15556u32) }
    else if letter == 'F' && octave == '3' { Some(18500u32) }
    else if letter == 'G' && octave == '3' { Some(20765u32) }
    else if letter == 'A' && octave == '3' { Some(23308u32) }
    else { None }
}

/// Concert A (A4), the pitch of every name that is not on the keyboard.
pub open spec fn fallback_centihz() -> u32 {
    44000u32
}

/// The pitch of a note name, in hundredths of a hertz: a natural is written
/// as letter and octave ("D3"), a sharp as letter, `#` and octave ("F#2");
/// any other name sounds as A4.
pub open spec fn frequency_centihz(note: Seq<char>) -> u32 {
    let found = if note.len() == 2 {
        natural_centihz(note[0], note[1])
    } else if note.len() == 3 && note[1] == '#' {
        sharp_centihz(note[0], note[2])
    } else {
        None
    };
    match found {
        Some(f) => f,
        None => fallback_centihz(),
    }
}

fn natural_centihz_exec(letter: char, octave: char) -> (f: Option<u32>)
    ensures
        f == natural_centihz(letter, octave),
{
    if octave == '2' {
        if letter == 'C' { Some(6541) }
        else if letter == 'D' { Some(7342) }
        else if letter == 'E' { Some(8241) }
        else if letter == 'F' { Some(8731) }
        else if letter == 'G' { Some(9800) }
        else if letter == 'A' { Some(11000) }
        else if letter == 'B' { Some(12347) }
        else { None }
    } else if octave == '3' {
        if letter == 'C' { Some(13081) }
        else if letter == 'D' { Some(14683) }
        else if letter == 'E' { Some(16481) }
        else if letter == 'F' { Some(17461) }
        else if letter == 'G' { Some(19600) }
        else if letter == 'A' { Some(22000) }
        else if letter == 'B' { Some(24694) }
        else { None }
    } else if octave == '4' && letter == 'C' {
        Some(26163)
    } else {
        None
    }
}

fn sharp_centihz_exec(letter: char, octave: char) -> (f: Option<u32>)
    ensures
        f == sharp_centihz(letter, octave),
{
    if octave == '2' {
        if letter == 'C' { Some(6930) }
        else if letter == 'D' { Some(7778) }
        else if letter == 'F' { Some(9250) }
        else if letter == 'G' { Some(10383) }
        else if letter == 'A' { Some(11654) }
        else { None }
    } else if octave == '3' {
        if letter == 'C' { Some(13859) }
        else if letter == 'D' { Some(15556) }
        else if letter == 'F' { Some(18500) }
        else if letter == 'G' { Some(20765) }
        else if letter == 'A' { Some(23308) }
        else { None }
    } else {
        None
    }
}

/// The pitch of the key named `note`, in hundredths of a hertz (the keyboard
/// plays `get_frequency(n) as f32 / 100.0` hertz). Names that are not keys of
/// the keyboard give concert A, 440 Hz.
pub fn get_frequency(note: &str) -> (centihz: u32)
    ensures
        centihz == frequency_centihz(note@),
{
    let n: usize = note.unicode_len();
    let found = if n == 2 {
        natural_centihz_exec(note.get_char(0), note.get_char(1))
    } else if n == 3 && note.get_char(1) == '#' {
        sharp_centihz_exec(note.get_char(0), note.get_char(2))
    } else {
        None
    };
    match found {
        Some(f) => f,
        None => 44000,
    }
}

// ---------------------------------------------------------------------------
// Staff steps
// ---------------------------------------------------------------------------

/// Diatonic step on the bass staff of a natural note, counted from D3 on the
/// middle line (0), one step per line or space; 0 for a pair that is not
/// between C2 and C4.
pub open spec fn natural_staff_step(letter: char, octave: char) -> i32 {
    if letter == 'C' && octave == '2' { -8i32 }
    else if letter == 'D' && octave == '2' { -7i32 }
    else if letter == 'E' && octave == '2' { -6i32 }
    else if letter == 'F' && octave == '2' { -5i32 }
    else if letter == 'G' && octave == '2' { -4i32 }
    else if letter == 'A' && octave == '2' { -3i32 }
    else if letter == 'B' && octave == '2' { -2i32 }
    else if letter == 'C' && octave == '3' { -1i32 }
    else if letter == 'D' && octave == '3' { 0i32 }
    else if letter == 'E' && octave == '3' { 1i32 }
    else if letter == 'F' && octave == '3' { 2i32 }
    else if letter == 'G' && octave == '3' { 3i32 }
    else if letter == 'A' && octave == '3' { 4i32 }
    else if letter == 'B' && octave == '3' { 5i32 }
    else if letter == 'C' && octave == '4' { 6i32 }
    else { 0i32 }
}

/// The name with its accidental taken out: a name of three bytes keeps its
/// first and its last character ("F#2" becomes "F2"); any other is kept whole.
/// (Under `staff_step_defined`, a name of three bytes is exactly a name of
/// three ASCII characters.)
pub open spec fn base_note(note: Seq<char>) -> Seq<char> {
    if is_ascii_chars(note) && note.len() == 3 {
        seq![note[0], note[2]]
    } else {
        note
    }
}

/// The staff step of a note name: that of its base note when the base note is
/// a letter and an octave, else 0 (the middle line).
pub open spec fn staff_step(note: Seq<char>) -> i32 {
    let b = base_note(note);
    if b.len() == 2 {
        natural_staff_step(b[0], b[1])
    } else {
        0i32
    }
}

/// A name of three bytes is cut into its first and its last byte, which is
/// only possible when those bytes are characters of their own: the name must
/// then be ASCII.
pub open spec fn staff_step_defined(note: &str) -> bool {
    note.spec_bytes().len() == 3 ==> is_ascii(note)
}

fn natural_staff_step_exec(letter: char, octave: char) -> (step: i32)
    ensures
        step == natural_staff_step(letter, octave),
{
    if octave == '2' {
        if letter == 'C' { -8 }
        else if letter == 'D' { -7 }
        else if letter == 'E' { -6 }
        else if letter == 'F' { -5 }
        else if letter == 'G' { -4 }
        else if letter == 'A' { -3 }
        else if letter == 'B' { -2 }
        else { 0 }
    } else if octave == '3' {
        if letter == 'C' { -1 }
        else if letter == 'D' { 0 }
        else if letter == 'E' { 1 }
        else if letter == 'F' { 2 }
        else if letter == 'G' { 3 }
        else if letter == 'A' { 4 }
        else if letter == 'B' { 5 }
        else { 0 }
    } else if octave == '4' && letter == 'C' {
        6
    } else {
        0
    }
}

/// Where a note name sits on the bass staff, in diatonic steps above the middle
/// line (D3); sharps sit on the step of their natural.
pub fn note_to_staff_step(note: &str) -> (step: i32)
    requires
        staff_step_defined(note),
    ensures
        step == staff_step(note@),
{
    broadcast use vstd::string::is_ascii_spec_bytes;
    let n: usize = note.unicode_len();
    if note.is_ascii() {
        assert(note.spec_bytes().len() == note@.len());
        if n == 3 {
            natural_staff_step_exec(note.get_char(0), note.get_char(2))
        } else if n == 2 {
            natural_staff_step_exec(note.get_char(0), note.get_char(1))
        } else {
            0
        }
    } else if n == 2 {
        natural_staff_step_exec(note.get_char(0), note.get_char(1))
    } else {
        0
    }
}

/// Whether a note name carries a sharp sign.
pub fn check_accidental(note: &str) -> (sharp: bool)
    ensures
        sharp == note@.contains('#'),
{
    let n: usize = note.unicode_len();
    let mut i: usize = 0;
    while i < n
        invariant
            n == note@.len(),
            i <= n,
            forall|j: int| 0 <= j < i ==> note@[j] != '#',
        decreases n - i,
    {
        if note.get_char(i) == '#' {
            return true;
        }
        i = i + 1;
    }
    false
}

// ---------------------------------------------------------------------------
// Staff drawing
// ---------------------------------------------------------------------------

/// Canvas height, in pixels, of the middle line of the staff (D3).
pub const STAFF_CENTER_Y: i32 = 150;

/// Distance, in pixels, between two lines of the staff.
pub const STAFF_LINE_SPACING: i32 = 20;

/// Canvas height of a staff step: each diatonic step is half a line spacing.
pub open spec fn step_y(step: int) -> int {
    STAFF_CENTER_Y - step * (STAFF_LINE_SPACING / 2)
}

/// The steps of the ledger lines that a note on `step` needs, from the lowest:
/// below the staff the lines of E2 (-6) and, from C2 down, of C2 (-8); above
/// it the line of C4 (6).
pub open spec fn ledger_steps(step: int) -> Seq<int> {
    if step <= -6 {
        if step <= -8 {
            seq![-8int, -6int]
        } else {
            seq![-6int]
        }
    } else if step >= 6 {
        seq![6int]
    } else {
        Seq::empty()
    }
}

/// The mark of a note on the staff.
pub struct NoteMark {
    /// Staff step of the note (0 is the middle line).
    pub step: i32,
    /// Canvas height of the note head.
    pub y: i32,
    /// Canvas heights of the ledger lines to draw, from the lowest step up.
    pub ledger_ys: Vec<i32>,
    /// Whether a sharp sign goes before the note head.
    pub sharp: bool,
}

/// What the staff canvas shows: its five lines and, once a key was played,
/// the mark of that note.
pub struct StaffPlan {
    /// Canvas heights of the five staff lines, from the bottom line up.
    pub line_ys: Vec<i32>,
    /// The mark of the last note played, if any.
    pub note: Option<NoteMark>,
}

fn staff_y(step: i32) -> (y: i32)
    requires
        -100 <= step <= 100,
    ensures
        y == step_y(step as int),
{
    STAFF_CENTER_Y - step * (STAFF_LINE_SPACING / 2)
}

/// What `plan_staff` lays out for `last_note`: the five staff lines from the
/// bottom up and, for a note, its step, the height of its head, the heights of
/// its ledger lines and its sharp sign.
pub open spec fn lays_out_staff(last_note: Option<&str>, plan: StaffPlan) -> bool {
    &&& plan.line_ys@.len() == 5
    &&& forall|k: int| 0 <= k < 5 ==> plan.line_ys@[k] == STAFF_CENTER_Y - (k - 2) * STAFF_LINE_SPACING
    &&& (last_note is None <==> plan.note is None)
    &&& last_note matches Some(n) ==> {
        &&& plan.note matches Some(m)
        &&& m.step == staff_step(n@)
        &&& m.y == step_y(staff_step(n@) as int)
        &&& m.ledger_ys@.len() == ledger_steps(staff_step(n@) as int).len()
        &&& forall|k: int| 0 <= k < m.ledger_ys@.len()
            ==> m.ledger_ys@[k] == step_y(#[trigger] ledger_steps(staff_step(n@) as int)[k])
        &&& m.sharp == n@.contains('#')
    }
}

/// Lays out the staff canvas for the last note played (if any): the five
/// lines, the note head at the height of its step, the ledger lines it needs
/// and whether it carries a sharp.
pub fn plan_staff(last_note: Option<&str>) -> (plan: StaffPlan)
    requires
        last_note matches Some(n) ==> staff_step_defined(n),
    ensures
        lays_out_staff(last_note, plan),
{
    let mut line_ys: Vec<i32> = Vec::new();
    let mut i: i32 = -2;
    while i <= 2
        invariant
            -2 <= i <= 3,
            line_ys@.len() == i + 2,
            forall|k: int| 0 <= k < line_ys@.len() ==> line_ys@[k] == STAFF_CENTER_Y - (k - 2) * STAFF_LINE_SPACING,
        decreases 3 - i,
    {
        line_ys.push(STAFF_CENTER_Y - i * STAFF_LINE_SPACING);
        i = i + 1;
    }
    let note = match last_note {
        None => None,
        Some(n) => {
            let step: i32 = note_to_staff_step(n);
            let mut ledger_ys: Vec<i32> = Vec::new();
            if step <= -6 {
                if step <= -8 {
                    ledger_ys.push(staff_y(-8));
                }
                ledger_ys.push(staff_y(-6));
            } else if step >= 6 {
                ledger_ys.push(staff_y(6));
            }
            Some(NoteMark { step, y: staff_y(step), ledger_ys, sharp: check_accidental(n) })
        },
    };
    StaffPlan { line_ys, note }
}

// ---------------------------------------------------------------------------
// Laws of the staff layout
// ---------------------------------------------------------------------------

/// The note head's height is affine in its staff step: the middle line (step
/// 0) is at `STAFF_CENTER_Y`, and each step up raises the head by half a line
/// spacing.
pub proof fn lemma_note_head_height(last_note: Option<&str>, plan: StaffPlan)
    requires
        lays_out_staff(last_note, plan),
    ensures
        plan.note matches Some(m) ==> m.y == STAFF_CENTER_Y - m.step * (STAFF_LINE_SPACING / 2),
{
}

/// Two planned note heads are half a line spacing apart per staff step between
/// them; in particular neighbouring steps are 10 pixels apart.
pub proof fn lemma_note_heads_apart(
    note_a: Option<&str>,
    plan_a: StaffPlan,
    note_b: Option<&str>,
    plan_b: StaffPlan,
)
    requires
        lays_out_staff(note_a, plan_a),
        lays_out_staff(note_b, plan_b),
    ensures
        plan_a.note matches Some(a) ==> (plan_b.note matches Some(b) ==> a.y - b.y == (b.step
            - a.step) * (STAFF_LINE_SPACING / 2)),
{
    lemma_note_head_height(note_a, plan_a);
    lemma_note_head_height(note_b, plan_b);
}

/// Ledger lines: a note whose step lies strictly between -6 and 6 (F2 to B3,
/// with their sharps) gets none; below the staff a note gets the line of step
/// -6 (E2), and also that of step -8 (C2) when it reaches down to C2, drawn
/// from the lowest; above the staff a note gets the line of step 6 (C4).
pub proof fn lemma_ledger_lines(last_note: Option<&str>, plan: StaffPlan)
    requires
        lays_out_staff(last_note, plan),
    ensures
        plan.note matches Some(m) ==> {
            &&& -6 < m.step < 6 ==> m.ledger_ys@.len() == 0
            &&& m.step <= -8 ==> {
                &&& m.ledger_ys@.len() == 2
                &&& m.ledger_ys@[0] == STAFF_CENTER_Y + 8 * (STAFF_LINE_SPACING / 2)
                &&& m.ledger_ys@[1] == STAFF_CENTER_Y + 6 * (STAFF_LINE_SPACING / 2)
            }
            &&& -8 < m.step <= -6 ==> {
                &&& m.ledger_ys@.len() == 1
                &&& m.ledger_ys@[0] == STAFF_CENTER_Y + 6 * (STAFF_LINE_SPACING / 2)
            }
            &&& m.step >= 6 ==> {
                &&& m.ledger_ys@.len() == 1
                &&& m.ledger_ys@[0] == STAFF_CENTER_Y - 6 * (STAFF_LINE_SPACING / 2)
            }
        },
{
    if let Some(m) = plan.note {
        let steps: Seq<int> = ledger_steps(m.step as int);
        if m.step <= -8 {
            assert(m.ledger_ys@[0] == step_y(steps[0]));
            assert(m.ledger_ys@[1] == step_y(steps[1]));
        } else if m.step <= -6 {
            assert(m.ledger_ys@[0] == step_y(steps[0]));
        } else if m.step >= 6 {
            assert(m.ledger_ys@[0] == step_y(steps[0]));
        }
    }
}

} // verus!
