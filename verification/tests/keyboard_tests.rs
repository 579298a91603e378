use piano_staff::keyboard::{generate_keys, midi_to_step, staff_view};

#[test]
fn keys_span_c2_to_c4() {
    let keys = generate_keys();
    assert_eq!(keys.len(), 25);
    for (i, k) in keys.iter().enumerate() {
        assert_eq!(k.midi as usize, 36 + i);
    }
    assert_eq!(keys.iter().filter(|k| k.is_black).count(), 10);
    assert_eq!(keys.iter().filter(|k| !k.is_black).count(), 15);
}

#[test]
fn key_columns() {
    let keys = generate_keys();
    let expected: [(u8, bool, usize); 25] = [
        (36, false, 0), (37, true, 0), (38, false, 1), (39, true, 1), (40, false, 2),
        (41, false, 3), (42, true, 3), (43, false, 4), (44, true, 4), (45, false, 5),
        (46, true, 5), (47, false, 6), (48, false, 7), (49, true, 7), (50, false, 8),
        (51, true, 8), (52, false, 9), (53, false, 10), (54, true, 10), (55, false, 11),
        (56, true, 11), (57, false, 12), (58, true, 12), (59, false, 13), (60, false, 14),
    ];
    for (k, (midi, black, col)) in keys.iter().zip(expected) {
        assert_eq!((k.midi, k.is_black, k.white_idx), (midi, black, col));
    }
}

#[test]
fn black_key_offsets() {
    let keys = generate_keys();
    assert_eq!(keys[0].left_px(), None);
    assert_eq!(keys[1].left_px(), Some(28));
    assert_eq!(keys[3].left_px(), Some(68));
    assert_eq!(keys[22].left_px(), Some(12 * 40 + 28));
}

#[test]
fn c2_is_step_zero() {
    assert_eq!(midi_to_step(36), (0, false));
    assert_eq!(midi_to_step(37), (0, true));
    assert_eq!(midi_to_step(38), (1, false));
    assert_eq!(midi_to_step(47), (6, false));
    assert_eq!(midi_to_step(48), (7, false));
    assert_eq!(midi_to_step(60), (14, false));
}

#[test]
fn steps_below_c2_count_down() {
    assert_eq!(midi_to_step(35), (-1, false)); // B1
    assert_eq!(midi_to_step(34), (-2, true)); // A#1
    assert_eq!(midi_to_step(33), (-2, false)); // A1
    assert_eq!(midi_to_step(25), (-7, true)); // C#1
    assert_eq!(midi_to_step(24), (-7, false)); // C1
    assert_eq!(midi_to_step(23), (-8, false)); // B0
    assert_eq!(midi_to_step(12), (-14, false)); // C0
    assert_eq!(midi_to_step(1), (-21, true));
    assert_eq!(midi_to_step(0), (-21, false));
}

#[test]
fn steps_far_above() {
    assert_eq!(midi_to_step(255), (127, true));
    assert_eq!(midi_to_step(254), (127, false));
}

#[test]
fn octave_adds_seven_steps() {
    for m in 0u8..=243 {
        let (lo, lo_sharp) = midi_to_step(m);
        let (hi, hi_sharp) = midi_to_step(m + 12);
        assert_eq!(hi, lo + 7);
        assert_eq!(hi_sharp, lo_sharp);
    }
}

#[test]
fn steps_rise_by_at_most_one_per_semitone() {
    for m in 0u8..255 {
        let (lo, _) = midi_to_step(m);
        let (hi, hi_sharp) = midi_to_step(m + 1);
        assert_eq!(hi, if hi_sharp { lo } else { lo + 1 }, "{}", m);
    }
}

#[test]
fn sharps_share_natural_step_and_black_keys_are_sharps() {
    for k in generate_keys() {
        let (step, sharp) = midi_to_step(k.midi);
        assert_eq!(sharp, k.is_black);
        if sharp {
            assert_eq!(midi_to_step(k.midi - 1), (step, false));
        }
    }
}

#[test]
fn staff_anchored_on_g2_and_a3() {
    let g2 = staff_view(Some(43));
    assert_eq!(g2.note_y, 140);
    let a3 = staff_view(Some(57));
    assert_eq!(a3.note_y, 60);
    let d3 = staff_view(Some(50));
    assert_eq!(d3.note_y, 100);
    let a2 = staff_view(Some(45));
    assert_eq!(a2.note_y, 130);
}

#[test]
fn empty_staff_view() {
    let v = staff_view(None);
    assert_eq!(v.note_y, 100);
    assert_eq!(v.sharp_y, 107);
    assert!(!v.note_visible && !v.sharp_visible);
    assert!(!v.ledger_40_visible && !v.ledger_160_visible && !v.ledger_180_visible);
}

#[test]
fn ledger_lines_of_staff_view() {
    let c2 = staff_view(Some(36));
    assert_eq!(c2.note_y, 180);
    assert!(c2.ledger_160_visible && c2.ledger_180_visible && !c2.ledger_40_visible);
    let e2 = staff_view(Some(40));
    assert_eq!(e2.note_y, 160);
    assert!(e2.ledger_160_visible && !e2.ledger_180_visible);
    let f2 = staff_view(Some(41));
    assert!(!f2.ledger_160_visible);
    let c4 = staff_view(Some(60));
    assert_eq!(c4.note_y, 40);
    assert!(c4.ledger_40_visible && !c4.ledger_160_visible);
}

#[test]
fn sharp_sign_of_staff_view() {
    let cs2 = staff_view(Some(37));
    assert!(cs2.note_visible && cs2.sharp_visible);
    assert_eq!(cs2.note_y, 180);
    assert_eq!(cs2.sharp_y, 187);
    assert!(!staff_view(Some(38)).sharp_visible);
}
