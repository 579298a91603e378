use piano_staff::audio::{play_note_audio, stop_note_audio, AudioState};

/// Plays `midi` with a context made by `ctx`, the voice `voice`, and returns
/// the voice handed back for fading, if any.
fn play<V>(state: &mut AudioState<u32, V>, midi: u8, ctx: u32, voice: V) -> Option<V> {
    let mut released = None;
    play_note_audio(state, midi, || ctx, |_| {}, |_, old| released = Some(old), |_, _| voice);
    released
}

#[test]
fn new_state_is_silent() {
    let state: AudioState<u32, String> = AudioState::new();
    assert!(state.context_ref().is_none());
    assert!(!state.is_playing(60));
}

#[test]
fn play_makes_context_once_and_stores_voice() {
    let mut state: AudioState<u32, String> = AudioState::new();
    let released = play_note_audio_built_on_context(&mut state, 60, 1);
    assert!(released.is_none());
    assert_eq!(state.context_ref(), Some(&1));
    assert!(state.is_playing(60));
    let released = play_note_audio_built_on_context(&mut state, 48, 2);
    assert!(released.is_none());
    assert_eq!(state.context_ref(), Some(&1));
    assert!(state.is_playing(48) && state.is_playing(60));
    assert_eq!(stop_note_audio(&mut state, 48), Some("voice 48 on 1".to_string()));
}

fn play_note_audio_built_on_context(
    state: &mut AudioState<u32, String>,
    midi: u8,
    ctx: u32,
) -> Option<String> {
    let mut released = None;
    play_note_audio(
        state,
        midi,
        || ctx,
        |_| {},
        |_, old| released = Some(old),
        |c: &u32, _| format!("voice {} on {}", midi, c),
    );
    released
}

#[test]
fn context_is_resumed_on_every_play() {
    let mut state: AudioState<u32, u8> = AudioState::new();
    let mut resumed = Vec::new();
    play_note_audio(&mut state, 40, || 3, |c: &u32| resumed.push(*c), |_, _| {}, |_, _| 1);
    play_note_audio(&mut state, 41, || 4, |c: &u32| resumed.push(*c), |_, _| {}, |_, _| 2);
    assert_eq!(resumed, vec![3, 3]);
}

#[test]
fn replaying_a_note_releases_its_old_voice_before_building() {
    let mut state: AudioState<u32, &str> = AudioState::new();
    play(&mut state, 50, 7, "first");
    let log = std::cell::RefCell::new(Vec::new());
    play_note_audio(
        &mut state,
        50,
        || 8,
        |_| log.borrow_mut().push("resume"),
        |_, old| {
            log.borrow_mut().push(old);
            old.len()
        },
        |_, receipt: Option<usize>| {
            assert_eq!(receipt, Some(5));
            log.borrow_mut().push("build");
            "second"
        },
    );
    assert_eq!(*log.borrow(), vec!["resume", "first", "build"]);
    assert_eq!(stop_note_audio(&mut state, 50), Some("second"));
}

#[test]
fn stop_after_play_silences_only_that_note() {
    let mut state: AudioState<u32, u8> = AudioState::new();
    play(&mut state, 40, 0, 40);
    play(&mut state, 41, 0, 41);
    assert_eq!(stop_note_audio(&mut state, 40), Some(40));
    assert!(!state.is_playing(40));
    assert!(state.is_playing(41));
    assert_eq!(state.context_ref(), Some(&0));
}

#[test]
fn stop_twice_is_stop_once() {
    let mut state: AudioState<u32, u8> = AudioState::new();
    play(&mut state, 40, 0, 1);
    assert_eq!(stop_note_audio(&mut state, 40), Some(1));
    assert_eq!(stop_note_audio(&mut state, 40), None);
    assert!(!state.is_playing(40));
}

#[test]
fn stop_without_any_note_keeps_no_context() {
    let mut state: AudioState<u32, u8> = AudioState::new();
    assert_eq!(stop_note_audio(&mut state, 60), None);
    assert!(state.context_ref().is_none());
}

#[test]
fn ensure_context_keeps_the_first() {
    let mut state: AudioState<u32, u8> = AudioState::new();
    let mut resumed = 0;
    state.ensure_context(|| 5, |_| resumed += 1);
    state.ensure_context(|| 6, |_| resumed += 1);
    assert_eq!(state.context_ref(), Some(&5));
    assert_eq!(resumed, 2);
}

#[test]
fn release_voice_for_note_takes_the_voice_out() {
    let mut state: AudioState<u32, u8> = AudioState::new();
    play_note_audio(&mut state, 44, || 0, |_| {}, |_, _| {}, |c: &u32, _| (*c as u8) + 9);
    assert_eq!(state.release_voice_for_note(44), Some(9));
    assert_eq!(state.release_voice_for_note(44), None);
}

#[test]
fn first_play_builds_without_a_release() {
    let mut state: AudioState<u32, u8> = AudioState::new();
    let mut seen = None;
    play_note_audio(&mut state, 44, || 0, |_| {}, |_, _| 1u8, |_, receipt: Option<u8>| {
        seen = Some(receipt);
        3
    });
    assert_eq!(seen, Some(None));
}
