# piano_staff

The logic of a bass-clef piano for the browser, verified with Verus.

- `src/notes.rs`: pitches of the note names C2..C4 (in hundredths of a hertz),
  their staff steps, and the layout of the canvas staff for the last note.
- `src/keyboard.rs`: the keys from MIDI 36 to 60, the diatonic staff step of a
  MIDI note, what the SVG staff shows for the active note, and the laws that
  tie steps, key colours, names and pitches together.
- `src/audio.rs`: the voices that sound, at most one per note, on an audio
  context made once.
- `app/`: the Leptos and Yew front ends and the Web Audio graphs, which render
  and play what the library computes.
