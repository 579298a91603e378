//! The logic of a bass-clef piano: note names and staff positions, the piano
//! keyboard from C2 to C4, and the bookkeeping of the voices that sound.
pub mod notes;
pub mod keyboard;
pub mod audio;
