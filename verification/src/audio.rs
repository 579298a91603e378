//! Bookkeeping of the voices that sound: at most one voice per MIDI note,
//! created on an audio context that is made once, on the first note played.
//! The state is generic over the audio context `C` and the voice `V`, which
//! the embedding program builds and schedules.
use std::collections::HashMap;
use vstd::prelude::*;

verus! {

broadcast use vstd::std_specs::hash::group_hash_axioms;

/// The audio state: the audio context, once made, and the voice sounding for
/// each MIDI note.
pub struct AudioState<C, V> {
    ctx: Option<C>,
    active_voices: HashMap<u8, V>,
}

impl<C, V> AudioState<C, V> {
    /// The audio context, once one was made.
    pub closed spec fn context(&self) -> Option<C> {
        self.ctx
    }

    /// The voice sounding for each note.
    pub closed spec fn voices(&self) -> Map<u8, V> {
        self.active_voices@
    }

    /// A voice only sounds on an audio context.
    pub open spec fn wf(&self) -> bool {
        forall|midi: u8| #[trigger] self.voices().contains_key(midi) ==> self.context() is Some
    }

    /// A state with no audio context and no voice.
    pub fn new() -> (state: Self)
        ensures
            state.wf(),
            state.context() is None,
            state.voices() == Map::<u8, V>::empty(),
    {
        AudioState { ctx: None, active_voices: HashMap::new() }
    }

    /// Makes the audio context with `create` unless one was made before (an
    /// existing context is kept), then wakes the context with `resume`.
    pub fn ensure_context<F: FnOnce() -> C, R: FnOnce(&C)>(&mut self, create: F, resume: R)
        requires
            old(self).wf(),
            old(self).context() is None ==> create.requires(()),
            forall|c: C| resume.requires((&c,)),
        ensures
            final(self).wf(),
            final(self).voices() == old(self).voices(),
            old(self).context() is Some ==> final(self).context() == old(self).context(),
            old(self).context() is None ==> (final(self).context() matches Some(c) && create.ensures(
                (),
                c,
            )),
            final(self).context() matches Some(c) && resume.ensures((&c,), ()),
    {
        if self.ctx.is_none() {
            let ctx = create();
            self.ctx = Some(ctx);
        }
        if let Some(ctx) = &self.ctx {
            resume(ctx);
        }
    }

    /// The audio context, once one was made.
    pub fn context_ref(&self) -> (ctx: Option<&C>)
        ensures
            match ctx {
                Some(c) => self.context() == Some(*c),
                None => self.context() is None,
            },
    {
        match &self.ctx {
            Some(c) => Some(c),
            None => None,
        }
    }

    /// Whether a voice sounds for `midi`.
    pub fn is_playing(&self, midi: u8) -> (playing: bool)
        ensures
            playing == self.voices().contains_key(midi),
    {
        self.active_voices.contains_key(&midi)
    }

    /// Takes the voice of `midi` out of the state and hands it back, to be
    /// faded out on the context; `None` when no voice sounds for `midi`.
    pub fn release_voice_for_note(&mut self, midi: u8) -> (released: Option<V>)
        requires
            old(self).wf(),
        ensures
            final(self).wf(),
            final(self).context() == old(self).context(),
            final(self).voices() == old(self).voices().remove(midi),
            old(self).voices().contains_key(midi) ==> {
                &&& released == Some(old(self).voices()[midi])
                &&& final(self).context() is Some
            },
            !old(self).voices().contains_key(midi) ==> released is None,
    {
        let released = self.active_voices.remove(&midi);
        assert forall|m: u8| #[trigger] self.voices().contains_key(m) implies self.context() is Some by {
            assert(old(self).voices().contains_key(m));
        }
        released
    }
}

/// Starts a voice for `midi`: makes the audio context with `create_context`
/// if there is none yet and wakes it with `resume_context`; then, if a voice
/// still sounds for `midi`, takes it out and hands it to `release_voice` to be
/// faded out; then stores the voice that `build_voice` makes on the context.
/// Other notes keep their voices.
///
/// `build_voice` receives what `release_voice` returned (`None` when no voice
/// was released), so the release comes before the new voice is built.
pub fn play_note_audio<
    C,
    V,
    T,
    F: FnOnce() -> C,
    R: FnOnce(&C),
    H: FnOnce(&C, V) -> T,
    G: FnOnce(&C, Option<T>) -> V,
>(
    state: &mut AudioState<C, V>,
    midi: u8,
    create_context: F,
    resume_context: R,
    release_voice: H,
    build_voice: G,
)
    requires
        old(state).wf(),
        old(state).context() is None ==> create_context.requires(()),
        forall|c: C| resume_context.requires((&c,)),
        forall|c: C, v: V| release_voice.requires((&c, v)),
        forall|c: C, t: Option<T>| build_voice.requires((&c, t)),
    ensures
        final(state).wf(),
        old(state).context() is Some ==> final(state).context() == old(state).context(),
        old(state).context() is None ==> (final(state).context() matches Some(c)
            && create_context.ensures((), c)),
        final(state).context() matches Some(c) && {
            &&& resume_context.ensures((&c,), ())
            &&& old(state).voices().contains_key(midi) ==> exists|t: T|
                #![trigger release_voice.ensures((&c, old(state).voices()[midi]), t)]
                release_voice.ensures((&c, old(state).voices()[midi]), t)
                    && build_voice.ensures((&c, Some(t)), final(state).voices()[midi])
            &&& !old(state).voices().contains_key(midi) ==> build_voice.ensures(
                (&c, None),
                final(state).voices()[midi],
            )
        },
        final(state).voices().contains_key(midi),
        final(state).voices().remove(midi) == old(state).voices().remove(midi),
        final(state).voices().dom() == old(state).voices().dom().insert(midi),
        final(state).voices().len() == old(state).voices().len() + if old(state).voices().contains_key(
            midi,
        ) {
            0int
        } else {
            1int
        },
{
    state.ensure_context(create_context, resume_context);
    let mut receipt: Option<T> = None;
    if state.is_playing(midi) {
        if let Some(voice) = state.release_voice_for_note(midi) {
            if let Some(ctx) = &state.ctx {
                receipt = Some(release_voice(ctx, voice));
            }
        }
    }
    let ghost released_with: Option<T> = receipt;
    if let Some(ctx) = &state.ctx {
        let voice = build_voice(ctx, receipt);
        state.active_voices.insert(midi, voice);
    }
    proof {
        assert(state.voices().remove(midi) =~= old(state).voices().remove(midi));
        lemma_play_one_voice_per_note(*old(state), *state, midi);
        if old(state).voices().contains_key(midi) {
            let t: T = released_with.unwrap();
            assert(release_voice.ensures((&state.context().unwrap(), old(state).voices()[midi]), t));
        }
    }
}

/// Silences `midi`: takes its voice out of the state and hands it back, to be
/// faded out; `None` when no voice sounds for `midi`. Other notes keep their
/// voices.
pub fn stop_note_audio<C, V>(state: &mut AudioState<C, V>, midi: u8) -> (released: Option<V>)
    requires
        old(state).wf(),
    ensures
        final(state).wf(),
        final(state).context() == old(state).context(),
        final(state).voices() == old(state).voices().remove(midi),
        old(state).voices().contains_key(midi) ==> {
            &&& released == Some(old(state).voices()[midi])
            &&& final(state).context() is Some
        },
        !old(state).voices().contains_key(midi) ==> released is None,
{
    state.release_voice_for_note(midi)
}

// ---------------------------------------------------------------------------
// Laws of the voice bookkeeping
// ---------------------------------------------------------------------------

/// Stopping a note right after playing it silences that note and gives every
/// other note back the voice it had before the play: `before` is a state,
/// `played` one that `play_note_audio` left from it and `stopped` one that
/// `stop_note_audio` left from `played`, as their contracts relate them.
pub proof fn lemma_stop_after_play<C, V>(
    before: AudioState<C, V>,
    played: AudioState<C, V>,
    stopped: AudioState<C, V>,
    midi: u8,
)
    requires
        played.voices().contains_key(midi),
        played.voices().remove(midi) == before.voices().remove(midi),
        stopped.voices() == played.voices().remove(midi),
    ensures
        stopped.voices() == before.voices().remove(midi),
        !stopped.voices().contains_key(midi),
{
}

/// Stopping a note twice is stopping it once: the second stop finds no voice
/// to hand back and leaves the voices as they were.
pub proof fn lemma_stop_idempotent<C, V>(
    before: AudioState<C, V>,
    once: AudioState<C, V>,
    twice: AudioState<C, V>,
    midi: u8,
)
    requires
        once.voices() == before.voices().remove(midi),
        twice.voices() == once.voices().remove(midi),
    ensures
        !once.voices().contains_key(midi),
        twice.voices() == once.voices(),
{
    assert(twice.voices() =~= once.voices());
}

/// Playing a note never adds a second voice for it: the notes that sound
/// after a play are those that sounded before, plus the note played.
pub proof fn lemma_play_one_voice_per_note<C, V>(
    before: AudioState<C, V>,
    played: AudioState<C, V>,
    midi: u8,
)
    requires
        played.voices().contains_key(midi),
        played.voices().remove(midi) == before.voices().remove(midi),
    ensures
        played.voices().dom() == before.voices().dom().insert(midi),
        played.voices().len() == before.voices().len() + if before.voices().contains_key(midi) {
            0int
        } else {
            1int
        },
{
    assert forall|m: u8| #[trigger] played.voices().dom().contains(m) == before.voices().dom().insert(midi).contains(m) by {
        if m != midi {
            assert(played.voices().remove(midi).contains_key(m) == played.voices().contains_key(m));
            assert(before.voices().remove(midi).contains_key(m) == before.voices().contains_key(m));
        }
    }
    assert(played.voices().dom() =~= before.voices().dom().insert(midi));
    assert(before.voices().dom().finite());
}

} // verus!
