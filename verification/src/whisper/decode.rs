//! How a piece of audio is decoded, and what is made of the decoder's output.
use vstd::prelude::*;
use crate::text::{chars_of, is_blank, opt_str, opt_text, same_text, texts, trim, trimmed};
use crate::whisper::cleanup::{clean_repetitive_text, cleaned};
use crate::words::{has_prefix, joined, one_space, starts_with};

verus! {

/// Which of the decoder's long-lived states a decode uses. The final and the
/// partial path run at the same time, so each has its own.
#[derive(Debug, Clone, Copy, PartialEq, Eq, Hash, Structural)]
pub enum DecodePurpose {
    /// The committed transcript.
    Final,
    /// A discarded preview of what is being said.
    Partial,
}

impl Default for DecodePurpose {
    /// The committed transcript.
    fn default() -> (r: Self)
        ensures
            r == DecodePurpose::Final,
    {
        DecodePurpose::Final
    }
}

/// What a single decode can ask for.
#[derive(Debug, Clone, Copy, PartialEq, Eq, Structural)]
pub struct TranscribeOptions {
    /// An upper bound on the number of threads.
    pub max_threads: Option<i32>,
    /// Decode greedily, which is faster, in place of a beam search.
    pub greedy: bool,
    /// Which state to decode on.
    pub purpose: DecodePurpose,
}

impl Default for TranscribeOptions {
    /// All threads, beam search, the committed transcript.
    fn default() -> (r: Self)
        ensures
            r == (TranscribeOptions {
                max_threads: None,
                greedy: false,
                purpose: DecodePurpose::Final,
            }),
    {
        TranscribeOptions { max_threads: None, greedy: false, purpose: DecodePurpose::Final }
    }
}

/// The smaller of the default and what was asked for, but at least one.
pub open spec fn threads_used(default: int, requested: Option<i32>) -> int {
    let capped = match requested {
        Some(n) => if n < default {
            n as int
        } else {
            default
        },
        None => default,
    };
    if capped < 1 {
        1
    } else {
        capped
    }
}

/// Caps `default` at `requested`, and never goes below one.
pub fn effective_threads(default: i32, requested: Option<i32>) -> (r: i32)
    ensures
        r == threads_used(default as int, requested),
{
    let capped: i32 = match requested {
        Some(n) => if n < default {
            n
        } else {
            default
        },
        None => default,
    };
    if capped < 1 {
        1
    } else {
        capped
    }
}

/// Asking for threads never gets more than the default, nor fewer than one.
pub proof fn thread_budget_is_bounded(default: int, requested: Option<i32>)
    ensures
        threads_used(default, requested) >= 1,
        default >= 1 ==> threads_used(default, requested) <= default,
        requested matches Some(n) ==> (n >= 1 ==> threads_used(default, requested) <= n),
{
}

// ---------------------------------------------------------------------------
// Decoder states
// ---------------------------------------------------------------------------

/// One decoder state for each purpose, made when it is first asked for.
pub struct StatePool<T> {
    pub final_state: Option<T>,
    pub partial_state: Option<T>,
}

impl<T> StatePool<T> {
    /// The state for `purpose`, if it was made.
    pub open spec fn slot(self, purpose: DecodePurpose) -> Option<T> {
        match purpose {
            DecodePurpose::Final => self.final_state,
            DecodePurpose::Partial => self.partial_state,
        }
    }

    /// A pool without states.
    pub fn new() -> (r: Self)
        ensures
            r == (StatePool::<T> { final_state: None, partial_state: None }),
    {
        StatePool { final_state: None, partial_state: None }
    }

    /// The state for `purpose`, if it was made.
    pub fn get(&self, purpose: DecodePurpose) -> (r: Option<&T>)
        ensures
            match r {
                Some(s) => self.slot(purpose) == Some(*s),
                None => self.slot(purpose) is None,
            },
    {
        match purpose {
            DecodePurpose::Final => self.final_state.as_ref(),
            DecodePurpose::Partial => self.partial_state.as_ref(),
        }
    }
}

/// The other purpose.
pub open spec fn other_purpose(purpose: DecodePurpose) -> DecodePurpose {
    match purpose {
        DecodePurpose::Final => DecodePurpose::Partial,
        DecodePurpose::Partial => DecodePurpose::Final,
    }
}

/// The state for `purpose`: the one that is there, else one that `make` makes
/// and that stays for the next time. A state that cannot be made leaves the
/// pool as it was.
pub fn pool_get_or_insert<T: Clone, E, F: FnOnce() -> Result<T, E>>(
    pool: &mut StatePool<T>,
    purpose: DecodePurpose,
    make: F,
) -> (r: Result<T, E>)
    requires
        make.requires(()),
    ensures
        final(pool).slot(other_purpose(purpose)) == old(pool).slot(other_purpose(purpose)),
        match old(pool).slot(purpose) {
            Some(there) => final(pool).slot(purpose) == Some(there) && (r matches Ok(s) && cloned(
                there,
                s,
            )),
            None => exists|made: Result<T, E>| #[trigger]
                make.ensures((), made) && match made {
                    Ok(state) => final(pool).slot(purpose) == Some(state) && (r matches Ok(s)
                        && cloned(state, s)),
                    Err(e) => final(pool).slot(purpose) is None && (r matches Err(f) && f == e),
                },
        },
{
    match purpose {
        DecodePurpose::Final => {
            if let Some(there) = &pool.final_state {
                return Ok(there.clone());
            }
        },
        DecodePurpose::Partial => {
            if let Some(there) = &pool.partial_state {
                return Ok(there.clone());
            }
        },
    }
    match make() {
        Ok(state) => {
            let handle = state.clone();
            match purpose {
                DecodePurpose::Final => {
                    pool.final_state = Some(state);
                },
                DecodePurpose::Partial => {
                    pool.partial_state = Some(state);
                },
            }
            Ok(handle)
        },
        Err(e) => Err(e),
    }
}

// ---------------------------------------------------------------------------
// Parameters
// ---------------------------------------------------------------------------

/// The language to decode in, and whether to translate to English: nothing
/// said and "auto" detect the language, "auto-translate" does so and
/// translates, anything else is a language code.
pub open spec fn language_choice(language: Option<Seq<char>>) -> (Option<Seq<char>>, bool) {
    match language {
        None => (None, false),
        Some(code) => if code == "auto"@ {
            (None, false)
        } else if code == "auto-translate"@ {
            (None, true)
        } else {
            (Some(code), false)
        },
    }
}

/// The language to decode in, and whether to translate to English.
pub fn choose_language(language: Option<&str>) -> (r: (Option<String>, bool))
    ensures
        (opt_text(r.0), r.1) == language_choice(opt_str(language)),
{
    match language {
        None => (None, false),
        Some(code) => if same_text(code, "auto") {
            (None, false)
        } else if same_text(code, "auto-translate") {
            (None, true)
        } else {
            (Some(code.to_owned()), false)
        },
    }
}

/// `s` with a space for every NUL.
pub open spec fn without_nuls(s: Seq<char>) -> Seq<char> {
    s.map_values(|c: char| if c == '\0' { ' ' } else { c })
}

/// The prompt to condition the decoder on: free of NULs, and none that is
/// blank.
pub open spec fn prompt_for(context: Option<Seq<char>>) -> Option<Seq<char>> {
    match context {
        Some(p) => if trimmed(without_nuls(p)).len() == 0 {
            None
        } else {
            Some(without_nuls(p))
        },
        None => None,
    }
}

/// The prompt to condition the decoder on.
pub fn sanitized_prompt(context: Option<&str>) -> (r: Option<String>)
    ensures
        opt_text(r) == prompt_for(opt_str(context)),
{
    match context {
        Some(p) => {
            let cs = chars_of(p);
            let mut out = String::new();
            for i in 0..cs.len()
                invariant
                    cs@ == p@,
                    out@ == without_nuls(p@).take(i as int),
            {
                let c = if cs[i] == '\0' {
                    ' '
                } else {
                    cs[i]
                };
                out.push(c);
                assert(without_nuls(p@).take(i + 1) =~= without_nuls(p@).take(i as int).push(c));
            }
            assert(without_nuls(p@).take(p@.len() as int) =~= without_nuls(p@));
            if is_blank(&out) {
                None
            } else {
                Some(out)
            }
        },
        None => None,
    }
}

/// A prompt never holds a NUL.
pub proof fn prompts_hold_no_nul(context: Seq<char>)
    ensures
        prompt_for(Some(context)) matches Some(p) ==> !p.contains('\0'),
{
    if let Some(p) = prompt_for(Some(context)) {
        assert forall|i: int| 0 <= i < p.len() implies p[i] != '\0' by {
            assert(p[i] == without_nuls(context)[i]);
        }
    }
}

/// Whether a piece of audio of so many samples, at 16 000 a second, counts as
/// partial: it lasts less than fifteen seconds.
pub fn is_partial(samples: usize) -> (r: bool)
    ensures
        r == (samples < 15 * 16_000),
{
    samples < 240_000
}

/// How the decoder searches.
#[derive(Debug, Clone, Copy, PartialEq, Eq, Structural)]
pub enum Sampling {
    Greedy { best_of: i32 },
    /// A beam of so many candidates, and its patience in hundredths.
    Beam { size: i32, patience: i32 },
}

/// How the decoder searches: greedily where that was asked for, else with the
/// beam that the hardware allows.
pub fn sampling(options: &TranscribeOptions, beam_size: i32) -> (r: Sampling)
    ensures
        r == if options.greedy {
            Sampling::Greedy { best_of: 1 }
        } else {
            Sampling::Beam { size: beam_size, patience: 100 }
        },
{
    if options.greedy {
        Sampling::Greedy { best_of: 1 }
    } else {
        Sampling::Beam { size: beam_size, patience: 100 }
    }
}

/// Everything that a decode is set up with.
#[derive(Debug, Clone, PartialEq, Eq)]
pub struct DecodePlan {
    pub sampling: Sampling,
    pub threads: i32,
    pub language: Option<String>,
    pub translate: bool,
    pub prompt: Option<String>,
    pub partial: bool,
    /// The bits of the temperature that the hardware allows.
    pub temperature: u32,
    pub fixed: FixedSettings,
}

/// What is the same in every decode.
#[derive(Debug, Clone, Copy, PartialEq, Eq, Structural)]
pub struct FixedSettings {
    /// No timestamp tokens. With them the decoder may skip a whole piece of
    /// audio that it has already put into words.
    pub no_timestamps: bool,
    pub token_timestamps: bool,
    pub print_special: bool,
    pub print_progress: bool,
    pub print_realtime: bool,
    pub print_timestamps: bool,
    pub suppress_blank: bool,
    /// Whether sounds that are no speech are left out.
    pub suppress_nst: bool,
    /// The latest start of the first segment, in hundredths of a second.
    pub max_initial_ts: i32,
    /// In hundredths.
    pub entropy_thold: i32,
    /// In hundredths.
    pub logprob_thold: i32,
    /// In hundredths: low enough for quiet speech.
    pub no_speech_thold: i32,
    /// The most characters of a segment.
    pub max_len: i32,
    pub single_segment: bool,
}

/// What is the same in every decode.
pub open spec fn fixed_settings() -> FixedSettings {
    FixedSettings {
        no_timestamps: true,
        token_timestamps: true,
        print_special: false,
        print_progress: false,
        print_realtime: false,
        print_timestamps: false,
        suppress_blank: true,
        suppress_nst: true,
        max_initial_ts: 100,
        entropy_thold: 240,
        logprob_thold: -100i32,
        no_speech_thold: 55,
        max_len: 200,
        single_segment: false,
    }
}

/// Sets up a decode of so many samples. `hardware_threads` is what the
/// hardware suggests, four where it suggests nothing, and `temperature` holds the
/// bits of the temperature for it.
pub fn plan_decode(
    samples: usize,
    language: Option<&str>,
    context_prompt: Option<&str>,
    options: &TranscribeOptions,
    beam_size: i32,
    hardware_threads: Option<i32>,
    temperature: u32,
) -> (r: DecodePlan)
    ensures
        r.sampling == if options.greedy {
            Sampling::Greedy { best_of: 1 }
        } else {
            Sampling::Beam { size: beam_size, patience: 100 }
        },
        r.threads == threads_used(
            match hardware_threads {
                Some(n) => n as int,
                None => 4,
            },
            options.max_threads,
        ),
        (opt_text(r.language), r.translate) == language_choice(opt_str(language)),
        opt_text(r.prompt) == prompt_for(opt_str(context_prompt)),
        r.partial == (samples < 15 * 16_000),
        r.temperature == temperature,
        r.fixed == fixed_settings(),
{
    let default: i32 = match hardware_threads {
        Some(n) => n,
        None => 4,
    };
    let (language, translate) = choose_language(language);
    DecodePlan {
        sampling: sampling(options, beam_size),
        threads: effective_threads(default, options.max_threads),
        language,
        translate,
        prompt: sanitized_prompt(context_prompt),
        partial: is_partial(samples),
        temperature,
        fixed: FixedSettings {
            no_timestamps: true,
            token_timestamps: true,
            print_special: false,
            print_progress: false,
            print_realtime: false,
            print_timestamps: false,
            suppress_blank: true,
            suppress_nst: true,
            max_initial_ts: 100,
            entropy_thold: 240,
            logprob_thold: -100,
            no_speech_thold: 55,
            max_len: 200,
            single_segment: false,
        },
    }
}

/// The fewest samples that the decoder takes without dropping the input: a
/// little over a second.
pub const WHISPER_MIN_INPUT_SAMPLES: usize = 17_600;

/// `audio` with silence behind it up to [`WHISPER_MIN_INPUT_SAMPLES`].
pub open spec fn padded<S>(audio: Seq<S>, silence: S) -> Seq<S> {
    if audio.len() < WHISPER_MIN_INPUT_SAMPLES {
        audio + Seq::new(
            (WHISPER_MIN_INPUT_SAMPLES - audio.len()) as nat,
            |i: int| silence,
        )
    } else {
        audio
    }
}

/// `audio` with silence behind it up to [`WHISPER_MIN_INPUT_SAMPLES`].
pub fn pad_to_min_whisper_input<S: Copy>(audio: Vec<S>, silence: S) -> (r: Vec<S>)
    ensures
        r@ == padded(audio@, silence),
{
    let mut out = audio;
    let ghost start = out@;
    while out.len() < WHISPER_MIN_INPUT_SAMPLES
        invariant
            start.len() <= out@.len(),
            out@ == start + Seq::new((out@.len() - start.len()) as nat, |i: int| silence),
            out@.len() <= WHISPER_MIN_INPUT_SAMPLES || out@.len() == start.len(),
        decreases WHISPER_MIN_INPUT_SAMPLES - out@.len(),
    {
        out.push(silence);
        assert(out@ =~= start + Seq::new((out@.len() - start.len()) as nat, |i: int| silence));
    }
    assert(out@ =~= padded(start, silence));
    out
}

// ---------------------------------------------------------------------------
// Output
// ---------------------------------------------------------------------------

/// Whether a token is one of the decoder's control tokens, or no text at all;
/// such a token says nothing about how sure the decoder was.
pub open spec fn control_token(token: Option<Seq<char>>) -> bool {
    match token {
        Some(t) => has_prefix(t, "<|"@) || has_prefix(t, "[_"@),
        None => true,
    }
}

/// Whether a token is one of the decoder's control tokens, or no text at all.
pub fn is_special_token(token: Option<&str>) -> (r: bool)
    ensures
        r == control_token(opt_str(token)),
{
    match token {
        Some(t) => starts_with(t, "<|") || starts_with(t, "[_"),
        None => true,
    }
}

/// The segments that say something, trimmed.
pub open spec fn spoken(segments: Seq<Seq<char>>) -> Seq<Seq<char>>
    decreases segments.len(),
{
    if segments.len() == 0 {
        segments
    } else {
        let before = spoken(segments.drop_last());
        let last = trimmed(segments.last());
        if last.len() == 0 {
            before
        } else {
            before.push(last)
        }
    }
}

/// The text of a decode: its segments, trimmed, with single spaces between
/// those that say something.
pub open spec fn segments_text(segments: Seq<Seq<char>>) -> Seq<char> {
    joined(spoken(segments), one_space())
}

pub(crate) proof fn lemma_spoken_not_empty(segments: Seq<Seq<char>>)
    ensures
        forall|i: int| 0 <= i < spoken(segments).len() ==> (#[trigger] spoken(segments)[i]).len()
            > 0,
        spoken(segments).len() > 0 <==> segments_text(segments).len() > 0,
    decreases segments.len(),
{
    if segments.len() > 0 {
        lemma_spoken_not_empty(segments.drop_last());
        let before = spoken(segments.drop_last());
        let all = spoken(segments);
        if all.len() > before.len() {
            assert(all.drop_last() =~= before);
            assert forall|i: int| 0 <= i < all.len() implies (#[trigger] all[i]).len() > 0 by {
                if i < before.len() {
                    assert(all[i] == before[i]);
                }
            }
        }
    }
}

/// The text of a decode.
pub fn join_segments(segments: &Vec<String>) -> (r: String)
    ensures
        r@ == segments_text(texts(segments@)),
{
    let mut out = String::new();
    let ghost all = texts(segments@);
    for i in 0..segments.len()
        invariant
            all == texts(segments@),
            out@ == segments_text(all.take(i as int)),
    {
        let ghost next = all.take(i + 1);
        let part = trim(&segments[i]);
        proof {
            assert(next.drop_last() =~= all.take(i as int));
            assert(next.last() == segments@[i as int]@);
            lemma_spoken_not_empty(all.take(i as int));
        }
        if !part.as_str().is_empty() {
            let ghost before = spoken(all.take(i as int));
            proof {
                assert(spoken(next) == before.push(part@));
                assert(before.push(part@).drop_last() =~= before);
            }
            if !out.as_str().is_empty() {
                out.push(' ');
            }
            out.append(&part);
            proof {
                if before.len() > 0 {
                    assert(out@ =~= joined(before, one_space()) + one_space() + part@);
                } else {
                    assert(out@ =~= part@);
                }
            }
        }
    }
    assert(all.take(all.len() as int) =~= all);
    out
}

/// The transcript of a decode, cleaned.
pub fn transcript_of(segments: &Vec<String>) -> (r: String)
    ensures
        r@ == cleaned(trimmed(segments_text(texts(segments@)))),
{
    let text = join_segments(segments);
    let text = trim(&text);
    clean_repetitive_text(&text)
}

} // verus!
