//! Cleaning recognised text of what is no speech, and of words and phrases
//! said over and over.
use vstd::prelude::*;
use vstd::utf8::encode_utf8;
use crate::numbers::{is_over_seven_tenths, over_seven_tenths};
use crate::text::{chars_of, same_text, texts};
use crate::whisper::ellipses::{strip_continuation_ellipses, unellipsed};
use crate::words::{contains, has_infix, is_word, join, joined, lowercase, one_space, split_words, splitting_undoes_joining, to_lowercase, words_are_words, words_of};

verus! {

// ---------------------------------------------------------------------------
// Words said over and over
// ---------------------------------------------------------------------------

/// `ws` with every run of one word made that word once.
pub open spec fn once_each(ws: Seq<Seq<char>>) -> Seq<Seq<char>>
    decreases ws.len(),
{
    if ws.len() < 2 {
        ws
    } else if ws[0] == ws[1] {
        once_each(ws.subrange(1, ws.len() as int))
    } else {
        seq![ws[0]] + once_each(ws.subrange(1, ws.len() as int))
    }
}

/// Whether no word stands twice in a row.
pub open spec fn no_stutter(ws: Seq<Seq<char>>) -> bool {
    forall|i: int| 0 <= i < ws.len() - 1 ==> #[trigger] ws[i] != ws[i + 1]
}

pub(crate) proof fn lemma_once_each(ws: Seq<Seq<char>>)
    ensures
        no_stutter(once_each(ws)),
        once_each(ws).len() <= ws.len(),
        ws.len() > 0 ==> once_each(ws).len() > 0 && once_each(ws)[0] == ws[0],
        forall|i: int| 0 <= i < once_each(ws).len() ==> ws.contains(#[trigger] once_each(ws)[i]),
    decreases ws.len(),
{
    if ws.len() >= 2 {
        let rest = ws.subrange(1, ws.len() as int);
        lemma_once_each(rest);
        let r = once_each(ws);
        let t = once_each(rest);
        assert forall|i: int| 0 <= i < r.len() implies ws.contains(#[trigger] r[i]) by {
            let w = if ws[0] == ws[1] {
                t[i]
            } else if i == 0 {
                ws[0]
            } else {
                t[i - 1]
            };
            assert(r[i] == w);
            if rest.contains(w) {
                let k = choose|k: int| 0 <= k < rest.len() && rest[k] == w;
                assert(ws[k + 1] == w);
            } else {
                assert(ws[0] == w);
            }
        }
        if ws[0] != ws[1] {
            assert forall|i: int| 0 <= i < r.len() - 1 implies #[trigger] r[i] != r[i + 1] by {
                if i == 0 {
                    assert(r[1] == t[0]);
                } else {
                    assert(r[i] == t[i - 1]);
                    assert(r[i + 1] == t[i]);
                    assert(t[i - 1] != t[i - 1 + 1]);
                }
            }
        }
    }
}

proof fn lemma_skip_run(ws: Seq<Seq<char>>, n: int)
    requires
        0 < n <= ws.len(),
        forall|i: int| 0 <= i < n ==> #[trigger] ws[i] == ws[0],
        n < ws.len() ==> ws[n] != ws[0],
    ensures
        once_each(ws) == seq![ws[0]] + once_each(ws.subrange(n, ws.len() as int)),
    decreases n,
{
    if ws.len() == 1 {
        assert(once_each(ws.subrange(1, 1)) =~= Seq::<Seq<char>>::empty());
        assert(once_each(ws) =~= seq![ws[0]] + once_each(ws.subrange(1, 1)));
    } else if n > 1 {
        let rest = ws.subrange(1, ws.len() as int);
        assert(ws[1] == ws[0]);
        assert forall|i: int| 0 <= i < n - 1 implies #[trigger] rest[i] == rest[0] by {
            assert(rest[i] == ws[i + 1]);
        }
        lemma_skip_run(rest, n - 1);
        assert(rest.subrange(n - 1, rest.len() as int) =~= ws.subrange(n, ws.len() as int));
    }
}

/// Keeps one of every run of the same word.
pub fn remove_word_repetitions(words: &Vec<String>) -> (r: Vec<String>)
    ensures
        texts(r@) == once_each(texts(words@)),
{
    let n = words.len();
    let ghost all = texts(words@);
    let mut out: Vec<String> = Vec::new();
    let mut i: usize = 0;
    assert(all.subrange(0, n as int) =~= all);
    assert(texts(out@) + once_each(all) =~= once_each(all));
    while i < n
        invariant
            n == words@.len(),
            all == texts(words@),
            i <= n,
            texts(out@) + once_each(all.subrange(i as int, n as int)) == once_each(all),
        decreases n - i,
    {
        let ghost here = all.subrange(i as int, n as int);
        let ghost before = out@;
        let mut run: usize = 1;
        while i + run < n && same_text(&words[i + run], &words[i])
            invariant
                n == words@.len(),
                all == texts(words@),
                i < n,
                1 <= run <= n - i,
                here == all.subrange(i as int, n as int),
                forall|k: int| 0 <= k < run ==> #[trigger] here[k] == here[0],
            ensures
                1 <= run <= n - i,
                forall|k: int| 0 <= k < run ==> #[trigger] here[k] == here[0],
                run < here.len() ==> here[run as int] != here[0],
            decreases n - i - run,
        {
            assert(here[run as int] == words@[i + run]@);
            assert(here[0] == words@[i as int]@);
            run += 1;
        }
        proof {
            lemma_skip_run(here, run as int);
            assert(here.subrange(run as int, here.len() as int) =~= all.subrange(
                i + run,
                n as int,
            ));
        }
        out.push(words[i].clone());
        proof {
            assert(texts(out@) =~= texts(before).push(here[0]));
            let tail = once_each(all.subrange(i + run, n as int));
            assert(texts(before) + (seq![here[0]] + tail) =~= texts(out@) + tail);
        }
        i += run;
    }
    assert(all.subrange(n as int, n as int) =~= Seq::<Seq<char>>::empty());
    assert(texts(out@) + Seq::<Seq<char>>::empty() =~= texts(out@));
    out
}

// ---------------------------------------------------------------------------
// Phrases said twice
// ---------------------------------------------------------------------------

/// Whether `ws` starts with a phrase of `n` words said twice.
pub open spec fn said_twice(ws: Seq<Seq<char>>, n: int) -> bool {
    0 < n && 2 * n <= ws.len() && ws.subrange(0, n) == ws.subrange(n, 2 * n)
}

/// The length of the shortest phrase of `from` to five words that `ws` starts
/// with twice; zero where there is none.
pub open spec fn twice_from(ws: Seq<Seq<char>>, from: int) -> int
    decreases 6 - from,
{
    if from > 5 {
        0
    } else if said_twice(ws, from) {
        from
    } else {
        twice_from(ws, from + 1)
    }
}

/// The length of the shortest phrase of two to five words that `ws` starts
/// with twice; zero where there is none.
pub open spec fn twice_len(ws: Seq<Seq<char>>) -> int {
    twice_from(ws, 2)
}

pub(crate) proof fn lemma_twice_from(ws: Seq<Seq<char>>, from: int)
    requires
        2 <= from <= 6,
    ensures
        twice_from(ws, from) == 0 || (from <= twice_from(ws, from) <= 5 && said_twice(
            ws,
            twice_from(ws, from),
        )),
    decreases 6 - from,
{
    if from <= 5 && !said_twice(ws, from) {
        lemma_twice_from(ws, from + 1);
    }
}

/// `ws`, read from the start, with every phrase said twice in a row said once.
pub open spec fn phrases_once(ws: Seq<Seq<char>>) -> Seq<Seq<char>>
    decreases ws.len(),
{
    if ws.len() == 0 {
        ws
    } else {
        let n = twice_len(ws);
        if 0 < n && 2 * n <= ws.len() {
            ws.subrange(0, n) + phrases_once(ws.subrange(2 * n, ws.len() as int))
        } else {
            seq![ws[0]] + phrases_once(ws.subrange(1, ws.len() as int))
        }
    }
}

/// Fewer than four words hold no phrase twice, and stay as they are.
pub proof fn short_texts_keep_their_phrases(ws: Seq<Seq<char>>)
    requires
        ws.len() < 4,
    ensures
        phrases_once(ws) == ws,
    decreases ws.len(),
{
    if ws.len() > 0 {
        lemma_twice_from(ws, 2);
        let rest = ws.subrange(1, ws.len() as int);
        short_texts_keep_their_phrases(rest);
        assert(seq![ws[0]] + rest =~= ws);
    }
}

pub(crate) proof fn lemma_phrases_once(ws: Seq<Seq<char>>)
    ensures
        no_stutter(ws) ==> no_stutter(phrases_once(ws)),
        phrases_once(ws).len() <= ws.len(),
        ws.len() > 0 ==> phrases_once(ws).len() > 0 && phrases_once(ws)[0] == ws[0],
        forall|i: int|
            0 <= i < phrases_once(ws).len() ==> ws.contains(#[trigger] phrases_once(ws)[i]),
    decreases ws.len(),
{
    if ws.len() > 0 {
        lemma_twice_from(ws, 2);
        let n = twice_len(ws);
        let keep = if n > 0 { n } else { 1 };
        let skip = if n > 0 { 2 * n } else { 1 };
        let rest = ws.subrange(skip, ws.len() as int);
        lemma_phrases_once(rest);
        let t = phrases_once(rest);
        let r = phrases_once(ws);
        assert(r =~= ws.subrange(0, keep) + t);
        assert forall|i: int| 0 <= i < r.len() implies ws.contains(#[trigger] r[i]) by {
            if i < keep {
                assert(r[i] == ws[i]);
            } else {
                assert(r[i] == t[i - keep]);
                assert(rest.contains(t[i - keep]));
                let k = choose|k: int| 0 <= k < rest.len() && rest[k] == t[i - keep];
                assert(ws[k + skip] == r[i]);
            }
        }
        if no_stutter(ws) {
            assert forall|i: int| 0 <= i < rest.len() - 1 implies #[trigger] rest[i] != rest[i
                + 1] by {
                assert(rest[i] == ws[i + skip]);
                assert(rest[i + 1] == ws[i + skip + 1]);
                assert(ws[i + skip] != ws[i + skip + 1]);
            }
            assert forall|i: int| 0 <= i < r.len() - 1 implies #[trigger] r[i] != r[i + 1] by {
                if i + 1 < keep {
                    assert(r[i] == ws[i] && r[i + 1] == ws[i + 1]);
                    assert(ws[i] != ws[i + 1]);
                } else if i + 1 == keep {
                    // The last word kept is also the last one skipped.
                    assert(r[i + 1] == t[0]);
                    assert(t[0] == rest[0]);
                    assert(rest[0] == ws[skip]);
                    if n > 0 {
                        assert(ws.subrange(0, n)[n - 1] == ws.subrange(n, 2 * n)[n - 1]);
                        assert(ws[n - 1] == ws[2 * n - 1]);
                        assert(ws[2 * n - 1] != ws[2 * n - 1 + 1]);
                    } else {
                        assert(ws[0int] != ws[0int + 1]);
                    }
                } else {
                    assert(r[i] == t[i - keep] && r[i + 1] == t[i - keep + 1]);
                    assert(t[i - keep] != t[i - keep + 1]);
                }
            }
        }
    }
}

fn phrase_repeats(words: &Vec<String>, at: usize, n: usize) -> (r: bool)
    requires
        0 < n <= 5,
        at + 2 * n <= words@.len(),
    ensures
        r == said_twice(texts(words@).subrange(at as int, words@.len() as int), n as int),
{
    let ghost all = texts(words@);
    let ghost here = all.subrange(at as int, words@.len() as int);
    let total: usize = words.len();
    let mut k: usize = 0;
    while k < n
        invariant
            total == words@.len(),
            0 < n <= 5,
            at + 2 * n <= total,
            all == texts(words@),
            here == all.subrange(at as int, words@.len() as int),
            k <= n,
            forall|j: int| 0 <= j < k ==> #[trigger] here[j] == here[n + j],
        decreases n - k,
    {
        if !same_text(&words[at + k], &words[at + n + k]) {
            proof {
                assert(here[k as int] == words@[at + k]@);
                assert(here[n + k] == words@[at + n + k]@);
                assert(here.subrange(0, n as int)[k as int] != here.subrange(n as int, 2 * n)[
                    k as int]);
            }
            return false;
        }
        assert(here[k as int] == words@[at + k]@);
        assert(here[n + k] == words@[at + n + k]@);
        k += 1;
    }
    assert(here.subrange(0, n as int) =~= here.subrange(n as int, 2 * n));
    true
}

fn find_phrase(words: &Vec<String>, at: usize) -> (r: usize)
    requires
        at < words@.len(),
    ensures
        r == twice_len(texts(words@).subrange(at as int, words@.len() as int)),
        r <= 5,
        at + 2 * r <= words@.len(),
{
    let ghost here = texts(words@).subrange(at as int, words@.len() as int);
    let left: usize = words.len() - at;
    let mut n: usize = 2;
    while n <= 5 && n <= left / 2
        invariant
            at < words@.len(),
            left == words@.len() - at,
            here == texts(words@).subrange(at as int, words@.len() as int),
            2 <= n <= 6,
            twice_len(here) == twice_from(here, n as int),
        decreases 6 - n,
    {
        if phrase_repeats(words, at, n) {
            return n;
        }
        n += 1;
    }
    proof {
        lemma_twice_from(here, n as int);
    }
    0
}

/// Says once every phrase of two to five words that is said twice in a row.
pub fn remove_phrase_repetitions(words: &Vec<String>) -> (r: Vec<String>)
    ensures
        texts(r@) == phrases_once(texts(words@)),
{
    let n = words.len();
    let ghost all = texts(words@);
    let mut out: Vec<String> = Vec::new();
    let mut i: usize = 0;
    assert(all.subrange(0, n as int) =~= all);
    assert(texts(out@) + phrases_once(all) =~= phrases_once(all));
    while i < n
        invariant
            n == words@.len(),
            all == texts(words@),
            i <= n,
            texts(out@) + phrases_once(all.subrange(i as int, n as int)) == phrases_once(all),
        decreases n - i,
    {
        let ghost here = all.subrange(i as int, n as int);
        let ghost before = texts(out@);
        let phrase = find_phrase(words, i);
        if phrase > 0 {
            let mut k: usize = 0;
            assert(before + here.subrange(0, 0) =~= before);
            while k < phrase
                invariant
                    n == words@.len(),
                    all == texts(words@),
                    phrase <= 5,
                    i + 2 * phrase <= n,
                    here == all.subrange(i as int, n as int),
                    k <= phrase,
                    texts(out@) == before + here.subrange(0, k as int),
                decreases phrase - k,
            {
                let ghost had = out@;
                out.push(words[i + k].clone());
                assert(texts(out@) =~= texts(had).push(here[k as int]));
                assert(texts(out@) =~= before + here.subrange(0, k + 1));
                k += 1;
            }
            proof {
                assert(here.subrange(2 * phrase, here.len() as int) =~= all.subrange(
                    i + 2 * phrase,
                    n as int,
                ));
                let tail = phrases_once(all.subrange(i + 2 * phrase, n as int));
                assert(before + (here.subrange(0, phrase as int) + tail) =~= texts(out@) + tail);
            }
            i += 2 * phrase;
        } else {
            let ghost had = out@;
            out.push(words[i].clone());
            proof {
                assert(texts(out@) =~= texts(had).push(here[0]));
                assert(here.subrange(1, here.len() as int) =~= all.subrange(i + 1, n as int));
                let tail = phrases_once(all.subrange(i + 1, n as int));
                assert(before + (seq![here[0]] + tail) =~= texts(out@) + tail);
            }
            i += 1;
        }
    }
    assert(all.subrange(n as int, n as int) =~= Seq::<Seq<char>>::empty());
    assert(texts(out@) + Seq::<Seq<char>>::empty() =~= texts(out@));
    out
}

// ---------------------------------------------------------------------------
// Output that is no speech
// ---------------------------------------------------------------------------

/// Whether `lower`, which is in lower case, holds one of the stock phrases
/// that the decoder makes up out of silence and noise.
pub open spec fn stock_phrase(lower: Seq<char>) -> bool {
    ||| has_infix(lower, "thank you for watching"@)
    ||| has_infix(lower, "thanks for watching"@)
    ||| has_infix(lower, "like and subscribe"@)
    ||| has_infix(lower, "music playing"@)
    ||| has_infix(lower, "applause"@)
    ||| has_infix(lower, "laughter"@)
    ||| has_infix(lower, "um um um"@)
    ||| has_infix(lower, "uh uh uh"@)
    ||| has_infix(lower, "ah ah ah"@)
}

/// Whether more than ten bytes are made of at most three characters.
pub open spec fn drone(text: Seq<char>) -> bool {
    text.to_set().len() <= 3 && encode_utf8(text).len() > 10
}

/// Whether `text` is obviously no speech.
pub open spec fn meaningless(text: Seq<char>) -> bool {
    stock_phrase(lowercase(text)) || drone(text)
}

pub(crate) proof fn lemma_push_to_set<T>(s: Seq<T>, x: T)
    ensures
        s.push(x).to_set() == s.to_set().insert(x),
{
    broadcast use vstd::seq_lib::group_seq_properties;

    assert(s.push(x).to_set() =~= s.to_set().insert(x));
}

fn distinct_chars(cs: &Vec<char>) -> (r: usize)
    ensures
        r == cs@.to_set().len(),
{
    let mut seen: Vec<char> = Vec::new();
    assert(cs@.take(0).to_set() =~= seen@.to_set());
    for i in 0..cs.len()
        invariant
            seen@.no_duplicates(),
            seen@.to_set() == cs@.take(i as int).to_set(),
    {
        let c = cs[i];
        let mut known = false;
        let mut k: usize = 0;
        while k < seen.len() && !known
            invariant
                k <= seen@.len(),
                known ==> seen@.contains(c),
                !known ==> forall|j: int| 0 <= j < k ==> seen@[j] != c,
            decreases seen@.len() - k + (if known { 0int } else { 1int }),
        {
            if seen[k] == c {
                known = true;
            } else {
                k += 1;
            }
        }
        let ghost had = seen@;
        let ghost next = cs@.take(i + 1);
        proof {
            assert(next =~= cs@.take(i as int).push(c));
            lemma_push_to_set(cs@.take(i as int), c);
            lemma_push_to_set(had, c);
        }
        if !known {
            assert(!seen@.contains(c));
            seen.push(c);
        } else {
            assert(had.to_set().contains(c));
            assert(had.to_set().insert(c) =~= had.to_set());
        }
    }
    proof {
        assert(cs@.take(cs@.len() as int) =~= cs@);
        seen@.unique_seq_to_set();
    }
    seen.len()
}

/// Whether `text` is obviously no speech: a stock phrase, or a drone of at
/// most three characters.
pub fn is_meaningless_output(text: &str) -> (r: bool)
    ensures
        r == meaningless(text@),
{
    let lower = to_lowercase(text);
    if contains(&lower, "thank you for watching") || contains(&lower, "thanks for watching")
        || contains(&lower, "like and subscribe") || contains(&lower, "music playing") || contains(
        &lower,
        "applause",
    ) || contains(&lower, "laughter") || contains(&lower, "um um um") || contains(
        &lower,
        "uh uh uh",
    ) || contains(&lower, "ah ah ah") {
        return true;
    }
    let cs = chars_of(text);
    distinct_chars(&cs) <= 3 && text.as_bytes().len() > 10
}

// ---------------------------------------------------------------------------
// How repetitive a text is
// ---------------------------------------------------------------------------

/// The words of a text, each in lower case.
pub open spec fn lower_words(text: Seq<char>) -> Seq<Seq<char>> {
    words_of(text).map_values(|w: Seq<char>| lowercase(w))
}

/// How many words of a text have come before in it, in any case.
pub open spec fn repeated_words(text: Seq<char>) -> int {
    words_of(text).len() - lower_words(text).to_set().len()
}

/// How many words of `text` have come before in it, in any case, and how many
/// words there are; nothing counts as repeated below four words.
pub fn calculate_repetition_ratio(text: &str) -> (r: (usize, usize))
    ensures
        r.1 == words_of(text@).len(),
        r.0 == if words_of(text@).len() < 4 {
            0
        } else {
            repeated_words(text@)
        },
{
    let words = split_words(text);
    let n = words.len();
    assert(texts(words@).len() == n);
    if n < 4 {
        return (0, n);
    }
    let ghost lowered = lower_words(text@);
    let mut seen: Vec<String> = Vec::new();
    assert(lowered.take(0).to_set() =~= texts(seen@).to_set());
    for i in 0..n
        invariant
            n == words@.len(),
            texts(words@) == words_of(text@),
            lowered == lower_words(text@),
            seen@.len() <= i,
            texts(seen@).no_duplicates(),
            texts(seen@).to_set() == lowered.take(i as int).to_set(),
    {
        let word = to_lowercase(&words[i]);
        assert(word@ == lowered[i as int]) by {
            assert(texts(words@)[i as int] == words@[i as int]@);
        }
        let ghost had = seen@;
        let ghost next = lowered.take(i + 1);
        proof {
            assert(next =~= lowered.take(i as int).push(word@));
            lemma_push_to_set(lowered.take(i as int), word@);
            lemma_push_to_set(texts(had), word@);
        }
        if !crate::text::contains_text(&seen, &word) {
            seen.push(word);
            assert(texts(seen@) =~= texts(had).push(word@));
        } else {
            assert(texts(had).to_set().contains(word@));
            assert(texts(had).to_set().insert(word@) =~= texts(had).to_set());
        }
    }
    proof {
        assert(lowered.take(n as int) =~= lowered);
        texts(seen@).unique_seq_to_set();
    }
    (n - seen.len(), n)
}

/// Whether more than seven tenths of the words of a text of at least four have
/// come before in it.
pub open spec fn too_repetitive(text: Seq<char>) -> bool {
    words_of(text).len() >= 4 && over_seven_tenths(
        repeated_words(text) as nat,
        words_of(text).len(),
    )
}

// ---------------------------------------------------------------------------
// Cleaning
// ---------------------------------------------------------------------------

/// The words of `text`, with each said once where it or its phrase is said
/// again at once.
pub open spec fn calm_words(text: Seq<char>) -> Seq<Seq<char>> {
    phrases_once(once_each(words_of(text)))
}

/// What is left of recognised text.
pub open spec fn cleaned(text: Seq<char>) -> Seq<char> {
    let flat = unellipsed(text);
    if flat.len() == 0 || meaningless(flat) {
        Seq::empty()
    } else if words_of(flat).len() < 3 {
        flat
    } else {
        let calm = joined(calm_words(flat), one_space());
        if too_repetitive(calm) {
            Seq::empty()
        } else {
            calm
        }
    }
}

/// Cleans recognised text: continuation dots go, words and phrases said again
/// at once are said once, and nothing is left of a text that is no speech or
/// repeats itself too much.
pub fn clean_repetitive_text(text: &str) -> (r: String)
    ensures
        r@ == cleaned(text@),
{
    let flat = strip_continuation_ellipses(text);
    if flat.as_str().is_empty() || is_meaningless_output(&flat) {
        let r = String::new();
        assert(r@ =~= cleaned(text@));
        return r;
    }
    let words = split_words(&flat);
    assert(words@.len() == texts(words@).len());
    if words.len() < 3 {
        return flat;
    }
    let single = remove_word_repetitions(&words);
    let calm = remove_phrase_repetitions(&single);
    proof {
        reveal_strlit(" ");
        assert(" "@ =~= one_space());
    }
    let out = join(&calm, " ");
    let (repeated, total) = calculate_repetition_ratio(&out);
    if total >= 4 && is_over_seven_tenths(repeated as u64, total as u64) {
        let r = String::new();
        assert(r@ =~= cleaned(text@));
        return r;
    }
    out
}

pub(crate) proof fn lemma_calm_words(text: Seq<char>)
    ensures
        no_stutter(calm_words(text)),
        forall|i: int| 0 <= i < calm_words(text).len() ==> is_word(#[trigger] calm_words(text)[i]),
        calm_words(text).len() <= words_of(text).len(),
        words_of(joined(calm_words(text), one_space())) == calm_words(text),
{
    let ws = words_of(text);
    let single = once_each(ws);
    let calm = calm_words(text);
    words_are_words(text);
    lemma_once_each(ws);
    lemma_phrases_once(single);
    assert forall|i: int| 0 <= i < calm.len() implies is_word(#[trigger] calm[i]) by {
        assert(single.contains(calm[i]));
        let k = choose|k: int| 0 <= k < single.len() && single[k] == calm[i];
        assert(ws.contains(single[k]));
        let m = choose|m: int| 0 <= m < ws.len() && ws[m] == single[k];
        assert(is_word(ws[m]));
    }
    splitting_undoes_joining(calm);
}

/// No word is left twice in a row in a cleaned text that had at least three.
pub proof fn cleaned_text_does_not_stutter(text: Seq<char>)
    requires
        words_of(unellipsed(text)).len() >= 3,
    ensures
        no_stutter(words_of(cleaned(text))),
{
    lemma_calm_words(unellipsed(text));
    if cleaned(text).len() == 0 {
        assert(words_of(cleaned(text)) =~= Seq::<Seq<char>>::empty());
    }
}

/// Cleaning never adds words.
pub proof fn cleaning_never_adds_words(text: Seq<char>)
    ensures
        words_of(cleaned(text)).len() <= words_of(unellipsed(text)).len(),
        cleaned(text).len() > 0 ==> !meaningless(unellipsed(text)),
{
    lemma_calm_words(unellipsed(text));
    assert(words_of(Seq::<char>::empty()).len() == 0);
}

} // verus!
