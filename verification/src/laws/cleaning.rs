//! Recognised text is rid of stutters, of phrases said twice and of what is no
//! speech, and of nothing else.
use vstd::prelude::*;
use vstd::utf8::encode_utf8;
use crate::numbers::small_ratios_are_exact;
use crate::text::texts;
use crate::whisper::cleanup::{calculate_repetition_ratio, calm_words, clean_repetitive_text, is_meaningless_output, lemma_calm_words, lemma_twice_from, lower_words, once_each, phrases_once, remove_phrase_repetitions, remove_word_repetitions, said_twice, twice_from, twice_len};
use crate::whisper::ellipses::strip_continuation_ellipses;
use crate::words::{has_infix, joined, lowercase, one_space, split_words, stands_at, words_of};

verus! {

/// Whether the words at `i` are said again, word for word, right behind them.
pub open spec fn again(ws: Seq<Seq<char>>, i: int, n: int) -> bool {
    0 <= i && 0 < n && i + 2 * n <= ws.len() && forall|k: int|
        i <= k < i + n ==> #[trigger] ws[k] == ws[k + n]
}

proof fn lemma_again(ws: Seq<Seq<char>>, i: int, n: int)
    requires
        0 <= i <= ws.len(),
        0 < n,
    ensures
        said_twice(ws.subrange(i, ws.len() as int), n) == again(ws, i, n),
{
    let here = ws.subrange(i, ws.len() as int);
    if said_twice(here, n) {
        assert forall|k: int| i <= k < i + n implies #[trigger] ws[k] == ws[k + n] by {
            assert(here.subrange(0, n)[k - i] == here.subrange(n, 2 * n)[k - i]);
        }
    }
    if again(ws, i, n) {
        assert forall|k: int| 0 <= k < n implies here.subrange(0, n)[k] == here.subrange(
            n,
            2 * n,
        )[k] by {
            assert(ws[i + k] == ws[i + k + n]);
        }
        assert(here.subrange(0, n) =~= here.subrange(n, 2 * n));
    }
}

proof fn lemma_no_phrase(ws: Seq<Seq<char>>)
    requires
        forall|i: int, n: int| 2 <= n <= 5 ==> !#[trigger] again(ws, i, n),
    ensures
        phrases_once(ws) == ws,
    decreases ws.len(),
{
    if ws.len() > 0 {
        lemma_twice_from(ws, 2);
        let n = twice_len(ws);
        assert(ws.subrange(0, ws.len() as int) =~= ws);
        if n > 0 {
            lemma_again(ws, 0, n);
        }
        let rest = ws.subrange(1, ws.len() as int);
        assert forall|i: int, m: int| 2 <= m <= 5 implies !#[trigger] again(rest, i, m) by {
            if again(rest, i, m) {
                assert forall|k: int| i + 1 <= k < i + 1 + m implies #[trigger] ws[k] == ws[k + m] by {
                    assert(rest[k - 1] == rest[k - 1 + m]);
                }
                assert(again(ws, i + 1, m));
            }
        }
        lemma_no_phrase(rest);
        assert(seq![ws[0]] + rest =~= ws);
    }
}

/// Words in which no phrase of two to five words is said twice in a row stay as
/// they are.
pub proof fn phrases_said_once_stay(words: &Vec<String>, r: Vec<String>)
    requires
        forall|i: int, n: int| 2 <= n <= 5 ==> !#[trigger] again(texts(words@), i, n),
        call_ensures(remove_phrase_repetitions, (words,), r),
    ensures
        texts(r@) == texts(words@),
{
    lemma_no_phrase(texts(words@));
}

proof fn lemma_shortest(ws: Seq<Seq<char>>, from: int, n: int)
    requires
        2 <= from <= n <= 5,
        said_twice(ws, n),
        forall|m: int| from <= m < n ==> !#[trigger] said_twice(ws, m),
    ensures
        twice_from(ws, from) == n,
    decreases n - from,
{
    if from < n {
        assert(!said_twice(ws, from));
        lemma_shortest(ws, from + 1, n);
    }
}

/// Where words start with a phrase said twice, the shortest such phrase is said
/// once, and what follows its second time is treated likewise. Nothing but that
/// second time is left out.
pub proof fn phrases_said_twice_are_said_once(
    words: &Vec<String>,
    rest: &Vec<String>,
    n: int,
    r: Vec<String>,
    of_rest: Vec<String>,
)
    requires
        2 <= n <= 5,
        again(texts(words@), 0, n),
        forall|m: int| 2 <= m < n ==> !#[trigger] again(texts(words@), 0, m),
        texts(rest@) == texts(words@).subrange(2 * n, words@.len() as int),
        call_ensures(remove_phrase_repetitions, (words,), r),
        call_ensures(remove_phrase_repetitions, (rest,), of_rest),
    ensures
        texts(r@) == texts(words@).subrange(0, n) + texts(of_rest@),
{
    let ws = texts(words@);
    assert(ws.subrange(0, ws.len() as int) =~= ws);
    assert forall|m: int| 2 <= m <= n implies #[trigger] said_twice(ws, m) == again(ws, 0, m) by {
        lemma_again(ws, 0, m);
    }
    assert(said_twice(ws, n));
    assert forall|m: int| 2 <= m < n implies !#[trigger] said_twice(ws, m) by {
        assert(!again(ws, 0, m));
    }
    lemma_shortest(ws, 2, n);
}

/// Where words do not start with a phrase said twice, the first word stays, and
/// what follows it is treated likewise.
pub proof fn words_outside_phrases_stay(
    words: &Vec<String>,
    rest: &Vec<String>,
    r: Vec<String>,
    of_rest: Vec<String>,
)
    requires
        words@.len() > 0,
        forall|m: int| 2 <= m <= 5 ==> !#[trigger] again(texts(words@), 0, m),
        texts(rest@) == texts(words@).subrange(1, words@.len() as int),
        call_ensures(remove_phrase_repetitions, (words,), r),
        call_ensures(remove_phrase_repetitions, (rest,), of_rest),
    ensures
        texts(r@) == seq![words@[0]@] + texts(of_rest@),
{
    let ws = texts(words@);
    assert(ws.subrange(0, ws.len() as int) =~= ws);
    lemma_twice_from(ws, 2);
    let n = twice_len(ws);
    if n > 0 {
        lemma_again(ws, 0, n);
        assert(again(ws, 0, n));
    }
}

/// A word that is said again at once is left out the first time, every other one
/// stays, and what follows is treated likewise.
pub proof fn stutters_are_said_once(
    words: &Vec<String>,
    rest: &Vec<String>,
    r: Vec<String>,
    of_rest: Vec<String>,
)
    requires
        words@.len() > 0,
        texts(rest@) == texts(words@).subrange(1, words@.len() as int),
        call_ensures(remove_word_repetitions, (words,), r),
        call_ensures(remove_word_repetitions, (rest,), of_rest),
    ensures
        words@.len() > 1 && words@[0]@ == words@[1]@ ==> texts(r@) == texts(of_rest@),
        words@.len() == 1 || words@[0]@ != words@[1]@ ==> texts(r@) == seq![words@[0]@] + texts(
            of_rest@,
        ),
{
    let ws = texts(words@);
    if ws.len() == 1 {
        assert(texts(of_rest@) =~= Seq::<Seq<char>>::empty());
        assert(texts(r@) =~= seq![words@[0]@] + texts(of_rest@));
    }
}

/// What holds one of the phrases that the decoder makes up, in any case, is no
/// speech, wherever in it the phrase stands.
pub proof fn made_up_phrases_are_no_speech(text: &str, r: bool, a: Seq<char>, b: Seq<char>)
    requires
        call_ensures(is_meaningless_output, (text,), r),
    ensures
        lowercase(text@) == a + "thank you for watching"@ + b ==> r,
        lowercase(text@) == a + "thanks for watching"@ + b ==> r,
        lowercase(text@) == a + "like and subscribe"@ + b ==> r,
        lowercase(text@) == a + "music playing"@ + b ==> r,
        lowercase(text@) == a + "applause"@ + b ==> r,
        lowercase(text@) == a + "laughter"@ + b ==> r,
        lowercase(text@) == a + "um um um"@ + b ==> r,
        lowercase(text@) == a + "uh uh uh"@ + b ==> r,
        lowercase(text@) == a + "ah ah ah"@ + b ==> r,
{
    lemma_infix(a, "thank you for watching"@, b);
    lemma_infix(a, "thanks for watching"@, b);
    lemma_infix(a, "like and subscribe"@, b);
    lemma_infix(a, "music playing"@, b);
    lemma_infix(a, "applause"@, b);
    lemma_infix(a, "laughter"@, b);
    lemma_infix(a, "um um um"@, b);
    lemma_infix(a, "uh uh uh"@, b);
    lemma_infix(a, "ah ah ah"@, b);
}

proof fn lemma_infix(a: Seq<char>, needle: Seq<char>, b: Seq<char>)
    ensures
        has_infix(a + needle + b, needle),
{
    let hay = a + needle + b;
    assert(hay.subrange(a.len() as int, a.len() as int + needle.len()) =~= needle);
    assert(stands_at(hay, needle, a.len() as int));
}

/// Whether a text holds another.
pub open spec fn holds(hay: Seq<char>, needle: Seq<char>) -> bool {
    exists|x: Seq<char>, y: Seq<char>| hay == #[trigger] (x + needle + y)
}

proof fn lemma_holds(hay: Seq<char>, needle: Seq<char>)
    ensures
        has_infix(hay, needle) ==> holds(hay, needle),
{
    if has_infix(hay, needle) {
        let i = choose|i: int| stands_at(hay, needle, i);
        let x = hay.subrange(0, i);
        let y = hay.subrange(i + needle.len(), hay.len() as int);
        assert(hay =~= x + needle + y);
    }
}

/// A text of more than three characters, or of ten bytes at most, is taken for
/// speech unless it holds such a phrase; a longer one of three characters at most
/// is not.
pub proof fn other_texts_are_speech(text: &str, r: bool)
    requires
        call_ensures(is_meaningless_output, (text,), r),
    ensures
        text@.to_set().len() <= 3 && encode_utf8(text@).len() > 10 ==> r,
        r && (text@.to_set().len() > 3 || encode_utf8(text@).len() <= 10) ==> {
            let lower = lowercase(text@);
            ||| holds(lower, "thank you for watching"@)
            ||| holds(lower, "thanks for watching"@)
            ||| holds(lower, "like and subscribe"@)
            ||| holds(lower, "music playing"@)
            ||| holds(lower, "applause"@)
            ||| holds(lower, "laughter"@)
            ||| holds(lower, "um um um"@)
            ||| holds(lower, "uh uh uh"@)
            ||| holds(lower, "ah ah ah"@)
        },
{
    let lower = lowercase(text@);
    lemma_holds(lower, "thank you for watching"@);
    lemma_holds(lower, "thanks for watching"@);
    lemma_holds(lower, "like and subscribe"@);
    lemma_holds(lower, "music playing"@);
    lemma_holds(lower, "applause"@);
    lemma_holds(lower, "laughter"@);
    lemma_holds(lower, "um um um"@);
    lemma_holds(lower, "uh uh uh"@);
    lemma_holds(lower, "ah ah ah"@);
}

proof fn lemma_distinct(s: Seq<Seq<char>>)
    requires
        s.no_duplicates(),
    ensures
        s.to_set().len() == s.len(),
{
    s.unique_seq_to_set();
}

/// What is repeated is counted word by word: nothing in a text of which no word
/// comes twice, whatever its case, and nothing in a text of fewer than four
/// words. Of a text whose words are all one word, all but one are repeated.
pub proof fn repetitions_are_counted_by_words(text: &str, words: Vec<String>, r: (usize, usize))
    requires
        call_ensures(calculate_repetition_ratio, (text,), r),
        call_ensures(split_words, (text,), words),
    ensures
        r.1 == words@.len(),
        r.0 <= r.1,
        words@.len() < 4 ==> r.0 == 0,
        (forall|i: int, j: int|
            0 <= i < j < words@.len() ==> lowercase((#[trigger] words@[i])@) != lowercase(
                (#[trigger] words@[j])@,
            )) ==> r.0 == 0,
        words@.len() >= 4 && (forall|i: int|
            0 <= i < words@.len() ==> lowercase((#[trigger] words@[i])@) == lowercase(words@[0]@))
            ==> r.0 == r.1 - 1,
{
    let ws = texts(words@);
    let low = lower_words(text@);
    assert(low.len() == words@.len());
    assert forall|i: int| 0 <= i < low.len() implies low[i] == lowercase(words@[i]@) by {
        assert(ws[i] == words@[i]@);
    }
    if forall|i: int, j: int|
        0 <= i < j < words@.len() ==> lowercase((#[trigger] words@[i])@) != lowercase(
            (#[trigger] words@[j])@,
        ) {
        assert forall|i: int, j: int| 0 <= i < low.len() && 0 <= j < low.len() && i != j implies low[i]
            != low[j] by {
            if i < j {
                assert(lowercase(words@[i]@) != lowercase(words@[j]@));
            } else {
                assert(lowercase(words@[j]@) != lowercase(words@[i]@));
            }
        }
        assert(low.no_duplicates());
        lemma_distinct(low);
    }
    if words@.len() >= 4 && (forall|i: int|
        0 <= i < words@.len() ==> lowercase((#[trigger] words@[i])@) == lowercase(words@[0]@)) {
        let one = low[0];
        assert forall|w: Seq<char>| low.to_set().contains(w) <==> w == one by {
            if low.to_set().contains(w) {
                let i = choose|i: int| 0 <= i < low.len() && low[i] == w;
                assert(lowercase(words@[i]@) == lowercase(words@[0]@));
            }
            assert(low.to_set().contains(low[0]));
        }
        assert(low.to_set() =~= Set::empty().insert(one));
    }
}

/// Cleaning a text, step by step: continuation dots go first. What is empty then,
/// or no speech, leaves nothing; fewer than three words stay as they are. Of more,
/// stutters go and then repeated phrases, and nothing is left where over seven in
/// ten of the remaining words have come before.
pub proof fn cleaning_goes_step_by_step(
    text: &str,
    flat: &str,
    flattened: String,
    no_speech: bool,
    words: Vec<String>,
    single: Vec<String>,
    calm: Vec<String>,
    spaced: &str,
    ratio: (usize, usize),
    r: String,
)
    requires
        call_ensures(strip_continuation_ellipses, (text,), flattened),
        flat@ == flattened@,
        call_ensures(is_meaningless_output, (flat,), no_speech),
        call_ensures(split_words, (flat,), words),
        call_ensures(remove_word_repetitions, (&words,), single),
        call_ensures(remove_phrase_repetitions, (&single,), calm),
        spaced@ == joined(texts(calm@), seq![' ']),
        call_ensures(calculate_repetition_ratio, (spaced,), ratio),
        call_ensures(clean_repetitive_text, (text,), r),
        ratio.1 <= 5_000_000,
    ensures
        flat@.len() == 0 || no_speech ==> r@.len() == 0,
        flat@.len() > 0 && !no_speech && words@.len() < 3 ==> r@ == flat@,
        flat@.len() > 0 && !no_speech && words@.len() >= 3 ==> r@ == if ratio.1 >= 4 && 10 * ratio.0
            > 7 * ratio.1 {
            seq![]
        } else {
            spaced@
        },
{
    assert(texts(words@).len() == words@.len());
    if ratio.1 > 0 && ratio.0 <= ratio.1 {
        small_ratios_are_exact(ratio.0 as nat, ratio.1 as nat);
    }
}

/// A text of at least three words in which no word and no phrase is said twice in
/// a row, which is speech and not repetitive, keeps all its words.
pub proof fn calm_texts_keep_their_words(
    text: &str,
    flat: &str,
    flattened: String,
    no_speech: bool,
    words: Vec<String>,
    r: String,
    out: &str,
    left: Vec<String>,
)
    requires
        call_ensures(strip_continuation_ellipses, (text,), flattened),
        flat@ == flattened@,
        call_ensures(is_meaningless_output, (flat,), no_speech),
        call_ensures(split_words, (flat,), words),
        call_ensures(clean_repetitive_text, (text,), r),
        out@ == r@,
        call_ensures(split_words, (out,), left),
        !no_speech,
        3 <= words@.len() <= 5_000_000,
        forall|i: int| 0 <= i < words@.len() - 1 ==> (#[trigger] words@[i])@ != words@[i + 1]@,
        forall|i: int, n: int| 2 <= n <= 5 ==> !#[trigger] again(texts(words@), i, n),
        forall|i: int, j: int|
            0 <= i < j < words@.len() ==> lowercase((#[trigger] words@[i])@) != lowercase(
                (#[trigger] words@[j])@,
            ),
    ensures
        texts(left@) == texts(words@),
{
    let ws = texts(words@);
    lemma_still(ws);
    lemma_no_phrase(ws);
    lemma_calm_words(flat@);
    assert(calm_words(flat@) == ws);
    let spaced = joined(ws, one_space());
    assert(words_of(spaced) == ws);
    let low = lower_words(spaced);
    assert forall|i: int, j: int| 0 <= i < low.len() && 0 <= j < low.len() && i != j implies low[i]
        != low[j] by {
        assert(low[i] == lowercase(words@[i]@) && low[j] == lowercase(words@[j]@));
        if i < j {
            assert(lowercase(words@[i]@) != lowercase(words@[j]@));
        } else {
            assert(lowercase(words@[j]@) != lowercase(words@[i]@));
        }
    }
    assert(low.no_duplicates());
    lemma_distinct(low);
    small_ratios_are_exact(0, ws.len());
    if flat@.len() == 0 {
        assert(words_of(flat@).len() == 0);
    }
}

proof fn lemma_still(ws: Seq<Seq<char>>)
    requires
        forall|i: int| 0 <= i < ws.len() - 1 ==> #[trigger] ws[i] != ws[i + 1],
    ensures
        once_each(ws) == ws,
    decreases ws.len(),
{
    if ws.len() >= 2 {
        let rest = ws.subrange(1, ws.len() as int);
        assert forall|i: int| 0 <= i < rest.len() - 1 implies #[trigger] rest[i] != rest[i + 1] by {
            assert(ws[i + 1] != ws[i + 1 + 1]);
        }
        lemma_still(rest);
        assert(ws[0int] != ws[0int + 1]);
        assert(seq![ws[0]] + rest =~= ws);
    }
}

} // verus!
