//! Trimming, splitting, joining, searching and writing numbers.
use vstd::prelude::*;
use crate::numbers::{decimal, digit, push_signed, push_tenths, push_two_digits, read_u32, to_decimal};
use crate::text::{blank, char_is_space, contains_text, is_blank, is_space, lemma_blank_trims_to_nothing, lemma_trim_end, lemma_trim_start, texts, trim, trim_end_of, trim_end_set, trim_start_of, trimmed_or_none, CharSet};
use crate::words::{ascii_lowercase, contains, is_word, join, lemma_no_words_is_blank, lemma_word_of_word, lemma_words_split, same_ignoring_ascii_case, split_words, stands_at, starts_with, strip_prefix};

verus! {

/// White space is what separates words on a page; letters, digits and marks are
/// none.
pub proof fn white_space_is_white(c: char, r: bool)
    requires
        call_ensures(char_is_space, (c,), r),
    ensures
        c == ' ' || c == '\t' || c == '\n' || c == '\r' || c == '\u{b}' || c == '\u{c}' ==> r,
        c == '\u{85}' || c == '\u{a0}' || c == '\u{1680}' || c == '\u{2028}' || c == '\u{2029}'
            || c == '\u{202f}' || c == '\u{205f}' || c == '\u{3000}' ==> r,
        '\u{2000}' <= c <= '\u{200a}' ==> r,
        '!' <= c <= '~' ==> !r,
        r ==> c <= ' ' || c == '\u{85}' || c == '\u{a0}' || c >= '\u{1680}',
{
}

/// Trimming takes white space from both ends, all of it and nothing else.
pub proof fn trimming_takes_white_space_only(s: &str, r: String)
    requires
        call_ensures(trim, (s,), r),
    ensures
        exists|a: Seq<char>, b: Seq<char>|
            s@ == #[trigger] (a + r@ + b) && (forall|k: int|
                0 <= k < a.len() ==> is_space(#[trigger] a[k])) && (forall|k: int|
                0 <= k < b.len() ==> is_space(#[trigger] b[k])),
        r@.len() > 0 ==> !is_space(r@[0]) && !is_space(r@.last()),
{
    let start = trim_start_of(s@, CharSet::Space);
    lemma_trim_start(s@, CharSet::Space);
    lemma_trim_end(start, CharSet::Space);
    let n = s@.len() - start.len();
    let a = s@.subrange(0, n);
    let b = start.subrange(r@.len() as int, start.len() as int);
    assert(r@ == trim_end_of(start, CharSet::Space));
    assert(s@ =~= a + r@ + b);
    crate::text::lemma_trim_ends(s@, CharSet::Space);
}

/// A text is blank exactly where trimming leaves nothing, and it holds nothing
/// but white space.
pub proof fn blank_texts_hold_white_space(s: &str, r: bool, t: Option<String>, i: int)
    requires
        call_ensures(is_blank, (s,), r),
        call_ensures(trimmed_or_none, (s,), t),
    ensures
        r && 0 <= i < s@.len() ==> is_space(s@[i]),
        0 <= i < s@.len() && !is_space(s@[i]) ==> !r,
        r == (t is None),
        t matches Some(text) ==> text@.len() > 0 && !is_space(text@[0]) && !is_space(text@.last()),
{
    lemma_blank_trims_to_nothing(s@);
    crate::text::lemma_trim_ends(s@, CharSet::Space);
}

/// Trimming some characters from the end takes these and no others.
pub proof fn trimming_the_end_keeps_the_rest(s: &str, a: char, b: char, r: String, i: int)
    requires
        call_ensures(trim_end_set, (s, CharSet::Either(a, b)), r),
    ensures
        r@.len() <= s@.len(),
        r@ == s@.subrange(0, r@.len() as int),
        r@.len() <= i < s@.len() ==> s@[i] == a || s@[i] == b,
        r@.len() > 0 ==> r@.last() != a && r@.last() != b,
{
    lemma_trim_end(s@, CharSet::Either(a, b));
}

/// A list holds a text exactly where one of its texts is that text.
pub proof fn lists_hold_their_texts(v: &Vec<String>, needle: &str, r: bool)
    requires
        call_ensures(contains_text, (v, needle), r),
    ensures
        r <==> exists|i: int| 0 <= i < v@.len() && (#[trigger] v@[i])@ == needle@,
{
    let all = texts(v@);
    if r {
        let i = choose|i: int| 0 <= i < all.len() && all[i] == needle@;
        assert(v@[i]@ == needle@);
    }
    if exists|i: int| 0 <= i < v@.len() && (#[trigger] v@[i])@ == needle@ {
        let i = choose|i: int| 0 <= i < v@.len() && (#[trigger] v@[i])@ == needle@;
        assert(all[i] == needle@);
    }
}

/// Every word is made of characters that are no white space.
pub proof fn words_hold_no_white_space(s: &str, r: Vec<String>, i: int, k: int)
    requires
        call_ensures(split_words, (s,), r),
        0 <= i < r@.len(),
    ensures
        r@[i]@.len() > 0,
        0 <= k < r@[i]@.len() ==> !is_space(r@[i]@[k]),
{
    crate::words::words_are_words(s@);
    assert(texts(r@)[i] == r@[i]@);
}

/// Words are split at white space and nowhere else: the words of two texts with a
/// white space between them are the words of the one and then those of the other,
/// a text without white space is one word, and one of white space has none.
pub proof fn words_are_split_at_white_space(
    a: &str,
    gap: char,
    b: &str,
    both: &str,
    of_a: Vec<String>,
    of_b: Vec<String>,
    of_both: Vec<String>,
)
    requires
        both@ == a@.push(gap) + b@,
        is_space(gap),
        call_ensures(split_words, (a,), of_a),
        call_ensures(split_words, (b,), of_b),
        call_ensures(split_words, (both,), of_both),
    ensures
        texts(of_both@) == texts(of_a@) + texts(of_b@),
        a@.len() > 0 && (forall|k: int| 0 <= k < a@.len() ==> !is_space(#[trigger] a@[k]))
            ==> texts(of_a@) == seq![a@],
        (forall|k: int| 0 <= k < a@.len() ==> is_space(#[trigger] a@[k])) ==> of_a@.len() == 0,
{
    let rest = seq![gap] + b@;
    assert(both@ =~= a@ + rest);
    lemma_words_split(a@, rest);
    assert(rest.subrange(1, rest.len() as int) =~= b@);
    if a@.len() > 0 && (forall|k: int| 0 <= k < a@.len() ==> !is_space(#[trigger] a@[k])) {
        assert(is_word(a@));
        lemma_word_of_word(a@);
    }
    if forall|k: int| 0 <= k < a@.len() ==> is_space(#[trigger] a@[k]) {
        assert(blank(a@));
        lemma_no_words_is_blank(a@);
        assert(texts(of_a@).len() == of_a@.len());
    }
}

/// Joining puts the separator between each two texts and nowhere else.
pub proof fn joining_separates(
    front: &Vec<String>,
    last: String,
    all: &Vec<String>,
    sep: &str,
    of_front: String,
    of_all: String,
)
    requires
        all@ == front@.push(last),
        call_ensures(join, (front, sep), of_front),
        call_ensures(join, (all, sep), of_all),
    ensures
        of_all@ == if front@.len() == 0 {
            last@
        } else {
            of_front@ + sep@ + last@
        },
        front@.len() == 0 ==> of_front@.len() == 0,
{
    assert(texts(all@) =~= texts(front@).push(last@));
    assert(texts(all@).drop_last() =~= texts(front@));
}

/// One text holds another exactly where it is made of it and what stands before
/// and behind it.
pub proof fn searching_finds_what_is_there(hay: &str, needle: &str, r: bool, a: Seq<char>, b: Seq<char>)
    requires
        call_ensures(contains, (hay, needle), r),
    ensures
        hay@ == a + needle@ + b ==> r,
        r ==> exists|x: Seq<char>, y: Seq<char>| hay@ == #[trigger] (x + needle@ + y),
{
    if hay@ == a + needle@ + b {
        assert(hay@.subrange(a.len() as int, (a.len() + needle@.len()) as int) =~= needle@);
        assert(stands_at(hay@, needle@, a.len() as int));
    }
    if r {
        let i = choose|i: int| stands_at(hay@, needle@, i);
        let x = hay@.subrange(0, i);
        let y = hay@.subrange(i + needle@.len(), hay@.len() as int);
        assert(hay@ =~= x + needle@ + y);
    }
}

/// A prefix is what a text starts with, and stripping it leaves what follows.
pub proof fn prefixes_come_first(s: &str, prefix: &str, starts: bool, rest: Option<String>, tail: Seq<char>)
    requires
        call_ensures(starts_with, (s, prefix), starts),
        call_ensures(strip_prefix, (s, prefix), rest),
    ensures
        starts == (rest is Some),
        rest matches Some(r) ==> s@ == prefix@ + r@,
        s@ == prefix@ + tail ==> (rest matches Some(r) && r@ == tail),
{
    if let Some(r) = rest {
        assert(s@ =~= prefix@ + r@);
    }
    if s@ == prefix@ + tail {
        assert(s@.subrange(0, prefix@.len() as int) =~= prefix@);
        assert(s@.subrange(prefix@.len() as int, s@.len() as int) =~= tail);
    }
}

/// Two texts that are the same but for the case of ASCII letters have the same
/// length, and at each place the same character, or a letter and its other case.
pub proof fn ascii_case_is_all_that_differs(a: &str, b: &str, r: bool, i: int)
    requires
        call_ensures(same_ignoring_ascii_case, (a, b), r),
    ensures
        a@ == b@ ==> r,
        r ==> a@.len() == b@.len(),
        r && 0 <= i < a@.len() && a@[i] != b@[i] ==> a@[i] as u32 + 32 == b@[i] as u32 || b@[i] as u32
            + 32 == a@[i] as u32,
{
    assert(ascii_lowercase(a@).len() == a@.len());
    assert(ascii_lowercase(b@).len() == b@.len());
    if r && 0 <= i < a@.len() {
        assert(ascii_lowercase(a@)[i] == ascii_lowercase(b@)[i]);
    }
}

/// A number is written with its last digit last and those of the tenfold smaller
/// number before it.
pub proof fn decimals_are_decimal(n: u64, d: u64, m: u64, of_n: String, of_m: String)
    requires
        d < 10,
        m == 10 * n + d,
        call_ensures(to_decimal, (n,), of_n),
        call_ensures(to_decimal, (m,), of_m),
    ensures
        n > 0 ==> of_m@.drop_last() == of_n@,
        n == 0 ==> of_m@.len() == 1,
        of_m@.len() > 0,
        of_m@.last() as u32 == 48 + d,
{
    assert((10 * n + d) / 10 == n) by (nonlinear_arith)
        requires
            d < 10,
    ;
    assert((10 * n + d) % 10 == d) by (nonlinear_arith)
        requires
            d < 10,
    ;
    if n > 0 {
        assert(of_m@ == decimal(n as nat).push(digit(d as int)));
        assert(of_m@.drop_last() =~= of_n@);
    }
}

/// Two digits are the number, with a nought before it where it has one digit.
pub proof fn two_digits_are_padded(out: &mut String, n: u64, of_n: String)
    requires
        call_ensures(push_two_digits, (out, n), ()),
        call_ensures(to_decimal, (n,), of_n),
    ensures
        n >= 10 ==> final(out)@ == old(out)@ + of_n@,
        n < 10 ==> final(out)@ == old(out)@ + seq!['0'] + of_n@,
{
    if n < 10 {
        assert(final(out)@ =~= old(out)@ + seq!['0'] + of_n@);
    }
}

/// Numbers below zero have a minus sign, and others none.
pub proof fn signs_are_written(out: &mut String, n: i64, size: u64, of_size: String)
    requires
        call_ensures(push_signed, (out, n), ()),
        call_ensures(to_decimal, (size,), of_size),
        size == if n < 0 {
            -n
        } else {
            n as int
        },
    ensures
        n >= 0 ==> final(out)@ == old(out)@ + of_size@,
        n < 0 ==> final(out)@ == old(out)@ + seq!['-'] + of_size@,
{
    if n < 0 {
        assert(final(out)@ =~= old(out)@ + seq!['-'] + of_size@);
    }
}

/// Tenths are the whole number, a point and one digit.
pub proof fn tenths_have_one_decimal(out: &mut String, n: u128, whole: u64, of_whole: String)
    requires
        n < 0x1_0000_0000_0000_0000,
        whole == n / 10,
        call_ensures(push_tenths, (out, n), ()),
        call_ensures(to_decimal, (whole,), of_whole),
    ensures
        final(out)@.len() == old(out)@.len() + of_whole@.len() + 2,
        final(out)@.subrange(0, (old(out)@.len() + of_whole@.len() + 1) as int) == old(out)@ + of_whole@
            + seq!['.'],
        final(out)@.last() as u32 == 48 + n % 10,
{
    let d = (n % 10) as int;
    assert(final(out)@ =~= old(out)@ + of_whole@ + seq!['.', digit(d)]);
    assert(final(out)@.subrange(0, (old(out)@.len() + of_whole@.len() + 1) as int) =~= old(out)@ + of_whole@
        + seq!['.']);
}

/// Texts are the same where their characters are.
pub proof fn same_texts_have_the_same_characters(
    a: &str,
    b: &str,
    r: bool,
    opt: &Option<String>,
    held: bool,
    cs: Vec<char>,
)
    requires
        call_ensures(crate::text::same_text, (a, b), r),
        call_ensures(crate::text::opt_text_is, (opt, b), held),
        call_ensures(crate::text::chars_of, (a,), cs),
    ensures
        r <==> a@ == b@,
        *opt is None ==> !held,
        *opt matches Some(o) ==> (held <==> o@ == b@),
        cs@ == a@,
{
}

/// A piece of a text is cut out where it stands, and copies are the same.
pub proof fn pieces_are_cut_out(cs: &Vec<char>, from: usize, to: usize, r: String, v: &Vec<String>, copy: Vec<String>)
    requires
        from <= to <= cs@.len(),
        call_ensures(crate::text::string_from, (cs, from, to), r),
        call_ensures(crate::text::copy_strings, (v,), copy),
    ensures
        r@ == cs@.subrange(from as int, to as int),
        copy@ == v@,
{
}

/// A character is in a set where it is one of those named.
pub proof fn sets_hold_what_they_name(a: char, b: char, c: char, only: bool, either: bool, space: bool, white: bool)
    requires
        call_ensures(CharSet::contains, (CharSet::Only(a), c), only),
        call_ensures(CharSet::contains, (CharSet::Either(a, b), c), either),
        call_ensures(CharSet::contains, (CharSet::Space, c), space),
        call_ensures(char_is_space, (c,), white),
    ensures
        only <==> c == a,
        either <==> c == a || c == b,
        space <==> white,
{
}

/// Trimming one character takes all of it at both ends, or at the start, and
/// nothing else.
pub proof fn trimming_takes_one_character_only(s: &str, c: char, r: String, start: String, i: int)
    requires
        call_ensures(crate::text::trim_set, (s, CharSet::Only(c)), r),
        call_ensures(crate::text::trim_start_set, (s, CharSet::Only(c)), start),
    ensures
        r@.len() > 0 ==> r@[0] != c && r@.last() != c,
        start@.len() > 0 ==> start@[0] != c,
        start@.len() <= s@.len(),
        start@ == s@.subrange(s@.len() - start@.len(), s@.len() as int),
        0 <= i < s@.len() - start@.len() ==> s@[i] == c,
        r@.len() <= start@.len(),
        r@ == start@.subrange(0, r@.len() as int),
        r@.len() <= i < start@.len() ==> start@[i] == c,
{
    let set = CharSet::Only(c);
    lemma_trim_start(s@, set);
    lemma_trim_end(trim_start_of(s@, set), set);
    crate::text::lemma_trim_ends(s@, set);
}

/// A number that is read is the one that its digits stand for.
pub proof fn numbers_are_read_digit_by_digit(
    front: &str,
    d: char,
    all: &str,
    of_front: Option<u32>,
    of_all: Option<u32>,
)
    requires
        all@ == front@.push(d),
        front@.len() > 0,
        front@[0] != '+',
        call_ensures(read_u32, (front,), of_front),
        call_ensures(read_u32, (all,), of_all),
    ensures
        !('0' <= d <= '9') ==> of_all is None,
        '0' <= d <= '9' ==> (of_front matches Some(n) ==> (10 * n + (d as u32 - 48) <= u32::MAX ==> of_all
            == Some((10 * n + (d as u32 - 48)) as u32))),
        of_front is None ==> of_all is None || !crate::numbers::all_digits(front@),
{
    let s = all@;
    assert(s[0] == front@[0]);
    assert(s.drop_last() =~= front@);
    assert(s.last() == d);
    if crate::numbers::all_digits(s) {
        assert(crate::numbers::is_digit(s[s.len() - 1]));
        assert forall|i: int| 0 <= i < front@.len() implies crate::numbers::is_digit(#[trigger] front@[i]) by {
            assert(crate::numbers::is_digit(s[i]));
        }
    }
    if crate::numbers::all_digits(front@) && '0' <= d <= '9' {
        assert forall|i: int| 0 <= i < s.len() implies crate::numbers::is_digit(#[trigger] s[i]) by {
            if i < front@.len() {
                assert(crate::numbers::is_digit(front@[i]));
                assert(s[i] == front@[i]);
            }
        }
    }
}

/// Digits are the ten of them.
pub proof fn ten_characters_are_digits(c: char, r: bool)
    requires
        call_ensures(crate::numbers::char_is_digit, (c,), r),
    ensures
        r <==> '0' <= c <= '9',
{
}

/// More than seven tenths is more than seven of ten.
pub proof fn seven_tenths_are_seven_of_ten(a: u64, b: u64, r: bool)
    requires
        a <= b <= 5_000_000,
        b > 0,
        call_ensures(crate::numbers::is_over_seven_tenths, (a, b), r),
    ensures
        r <==> 10 * a > 7 * b,
{
    crate::numbers::small_ratios_are_exact(a as nat, b as nat);
}

/// ASCII capitals have their small letters, and everything else stays.
pub proof fn capitals_have_small_letters(c: char, r: char)
    requires
        call_ensures(crate::words::char_ascii_lower, (c,), r),
    ensures
        'A' <= c <= 'Z' ==> r as u32 == c as u32 + 32,
        !('A' <= c <= 'Z') ==> r == c,
{
}

/// The last place of a character is found, where it has one.
pub proof fn last_places_are_found(cs: &Vec<char>, c: char, i: int, r: Option<usize>)
    requires
        call_ensures(crate::paths::find_last, (cs, c), r),
    ensures
        r matches Some(k) ==> k < cs@.len() && cs@[k as int] == c && (k < i < cs@.len() ==> cs@[i] != c),
        r is None ==> (0 <= i < cs@.len() ==> cs@[i] != c),
{
    crate::paths::lemma_last_at(cs@, c);
}

/// A map gives back what was put under a text, and nothing else changes.
pub proof fn maps_give_back_what_was_put_in<V>(
    map: &mut crate::text_map::TextMap<V>,
    key: &str,
    value: V,
    other: Seq<char>,
)
    requires
        call_ensures(crate::text_map::TextMap::<V>::insert, (map, key, value), ()),
    ensures
        final(map)@.contains_key(key@) && final(map)@[key@] == value,
        other != key@ ==> final(map)@.contains_key(other) == old(map)@.contains_key(other),
        other != key@ && old(map)@.contains_key(other) ==> final(map)@[other] == old(map)@[other],
{
}

/// What was put into a map is found in it, and only that.
pub proof fn maps_find_what_they_hold<V>(
    map: &crate::text_map::TextMap<V>,
    key: &str,
    has: bool,
)
    requires
        call_ensures(crate::text_map::TextMap::<V>::contains_key, (map, key), has),
    ensures
        has <==> map@.contains_key(key@),
{
}

/// A map that is new or cleared holds nothing; what is taken out is gone, and the
/// rest stays.
pub proof fn maps_forget_what_is_taken_out<V>(
    new: crate::text_map::TextMap<V>,
    a: &mut crate::text_map::TextMap<V>,
    b: &mut crate::text_map::TextMap<V>,
    key: &str,
    other: Seq<char>,
)
    requires
        call_ensures(crate::text_map::TextMap::<V>::new, (), new),
        call_ensures(crate::text_map::TextMap::<V>::clear, (a,), ()),
        call_ensures(crate::text_map::TextMap::<V>::remove, (b, key), ()),
    ensures
        !new@.contains_key(other),
        !final(a)@.contains_key(other),
        !final(b)@.contains_key(key@),
        other != key@ ==> final(b)@.contains_key(other) == old(b)@.contains_key(other),
        other != key@ && old(b)@.contains_key(other) ==> final(b)@[other] == old(b)@[other],
{
}

/// Looking a text up gives what stands under it, and the texts of a map are listed
/// once each.
pub proof fn maps_are_looked_up<V>(
    map: &crate::text_map::TextMap<V>,
    key: &str,
    r: Option<&V>,
    keys: Vec<String>,
    i: int,
    j: int,
    empty: bool,
)
    requires
        call_ensures(crate::text_map::TextMap::<V>::get, (map, key), r),
        call_ensures(crate::text_map::TextMap::<V>::keys, (map,), keys),
        call_ensures(crate::text_map::TextMap::<V>::is_empty, (map,), empty),
    ensures
        map@.contains_key(key@) ==> (r matches Some(v) && *v == map@[key@]),
        !map@.contains_key(key@) ==> r is None,
        empty ==> r is None,
        map@.contains_key(key@) ==> exists|k: int|
            0 <= k < keys@.len() && (#[trigger] keys@[k])@ == key@,
        0 <= i < keys@.len() ==> map@.contains_key(keys@[i]@),
        0 <= i < j < keys@.len() ==> keys@[i]@ != keys@[j]@,
{
    let list = crate::text::texts(keys@);
    assert(list.len() == keys@.len());
    if map@.contains_key(key@) {
        assert(list.contains(key@));
        let k = choose|k: int| 0 <= k < list.len() && list[k] == key@;
        assert(keys@[k]@ == key@);
    }
    if 0 <= i < keys@.len() {
        assert(list[i] == keys@[i]@);
        assert(list.contains(keys@[i]@));
    }
    if 0 <= i < j < keys@.len() {
        assert(list[i] == keys@[i]@ && list[j] == keys@[j]@);
    }
}

/// Putting a number behind a text puts its digits there.
pub proof fn numbers_go_behind_texts(text: &mut String, n: u64, of_n: String)
    requires
        call_ensures(crate::numbers::push_decimal, (text, n), ()),
        call_ensures(to_decimal, (n,), of_n),
    ensures
        final(text)@ == old(text)@ + of_n@,
{
}

} // verus!
