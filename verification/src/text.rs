//! Text as a sequence of characters: white space, trimming, words, joining,
//! searching, lower case and decimal numbers.
use vstd::prelude::*;

verus! {

/// Appends one character to a string.
pub assume_specification[ String::push ](s: &mut String, c: char)
    ensures
        final(s)@ == old(s)@.push(c),
;

/// The views of a list of strings, in order.
pub open spec fn texts(v: Seq<String>) -> Seq<Seq<char>> {
    v.map_values(|s: String| s@)
}

/// The view of an optional string.
pub open spec fn opt_text(v: Option<String>) -> Option<Seq<char>> {
    match v {
        Some(s) => Some(s@),
        None => None,
    }
}

/// The view of an optional string slice.
pub open spec fn opt_str(v: Option<&str>) -> Option<Seq<char>> {
    match v {
        Some(s) => Some(s@),
        None => None,
    }
}

/// The characters of `s`, in order.
pub fn chars_of(s: &str) -> (r: Vec<char>)
    ensures
        r@ == s@,
{
    let mut out: Vec<char> = Vec::new();
    for c in it: s.chars()
        invariant
            out@ == it.seq().take(it.index() as int),
            it.seq() == s@,
    {
        out.push(c);
        assert(it.seq().take(it.index() + 1) =~= it.seq().take(it.index() as int).push(c));
    }
    assert(s@.take(s@.len() as int) =~= s@);
    out
}

/// The characters `cs[from..to]` as a string.
pub fn string_from(cs: &Vec<char>, from: usize, to: usize) -> (r: String)
    requires
        from <= to <= cs@.len(),
    ensures
        r@ == cs@.subrange(from as int, to as int),
{
    let mut out = String::new();
    let mut i: usize = from;
    while i < to
        invariant
            from <= i <= to <= cs@.len(),
            out@ == cs@.subrange(from as int, i as int),
        decreases to - i,
    {
        out.push(cs[i]);
        assert(cs@.subrange(from as int, i + 1) =~= cs@.subrange(from as int, i as int).push(
            cs@[i as int],
        ));
        i += 1;
    }
    out
}

/// Whether two texts hold the same characters.
pub fn same_text(a: &str, b: &str) -> (r: bool)
    ensures
        r == (a@ == b@),
{
    let x = a.to_owned();
    let y = b.to_owned();
    x == y
}

/// Whether `a` holds exactly the text `b`.
pub fn opt_text_is(a: &Option<String>, b: &str) -> (r: bool)
    ensures
        r == (opt_text(*a) == Some(b@)),
{
    match a {
        Some(x) => same_text(x, b),
        None => false,
    }
}

/// A copy of a list of strings.
pub fn copy_strings(v: &Vec<String>) -> (r: Vec<String>)
    ensures
        r@ == v@,
{
    let mut out: Vec<String> = Vec::new();
    for i in 0..v.len()
        invariant
            out@ == v@.take(i as int),
    {
        out.push(v[i].clone());
        assert(v@.take(i + 1) =~= v@.take(i as int).push(v@[i as int]));
    }
    assert(v@.take(v@.len() as int) =~= v@);
    out
}

/// Whether `needle` is one of the strings of `v`.
pub fn contains_text(v: &Vec<String>, needle: &str) -> (r: bool)
    ensures
        r == texts(v@).contains(needle@),
{
    for i in 0..v.len()
        invariant
            forall|j: int| 0 <= j < i ==> texts(v@)[j] != needle@,
    {
        if same_text(&v[i], needle) {
            assert(texts(v@)[i as int] == needle@);
            return true;
        }
    }
    assert(!texts(v@).contains(needle@));
    false
}

// ---------------------------------------------------------------------------
// White space and trimming
// ---------------------------------------------------------------------------

/// The characters with Unicode's `White_Space` property.
pub open spec fn is_space(c: char) -> bool {
    let n = c as u32;
    ||| 0x09 <= n <= 0x0d
    ||| n == 0x20
    ||| n == 0x85
    ||| n == 0xa0
    ||| n == 0x1680
    ||| 0x2000 <= n <= 0x200a
    ||| n == 0x2028
    ||| n == 0x2029
    ||| n == 0x202f
    ||| n == 0x205f
    ||| n == 0x3000
}

/// Whether `c` is white space.
pub fn char_is_space(c: char) -> (r: bool)
    ensures
        r == is_space(c),
{
    let n: u32 = c as u32;
    (0x09 <= n && n <= 0x0d) || n == 0x20 || n == 0x85 || n == 0xa0 || n == 0x1680 || (0x2000 <= n
        && n <= 0x200a) || n == 0x2028 || n == 0x2029 || n == 0x202f || n == 0x205f || n == 0x3000
}

/// A set of characters that can be trimmed from the ends of a text.
#[derive(Clone, Copy)]
pub enum CharSet {
    /// White space.
    Space,
    /// One character.
    Only(char),
    /// Two characters.
    Either(char, char),
}

impl CharSet {
    /// Whether `c` is in the set.
    pub open spec fn has(self, c: char) -> bool {
        match self {
            CharSet::Space => is_space(c),
            CharSet::Only(a) => c == a,
            CharSet::Either(a, b) => c == a || c == b,
        }
    }

    /// Whether `c` is in the set.
    pub fn contains(self, c: char) -> (r: bool)
        ensures
            r == self.has(c),
    {
        match self {
            CharSet::Space => char_is_space(c),
            CharSet::Only(a) => c == a,
            CharSet::Either(a, b) => c == a || c == b,
        }
    }
}

/// `s` without its leading characters from `set`.
pub open spec fn trim_start_of(s: Seq<char>, set: CharSet) -> Seq<char>
    decreases s.len(),
{
    if s.len() > 0 && set.has(s[0]) {
        trim_start_of(s.subrange(1, s.len() as int), set)
    } else {
        s
    }
}

/// `s` without its trailing characters from `set`.
pub open spec fn trim_end_of(s: Seq<char>, set: CharSet) -> Seq<char>
    decreases s.len(),
{
    if s.len() > 0 && set.has(s.last()) {
        trim_end_of(s.drop_last(), set)
    } else {
        s
    }
}

/// `s` without its leading and trailing characters from `set`.
pub open spec fn trim_of(s: Seq<char>, set: CharSet) -> Seq<char> {
    trim_end_of(trim_start_of(s, set), set)
}

/// `s` without leading and trailing white space.
pub open spec fn trimmed(s: Seq<char>) -> Seq<char> {
    trim_of(s, CharSet::Space)
}

/// Whether `s` holds nothing but white space.
pub open spec fn blank(s: Seq<char>) -> bool {
    forall|i: int| 0 <= i < s.len() ==> is_space(#[trigger] s[i])
}

/// What is left of a trimmed text starts and ends outside the trimmed set.
pub proof fn lemma_trim_ends(s: Seq<char>, set: CharSet)
    ensures
        trim_of(s, set).len() > 0 ==> !set.has(trim_of(s, set)[0]) && !set.has(
            trim_of(s, set).last(),
        ),
        trim_of(s, set).len() <= s.len(),
{
    lemma_trim_start(s, set);
    lemma_trim_end(trim_start_of(s, set), set);
}

pub(crate) proof fn lemma_trim_start(s: Seq<char>, set: CharSet)
    ensures
        trim_start_of(s, set).len() <= s.len(),
        trim_start_of(s, set).len() > 0 ==> !set.has(trim_start_of(s, set)[0]),
        trim_start_of(s, set) == s.subrange(s.len() - trim_start_of(s, set).len(), s.len() as int),
        forall|i: int|
            0 <= i < s.len() - trim_start_of(s, set).len() ==> set.has(#[trigger] s[i]),
    decreases s.len(),
{
    if s.len() > 0 && set.has(s[0]) {
        let rest = s.subrange(1, s.len() as int);
        lemma_trim_start(rest, set);
        let t = trim_start_of(rest, set);
        assert(t =~= s.subrange(s.len() - t.len(), s.len() as int));
        assert forall|i: int| 0 <= i < s.len() - t.len() implies set.has(#[trigger] s[i]) by {
            if i > 0 {
                assert(s[i] == rest[i - 1]);
            }
        }
    } else {
        assert(s =~= s.subrange(0, s.len() as int));
    }
}

pub(crate) proof fn lemma_trim_end(s: Seq<char>, set: CharSet)
    ensures
        trim_end_of(s, set).len() <= s.len(),
        trim_end_of(s, set).len() > 0 ==> !set.has(trim_end_of(s, set).last()),
        trim_end_of(s, set) == s.subrange(0, trim_end_of(s, set).len() as int),
        forall|i: int| trim_end_of(s, set).len() <= i < s.len() ==> set.has(#[trigger] s[i]),
    decreases s.len(),
{
    if s.len() > 0 && set.has(s.last()) {
        let rest = s.drop_last();
        lemma_trim_end(rest, set);
        let t = trim_end_of(rest, set);
        assert(t =~= s.subrange(0, t.len() as int));
        assert forall|i: int| t.len() <= i < s.len() implies set.has(#[trigger] s[i]) by {
            if i < s.len() - 1 {
                assert(s[i] == rest[i]);
            }
        }
    } else {
        assert(s =~= s.subrange(0, s.len() as int));
    }
}

/// Trimming leaves nothing exactly when there was only white space.
pub proof fn lemma_blank_trims_to_nothing(s: Seq<char>)
    ensures
        blank(s) <==> trimmed(s).len() == 0,
{
    let a = trim_start_of(s, CharSet::Space);
    lemma_trim_start(s, CharSet::Space);
    lemma_trim_end(a, CharSet::Space);
    if blank(s) && a.len() > 0 {
        assert(a[0] == s[s.len() - a.len()]);
    }
    if trimmed(s).len() == 0 && a.len() > 0 {
        assert(CharSet::Space.has(a[0]));
    }
}

/// Trimming twice is trimming once.
pub proof fn trim_is_idempotent(s: Seq<char>, set: CharSet)
    ensures
        trim_of(trim_of(s, set), set) == trim_of(s, set),
{
    lemma_trim_ends(s, set);
}

/// `s` without its leading and trailing characters from `set`.
pub fn trim_set(s: &str, set: CharSet) -> (r: String)
    ensures
        r@ == trim_of(s@, set),
{
    let cs = chars_of(s);
    let mut from: usize = 0;
    assert(cs@.subrange(0, cs@.len() as int) =~= cs@);
    while from < cs.len() && set.contains(cs[from])
        invariant
            from <= cs@.len(),
            trim_start_of(cs@, set) == trim_start_of(
                cs@.subrange(from as int, cs@.len() as int),
                set,
            ),
        decreases cs@.len() - from,
    {
        let ghost here = cs@.subrange(from as int, cs@.len() as int);
        assert(here.subrange(1, here.len() as int) =~= cs@.subrange(from + 1, cs@.len() as int));
        from += 1;
    }
    let mut to: usize = cs.len();
    let ghost rest = cs@.subrange(from as int, cs@.len() as int);
    assert(trim_start_of(cs@, set) == rest);
    while from < to && set.contains(cs[to - 1])
        invariant
            from <= to <= cs@.len(),
            trim_end_of(rest, set) == trim_end_of(cs@.subrange(from as int, to as int), set),
        decreases to,
    {
        let ghost here = cs@.subrange(from as int, to as int);
        assert(here.drop_last() =~= cs@.subrange(from as int, to - 1));
        to -= 1;
    }
    string_from(&cs, from, to)
}

/// `s` without its trailing characters from `set`.
pub fn trim_end_set(s: &str, set: CharSet) -> (r: String)
    ensures
        r@ == trim_end_of(s@, set),
{
    let cs = chars_of(s);
    let mut to: usize = cs.len();
    assert(cs@.subrange(0, cs@.len() as int) =~= cs@);
    while 0 < to && set.contains(cs[to - 1])
        invariant
            to <= cs@.len(),
            trim_end_of(cs@, set) == trim_end_of(cs@.subrange(0, to as int), set),
        decreases to,
    {
        let ghost here = cs@.subrange(0, to as int);
        assert(here.drop_last() =~= cs@.subrange(0, to - 1));
        to -= 1;
    }
    string_from(&cs, 0, to)
}

/// `s` without its leading characters from `set`.
pub fn trim_start_set(s: &str, set: CharSet) -> (r: String)
    ensures
        r@ == trim_start_of(s@, set),
{
    let cs = chars_of(s);
    let mut from: usize = 0;
    assert(cs@.subrange(0, cs@.len() as int) =~= cs@);
    while from < cs.len() && set.contains(cs[from])
        invariant
            from <= cs@.len(),
            trim_start_of(cs@, set) == trim_start_of(
                cs@.subrange(from as int, cs@.len() as int),
                set,
            ),
        decreases cs@.len() - from,
    {
        let ghost here = cs@.subrange(from as int, cs@.len() as int);
        assert(here.subrange(1, here.len() as int) =~= cs@.subrange(from + 1, cs@.len() as int));
        from += 1;
    }
    let n = cs.len();
    string_from(&cs, from, n)
}

/// `s` without leading and trailing white space.
pub fn trim(s: &str) -> (r: String)
    ensures
        r@ == trimmed(s@),
{
    trim_set(s, CharSet::Space)
}

/// Whether `s` holds nothing but white space.
pub fn is_blank(s: &str) -> (r: bool)
    ensures
        r == blank(s@),
        r == (trimmed(s@).len() == 0),
{
    proof {
        lemma_blank_trims_to_nothing(s@);
    }
    trim(s).as_str().is_empty()
}

/// What [`trim_start_of`] leaves out are all the leading characters from the
/// set: `n` of them.
pub proof fn lemma_trim_start_splits(s: Seq<char>, set: CharSet) -> (n: int)
    ensures
        0 <= n <= s.len(),
        trim_start_of(s, set) == s.subrange(n, s.len() as int),
        forall|i: int| 0 <= i < n ==> set.has(#[trigger] s[i]),
        n < s.len() ==> !set.has(s[n]),
    decreases s.len(),
{
    if s.len() > 0 && set.has(s[0]) {
        let rest = s.subrange(1, s.len() as int);
        let m = lemma_trim_start_splits(rest, set);
        assert(rest.subrange(m, rest.len() as int) =~= s.subrange(m + 1, s.len() as int));
        assert forall|i: int| 0 <= i < m + 1 implies set.has(#[trigger] s[i]) by {
            if i > 0 {
                assert(s[i] == rest[i - 1]);
            }
        }
        m + 1
    } else {
        assert(s.subrange(0, s.len() as int) =~= s);
        0
    }
}

/// `s` trimmed, or nothing when that leaves it empty.
pub open spec fn filled(s: Seq<char>) -> Option<Seq<char>> {
    if trimmed(s).len() == 0 {
        None
    } else {
        Some(trimmed(s))
    }
}

/// `s` trimmed, or nothing when that leaves it empty.
pub fn trimmed_or_none(s: &str) -> (r: Option<String>)
    ensures
        opt_text(r) == filled(s@),
{
    let t = trim(s);
    if t.as_str().is_empty() {
        None
    } else {
        Some(t)
    }
}

} // verus!
