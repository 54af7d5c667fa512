//! File paths with `/` between their parts.
use vstd::prelude::*;
use crate::text::{chars_of, opt_text, same_text, string_from, texts};

verus! {

/// Where `c` first stands in `s`; the length of `s` where it does not.
pub open spec fn first_at(s: Seq<char>, c: char) -> nat
    decreases s.len(),
{
    if s.len() == 0 || s[0] == c {
        0
    } else {
        1 + first_at(s.subrange(1, s.len() as int), c)
    }
}

/// Where `c` last stands in `s`; -1 where it does not.
pub open spec fn last_at(s: Seq<char>, c: char) -> int
    decreases s.len(),
{
    if s.len() == 0 {
        -1
    } else if s.last() == c {
        s.len() - 1
    } else {
        last_at(s.drop_last(), c)
    }
}

/// [`last_at`] is the last place of the character.
pub proof fn lemma_last_at(s: Seq<char>, c: char)
    ensures
        -1 <= last_at(s, c) < s.len(),
        last_at(s, c) >= 0 ==> s[last_at(s, c)] == c,
        forall|i: int| last_at(s, c) < i < s.len() ==> #[trigger] s[i] != c,
    decreases s.len(),
{
    if s.len() > 0 && s.last() != c {
        let front = s.drop_last();
        lemma_last_at(front, c);
        assert forall|i: int| last_at(s, c) < i < s.len() implies #[trigger] s[i] != c by {
            if i < front.len() {
                assert(s[i] == front[i]);
            }
        }
    }
}

pub(crate) proof fn lemma_first_at(s: Seq<char>, c: char)
    ensures
        first_at(s, c) <= s.len(),
        first_at(s, c) < s.len() ==> s[first_at(s, c) as int] == c,
        forall|i: int| 0 <= i < first_at(s, c) ==> #[trigger] s[i] != c,
    decreases s.len(),
{
    if s.len() > 0 && s[0] != c {
        let rest = s.subrange(1, s.len() as int);
        lemma_first_at(rest, c);
        assert forall|i: int| 0 <= i < first_at(s, c) implies #[trigger] s[i] != c by {
            if i > 0 {
                assert(s[i] == rest[i - 1]);
            }
        }
    }
}

/// Where `c` last stands in `cs`, if anywhere.
pub fn find_last(cs: &Vec<char>, c: char) -> (r: Option<usize>)
    ensures
        match r {
            Some(i) => i == last_at(cs@, c) && i < cs@.len(),
            None => last_at(cs@, c) == -1,
        },
{
    let mut n: usize = cs.len();
    assert(cs@.subrange(0, cs@.len() as int) =~= cs@);
    while n > 0
        invariant
            n <= cs@.len(),
            last_at(cs@, c) == last_at(cs@.subrange(0, n as int), c),
        decreases n,
    {
        let ghost here = cs@.subrange(0, n as int);
        assert(here.last() == cs@[n - 1]);
        if cs[n - 1] == c {
            return Some(n - 1);
        }
        assert(here.drop_last() =~= cs@.subrange(0, n - 1));
        n -= 1;
    }
    None
}

/// The pieces of `s` between its separators, in order; one more than there are
/// separators.
pub open spec fn pieces(s: Seq<char>, sep: char) -> Seq<Seq<char>>
    decreases s.len(),
{
    let n = first_at(s, sep);
    if n < s.len() {
        seq![s.subrange(0, n as int)] + pieces(s.subrange(n as int + 1, s.len() as int), sep)
    } else {
        seq![s]
    }
}

/// The pieces of `s` between its separators, in order.
pub fn split_on(s: &str, sep: char) -> (r: Vec<String>)
    ensures
        texts(r@) == pieces(s@, sep),
{
    let cs = chars_of(s);
    let n = cs.len();
    let mut out: Vec<String> = Vec::new();
    let mut from: usize = 0;
    assert(cs@.subrange(0, n as int) =~= cs@);
    assert(texts(out@) + pieces(cs@, sep) =~= pieces(cs@, sep));
    loop
        invariant
            n == cs@.len(),
            cs@ == s@,
            from <= n,
            texts(out@) + pieces(cs@.subrange(from as int, n as int), sep) == pieces(cs@, sep),
        decreases n - from,
    {
        let ghost here = cs@.subrange(from as int, n as int);
        let mut i: usize = from;
        while i < n && cs[i] != sep
            invariant
                n == cs@.len(),
                from <= i <= n,
                here == cs@.subrange(from as int, n as int),
                first_at(here, sep) == (i - from) + first_at(
                    cs@.subrange(i as int, n as int),
                    sep,
                ),
            decreases n - i,
        {
            let ghost at = cs@.subrange(i as int, n as int);
            assert(at.subrange(1, at.len() as int) =~= cs@.subrange(i + 1, n as int));
            i += 1;
        }
        proof {
            lemma_first_at(here, sep);
            assert(first_at(here, sep) == i - from);
        }
        let piece = string_from(&cs, from, i);
        proof {
            assert(piece@ =~= here.subrange(0, i - from));
            assert(texts(out@.push(piece)) =~= texts(out@).push(piece@));
        }
        if i == n {
            proof {
                assert(here.subrange(0, i - from) =~= here);
                assert(texts(out@) + seq![piece@] =~= texts(out@).push(piece@));
            }
            out.push(piece);
            return out;
        }
        proof {
            assert(here.subrange(i - from + 1, here.len() as int) =~= cs@.subrange(
                i + 1,
                n as int,
            ));
            let tail = pieces(cs@.subrange(i + 1, n as int), sep);
            assert(texts(out@) + (seq![piece@] + tail) =~= texts(out@).push(piece@) + tail);
        }
        out.push(piece);
        from = i + 1;
    }
}

/// Whether a part of a path names something: it is neither empty nor ".".
pub open spec fn names_something(part: Seq<char>) -> bool {
    part.len() > 0 && part != seq!['.']
}

/// The last part of a path that names something.
pub open spec fn last_name(parts: Seq<Seq<char>>) -> Option<Seq<char>>
    decreases parts.len(),
{
    if parts.len() == 0 {
        None
    } else if names_something(parts.last()) {
        Some(parts.last())
    } else {
        last_name(parts.drop_last())
    }
}

/// The file that a path ends in: its last part, unless that leads upward.
pub open spec fn file_name_of(path: Seq<char>) -> Option<Seq<char>> {
    match last_name(pieces(path, '/')) {
        Some(name) => if name == seq!['.', '.'] {
            None
        } else {
            Some(name)
        },
        None => None,
    }
}

/// What stands behind the last dot of the file that a path ends in. A dot that
/// the name starts with does not count.
pub open spec fn extension_of(path: Seq<char>) -> Option<Seq<char>> {
    match file_name_of(path) {
        Some(name) => if last_at(name, '.') > 0 {
            Some(name.subrange(last_at(name, '.') + 1, name.len() as int))
        } else {
            None
        },
        None => None,
    }
}

/// The file that a path ends in: its last part, unless that leads upward.
pub fn file_name(path: &str) -> (r: Option<String>)
    ensures
        opt_text(r) == file_name_of(path@),
{
    let parts = split_on(path, '/');
    let mut n: usize = parts.len();
    proof {
        reveal_strlit(".");
        reveal_strlit("..");
        assert("."@ =~= seq!['.']);
        assert(".."@ =~= seq!['.', '.']);
    }
    assert(texts(parts@).take(parts@.len() as int) =~= texts(parts@));
    while n > 0
        invariant
            n <= parts@.len(),
            texts(parts@) == pieces(path@, '/'),
            last_name(texts(parts@)) == last_name(texts(parts@).take(n as int)),
            "."@ == seq!['.'],
            ".."@ == seq!['.', '.'],
        decreases n,
    {
        let ghost here = texts(parts@).take(n as int);
        let part = &parts[n - 1];
        assert(here.last() == part@);
        if !part.as_str().is_empty() && !same_text(part, ".") {
            return if same_text(part, "..") {
                None
            } else {
                Some(part.clone())
            };
        }
        assert(here.drop_last() =~= texts(parts@).take(n - 1));
        n -= 1;
    }
    None
}

/// What stands behind the last dot of the file that a path ends in.
pub fn extension(path: &str) -> (r: Option<String>)
    ensures
        opt_text(r) == extension_of(path@),
{
    match file_name(path) {
        Some(name) => {
            let cs = chars_of(&name);
            let n = cs.len();
            match find_last(&cs, '.') {
                Some(at) => if at > 0 {
                    Some(string_from(&cs, at + 1, n))
                } else {
                    None
                },
                None => None,
            }
        },
        None => None,
    }
}

/// `name` in the directory `dir`.
pub open spec fn path_in(dir: Seq<char>, name: Seq<char>) -> Seq<char> {
    if dir.len() == 0 || dir.last() == '/' {
        dir + name
    } else {
        dir + seq!['/'] + name
    }
}

/// `name`, which is relative, in the directory `dir`.
pub fn join_path(dir: &str, name: &str) -> (r: String)
    ensures
        r@ == path_in(dir@, name@),
{
    let cs = chars_of(dir);
    let mut out = dir.to_owned();
    if cs.len() > 0 && cs[cs.len() - 1] != '/' {
        out.push('/');
    }
    out.append(name);
    assert(out@ =~= path_in(dir@, name@));
    out
}

} // verus!
