//! The desktop's monospace font, out of what its tools print.
use vstd::prelude::*;
use crate::numbers::{is_u32_text, read_u32, unsigned_part, value_of};
use crate::paths::{find_last, last_at, pieces, split_on};
use crate::text::{chars_of, contains_text, opt_str, opt_text, string_from, texts, trim, trim_of, trim_set, trimmed, CharSet};

verus! {

/// The smallest number that is taken for a size. A smaller one at the end of a
/// font description belongs to the family's name, as in "Go Mono 2".
pub const SMALLEST_SIZE: u32 = 5;

/// Whether a word is a size: a bare number that is not too small.
pub open spec fn is_size(word: Seq<char>) -> bool {
    is_u32_text(word) && value_of(unsigned_part(word)) >= SMALLEST_SIZE
}

/// The family of a font description: the description, trimmed, without the
/// size at its end.
pub open spec fn pango_family(desc: Seq<char>) -> Option<Seq<char>> {
    let d = trimmed(desc);
    if d.len() == 0 {
        None
    } else {
        let at = last_at(d, ' ');
        let family = if at > 0 && is_size(d.subrange(at + 1, d.len() as int)) {
            trimmed(d.subrange(0, at))
        } else {
            d
        };
        if family.len() == 0 {
            None
        } else {
            Some(family)
        }
    }
}

/// Drops the size at the end of a font description ("Adwaita Mono 11" is
/// "Adwaita Mono"), and keeps families that merely end in a digit ("M+ 1m",
/// "Go Mono 2").
pub fn strip_pango_size(desc: &str) -> (r: Option<String>)
    ensures
        opt_text(r) == pango_family(desc@),
{
    let d = trim(desc);
    if d.as_str().is_empty() {
        return None;
    }
    let cs = chars_of(&d);
    let n = cs.len();
    let family = match find_last(&cs, ' ') {
        Some(at) => {
            let tail = string_from(&cs, at + 1, n);
            let size = match read_u32(&tail) {
                Some(n) => n >= SMALLEST_SIZE,
                None => false,
            };
            if at > 0 && size {
                let head = string_from(&cs, 0, at);
                trim(&head)
            } else {
                d
            }
        },
        None => d,
    };
    if family.as_str().is_empty() {
        None
    } else {
        Some(family)
    }
}

/// The family in what `gsettings` prints: a quoted font description.
pub open spec fn gsettings_family(output: Seq<char>) -> Option<Seq<char>> {
    pango_family(trim_of(trimmed(output), CharSet::Only('\'')))
}

/// The family in what `gsettings` prints: a quoted font description.
pub fn gsettings_mono_family(output: &str) -> (r: Option<String>)
    ensures
        opt_text(r) == gsettings_family(output@),
{
    let value = trim(output);
    let bare = trim_set(&value, CharSet::Only('\''));
    strip_pango_size(&bare)
}

/// The family in what `fc-match` prints: the first of its aliases.
pub open spec fn fontconfig_family(output: Seq<char>) -> Option<Seq<char>> {
    let family = trimmed(pieces(trimmed(output), ',')[0]);
    if family.len() == 0 {
        None
    } else {
        Some(family)
    }
}

/// The family in what `fc-match` prints: the first of its aliases.
pub fn fontconfig_mono_family(output: &str) -> (r: Option<String>)
    ensures
        opt_text(r) == fontconfig_family(output@),
{
    let value = trim(output);
    let aliases = split_on(&value, ',');
    assert(texts(aliases@).len() > 0);
    let family = trim(&aliases[0]);
    assert(texts(aliases@)[0] == aliases@[0]@);
    if family.as_str().is_empty() {
        None
    } else {
        Some(family)
    }
}

/// The desktop's monospace family: what `gsettings` says, else what `fc-match`
/// says. A tool that is missing or fails says nothing.
pub open spec fn mono_family(
    gsettings: Option<Seq<char>>,
    fontconfig: Option<Seq<char>>,
) -> Option<Seq<char>> {
    let first = match gsettings {
        Some(out) => gsettings_family(out),
        None => None,
    };
    match first {
        Some(family) => Some(family),
        None => match fontconfig {
            Some(out) => fontconfig_family(out),
            None => None,
        },
    }
}

/// The desktop's monospace family, out of what its tools print.
pub fn system_mono_family(gsettings: Option<&str>, fontconfig: Option<&str>) -> (r: Option<
    String,
>)
    ensures
        opt_text(r) == mono_family(opt_str(gsettings), opt_str(fontconfig)),
{
    if let Some(out) = gsettings {
        if let Some(family) = gsettings_mono_family(out) {
            return Some(family);
        }
    }
    match fontconfig {
        Some(out) => fontconfig_mono_family(out),
        None => None,
    }
}

/// The family to use: the desktop's, where it is installed. A family that the
/// text system does not know must never reach it.
pub fn apply_system_mono_font(family: Option<String>, installed: &Vec<String>) -> (r: Option<
    String,
>)
    ensures
        match family {
            Some(f) => if texts(installed@).contains(f@) {
                opt_text(r) == Some(f@)
            } else {
                r is None
            },
            None => r is None,
        },
{
    match family {
        Some(f) => if contains_text(installed, &f) {
            Some(f)
        } else {
            None
        },
        None => None,
    }
}

} // verus!
