//! Audio files that can be imported, and how they are described.
use vstd::prelude::*;
use vstd::utf8::is_ascii_chars;
use crate::numbers::{decimal, push_decimal, push_signed, push_tenths, push_two_digits, signed_decimal, tenths, tenths_of, to_tenths, two_digits};
use crate::paths::{extension, extension_of};
use crate::text::{contains_text, same_text, texts};
use crate::words::{ascii_lowercase, join, joined, lowercase, to_lowercase, to_uppercase, uppercase};

verus! {

/// The languages that can be chosen: code and name.
pub const LANGUAGES: [(&'static str, &'static str); 14] = [
    ("auto", "Auto Detect"),
    ("en", "English"),
    ("zh", "Chinese"),
    ("de", "German"),
    ("es", "Spanish"),
    ("ru", "Russian"),
    ("ko", "Korean"),
    ("fr", "French"),
    ("ja", "Japanese"),
    ("pt", "Portuguese"),
    ("it", "Italian"),
    ("nl", "Dutch"),
    ("ar", "Arabic"),
    ("hi", "Hindi"),
];

/// Whether a path's extension is, in lower case, one of `extensions`.
pub open spec fn names_audio(path: Seq<char>, extensions: Seq<Seq<char>>) -> bool {
    match extension_of(path) {
        Some(e) => extensions.contains(lowercase(e)),
        None => false,
    }
}

/// Whether the path's extension is one of the supported audio formats, whatever
/// its case. Of an extension in ASCII the small letters alone count; a path with
/// these small letters for its extension has the same answer.
pub fn is_audio_path(path: &str, extensions: &Vec<String>) -> (r: bool)
    ensures
        r == names_audio(path@, texts(extensions@)),
        match extension_of(path@) {
            Some(e) => is_ascii_chars(e) ==> r == texts(extensions@).contains(ascii_lowercase(e)),
            None => !r,
        },
        forall|other: Seq<char>|
            #![trigger names_audio(other, texts(extensions@))]
            (extension_of(path@) matches Some(e) && is_ascii_chars(e) && extension_of(other)
                == Some(ascii_lowercase(e))) ==> names_audio(other, texts(extensions@)) == r,
{
    match extension(path) {
        Some(e) => contains_text(extensions, &to_lowercase(&e)),
        None => false,
    }
}

/// The case of an extension does not count: two paths whose extensions are the
/// same in lower case are both audio files or both none.
pub proof fn case_does_not_count(a: Seq<char>, b: Seq<char>, extensions: Seq<Seq<char>>)
    requires
        extension_of(a) matches Some(x) && (extension_of(b) matches Some(y) && lowercase(x)
            == lowercase(y)),
    ensures
        names_audio(a, extensions) == names_audio(b, extensions),
{
}

/// A path and the same path with its extension in lower case are both audio files
/// or both none, wherever lower case taken twice is lower case taken once. For an
/// extension in ASCII [`is_audio_path`] states this without a condition.
pub proof fn lower_case_keeps_the_answer(
    path: Seq<char>,
    lowered: Seq<char>,
    extensions: Seq<Seq<char>>,
)
    requires
        extension_of(path) matches Some(e) && extension_of(lowered) == Some(lowercase(e))
            && lowercase(lowercase(e)) == lowercase(e),
    ensures
        names_audio(lowered, extensions) == names_audio(path, extensions),
{
}

/// The first audio file among dropped paths.
pub fn pick_dropped_audio_file<'a>(paths: &'a Vec<String>, extensions: &Vec<String>) -> (r: Option<
    &'a String,
>)
    ensures
        match r {
            Some(p) => exists|i: int|
                0 <= i < paths@.len() && *p == #[trigger] paths@[i] && names_audio(
                    paths@[i]@,
                    texts(extensions@),
                ) && forall|j: int|
                    0 <= j < i ==> !names_audio((#[trigger] paths@[j])@, texts(extensions@)),
            None => forall|j: int|
                0 <= j < paths@.len() ==> !names_audio(
                    (#[trigger] paths@[j])@,
                    texts(extensions@),
                ),
        },
{
    for i in 0..paths.len()
        invariant
            forall|j: int|
                0 <= j < i ==> !names_audio((#[trigger] paths@[j])@, texts(extensions@)),
    {
        if is_audio_path(&paths[i], extensions) {
            return Some(&paths[i]);
        }
    }
    None
}

/// The formats that can be imported, in capitals: "WAV, MP3".
pub fn formats_label(extensions: &Vec<String>) -> (r: String)
    ensures
        r@ == uppercase(joined(texts(extensions@), ", "@)),
{
    to_uppercase(&join(extensions, ", "))
}

/// A duration as `H:MM:SS`, or `M:SS` where it is under an hour.
pub open spec fn duration_text(total: nat) -> Seq<char> {
    let (hours, minutes, seconds) = (total / 3600, (total % 3600) / 60, total % 60);
    if hours > 0 {
        decimal(hours) + ":"@ + two_digits(minutes) + ":"@ + two_digits(seconds)
    } else {
        decimal(minutes) + ":"@ + two_digits(seconds)
    }
}

/// A duration of whole seconds as `H:MM:SS`, or `M:SS` where it is under an
/// hour. One below zero counts as zero.
pub fn format_duration(seconds: i64) -> (r: String)
    ensures
        r@ == duration_text(
            if seconds < 0 {
                0
            } else {
                seconds as nat
            },
        ),
{
    let total: u64 = if seconds < 0 {
        0
    } else {
        seconds as u64
    };
    let hours: u64 = total / 3600;
    let mut out = String::new();
    if hours > 0 {
        push_decimal(&mut out, hours);
        out.append(":");
        push_two_digits(&mut out, (total % 3600) / 60);
    } else {
        push_decimal(&mut out, (total % 3600) / 60);
    }
    out.append(":");
    push_two_digits(&mut out, total % 60);
    assert(out@ =~= duration_text(total as nat));
    out
}

/// A number of bytes for a reader: whole bytes below a kilobyte, else with one
/// digit behind the point in the largest unit that it fills.
pub open spec fn file_size_text(bytes: nat) -> Seq<char> {
    if bytes < 1024 {
        decimal(bytes) + " B"@
    } else if bytes < 1024 * 1024 {
        tenths(tenths_of(bytes, 1024)) + " KB"@
    } else if bytes < 1024 * 1024 * 1024 {
        tenths(tenths_of(bytes, 1024 * 1024)) + " MB"@
    } else {
        tenths(tenths_of(bytes, 1024 * 1024 * 1024)) + " GB"@
    }
}

/// A number of bytes for a reader.
pub fn format_file_size(bytes: u64) -> (r: String)
    ensures
        r@ == file_size_text(bytes as nat),
{
    let mut out = String::new();
    if bytes < 1024 {
        push_decimal(&mut out, bytes);
        out.append(" B");
    } else if bytes < 1024 * 1024 {
        push_tenths(&mut out, to_tenths(bytes, 1024));
        out.append(" KB");
    } else if bytes < 1024 * 1024 * 1024 {
        push_tenths(&mut out, to_tenths(bytes, 1024 * 1024));
        out.append(" MB");
    } else {
        push_tenths(&mut out, to_tenths(bytes, 1024 * 1024 * 1024));
        out.append(" GB");
    }
    assert(out@ =~= file_size_text(bytes as nat));
    out
}

/// A percentage of at most a hundred.
pub fn progress_percent(progress_percentage: u32) -> (r: u32)
    ensures
        r == if progress_percentage > 100 {
            100
        } else {
            progress_percentage
        },
{
    if progress_percentage > 100 {
        100
    } else {
        progress_percentage
    }
}

/// The name that a table of codes and names gives for a code: that of the first
/// entry with the code, and the code itself where there is none.
pub open spec fn name_in(table: Seq<(&'static str, &'static str)>, code: Seq<char>) -> Seq<char>
    decreases table.len(),
{
    if table.len() == 0 {
        code
    } else if table[0].0@ == code {
        table[0].1@
    } else {
        name_in(table.skip(1), code)
    }
}

/// A language's name, or its code where the language is not in the table.
pub fn language_label(code: &str) -> (r: String)
    ensures
        r@ == name_in(LANGUAGES@, code@),
{
    let n: usize = LANGUAGES.len();
    let mut i: usize = 0;
    assert(LANGUAGES@.skip(0) =~= LANGUAGES@);
    while i < n
        invariant
            n == LANGUAGES@.len(),
            i <= n,
            name_in(LANGUAGES@, code@) == name_in(LANGUAGES@.skip(i as int), code@),
        decreases n - i,
    {
        let (c, name) = LANGUAGES[i];
        let ghost rest = LANGUAGES@.skip(i as int);
        assert(rest[0] == LANGUAGES@[i as int]);
        if same_text(c, code) {
            return name.to_owned();
        }
        assert(rest.skip(1) =~= LANGUAGES@.skip(i + 1));
        i += 1;
    }
    code.to_owned()
}

/// How a number of speakers is offered; none is to be estimated.
pub open spec fn speakers_text(count: int) -> Seq<char> {
    if count == 0 {
        "Auto-detect"@
    } else if count == 1 {
        "1 speaker"@
    } else {
        signed_decimal(count) + " speakers"@
    }
}

/// How a number of speakers is offered; none is to be estimated.
pub fn speaker_count_label(count: i32) -> (r: String)
    ensures
        r@ == speakers_text(count as int),
{
    if count == 0 {
        "Auto-detect".to_owned()
    } else if count == 1 {
        "1 speaker".to_owned()
    } else {
        let mut out = String::new();
        push_signed(&mut out, count as i64);
        out.append(" speakers");
        assert(out@ =~= speakers_text(count as int));
        out
    }
}

} // verus!
