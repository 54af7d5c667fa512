//! Paths are taken apart, and audio files are recognised and imported.
use vstd::prelude::*;
use crate::import::dialog::{import_event_kind, language_options, model_options, selected_language, speaker_options, warning_message, AudioFileInfo, DialogBody, DialogButtons, ImportChoices, ImportEffect, ImportEvent, ImportEventKind, ImportRequest, ImportState};
use crate::import::files::{format_duration, format_file_size, formats_label, is_audio_path, language_label, name_in, names_audio, pick_dropped_audio_file, progress_percent, speaker_count_label, LANGUAGES};
use crate::laws::recording::{both_digits, lemma_both_digits};
use crate::numbers::{push_signed, push_tenths, round_half_even, small_numbers_are_exact, to_decimal, to_tenths};
use crate::paths::{extension, file_name, first_at, join_path, last_at, lemma_first_at, lemma_last_at, pieces, split_on};
use crate::text::{is_blank, opt_text, texts};
use crate::words::{join, lowercase, uppercase};

verus! {

proof fn lemma_pieces_join(a: Seq<char>, sep: char, b: Seq<char>)
    requires
        forall|i: int| 0 <= i < b.len() ==> #[trigger] b[i] != sep,
    ensures
        pieces(a.push(sep) + b, sep) == pieces(a, sep).push(b),
        pieces(b, sep) == seq![b],
    decreases a.len(),
{
    let s = a.push(sep) + b;
    lemma_first_at(b, sep);
    lemma_first_at(s, sep);
    lemma_first_at(a, sep);
    assert(s[a.len() as int] == sep);
    if first_at(b, sep) < b.len() {
        assert(b[first_at(b, sep) as int] != sep);
    }
    assert(pieces(b, sep) =~= seq![b]);
    let n = first_at(s, sep) as int;
    let m = first_at(a, sep) as int;
    assert(n <= a.len());
    if m < a.len() {
        assert(s[m] == sep);
        if n < m {
            assert(a[n] == s[n]);
        }
        if m < n {
            assert(s[m] != sep);
        }
        let rest = a.subrange(m + 1, a.len() as int);
        lemma_pieces_join(rest, sep, b);
        assert(s.subrange(n + 1, s.len() as int) =~= rest.push(sep) + b);
        assert(s.subrange(0, n) =~= a.subrange(0, m));
        assert(pieces(s, sep) =~= pieces(a, sep).push(b));
    } else {
        if n < a.len() {
            assert(a[n] == s[n]);
        }
        assert(s.subrange(0, n) =~= a);
        assert(s.subrange(n + 1, s.len() as int) =~= b);
        assert(pieces(s, sep) =~= pieces(a, sep).push(b));
    }
}

/// A text is split at its separators: what stands behind the last one is the last
/// piece, and what stands before it is split likewise. A text without one is one
/// piece.
pub proof fn texts_are_split_at_separators(
    front: &str,
    sep: char,
    last: &str,
    all: &str,
    of_front: Vec<String>,
    of_last: Vec<String>,
    of_all: Vec<String>,
)
    requires
        all@ == front@.push(sep) + last@,
        forall|i: int| 0 <= i < last@.len() ==> #[trigger] last@[i] != sep,
        call_ensures(split_on, (front, sep), of_front),
        call_ensures(split_on, (last, sep), of_last),
        call_ensures(split_on, (all, sep), of_all),
    ensures
        texts(of_all@) == texts(of_front@).push(last@),
        texts(of_last@) == seq![last@],
{
    lemma_pieces_join(front@, sep, last@);
}

/// The file of a path is what stands behind its last slash.
pub proof fn files_stand_behind_the_last_slash(
    dir: Seq<char>,
    name: &str,
    path: &str,
    r: Option<String>,
    bare: Option<String>,
)
    requires
        path@ == dir.push('/') + name@,
        name@.len() > 0,
        name@ != seq!['.'],
        forall|i: int| 0 <= i < name@.len() ==> #[trigger] name@[i] != '/',
        call_ensures(file_name, (path,), r),
        call_ensures(file_name, (name,), bare),
    ensures
        name@ != seq!['.', '.'] ==> (r matches Some(f) && f@ == name@) && (bare matches Some(f) && f@
            == name@),
        name@ == seq!['.', '.'] ==> r is None && bare is None,
{
    lemma_pieces_join(dir, '/', name@);
    let parts = pieces(path@, '/');
    assert(parts.last() == name@);
    assert(pieces(name@, '/').last() == name@);
}

proof fn lemma_last_dot(stem: Seq<char>, ext: Seq<char>)
    requires
        forall|i: int| 0 <= i < ext.len() ==> #[trigger] ext[i] != '.',
    ensures
        last_at(stem.push('.') + ext, '.') == stem.len(),
{
    let s = stem.push('.') + ext;
    lemma_last_at(s, '.');
    let k = last_at(s, '.');
    assert(s[stem.len() as int] == '.');
    if k > stem.len() {
        assert(s[k] == ext[k - stem.len() - 1]);
    }
    if k < stem.len() {
        assert(s[stem.len() as int] != '.');
    }
}

/// The extension of a file is what stands behind its last dot, unless the name
/// starts with that dot or has none.
pub proof fn extensions_stand_behind_the_last_dot(
    dir: Seq<char>,
    stem: Seq<char>,
    ext: Seq<char>,
    path: &str,
    r: Option<String>,
)
    requires
        path@ == dir.push('/') + (stem.push('.') + ext),
        stem.len() > 0,
        ext.len() > 0,
        forall|i: int| 0 <= i < stem.len() ==> #[trigger] stem[i] != '/',
        forall|i: int| 0 <= i < ext.len() ==> #[trigger] ext[i] != '.' && ext[i] != '/',
        call_ensures(extension, (path,), r),
    ensures
        r matches Some(e) && e@ == ext,
{
    let name = stem.push('.') + ext;
    assert forall|i: int| 0 <= i < name.len() implies #[trigger] name[i] != '/' by {
        if i > stem.len() {
            assert(name[i] == ext[i - stem.len() - 1]);
        } else if i < stem.len() {
            assert(name[i] == stem[i]);
        }
    }
    lemma_pieces_join(dir, '/', name);
    lemma_last_dot(stem, ext);
    assert(pieces(path@, '/').last() == name);
    assert(name.len() >= 3);
    assert(name.subrange(stem.len() as int + 1, name.len() as int) =~= ext);
}

/// A file without a dot, or with one at its start alone, has no extension.
pub proof fn hidden_files_have_no_extension(
    dir: Seq<char>,
    name: Seq<char>,
    path: &str,
    r: Option<String>,
)
    requires
        path@ == dir.push('/') + name,
        name.len() > 0,
        forall|i: int| 0 <= i < name.len() ==> #[trigger] name[i] != '/',
        forall|i: int| 1 <= i < name.len() ==> #[trigger] name[i] != '.',
        name != seq!['.'],
        call_ensures(extension, (path,), r),
    ensures
        r is None,
{
    lemma_pieces_join(dir, '/', name);
    lemma_last_at(name, '.');
    assert(pieces(path@, '/').last() == name);
}

/// A file in a directory stands behind its name and one slash.
pub proof fn files_stand_in_their_directory(dir: &str, name: &str, r: String)
    requires
        call_ensures(join_path, (dir, name), r),
    ensures
        dir@.len() > 0 && dir@.last() != '/' ==> r@ == dir@ + seq!['/'] + name@,
        dir@.len() > 0 && dir@.last() == '/' ==> r@ == dir@ + name@,
        dir@.len() == 0 ==> r@ == name@,
{
    if dir@.len() == 0 {
        assert(dir@ + name@ =~= name@);
    }
}

/// A path is an audio file exactly where its extension, in lower case, is one of
/// those that are supported.
pub proof fn audio_files_have_a_known_extension(
    path: &str,
    extensions: &Vec<String>,
    e: Option<String>,
    r: bool,
)
    requires
        call_ensures(is_audio_path, (path, extensions), r),
        call_ensures(extension, (path,), e),
    ensures
        e is None ==> !r,
        e matches Some(x) ==> (r <==> exists|i: int|
            0 <= i < extensions@.len() && (#[trigger] extensions@[i])@ == lowercase(x@)),
{
    let all = texts(extensions@);
    if let Some(x) = e {
        if all.contains(lowercase(x@)) {
            let i = choose|i: int| 0 <= i < all.len() && all[i] == lowercase(x@);
            assert(extensions@[i]@ == lowercase(x@));
        }
        if exists|i: int| 0 <= i < extensions@.len() && (#[trigger] extensions@[i])@ == lowercase(x@) {
            let i = choose|i: int|
                0 <= i < extensions@.len() && (#[trigger] extensions@[i])@ == lowercase(x@);
            assert(all[i] == lowercase(x@));
        }
    }
}

/// Of dropped files the first that is an audio file is taken.
pub proof fn the_first_audio_file_is_taken<'a>(
    paths: &'a Vec<String>,
    extensions: &Vec<String>,
    at: int,
    path: &str,
    is_audio: bool,
    r: Option<&'a String>,
)
    requires
        call_ensures(pick_dropped_audio_file, (paths, extensions), r),
        0 <= at < paths@.len(),
        path@ == paths@[at]@,
        call_ensures(is_audio_path, (path, extensions), is_audio),
    ensures
        is_audio ==> r is Some,
        is_audio && (forall|j: int|
            0 <= j < at ==> !names_audio((#[trigger] paths@[j])@, texts(extensions@))) ==> (
        r matches Some(p) && p@ == path@),
        r matches Some(p) ==> names_audio(p@, texts(extensions@)),
{
    if let Some(p) = r {
        let i = choose|i: int|
            0 <= i < paths@.len() && *p == #[trigger] paths@[i] && names_audio(
                paths@[i]@,
                texts(extensions@),
            ) && forall|j: int|
                0 <= j < i ==> !names_audio((#[trigger] paths@[j])@, texts(extensions@));
        if is_audio && (forall|j: int|
            0 <= j < at ==> !names_audio((#[trigger] paths@[j])@, texts(extensions@))) {
            if at < i {
                assert(!names_audio(paths@[at]@, texts(extensions@)));
            }
            if i < at {
                assert(!names_audio(paths@[i]@, texts(extensions@)));
            }
        }
    } else {
        let given = (paths, extensions);
        assert(!names_audio(given.0@[at]@, texts(given.1@)));
    }
}

/// The formats are listed in capitals, with commas between them.
pub proof fn formats_are_listed(extensions: &Vec<String>, sep: &str, list: String, r: String)
    requires
        call_ensures(formats_label, (extensions,), r),
        sep@ == ", "@,
        call_ensures(join, (extensions, sep), list),
    ensures
        r@ == uppercase(list@),
{
}

/// A duration is minutes and seconds, with the hours before them from an hour on.
pub proof fn durations_are_clock_times(
    secs: i64,
    r: String,
    minutes: u64,
    of_minutes: String,
    hours: u64,
    of_hours: String,
)
    requires
        call_ensures(format_duration, (secs,), r),
        secs >= 0 ==> minutes == secs / 60 && hours == secs / 3600,
        secs < 0 ==> minutes == 0 && hours == 0,
        call_ensures(to_decimal, (minutes,), of_minutes),
        call_ensures(to_decimal, (hours,), of_hours),
    ensures
        0 <= secs < 3600 ==> r@ == of_minutes@ + seq![':'] + both_digits(secs as int % 60),
        secs >= 3600 ==> r@ == of_hours@ + seq![':'] + both_digits((secs as int % 3600) / 60)
            + seq![':'] + both_digits(secs as int % 60),
        secs < 0 ==> r@ == of_minutes@ + seq![':'] + both_digits(0),
{
    reveal_strlit(":");
    assert(":"@ =~= seq![':']);
    lemma_both_digits(0);
    if secs >= 0 {
        lemma_both_digits((secs as nat % 60) as nat);
        lemma_both_digits(((secs as nat % 3600) / 60) as nat);
    }
}

/// Tenths of a unit are those nearest to the number.
pub proof fn tenths_are_nearest(n: u64, unit: u64, r: u128)
    requires
        0 < unit,
        n < 0x20_0000_0000_0000,
        call_ensures(to_tenths, (n, unit), r),
    ensures
        -(unit as int) <= 2 * (r * unit - 10 * n) <= unit,
{
    small_numbers_are_exact(n as nat, crate::numbers::DOUBLE_LIMIT as nat);
    let a = 10 * n as int;
    let b = unit as int;
    let q = a / b;
    assert(a == q * b + a % b && 0 <= a % b < b) by (nonlinear_arith)
        requires
            b > 0,
            q == a / b,
    ;
    assert((q + 1) * b == q * b + b) by (nonlinear_arith);
    assert(r == round_half_even(a, b));
    assert(r * unit == q * b || r * unit == (q + 1) * b);
}

/// A file's size is in bytes below a kilobyte, and else in the largest unit that
/// it fills, with one digit behind the point.
pub proof fn file_sizes_are_in_the_largest_unit(
    bytes: u64,
    whole: String,
    kilo: u128,
    mega: u128,
    giga: u128,
    out_k: &mut String,
    out_m: &mut String,
    out_g: &mut String,
    r: String,
)
    requires
        call_ensures(format_file_size, (bytes,), r),
        call_ensures(to_decimal, (bytes,), whole),
        call_ensures(to_tenths, (bytes, 1024), kilo),
        call_ensures(to_tenths, (bytes, 1_048_576), mega),
        call_ensures(to_tenths, (bytes, 1_073_741_824), giga),
        old(out_k)@.len() == 0,
        old(out_m)@.len() == 0,
        old(out_g)@.len() == 0,
        call_ensures(push_tenths, (out_k, kilo), ()),
        call_ensures(push_tenths, (out_m, mega), ()),
        call_ensures(push_tenths, (out_g, giga), ()),
    ensures
        bytes < 1024 ==> r@ == whole@ + " B"@,
        1024 <= bytes < 1_048_576 ==> r@ == final(out_k)@ + " KB"@,
        1_048_576 <= bytes < 1_073_741_824 ==> r@ == final(out_m)@ + " MB"@,
        bytes >= 1_073_741_824 ==> r@ == final(out_g)@ + " GB"@,
{
    assert(final(out_k)@ =~= crate::numbers::tenths(kilo as nat));
    assert(final(out_m)@ =~= crate::numbers::tenths(mega as nat));
    assert(final(out_g)@ =~= crate::numbers::tenths(giga as nat));
}

/// Progress never reads more than a hundred percent.
pub proof fn progress_ends_at_a_hundred(p: u32, r: u32)
    requires
        call_ensures(progress_percent, (p,), r),
    ensures
        r <= 100,
        p <= 100 ==> r == p,
        p > 100 ==> r == 100,
{
}

proof fn lemma_name_in(table: Seq<(&'static str, &'static str)>, at: int, code: Seq<char>)
    ensures
        0 <= at < table.len() && table[at].0@ == code && (forall|j: int|
            0 <= j < at ==> (#[trigger] table[j]).0@ != code) ==> name_in(table, code)
            == table[at].1@,
        (forall|j: int| 0 <= j < table.len() ==> (#[trigger] table[j]).0@ != code) ==> name_in(
            table,
            code,
        ) == code,
    decreases table.len(),
{
    if table.len() > 0 {
        let rest = table.skip(1);
        lemma_name_in(rest, at - 1, code);
        if 0 < at < table.len() && table[at].0@ == code && (forall|j: int|
            0 <= j < at ==> (#[trigger] table[j]).0@ != code) {
            assert(table[0].0@ != code);
            assert(rest[at - 1] == table[at]);
            assert forall|j: int| 0 <= j < at - 1 implies (#[trigger] rest[j]).0@ != code by {
                assert(table[j + 1].0@ != code);
            }
        }
        if forall|j: int| 0 <= j < table.len() ==> (#[trigger] table[j]).0@ != code {
            assert(table[0].0@ != code);
            assert forall|j: int| 0 <= j < rest.len() implies (#[trigger] rest[j]).0@ != code by {
                assert(table[j + 1].0@ != code);
            }
        }
    }
}

/// A language that can be chosen goes by its name in the table, any other by its
/// code.
pub proof fn languages_go_by_their_names(code: &str, at: int, r: String)
    requires
        call_ensures(language_label, (code,), r),
    ensures
        0 <= at < LANGUAGES@.len() && LANGUAGES@[at].0@ == code@ && (forall|j: int|
            0 <= j < at ==> (#[trigger] LANGUAGES@[j]).0@ != code@) ==> r@ == LANGUAGES@[at].1@,
        (forall|j: int| 0 <= j < LANGUAGES@.len() ==> (#[trigger] LANGUAGES@[j]).0@ != code@) ==> r@
            == code@,
{
    lemma_name_in(LANGUAGES@, at, code@);
}

/// Every language of the table is offered, in its order.
pub proof fn languages_are_offered(r: Vec<(String, String)>, i: int)
    requires
        call_ensures(language_options, (), r),
        0 <= i < LANGUAGES@.len(),
    ensures
        r@.len() == LANGUAGES@.len(),
        r@[i].0@ == LANGUAGES@[i].0@,
{
}

/// A number of speakers is offered in words; none is to be estimated.
pub proof fn speakers_are_counted_in_words(
    count: i32,
    n: i64,
    out: &mut String,
    r: String,
)
    requires
        call_ensures(speaker_count_label, (count,), r),
        n == count,
        old(out)@.len() == 0,
        call_ensures(push_signed, (out, n), ()),
    ensures
        count == 0 ==> r@ == "Auto-detect"@,
        count == 1 ==> r@ == "1 speaker"@,
        count != 0 && count != 1 ==> r@ == final(out)@ + " speakers"@,
{
    assert(final(out)@ =~= crate::numbers::signed_decimal(count as int));
}

/// One to eight speakers can be chosen, or none to be estimated.
pub proof fn one_to_eight_speakers_are_offered(r: Vec<(i32, String)>, i: int, label: String)
    requires
        call_ensures(speaker_options, (), r),
        0 <= i <= 8,
        call_ensures(speaker_count_label, (i as i32,), label),
    ensures
        r@.len() == 9,
        r@[i].0 == i,
        r@[i].1@ == label@,
{
}

/// A language that is to be detected is not asked for, and any other is.
pub proof fn chosen_languages_are_asked_for(selected: Option<String>, r: Option<String>)
    requires
        call_ensures(selected_language, (selected,), r),
    ensures
        selected is None ==> r is None,
        selected matches Some(s) ==> (s@ == "auto"@ ==> r is None),
        selected matches Some(s) ==> (s@ != "auto"@ ==> (r matches Some(l) && l@ == s@)),
{
}

/// A file that can be imported is shown, and its name becomes the title, unless one
/// was typed. Why another cannot be is told.
pub proof fn files_are_looked_into(
    state: &mut ImportState,
    outcome: Result<AudioFileInfo, String>,
    r: Option<String>,
)
    requires
        call_ensures(ImportState::finish_validate, (state, outcome), r),
    ensures
        outcome matches Ok(info) ==> final(state).file_info == Some(info) && final(state).status is Idle
            && final(state).error is None,
        outcome matches Ok(info) ==> (!old(state).title_edited ==> (r matches Some(t) && t@
            == info.filename@)),
        old(state).title_edited ==> r is None,
        outcome matches Err(why) ==> final(state).status is Error && final(state).error == Some(why)
            && final(state).file_info == old(state).file_info && r is None,
{
}

/// What is imported is the chosen file, under the typed title or else its name, in
/// the chosen language, with the chosen model and number of speakers.
pub proof fn imports_ask_for_what_was_chosen(
    state: &mut ImportState,
    choices: ImportChoices,
    info: AudioFileInfo,
    title: &str,
    blank: bool,
    language: Option<String>,
    r: Option<ImportRequest>,
)
    requires
        call_ensures(ImportState::start_import, (state, choices), r),
        old(state).file_info == Some(info),
        title@ == choices.title@,
        call_ensures(is_blank, (title,), blank),
        call_ensures(selected_language, (choices.language,), language),
    ensures
        r matches Some(ask) && ask.path@ == info.path@ && opt_text(ask.language) == opt_text(language)
            && ask.model == choices.model,
        !blank ==> (r matches Some(ask) && ask.title@ == choices.title@),
        blank ==> (r matches Some(ask) && ask.title@ == info.filename@),
        choices.speakers matches Some(n) ==> (r matches Some(ask) && ask.num_speakers == n),
        choices.speakers is None ==> (r matches Some(ask) && ask.num_speakers == 0),
        final(state).status is Processing,
{
}

/// Without a file nothing is imported.
pub proof fn imports_need_a_file(state: &mut ImportState, choices: ImportChoices, r: Option<ImportRequest>)
    requires
        call_ensures(ImportState::start_import, (state, choices), r),
        old(state).file_info is None,
    ensures
        r is None,
        *final(state) == *old(state),
{
}

/// An import that is done opens its meeting, one that failed says why, and a
/// warning is shown while it goes on.
pub proof fn imports_report_how_they_end(state: &mut ImportState, event: ImportEvent, r: ImportEffect)
    requires
        call_ensures(ImportState::on_core_event, (state, event), r),
    ensures
        event matches ImportEvent::Complete { meeting_id } ==> (r matches ImportEffect::OpenMeeting(id)
            && id@ == meeting_id@) && final(state).status is Idle && final(state).progress is None,
        event matches ImportEvent::Failed { error } ==> final(state).status is Error && final(
            state).error == Some(error) && r is Redraw,
        event matches ImportEvent::Progress(p) ==> final(state).status is Processing && final(
            state).progress == Some(p) && r is Redraw,
        event is Warning ==> *final(state) == *old(state) && r is Warn,
{
}

/// A warning is shown with its details behind it.
pub proof fn warnings_carry_their_details(warning: String, details: Option<String>, r: String)
    requires
        call_ensures(warning_message, (warning, details), r),
    ensures
        details is None ==> r@ == warning@,
        details matches Some(d) ==> r@ == warning@ + ": "@ + d@,
{
}

/// The dialog offers what can be done: importing once a file is chosen, cancelling
/// while one is imported, trying again where that failed.
pub proof fn dialogs_offer_what_can_be_done(
    state: &ImportState,
    buttons: DialogButtons,
    title: &'static str,
    cancels: bool,
    closable: bool,
)
    requires
        call_ensures(ImportState::buttons, (state,), buttons),
        call_ensures(ImportState::dialog_title, (state,), title),
        call_ensures(ImportState::cancels_import, (state,), cancels),
        call_ensures(ImportState::closable, (state,), closable),
    ensures
        state.status is Error ==> buttons is CloseAndRetry && title@ == "Import Failed"@,
        state.status is Processing ==> buttons is CancelImport && title@ == "Importing Audio…"@
            && cancels && !closable,
        !(state.status is Processing) ==> !cancels && closable,
        state.status is Idle ==> buttons == (DialogButtons::CancelAndImport {
            can_import: state.file_info is Some,
        }) && title@ == "Import Audio File"@,
{
}

/// The dialog shows why an import failed, how far one is, or what is known of the
/// chosen file.
pub proof fn dialogs_show_what_is_known(
    state: &ImportState,
    percent: u32,
    shown: u32,
    r: DialogBody,
)
    requires
        call_ensures(ImportState::body, (state,), r),
        call_ensures(progress_percent, (percent,), shown),
    ensures
        state.status is Error ==> (state.error matches Some(e) ==> (r matches DialogBody::Failed(t)
            && t@ == e@)),
        state.status is Processing ==> (state.progress matches Some(p) ==> (p.progress_percentage
            == percent ==> (r matches DialogBody::Running { percent: q, percent_label, stage, message }
            && q == shown && stage@ == p.stage@ && message@ == p.message@))),
        state.status is Idle && state.file_info is None ==> (r matches DialogBody::Pick {
            label,
            enabled,
        } && enabled && label@ == "Select Audio File"@),
        state.status is Idle ==> (state.file_info matches Some(info) ==> (r matches DialogBody::File(
            card,
        ) && card.filename@ == info.filename@ && card.format@ == info.format@ && card.advanced_shown
            == state.show_advanced)),
{
}

/// The chosen file is shown with its duration and its size.
pub proof fn chosen_files_are_described(
    state: &ImportState,
    info: AudioFileInfo,
    duration: String,
    size: String,
    r: DialogBody,
)
    requires
        call_ensures(ImportState::body, (state,), r),
        state.status is Idle,
        state.file_info == Some(info),
        call_ensures(format_duration, (info.duration_seconds,), duration),
        call_ensures(format_file_size, (info.size_bytes,), size),
    ensures
        r matches DialogBody::File(card) && card.duration@ == duration@ && card.size@ == size@,
{
}

/// Events are told apart by their names.
pub proof fn import_events_have_names(name: &str, r: Option<ImportEventKind>)
    requires
        call_ensures(import_event_kind, (name,), r),
    ensures
        r == Some(ImportEventKind::Progress) <==> name@ == "import-progress"@,
        r == Some(ImportEventKind::Complete) ==> name@ == "import-complete"@,
        r == Some(ImportEventKind::Failed) ==> name@ == "import-error"@,
        r == Some(ImportEventKind::Warning) ==> name@ == "import-warning"@,
        name@ == "import-complete"@ || name@ == "import-error"@ || name@ == "import-warning"@
            ==> r is Some,
{
}

/// Looking into a file forgets the error before, and trying again leads back to
/// the form.
pub proof fn dialogs_start_over(a: &mut ImportState, b: &mut ImportState, c: &mut ImportState, d: &mut ImportState)
    requires
        call_ensures(ImportState::begin_validate, (a,), ()),
        call_ensures(ImportState::retry, (b,), ()),
        call_ensures(ImportState::title_changed, (c,), ()),
        call_ensures(ImportState::toggle_advanced, (d,), ()),
    ensures
        final(a).status is Validating && final(a).error is None && final(a).file_info == old(a).file_info,
        final(b).status is Idle && final(b).error is None && final(b).file_info == old(b).file_info,
        final(c).title_edited && final(c).status == old(c).status && final(c).file_info == old(
            c).file_info,
        final(d).show_advanced == !old(d).show_advanced && final(d).status == old(d).status,
{
}

/// A dialog starts without a file.
pub proof fn dialogs_start_empty(r: ImportState)
    requires
        call_ensures(ImportState::new, (), r),
    ensures
        r.status is Idle && r.file_info is None && r.error is None && r.progress is None,
        !r.title_edited && !r.show_advanced,
{
}

/// The models that can be used are offered, and none where there is none.
pub proof fn usable_models_can_be_picked(
    models: Option<Vec<crate::whisper::models::ModelInfo>>,
    usable: Vec<String>,
    r: Option<Vec<String>>,
)
    requires
        call_ensures(model_options, (models,), r),
        models matches Some(all) ==> call_ensures(
            crate::whisper::models::available_models,
            (&all,),
            usable,
        ),
    ensures
        models is None ==> r is None,
        models is Some && usable@.len() == 0 ==> r is None,
        models is Some && usable@.len() > 0 ==> (r matches Some(names) && texts(names@) == texts(
            usable@,
        )),
{
    assert(texts(usable@).len() == usable@.len());
    if let Some(names) = r {
        assert(texts(names@).len() == names@.len());
    }
}

} // verus!
