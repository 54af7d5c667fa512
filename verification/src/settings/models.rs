//! The models that the summary settings offer.
use vstd::prelude::*;
use crate::numbers::{decimal, push_decimal, push_tenths, tenths, tenths_of, to_tenths};
use crate::text::{copy_strings, same_text, texts, trim, trimmed};
use crate::words::{contains, has_infix, lowercase, stands_at, to_lowercase};

verus! {

/// OpenAI's models, where they cannot be listed.
pub const OPENAI_FALLBACK_MODELS: [&'static str; 9] = [
    "gpt-4o",
    "gpt-4o-mini",
    "gpt-4-turbo",
    "gpt-4",
    "gpt-3.5-turbo",
    "o1",
    "o1-mini",
    "o3",
    "o3-mini",
];

/// Groq's models, where they cannot be listed.
pub const GROQ_FALLBACK_MODELS: [&'static str; 4] = [
    "llama-3.3-70b-versatile",
    "llama-3.1-70b-versatile",
    "mixtral-8x7b-32768",
    "gemma2-9b-it",
];

/// A provider that is not built in, and the models that it is known to have.
#[derive(Debug, Clone, PartialEq, Eq)]
pub struct ProviderModels {
    pub provider: String,
    pub label: String,
    pub models: Vec<String>,
}

/// The models that a list of further providers gives for one: those of its
/// first entry.
pub open spec fn listed_models(more: Seq<ProviderModels>, provider: Seq<char>) -> Option<
    Seq<Seq<char>>,
>
    decreases more.len(),
{
    if more.len() == 0 {
        None
    } else if more[0].provider@ == provider {
        Some(texts(more[0].models@))
    } else {
        listed_models(more.skip(1), provider)
    }
}

/// The views of literals, in order.
pub open spec fn literals(s: Seq<&'static str>) -> Seq<Seq<char>> {
    s.map_values(|t: &'static str| t@)
}

/// The models that a provider is known to have, where they cannot be listed.
pub open spec fn fallback_models(provider: Seq<char>, more: Seq<ProviderModels>) -> Option<
    Seq<Seq<char>>,
> {
    if provider == "openai"@ {
        Some(literals(OPENAI_FALLBACK_MODELS@))
    } else if provider == "groq"@ {
        Some(literals(GROQ_FALLBACK_MODELS@))
    } else {
        listed_models(more, provider)
    }
}

fn strings<const N: usize>(list: &[&'static str; N]) -> (r: Vec<String>)
    ensures
        texts(r@) == literals(list@),
{
    let mut out: Vec<String> = Vec::new();
    let n: usize = list.len();
    for i in 0..n
        invariant
            n == list@.len(),
            texts(out@) == literals(list@.take(i as int)),
    {
        let ghost had = out@;
        out.push(list[i].to_owned());
        proof {
            assert(texts(out@) =~= texts(had).push(list@[i as int]@));
            assert(literals(list@.take(i + 1)) =~= literals(list@.take(i as int)).push(
                list@[i as int]@,
            ));
        }
    }
    assert(list@.take(list@.len() as int) =~= list@);
    out
}

/// The models that a provider is known to have; none for providers whose empty
/// list means that there are no models. `more` holds those of providers that are
/// not built in.
pub fn fallback_for_provider(provider: &str, more: &Vec<ProviderModels>) -> (r: Option<Vec<String>>)
    ensures
        match r {
            Some(list) => fallback_models(provider@, more@) == Some(texts(list@)),
            None => fallback_models(provider@, more@) is None,
        },
{
    if same_text(provider, "openai") {
        return Some(strings(&OPENAI_FALLBACK_MODELS));
    }
    if same_text(provider, "groq") {
        return Some(strings(&GROQ_FALLBACK_MODELS));
    }
    let n: usize = more.len();
    let mut i: usize = 0;
    assert(more@.skip(0) =~= more@);
    while i < n
        invariant
            n == more@.len(),
            i <= n,
            fallback_models(provider@, more@) == listed_models(
                more@.skip(i as int),
                provider@,
            ),
        decreases n - i,
    {
        let ghost rest = more@.skip(i as int);
        assert(rest[0] == more@[i as int]);
        if same_text(&more[i].provider, provider) {
            return Some(copy_strings(&more[i].models));
        }
        assert(rest.skip(1) =~= more@.skip(i + 1));
        i += 1;
    }
    None
}

/// The models that are offered: those listed, or those known where none was.
pub open spec fn offered_models(
    provider: Seq<char>,
    fetched: Seq<Seq<char>>,
    more: Seq<ProviderModels>,
) -> Seq<Seq<char>> {
    if fetched.len() > 0 {
        fetched
    } else {
        match fallback_models(provider, more) {
            Some(list) => list,
            None => seq![],
        }
    }
}

/// The models that are offered.
pub fn merge_with_fallback(
    provider: &str,
    fetched: &Vec<String>,
    more: &Vec<ProviderModels>,
) -> (r: Vec<String>)
    ensures
        texts(r@) == offered_models(provider@, texts(fetched@), more@),
{
    assert(texts(fetched@).len() == fetched@.len());
    if fetched.len() > 0 {
        return copy_strings(fetched);
    }
    match fallback_for_provider(provider, more) {
        Some(list) => list,
        None => {
            let none: Vec<String> = Vec::new();
            assert(texts(none@) =~= seq![]);
            none
        },
    }
}

/// The texts of pairs, in order.
pub open spec fn pairs(s: Seq<(String, String)>) -> Seq<(Seq<char>, Seq<char>)> {
    s.map_values(|p: (String, String)| (p.0@, p.1@))
}

fn push_pair(out: &mut Vec<(String, String)>, id: &str, label: &str)
    ensures
        pairs(final(out)@) == pairs(old(out)@).push((id@, label@)),
{
    out.push((id.to_owned(), label.to_owned()));
    assert(pairs(out@) =~= pairs(old(out)@).push((id@, label@)));
}

/// The ids of further providers, with their labels and `after` behind these.
pub open spec fn further(more: Seq<ProviderModels>, after: Seq<char>) -> Seq<
    (Seq<char>, Seq<char>),
> {
    more.map_values(|p: ProviderModels| (p.provider@, p.label@ + after))
}

fn push_further(out: &mut Vec<(String, String)>, more: &Vec<ProviderModels>, after: &str)
    ensures
        pairs(final(out)@) == pairs(old(out)@) + further(more@, after@),
{
    let ghost had = pairs(out@);
    assert(had + further(more@.take(0), after@) =~= had);
    for i in 0..more.len()
        invariant
            pairs(out@) == had + further(more@.take(i as int), after@),
    {
        let mut label = more[i].label.clone();
        label.append(after);
        push_pair(out, &more[i].provider, &label);
        assert(had + further(more@.take(i + 1), after@) =~= (had + further(
            more@.take(i as int),
            after@,
        )).push((more@[i as int].provider@, more@[i as int].label@ + after@)));
    }
    assert(more@.take(more@.len() as int) =~= more@);
}

/// The providers to choose from: id and label.
pub open spec fn provider_choices(more: Seq<ProviderModels>) -> Seq<(Seq<char>, Seq<char>)> {
    seq![
        ("builtin-ai"@, "Built-in AI (local)"@),
        ("ollama"@, "Ollama"@),
        ("openai"@, "OpenAI"@),
    ] + further(more, ""@) + seq![
        ("groq"@, "Groq"@),
        ("openrouter"@, "OpenRouter"@),
        ("custom-openai"@, "Custom OpenAI-compatible"@),
    ]
}

/// The providers to choose from: id and label.
pub fn provider_options(more: &Vec<ProviderModels>) -> (r: Vec<(String, String)>)
    ensures
        pairs(r@) == provider_choices(more@),
{
    let mut out: Vec<(String, String)> = Vec::new();
    push_pair(&mut out, "builtin-ai", "Built-in AI (local)");
    push_pair(&mut out, "ollama", "Ollama");
    push_pair(&mut out, "openai", "OpenAI");
    push_further(&mut out, more, "");
    push_pair(&mut out, "groq", "Groq");
    push_pair(&mut out, "openrouter", "OpenRouter");
    push_pair(&mut out, "custom-openai", "Custom OpenAI-compatible");
    assert(pairs(out@) =~= provider_choices(more@));
    out
}

/// The providers that take an API key of their own: id and the key's label.
pub open spec fn key_choices(more: Seq<ProviderModels>) -> Seq<(Seq<char>, Seq<char>)> {
    seq![("openai"@, "OpenAI API key"@)] + further(more, " API key"@) + seq![
        ("groq"@, "Groq API key"@),
        ("openrouter"@, "OpenRouter API key"@),
    ]
}

/// The providers that take an API key of their own: id and the key's label.
pub fn key_fields(more: &Vec<ProviderModels>) -> (r: Vec<(String, String)>)
    ensures
        pairs(r@) == key_choices(more@),
{
    let mut out: Vec<(String, String)> = Vec::new();
    push_pair(&mut out, "openai", "OpenAI API key");
    push_further(&mut out, more, " API key");
    push_pair(&mut out, "groq", "Groq API key");
    push_pair(&mut out, "openrouter", "OpenRouter API key");
    assert(pairs(out@) =~= key_choices(more@));
    out
}

/// Every provider that takes an API key of its own can be chosen.
pub proof fn keys_are_for_choices(more: Seq<ProviderModels>, i: int)
    requires
        0 <= i < key_choices(more).len(),
    ensures
        exists|j: int|
            0 <= j < provider_choices(more).len() && (#[trigger] provider_choices(more)[j]).0
                == key_choices(more)[i].0,
{
    assert(provider_choices(more)[i + 2].0 == key_choices(more)[i].0);
}

/// Whether a model's name holds what was typed, in whatever case.
pub open spec fn model_matches(model: String, query: Seq<char>) -> bool {
    has_infix(lowercase(model@), lowercase(trimmed(query)))
}

/// The strings that references point at, in order.
pub open spec fn pointed_at<'a>(s: Seq<&'a String>) -> Seq<String> {
    s.map_values(|m: &'a String| *m)
}

proof fn lemma_nothing_typed(all: Seq<String>, query: Seq<char>)
    requires
        lowercase(trimmed(query)).len() == 0,
    ensures
        all.filter(|m: String| model_matches(m, query)) == all,
    decreases all.len(),
{
    reveal(Seq::filter);
    if all.len() > 0 {
        lemma_nothing_typed(all.drop_last(), query);
        let hay = lowercase(all.last()@);
        let needle = lowercase(trimmed(query));
        assert(hay.subrange(0, 0) =~= needle);
        assert(stands_at(hay, needle, 0));
        assert(all =~= all.drop_last().push(all.last()));
    }
}

/// The models whose name holds what was typed, in whatever case and without
/// white space around it; all of them where nothing was typed.
pub fn filter_models<'a>(models: &'a Vec<String>, query: &str) -> (r: Vec<&'a String>)
    ensures
        pointed_at(r@) == models@.filter(|m: String| model_matches(m, query@)),
        trimmed(query@).len() == 0 ==> pointed_at(r@) == models@,
{
    let q = to_lowercase(&trim(query));
    assert(trimmed(query@).len() == 0 ==> q@.len() == 0);
    let ghost keep = |m: String| model_matches(m, query@);
    let mut out: Vec<&'a String> = Vec::new();
    reveal(Seq::filter);
    assert(pointed_at(out@) =~= models@.take(0).filter(keep));
    for i in 0..models.len()
        invariant
            q@ == lowercase(trimmed(query@)),
            trimmed(query@).len() == 0 ==> q@.len() == 0,
            keep == (|m: String| model_matches(m, query@)),
            pointed_at(out@) == models@.take(i as int).filter(keep),
    {
        let ghost next = models@.take(i + 1);
        let ghost had = out@;
        reveal(Seq::filter);
        assert(next.drop_last() =~= models@.take(i as int));
        if contains(&to_lowercase(&models[i]), &q) {
            out.push(&models[i]);
            assert(pointed_at(out@) =~= pointed_at(had).push(models@[i as int]));
        }
    }
    assert(models@.take(models@.len() as int) =~= models@);
    proof {
        if trimmed(query@).len() == 0 {
            lemma_nothing_typed(models@, query@);
        }
    }
    out
}

/// A size in megabytes: "512 MB", and from a gigabyte on "2.5 GB".
pub open spec fn size_text(size_mb: nat) -> Seq<char> {
    if size_mb >= 1024 {
        tenths(tenths_of(size_mb, 1024)) + " GB"@
    } else {
        decimal(size_mb) + " MB"@
    }
}

/// A size in megabytes.
pub fn format_size_mb(size_mb: u64) -> (r: String)
    ensures
        r@ == size_text(size_mb as nat),
{
    let mut out = String::new();
    if size_mb >= 1024 {
        push_tenths(&mut out, to_tenths(size_mb, 1024));
        out.append(" GB");
    } else {
        push_decimal(&mut out, size_mb);
        out.append(" MB");
    }
    assert(out@ =~= size_text(size_mb as nat));
    out
}

} // verus!
