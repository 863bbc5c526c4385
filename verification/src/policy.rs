//! The order in which providers are tried: the premium provider first,
//! where it knows the language that is asked for, and a general-purpose
//! provider once where the premium one is of no use or fails.

use vstd::prelude::*;
use crate::engine::Engine;
use crate::error::Failure;
use crate::error::TranslationError;
use crate::lang::code_of;
use crate::lang::deepl_code;
use crate::lang::DeeplLang;
use crate::lang::LangKey;
use crate::reading::outcome;
use crate::reading::text_outcome;
use crate::reading::Rendering;
use crate::transport::Reply;
use crate::transport::Request;
use crate::translator::ready;
use crate::translator::translates;
use crate::translator::Translator;

verus! {

/// Where a translation stands: which provider is to be tried next, or how
/// it ended.
#[derive(Debug, Clone, PartialEq, Eq)]
pub enum State {
    /// The premium provider is to be asked.
    TryPrimary,
    /// The general-purpose provider is to be asked.
    TryFallback,
    /// The translation is there.
    Success(String),
    /// The translation failed for good.
    Failure(TranslationError),
}

/// What a [`State`] holds, with its texts as sequences.
pub enum Standing {
    TryPrimary,
    TryFallback,
    Success(Seq<char>),
    Failure(Failure),
}

impl View for State {
    type V = Standing;

    open spec fn view(&self) -> Standing {
        match self {
            State::TryPrimary => Standing::TryPrimary,
            State::TryFallback => Standing::TryFallback,
            State::Success(text) => Standing::Success(text@),
            State::Failure(e) => Standing::Failure(e@),
        }
    }
}

impl Standing {
    /// Where a translation starts: with the premium provider if it knows
    /// the language asked for, with the other provider if not.
    pub open spec fn start(has_primary: bool) -> Standing {
        if has_primary {
            Standing::TryPrimary
        } else {
            Standing::TryFallback
        }
    }

    /// Whether nothing more is to be tried.
    pub open spec fn is_final(self) -> bool {
        self is Success || self is Failure
    }

    /// How a result that ended a translation is written as a state.
    pub open spec fn of(result: Result<Seq<char>, Failure>) -> Standing {
        match result {
            Ok(text) => Standing::Success(text),
            Err(failure) => Standing::Failure(failure),
        }
    }

    /// Where a translation stands once the provider that was to be tried
    /// has been tried, with `result`. A text ends it. A failure of the
    /// premium provider, of whatever kind, sends it on to the other
    /// provider; a failure of that one ends it. What has ended stays as it
    /// is.
    pub open spec fn after(self, result: Result<Seq<char>, Failure>) -> Standing {
        match self {
            Standing::TryPrimary => match result {
                Ok(text) => Standing::Success(text),
                Err(_) => Standing::TryFallback,
            },
            Standing::TryFallback => Standing::of(result),
            ended => ended,
        }
    }

    /// How many providers may still be asked.
    pub open spec fn attempts_left(self) -> nat {
        match self {
            Standing::TryPrimary => 2,
            Standing::TryFallback => 1,
            _ => 0,
        }
    }
}

impl State {
    /// Where a translation starts.
    pub fn start(has_primary: bool) -> (r: State)
        ensures
            r@ == Standing::start(has_primary),
    {
        if has_primary {
            State::TryPrimary
        } else {
            State::TryFallback
        }
    }

    /// Where a translation stands once the provider that was to be tried
    /// has given `result`.
    pub fn step(self, result: Result<String, TranslationError>) -> (r: State)
        ensures
            r@ == self@.after(text_outcome(result)),
    {
        match self {
            State::TryPrimary => match result {
                Ok(text) => State::Success(text),
                Err(_) => State::TryFallback,
            },
            State::TryFallback => match result {
                Ok(text) => State::Success(text),
                Err(e) => State::Failure(e),
            },
            ended => ended,
        }
    }
}

/// What the general-purpose provider gives is final: after it nothing is
/// tried, and its text or its failure is the translation's own, unchanged.
pub proof fn law_fallback_is_final(result: Result<Seq<char>, Failure>)
    ensures
        Standing::TryFallback.after(result).is_final(),
        Standing::TryFallback.after(result) == Standing::of(result),
{
}

/// A failure of the premium provider, whatever its kind, leads to the
/// general-purpose provider and is forgotten: what that provider then
/// gives ends the translation and is its result.
pub proof fn law_primary_failure_falls_back(
    failure: Failure,
    result: Result<Seq<char>, Failure>,
)
    ensures
        Standing::TryPrimary.after(Err(failure)) == Standing::TryFallback,
        Standing::TryPrimary.after(Err(failure)).after(result) == Standing::of(result),
{
}

/// A text from the premium provider ends the translation at once.
pub proof fn law_primary_success_ends(text: Seq<char>)
    ensures
        Standing::TryPrimary.after(Ok(text)) == Standing::Success(text),
{
}

/// No result of a provider leads to the premium provider, from whatever
/// state: it is asked once at most.
pub proof fn law_primary_never_again(state: Standing, result: Result<Seq<char>, Failure>)
    ensures
        !(state.after(result) is TryPrimary),
{
}

/// Every result of a provider leaves fewer providers to ask, so that a
/// translation asks two at most, and one where it starts with the
/// general-purpose provider.
pub proof fn law_attempts_run_out(state: Standing, result: Result<Seq<char>, Failure>)
    requires
        !state.is_final(),
    ensures
        state.after(result).attempts_left() < state.attempts_left(),
        state.after(result).attempts_left() == 0 <==> state.after(result).is_final(),
        Standing::start(true).attempts_left() == 2,
        Standing::start(false).attempts_left() == 1,
{
}

/// The one text that a provider's answer comes to, if it comes to one.
pub open spec fn single_outcome(result: Result<Rendering, Failure>) -> Result<Seq<char>, Failure> {
    match result {
        Ok(rendering) => rendering.single(),
        Err(failure) => Err(failure),
    }
}

/// Whether `result` is what one attempt to translate `text` with the given
/// provider and languages, without proxies, comes to when requests are sent
/// with `send`.
pub open spec fn attempts<F: Fn(Request) -> Result<Reply, String>>(
    send: &F,
    engine: Engine,
    source: Seq<char>,
    target: Seq<char>,
    text: Seq<char>,
    result: Result<Seq<char>, Failure>,
) -> bool {
    exists|answer: Result<Rendering, Failure>| #[trigger]
        translates(send, engine, source, target, Seq::empty(), text, answer) && result
            == single_outcome(answer)
}

/// Whether `result` is what the two-step policy comes to. With a DeepL
/// language the premium provider is tried, from German into that language;
/// its text is the result. Where it fails, or there is no DeepL language,
/// Google is tried, from German into `target`, and what it gives is the
/// result.
pub open spec fn policy_gives<F: Fn(Request) -> Result<Reply, String>>(
    send: &F,
    primary: Engine,
    target: LangKey,
    deepl_target: Option<DeeplLang>,
    text: Seq<char>,
    result: Result<Seq<char>, Failure>,
) -> bool {
    match deepl_target {
        Some(lang) => exists|first: Result<Seq<char>, Failure>| #[trigger]
            attempts(send, primary, LangKey::DE.code(), deepl_code(lang), text, first) && (
            match first {
                Ok(translated) => result == Ok::<Seq<char>, Failure>(translated),
                Err(_) => attempts(
                    send,
                    Engine::Google,
                    LangKey::DE.code(),
                    target.code(),
                    text,
                    result,
                ),
            }),
        None => attempts(send, Engine::Google, LangKey::DE.code(), target.code(), text, result),
    }
}

/// One attempt with `translator`, which keeps a single text and counts a
/// list of texts as nothing found.
fn attempt<F: Fn(Request) -> Result<Reply, String>>(
    translator: &Translator,
    text: &str,
    send: &F,
) -> (r: Result<String, TranslationError>)
    requires
        translator.proxies@.len() == 0,
        ready(send, translator.engine, translator.source@, translator.target@, Seq::empty(), text@),
    ensures
        attempts(
            send,
            translator.engine,
            translator.source@,
            translator.target@,
            text@,
            text_outcome(r),
        ),
{
    assert(translator.proxies.deep_view() =~= Seq::<Seq<char>>::empty());
    let answer = translator.translate(text, send);
    let ghost seen = outcome(answer);
    let r = match answer {
        Ok(translation) => translation.into_text(),
        Err(e) => Err(e),
    };
    proof {
        assert(translates(
            send,
            translator.engine,
            translator.source@,
            translator.target@,
            Seq::empty(),
            text@,
            seen,
        ));
        assert(text_outcome(r) == single_outcome(seen));
    }
    r
}

/// Translates German `text` into `target_lang` with Google alone.
pub fn translate_alternative<F: Fn(Request) -> Result<Reply, String>>(
    text: &str,
    target_lang: &LangKey,
    send: &F,
) -> (r: Result<String, TranslationError>)
    requires
        ready(send, Engine::Google, LangKey::DE.code(), target_lang.code(), Seq::empty(), text@),
    ensures
        attempts(
            send,
            Engine::Google,
            LangKey::DE.code(),
            target_lang.code(),
            text@,
            text_outcome(r),
        ),
{
    let translator = Translator::new(LangKey::DE, target_lang);
    attempt(&translator, text, send)
}

/// Translates German `text` into `target_lang`. Where `target_lang_deepl`
/// names the language for DeepL, `primary` is asked first, and Google only
/// if that fails; else Google is asked at once. Requests are sent with
/// `send`, two at most.
pub fn translate<F: Fn(Request) -> Result<Reply, String>>(
    text: &str,
    target_lang: &LangKey,
    target_lang_deepl: &Option<DeeplLang>,
    primary: Engine,
    send: &F,
) -> (r: Result<String, TranslationError>)
    requires
        *target_lang_deepl matches Some(lang) ==> ready(
            send,
            primary,
            LangKey::DE.code(),
            deepl_code(lang),
            Seq::empty(),
            text@,
        ),
        ready(send, Engine::Google, LangKey::DE.code(), target_lang.code(), Seq::empty(), text@),
    ensures
        policy_gives(send, primary, *target_lang, *target_lang_deepl, text@, text_outcome(r)),
{
    let state = State::start(target_lang_deepl.is_some());
    let ghost mut first: Result<Seq<char>, Failure> = Err(Failure::Request);
    let state = match target_lang_deepl {
        Some(lang) => {
            let translator = Translator {
                source: LangKey::DE.to_string(),
                target: code_of(lang),
                engine: primary,
                proxies: Vec::new(),
            };
            let tried = attempt(&translator, text, send);
            proof {
                first = text_outcome(tried);
            }
            state.step(tried)
        },
        None => state,
    };
    match state {
        State::Success(translated) => Ok(translated),
        State::Failure(e) => Err(e),
        _ => {
            let tried = translate_alternative(text, target_lang, send);
            match state.step(tried) {
                State::Success(translated) => Ok(translated),
                State::Failure(e) => Err(e),
                _ => {
                    proof {
                        law_fallback_is_final(text_outcome(tried));
                    }
                    Err(TranslationError::TranslationNotFound)
                },
            }
        },
    }
}

} // verus!
