//! What can go wrong with a translation, and how it is reported.

use vstd::prelude::*;
use vstd::string::StringExecFns;
use crate::text::decimal;
use crate::text::decimal_of;

verus! {

/// Status codes with which translation services refuse a request.
#[derive(Debug, Copy, Clone, PartialEq, Eq, Structural)]
pub enum StatusCode {
    BadRequest,
    KeyBlocked,
    DailyReqLimitExceeded,
    DailyCharLimitExceeded,
    TextTooLong,
    TooManyRequests,
    UnprocessableText,
    InternalServerError,
    LangNotSupported,
}

impl StatusCode {
    /// The number sent on the wire for this status.
    pub open spec fn number(self) -> usize {
        match self {
            StatusCode::BadRequest => 400,
            StatusCode::KeyBlocked => 402,
            StatusCode::DailyReqLimitExceeded => 403,
            StatusCode::DailyCharLimitExceeded => 404,
            StatusCode::TextTooLong => 413,
            StatusCode::TooManyRequests => 429,
            StatusCode::UnprocessableText => 422,
            StatusCode::InternalServerError => 500,
            StatusCode::LangNotSupported => 501,
        }
    }

    /// The name of this status.
    pub open spec fn name(self) -> Seq<char> {
        match self {
            StatusCode::BadRequest => "BadRequest"@,
            StatusCode::KeyBlocked => "KeyBlocked"@,
            StatusCode::DailyReqLimitExceeded => "DailyReqLimitExceeded"@,
            StatusCode::DailyCharLimitExceeded => "DailyCharLimitExceeded"@,
            StatusCode::TextTooLong => "TextTooLong"@,
            StatusCode::TooManyRequests => "TooManyRequests"@,
            StatusCode::UnprocessableText => "UnprocessableText"@,
            StatusCode::InternalServerError => "InternalServerError"@,
            StatusCode::LangNotSupported => "LangNotSupported"@,
        }
    }

    /// The name of this status.
    pub fn to_string(&self) -> (r: String)
        ensures
            r@ == self.name(),
    {
        match self {
            StatusCode::BadRequest => String::from_str("BadRequest"),
            StatusCode::KeyBlocked => String::from_str("KeyBlocked"),
            StatusCode::DailyReqLimitExceeded => String::from_str("DailyReqLimitExceeded"),
            StatusCode::DailyCharLimitExceeded => String::from_str("DailyCharLimitExceeded"),
            StatusCode::TextTooLong => String::from_str("TextTooLong"),
            StatusCode::TooManyRequests => String::from_str("TooManyRequests"),
            StatusCode::UnprocessableText => String::from_str("UnprocessableText"),
            StatusCode::InternalServerError => String::from_str("InternalServerError"),
            StatusCode::LangNotSupported => String::from_str("LangNotSupported"),
        }
    }
}

impl From<StatusCode> for usize {
    fn from(code: StatusCode) -> (r: usize) {
        match code {
            StatusCode::BadRequest => 400,
            StatusCode::KeyBlocked => 402,
            StatusCode::DailyReqLimitExceeded => 403,
            StatusCode::DailyCharLimitExceeded => 404,
            StatusCode::TextTooLong => 413,
            StatusCode::TooManyRequests => 429,
            StatusCode::UnprocessableText => 422,
            StatusCode::InternalServerError => 500,
            StatusCode::LangNotSupported => 501,
        }
    }
}

impl vstd::std_specs::convert::FromSpecImpl<StatusCode> for usize {
    open spec fn obeys_from_spec() -> bool {
        true
    }

    open spec fn from_spec(code: StatusCode) -> usize {
        code.number()
    }
}

/// The ways in which a translation fails.
#[derive(Debug, Clone, PartialEq, Eq)]
pub enum TranslationError {
    /// The provider answered 429: it wants fewer requests.
    TooManyRequests,
    /// The provider refused the request, or answered in a shape that it
    /// does not document.
    Request,
    /// The text is shorter or longer than the provider accepts.
    NotValidLength { min: usize, max: usize },
    /// No provider goes by this name.
    EngineNotSupported(String),
    /// The provider reported one of its own status codes.
    Server(StatusCode),
    /// The provider answered well and had no translation to give.
    TranslationNotFound,
    /// The request never got an answer: the connection, the address or the
    /// client failed.
    Transport(String),
}

/// What a [`TranslationError`] says, with its texts as sequences.
pub enum Failure {
    TooManyRequests,
    Request,
    NotValidLength { min: usize, max: usize },
    EngineNotSupported(Seq<char>),
    Server(StatusCode),
    TranslationNotFound,
    Transport(Seq<char>),
}

impl View for TranslationError {
    type V = Failure;

    open spec fn view(&self) -> Failure {
        match self {
            TranslationError::TooManyRequests => Failure::TooManyRequests,
            TranslationError::Request => Failure::Request,
            TranslationError::NotValidLength { min, max } => Failure::NotValidLength {
                min: *min,
                max: *max,
            },
            TranslationError::EngineNotSupported(name) => Failure::EngineNotSupported(name@),
            TranslationError::Server(code) => Failure::Server(*code),
            TranslationError::TranslationNotFound => Failure::TranslationNotFound,
            TranslationError::Transport(cause) => Failure::Transport(cause@),
        }
    }
}

impl Failure {
    /// The sentence that reports this failure to a person.
    pub open spec fn message(self) -> Seq<char> {
        match self {
            Failure::TooManyRequests =>
                "Server Error: You made too many requests to the server. According to google, you are allowed to make 5 requests per second and up to 200k requests per day. You can wait and try again later or you can try the translate_batch function."@,
            Failure::Request =>
                "Request exception can happen due to an api connection error. Please check your connection and try again."@,
            Failure::NotValidLength { min, max } => "Text length need to be between "@
                + decimal_of(min as nat) + " and "@ + decimal_of(max as nat) + " characters"@,
            Failure::EngineNotSupported(name) => "Translator "@ + name
                + " is not supported. Supported translators: `deepl`, `google`, `libre`, `linguee`, `microsoft`, `mymemory`, `papago`, `pons`, `qcri`, `yandex`."@,
            Failure::Server(code) => "Status code: "@ + code.name(),
            Failure::TranslationNotFound =>
                "No translation was found using the current translator. Try another translator?"@,
            Failure::Transport(cause) => "Transport error: "@ + cause,
        }
    }
}

impl TranslationError {
    /// The sentence that reports this failure to a person.
    pub fn to_string(&self) -> (r: String)
        ensures
            r@ == self@.message(),
    {
        match self {
            TranslationError::TooManyRequests => String::from_str(
                "Server Error: You made too many requests to the server. According to google, you are allowed to make 5 requests per second and up to 200k requests per day. You can wait and try again later or you can try the translate_batch function.",
            ),
            TranslationError::Request => String::from_str(
                "Request exception can happen due to an api connection error. Please check your connection and try again.",
            ),
            TranslationError::NotValidLength { min, max } => {
                let low = decimal(*min);
                let high = decimal(*max);
                String::from_str("Text length need to be between ").concat(low.as_str()).concat(
                    " and ",
                ).concat(high.as_str()).concat(" characters")
            },
            TranslationError::EngineNotSupported(name) => String::from_str("Translator ").concat(
                name.as_str(),
            ).concat(
                " is not supported. Supported translators: `deepl`, `google`, `libre`, `linguee`, `microsoft`, `mymemory`, `papago`, `pons`, `qcri`, `yandex`.",
            ),
            TranslationError::Server(code) => {
                let name = code.to_string();
                String::from_str("Status code: ").concat(name.as_str())
            },
            TranslationError::TranslationNotFound => String::from_str(
                "No translation was found using the current translator. Try another translator?",
            ),
            TranslationError::Transport(cause) => String::from_str("Transport error: ").concat(
                cause.as_str(),
            ),
        }
    }
}

} // verus!
