//! The translator: a provider, a pair of languages and a list of proxies,
//! and from these the one request that a text calls for.

use vstd::prelude::*;
use vstd::string::StrSliceExecFns;
use vstd::string::StringExecFns;
use crate::engine::Engine;
use crate::engine::QcriTrans;
use crate::error::Failure;
use crate::error::TranslationError;
use crate::lang::LangKey;
use crate::reading::outcome;
use crate::reading::text_outcome;
use crate::reading::Rendering;
use crate::reading::Translation;
use crate::text::trim;
use crate::text::trimmed;
use crate::transport::copy_strings;
use crate::transport::push_pair;
use crate::transport::response_status;
use crate::transport::status_failure;
use crate::transport::Method;
use crate::transport::Reply;
use crate::transport::Request;
use crate::transport::Wire;

verus! {

/// The longest text, in characters, that MyMemory takes.
pub const MYMEMORY_MAX: usize = 500;

impl Engine {
    /// How this provider wants its requests sent.
    pub open spec fn method(self) -> Method {
        match self {
            Engine::Libre { .. } | Engine::Microsoft { .. } | Engine::Papago { .. } | Engine::Yandex {
                ..
            } => Method::Post,
            _ => Method::Get,
        }
    }

    /// The address to which the request for `text` goes. The dictionaries
    /// carry languages and text in the path; every other provider is
    /// reached at its fixed address.
    pub open spec fn address(self, source: Seq<char>, target: Seq<char>, text: Seq<char>) -> Seq<
        char,
    > {
        match self {
            Engine::Linguee { .. } => self.endpoint() + source + "-"@ + target + "/translation/"@
                + text + ".html"@,
            Engine::Pons { .. } => self.endpoint() + source + "-"@ + target + "/"@ + text,
            _ => self.endpoint(),
        }
    }

    /// The parameters of the request for `text`, in the order in which they
    /// are sent.
    pub open spec fn params(self, source: Seq<char>, target: Seq<char>, text: Seq<char>) -> Seq<
        (Seq<char>, Seq<char>),
    > {
        match self {
            Engine::Google => seq![("tl"@, target), ("sl"@, source), ("q"@, text)],
            Engine::Deepl { api_key, .. } => seq![
                ("auth_key"@, api_key@),
                ("source_lang"@, source),
                ("target_lang"@, target),
                ("text"@, text),
                ("tag_handling"@, "html"@),
            ],
            Engine::Libre { api_key, .. } => {
                let fixed = seq![
                    ("q"@, text),
                    ("source"@, source),
                    ("target"@, target),
                    ("format"@, "text"@),
                ];
                if api_key@.len() > 0 {
                    fixed.push(("api_key"@, api_key@))
                } else {
                    fixed
                }
            },
            Engine::Linguee { .. } => seq![],
            Engine::Microsoft { .. } => seq![("from"@, source), ("to"@, target), ("text"@, text)],
            Engine::MyMemory { email, .. } => {
                let fixed = seq![("langpair"@, source + "|"@ + target), ("q"@, text)];
                if email@.len() > 0 {
                    fixed.push(("de"@, email@))
                } else {
                    fixed
                }
            },
            Engine::Papago { .. } => seq![
                ("source"@, source),
                ("target"@, target),
                ("text"@, text),
            ],
            Engine::Pons { .. } => seq![],
            Engine::Qcri(QcriTrans { api_key, domain }) => seq![
                ("key"@, api_key@),
                ("langpair"@, source + "-"@ + target),
                ("domain"@, domain@),
                ("text"@, text),
            ],
            Engine::Yandex { api_key } => seq![
                ("text"@, text),
                ("format"@, "plain"@),
                ("lang"@, source + "-"@ + target),
                ("key"@, api_key@),
            ],
        }
    }

    /// The headers that this provider asks for, in order.
    pub open spec fn headers(self) -> Seq<(Seq<char>, Seq<char>)> {
        match self {
            Engine::Microsoft { api_key, region } => {
                let fixed = seq![("Ocp-Apim-Subscription-Key"@, api_key@)];
                if region@.len() > 0 {
                    fixed.push(("Ocp-Apim-Subscription-Region"@, region@))
                } else {
                    fixed
                }
            },
            Engine::Papago { client_id, secret_key } => seq![
                ("X-Naver-Client-Id"@, client_id@),
                ("X-Naver-Client-Secret"@, secret_key@),
                ("Content-Type"@, "application/x-www-form-urlencoded; charset=UTF-8"@),
            ],
            _ => seq![],
        }
    }

    /// Whether this provider refuses a text of `length` characters.
    pub open spec fn refuses_length(self, length: nat) -> bool {
        self is MyMemory && length > MYMEMORY_MAX
    }

    /// The request that asks this provider to translate `text`, which is
    /// taken as it stands.
    pub open spec fn wire(
        self,
        source: Seq<char>,
        target: Seq<char>,
        proxies: Seq<Seq<char>>,
        text: Seq<char>,
    ) -> Wire {
        Wire {
            method: self.method(),
            url: self.address(source, target, text),
            params: self.params(source, target, text),
            headers: self.headers(),
            proxies,
        }
    }

    /// The address to which the request for `text` goes.
    fn address_for(&self, source: &str, target: &str, text: &str) -> (r: String)
        ensures
            r@ == self.address(source@, target@, text@),
    {
        match self {
            Engine::Linguee { .. } => self.base_url().concat(source).concat("-").concat(
                target,
            ).concat("/translation/").concat(text).concat(".html"),
            Engine::Pons { .. } => self.base_url().concat(source).concat("-").concat(target).concat(
                "/",
            ).concat(text),
            _ => self.base_url(),
        }
    }

    /// The parameters of the request for `text`.
    fn params_for(&self, source: &str, target: &str, text: &str) -> (r: Vec<(String, String)>)
        ensures
            r.deep_view() == self.params(source@, target@, text@),
    {
        let mut list: Vec<(String, String)> = Vec::new();
        assert(list.deep_view() =~= Seq::<(Seq<char>, Seq<char>)>::empty());
        match self {
            Engine::Google => {
                push_pair(&mut list, "tl", target);
                push_pair(&mut list, "sl", source);
                push_pair(&mut list, "q", text);
            },
            Engine::Deepl { api_key, .. } => {
                push_pair(&mut list, "auth_key", api_key.as_str());
                push_pair(&mut list, "source_lang", source);
                push_pair(&mut list, "target_lang", target);
                push_pair(&mut list, "text", text);
                push_pair(&mut list, "tag_handling", "html");
            },
            Engine::Libre { api_key, .. } => {
                push_pair(&mut list, "q", text);
                push_pair(&mut list, "source", source);
                push_pair(&mut list, "target", target);
                push_pair(&mut list, "format", "text");
                if !api_key.as_str().is_empty() {
                    push_pair(&mut list, "api_key", api_key.as_str());
                }
            },
            Engine::Linguee { .. } => {},
            Engine::Microsoft { .. } => {
                push_pair(&mut list, "from", source);
                push_pair(&mut list, "to", target);
                push_pair(&mut list, "text", text);
            },
            Engine::MyMemory { email, .. } => {
                let pair = String::from_str(source).concat("|").concat(target);
                push_pair(&mut list, "langpair", pair.as_str());
                push_pair(&mut list, "q", text);
                if !email.as_str().is_empty() {
                    push_pair(&mut list, "de", email.as_str());
                }
            },
            Engine::Papago { .. } => {
                push_pair(&mut list, "source", source);
                push_pair(&mut list, "target", target);
                push_pair(&mut list, "text", text);
            },
            Engine::Pons { .. } => {},
            Engine::Qcri(QcriTrans { api_key, domain }) => {
                let pair = String::from_str(source).concat("-").concat(target);
                push_pair(&mut list, "key", api_key.as_str());
                push_pair(&mut list, "langpair", pair.as_str());
                push_pair(&mut list, "domain", domain.as_str());
                push_pair(&mut list, "text", text);
            },
            Engine::Yandex { api_key } => {
                let pair = String::from_str(source).concat("-").concat(target);
                push_pair(&mut list, "text", text);
                push_pair(&mut list, "format", "plain");
                push_pair(&mut list, "lang", pair.as_str());
                push_pair(&mut list, "key", api_key.as_str());
            },
        }
        list
    }

    /// The headers that this provider asks for.
    fn headers_for(&self) -> (r: Vec<(String, String)>)
        ensures
            r.deep_view() == self.headers(),
    {
        let mut list: Vec<(String, String)> = Vec::new();
        assert(list.deep_view() =~= Seq::<(Seq<char>, Seq<char>)>::empty());
        match self {
            Engine::Microsoft { api_key, region } => {
                push_pair(&mut list, "Ocp-Apim-Subscription-Key", api_key.as_str());
                if !region.as_str().is_empty() {
                    push_pair(&mut list, "Ocp-Apim-Subscription-Region", region.as_str());
                }
            },
            Engine::Papago { client_id, secret_key } => {
                push_pair(&mut list, "X-Naver-Client-Id", client_id.as_str());
                push_pair(&mut list, "X-Naver-Client-Secret", secret_key.as_str());
                push_pair(
                    &mut list,
                    "Content-Type",
                    "application/x-www-form-urlencoded; charset=UTF-8",
                );
            },
            _ => {},
        }
        list
    }

    /// How this provider wants its requests sent.
    fn method_for(&self) -> (r: Method)
        ensures
            r == self.method(),
    {
        match self {
            Engine::Libre { .. } | Engine::Microsoft { .. } | Engine::Papago { .. } | Engine::Yandex {
                ..
            } => Method::Post,
            _ => Method::Get,
        }
    }
}

/// What a text calls for before anything is sent.
#[derive(Debug, Clone, PartialEq, Eq)]
pub enum Step {
    /// Nothing is to be sent: this is the result.
    Done(String),
    /// This request is to be sent, and its answer read.
    Send(Request),
}

/// What a [`Step`] holds, with its texts as sequences.
pub enum Plan {
    Done(Seq<char>),
    Send(Wire),
}

impl View for Step {
    type V = Plan;

    open spec fn view(&self) -> Plan {
        match self {
            Step::Done(text) => Plan::Done(text@),
            Step::Send(request) => Plan::Send(request@),
        }
    }
}

/// The first decision on a text, with its texts as sequences.
pub open spec fn step_outcome(r: Result<Step, TranslationError>) -> Result<Plan, Failure> {
    match r {
        Ok(step) => Ok(step@),
        Err(e) => Err(e@),
    }
}

/// What is to be done with `text`. The text is trimmed first. Where nothing
/// is left, or the two languages are the same, the trimmed text is the
/// result and nothing is sent. A text that the provider would refuse for
/// its length is refused here. Any other text has its request made.
pub open spec fn plan(
    engine: Engine,
    source: Seq<char>,
    target: Seq<char>,
    proxies: Seq<Seq<char>>,
    text: Seq<char>,
) -> Result<Plan, Failure> {
    let text = trimmed(text);
    if text.len() == 0 || source == target {
        Ok(Plan::Done(text))
    } else if engine.refuses_length(text.len()) {
        Err(Failure::NotValidLength { min: 1, max: MYMEMORY_MAX })
    } else {
        Ok(Plan::Send(engine.wire(source, target, proxies, text)))
    }
}

/// What a response, or the failure to get one, comes to.
pub open spec fn received(engine: Engine, reply: Result<Reply, String>) -> Result<
    Rendering,
    Failure,
> {
    match reply {
        Ok(reply) => engine.answer(reply.status, reply.body@),
        Err(cause) => Err(Failure::Transport(cause@)),
    }
}

/// Whether `send` can be handed every request that reads `wire`.
pub open spec fn accepts<F: Fn(Request) -> Result<Reply, String>>(send: &F, wire: Wire) -> bool {
    forall|request: Request| request@ == wire ==> call_requires(send, (request,))
}

/// Whether `reply` is something that `send` may hand back for a request
/// that reads `wire`.
pub open spec fn answers<F: Fn(Request) -> Result<Reply, String>>(
    send: &F,
    wire: Wire,
    reply: Result<Reply, String>,
) -> bool {
    exists|request: Request| request@ == wire && call_ensures(send, (request,), reply)
}

/// Whether `send` takes the request that `text` calls for, if it calls for
/// one.
pub open spec fn ready<F: Fn(Request) -> Result<Reply, String>>(
    send: &F,
    engine: Engine,
    source: Seq<char>,
    target: Seq<char>,
    proxies: Seq<Seq<char>>,
    text: Seq<char>,
) -> bool {
    match plan(engine, source, target, proxies, text) {
        Ok(Plan::Send(wire)) => accepts(send, wire),
        _ => true,
    }
}

/// Whether `result` is what translating `text` comes to when requests are
/// sent with `send`: the plan's own result where nothing is sent, and else
/// what one answer of `send` to the planned request says.
pub open spec fn translates<F: Fn(Request) -> Result<Reply, String>>(
    send: &F,
    engine: Engine,
    source: Seq<char>,
    target: Seq<char>,
    proxies: Seq<Seq<char>>,
    text: Seq<char>,
    result: Result<Rendering, Failure>,
) -> bool {
    match plan(engine, source, target, proxies, text) {
        Ok(Plan::Done(unchanged)) => result == Ok::<Rendering, Failure>(
            Rendering::Text(unchanged),
        ),
        Ok(Plan::Send(wire)) => exists|reply: Result<Reply, String>| #[trigger]
            answers(send, wire, reply) && result == received(engine, reply),
        Err(failure) => result == Err::<Rendering, Failure>(failure),
    }
}

/// Carries text from one language into another by way of one provider.
#[derive(Debug, Clone, PartialEq, Eq)]
pub struct Translator {
    /// The provider's code of the language that texts are written in.
    pub source: String,
    /// The provider's code of the language that texts are wanted in.
    pub target: String,
    pub engine: Engine,
    /// Proxy endpoints for the client that sends, in order.
    pub proxies: Vec<String>,
}

impl Default for Translator {
    fn default() -> (r: Self)
        ensures
            r.source@.len() == 0,
            r.target@.len() == 0,
            r.engine == Engine::Google,
            r.proxies@.len() == 0,
    {
        Translator {
            source: String::new(),
            target: String::new(),
            engine: Engine::Google,
            proxies: Vec::new(),
        }
    }
}

impl Translator {
    /// A translator from `source` to `target` that asks Google and uses no
    /// proxy.
    pub fn new(source: LangKey, target: &LangKey) -> (r: Self)
        ensures
            r.source@ == source.code(),
            r.target@ == target.code(),
            r.engine == Engine::Google,
            r.proxies@.len() == 0,
    {
        Translator {
            source: source.to_string(),
            target: target.to_string(),
            engine: Engine::Google,
            proxies: Vec::new(),
        }
    }

    /// What this translator does with `text`: see [`plan`].
    pub open spec fn plan(self, text: Seq<char>) -> Result<Plan, Failure> {
        plan(self.engine, self.source@, self.target@, self.proxies.deep_view(), text)
    }

    /// Decides what `text` calls for, and makes the request if it calls for
    /// one. Nothing is sent here.
    pub fn prepare(&self, text: &str) -> (r: Result<Step, TranslationError>)
        ensures
            step_outcome(r) == self.plan(text@),
    {
        let text = trim(text);
        if text.is_empty() || self.source == self.target {
            return Ok(Step::Done(String::from_str(text)));
        }
        match &self.engine {
            Engine::MyMemory { .. } => {
                if text.unicode_len() > MYMEMORY_MAX {
                    return Err(TranslationError::NotValidLength { min: 1, max: MYMEMORY_MAX });
                }
            },
            _ => {},
        }
        let source = self.source.as_str();
        let target = self.target.as_str();
        Ok(
            Step::Send(
                Request {
                    method: self.engine.method_for(),
                    url: self.engine.address_for(source, target, text),
                    params: self.engine.params_for(source, target, text),
                    headers: self.engine.headers_for(),
                    proxies: copy_strings(&self.proxies),
                },
            ),
        )
    }

    /// Reads what came back for a request of this translator: a response,
    /// or the reason why there is none.
    pub fn receive(&self, reply: Result<Reply, String>) -> (r: Result<
        Translation,
        TranslationError,
    >)
        ensures
            outcome(r) == received(self.engine, reply),
    {
        match reply {
            Ok(reply) => self.engine.read_reply(reply),
            Err(cause) => Err(TranslationError::Transport(cause)),
        }
    }

    /// Translates `text`, sending at most one request, with `send`.
    pub fn translate<F: Fn(Request) -> Result<Reply, String>>(&self, text: &str, send: &F) -> (r:
        Result<Translation, TranslationError>)
        requires
            ready(send, self.engine, self.source@, self.target@, self.proxies.deep_view(), text@),
        ensures
            translates(
                send,
                self.engine,
                self.source@,
                self.target@,
                self.proxies.deep_view(),
                text@,
                outcome(r),
            ),
    {
        match self.prepare(text) {
            Ok(Step::Done(unchanged)) => Ok(Translation::Text(unchanged)),
            Ok(Step::Send(request)) => {
                let ghost wire = request@;
                let reply = send(request);
                proof {
                    assert(answers(send, wire, reply));
                }
                self.receive(reply)
            },
            Err(e) => Err(e),
        }
    }
}

impl QcriTrans {
    /// The request that asks QCRI which translation domains it offers.
    pub open spec fn domains_wire() -> Wire {
        Wire {
            method: Method::Get,
            url: Self::endpoint("getDomains"@),
            params: seq![],
            headers: seq![],
            proxies: seq![],
        }
    }

    /// What comes of asking for the domains: the body of a 200 as it
    /// stands, and a failure for any other status or where no response came.
    pub open spec fn domains_received(reply: Result<Reply, String>) -> Result<Seq<char>, Failure> {
        match reply {
            Ok(reply) => match status_failure(reply.status) {
                Some(failure) => Err(failure),
                None => Ok(reply.body@),
            },
            Err(cause) => Err(Failure::Transport(cause@)),
        }
    }

    /// Asks QCRI, with `send`, which translation domains it offers, and
    /// hands back its answer unread.
    pub fn domains<F: Fn(Request) -> Result<Reply, String>>(send: &F) -> (r: Result<
        String,
        TranslationError,
    >)
        requires
            accepts(send, Self::domains_wire()),
        ensures
            exists|reply: Result<Reply, String>| #[trigger]
                answers(send, Self::domains_wire(), reply) && text_outcome(r)
                    == Self::domains_received(reply),
    {
        let request = Request {
            method: Method::Get,
            url: QcriTrans::base_url("getDomains"),
            params: Vec::new(),
            headers: Vec::new(),
            proxies: Vec::new(),
        };
        proof {
            assert(request.params.deep_view() =~= Seq::<(Seq<char>, Seq<char>)>::empty());
            assert(request.headers.deep_view() =~= Seq::<(Seq<char>, Seq<char>)>::empty());
            assert(request.proxies.deep_view() =~= Seq::<Seq<char>>::empty());
            assert(request@ == Self::domains_wire());
        }
        let reply = send(request);
        proof {
            assert(answers(send, Self::domains_wire(), reply));
        }
        match reply {
            Ok(reply) => match response_status(reply) {
                Ok(passed) => Ok(passed.body),
                Err(e) => Err(e),
            },
            Err(cause) => Err(TranslationError::Transport(cause)),
        }
    }
}

/// A text that trims to nothing is the result as it stands, for every
/// provider and every pair of languages: no request is planned, and
/// whatever `send` would do, the translation is the empty text.
pub proof fn law_empty_text_unchanged<F: Fn(Request) -> Result<Reply, String>>(
    send: &F,
    engine: Engine,
    source: Seq<char>,
    target: Seq<char>,
    proxies: Seq<Seq<char>>,
    text: Seq<char>,
    result: Result<Rendering, Failure>,
)
    requires
        trimmed(text).len() == 0,
        translates(send, engine, source, target, proxies, text, result),
    ensures
        plan(engine, source, target, proxies, text) == Ok::<Plan, Failure>(
            Plan::Done(Seq::empty()),
        ),
        result == Ok::<Rendering, Failure>(Rendering::Text(Seq::empty())),
{
    assert(trimmed(text) =~= Seq::<char>::empty());
}

/// The empty text trims to nothing, so that it is returned as it stands.
pub proof fn law_empty_text_trims_to_nothing()
    ensures
        trimmed(Seq::<char>::empty()) == Seq::<char>::empty(),
{
}

/// Where the language asked for is the language of the text, the trimmed
/// text is the result, for every provider: no request is planned, and
/// whatever `send` would do, nothing else comes back.
pub proof fn law_same_language_unchanged<F: Fn(Request) -> Result<Reply, String>>(
    send: &F,
    engine: Engine,
    language: Seq<char>,
    proxies: Seq<Seq<char>>,
    text: Seq<char>,
    result: Result<Rendering, Failure>,
)
    requires
        translates(send, engine, language, language, proxies, text, result),
    ensures
        plan(engine, language, language, proxies, text) == Ok::<Plan, Failure>(
            Plan::Done(trimmed(text)),
        ),
        result == Ok::<Rendering, Failure>(Rendering::Text(trimmed(text))),
{
}

/// MyMemory refuses a text of more than 500 characters before any request
/// is planned, with the bounds 1 and 500. The text counts as trimmed, and
/// the two languages differ: a text between equal languages is returned
/// unread.
pub proof fn law_mymemory_refuses_long_text<F: Fn(Request) -> Result<Reply, String>>(
    send: &F,
    engine: Engine,
    source: Seq<char>,
    target: Seq<char>,
    proxies: Seq<Seq<char>>,
    text: Seq<char>,
    result: Result<Rendering, Failure>,
)
    requires
        engine is MyMemory,
        source != target,
        trimmed(text).len() > 500,
        translates(send, engine, source, target, proxies, text, result),
    ensures
        plan(engine, source, target, proxies, text) == Err::<Plan, Failure>(
            Failure::NotValidLength { min: 1, max: 500 },
        ),
        result == Err::<Rendering, Failure>(Failure::NotValidLength { min: 1, max: 500 }),
{
}

/// A response with status 429 is a rate limit for every provider, whatever
/// its body, and never a failed request.
pub proof fn law_429_is_rate_limit(engine: Engine, reply: Reply)
    requires
        reply.status == 429,
    ensures
        engine.answer(reply.status, reply.body@) == Err::<Rendering, Failure>(
            Failure::TooManyRequests,
        ),
        received(engine, Ok(reply)) == Err::<Rendering, Failure>(Failure::TooManyRequests),
{
}

/// A response with a status other than 200 and 429, such as 500, is a
/// failed request for every provider, whatever its body, and never a rate
/// limit.
pub proof fn law_other_status_is_failed_request(engine: Engine, reply: Reply)
    requires
        reply.status != 200,
        reply.status != 429,
    ensures
        engine.answer(reply.status, reply.body@) == Err::<Rendering, Failure>(Failure::Request),
        received(engine, Ok(reply)) == Err::<Rendering, Failure>(Failure::Request),
{
}

} // verus!
