//! The inference client: the requests it makes and what it concludes from the replies.
//!
//! Sending a request is left to the caller, who hands back an [`HttpOutcome`].

use vstd::prelude::*;
use crate::prompt::{
    PromptStyle, prompt_of, build_prompt, contains, lead_of, between, instructions_of,
    lemma_contains_within,
};
use crate::protocol::{
    generate_body_of, generate_body, reply_text_of, tag_entries_of, names_of, opt_view,
    entries_view, strings_view, parse_reply_text, parse_tag_entries, collect_names, escaped_of,
    json_quoted, lemma_escaped_concat, options_of,
};
use crate::text::{trimmed, trim_text, trim_start, trim_end, lemma_trim_idempotent};

verus! {

/// A text to translate, with the languages it goes from and to.
#[derive(Clone, Debug)]
pub struct TranslateRequest {
    pub text: String,
    pub from_lang: String,
    pub to_lang: String,
}

/// A translated text.
#[derive(Clone, Debug)]
pub struct TranslateResponse {
    pub translated_text: String,
}

/// Why a call to the inference server failed.
#[derive(Clone, Debug)]
pub enum ClientError {
    /// The request did not get a reply: no connection, no name, or the time ran out.
    Transport(String),
    /// The server replied with a status outside 200 to 299.
    Upstream(u16),
    /// The reply body did not hold what was expected.
    ResponseFormat,
}

/// The method of an HTTP request.
#[derive(Clone, Copy, Debug, PartialEq, Eq, Structural)]
pub enum Method {
    Get,
    Post,
}

/// An HTTP request for the caller to send.
#[derive(Clone, Debug)]
pub struct HttpRequest {
    pub method: Method,
    pub url: String,
    /// A JSON body, where the request has one.
    pub body: Option<String>,
    /// How long the caller waits for the reply before giving up.
    pub timeout_secs: u64,
}

/// What came of sending an [`HttpRequest`].
#[derive(Clone, Debug)]
pub enum HttpOutcome {
    /// No reply came; the text says why.
    Failed(String),
    /// The server replied with this status and body.
    Replied(u16, String),
}

/// Whether the server is up, and the models it offers.
#[derive(Clone, Debug)]
pub struct HealthStatus {
    pub reachable: bool,
    pub models: Vec<String>,
}

/// The settings of a client of one inference server.
#[derive(Clone, Debug)]
pub struct OllamaClient {
    pub base_url: String,
    pub model: String,
    pub style: PromptStyle,
    /// The most tokens the model may produce, where a bound is set.
    pub num_predict: Option<u32>,
    /// How long a translation may take before it is given up.
    pub timeout_secs: u64,
}

/// The server's address where none is given.
pub open spec fn default_base_url() -> Seq<char> {
    "http://localhost:11434"@
}

/// The model used where none is given.
pub open spec fn default_model() -> Seq<char> {
    "qwen2.5:3b"@
}

/// The time that a translation may take, in seconds, where none is given.
pub const DEFAULT_TIMEOUT_SECS: u64 = 300;

/// The time that a health probe may take, in seconds.
pub const HEALTH_TIMEOUT_SECS: u64 = 5;

/// The bound on produced tokens for documents.
pub const DOCUMENT_NUM_PREDICT: u32 = 4096;

/// A status in the success class.
pub open spec fn is_success(status: u16) -> bool {
    200 <= status <= 299
}

pub open spec fn generate_url_of(base: Seq<char>) -> Seq<char> {
    base + "/api/generate"@
}

pub open spec fn tags_url_of(base: Seq<char>) -> Seq<char> {
    base + "/api/tags"@
}

/// What a success reply's `response` text gives: the trimmed text, or a format error.
pub open spec fn translation_result_ok(
    reply: Option<Seq<char>>,
    r: Result<TranslateResponse, ClientError>,
) -> bool {
    match reply {
        Some(t) => r is Ok && r->Ok_0.translated_text@ == trimmed(t),
        None => r is Err && r->Err_0 is ResponseFormat,
    }
}

/// The translation that an outcome gives.
pub open spec fn translate_outcome_ok(outcome: HttpOutcome, r: Result<TranslateResponse, ClientError>) -> bool {
    match outcome {
        HttpOutcome::Failed(m) => r is Err && r->Err_0 is Transport && r->Err_0->Transport_0@ == m@,
        HttpOutcome::Replied(status, body) => if is_success(status) {
            translation_result_ok(reply_text_of(body@), r)
        } else {
            r is Err && r->Err_0 is Upstream && r->Err_0->Upstream_0 == status
        },
    }
}

/// The model names that a tags reply's entries give: a format error where the body
/// is not JSON, no list where it holds no `models` array, else the names listed.
pub open spec fn names_result_ok(
    entries: Option<Option<Seq<Option<Seq<char>>>>>,
    r: Result<Option<Vec<String>>, ClientError>,
) -> bool {
    match entries {
        Some(Some(e)) => r is Ok && r->Ok_0 is Some && strings_view(r->Ok_0->Some_0@) == names_of(e),
        Some(None) => r is Ok && r->Ok_0 is None,
        None => r is Err && r->Err_0 is ResponseFormat,
    }
}

/// The model names, or the error, that a health probe's outcome gives.
pub open spec fn diagnose_ok(outcome: HttpOutcome, r: Result<Option<Vec<String>>, ClientError>) -> bool {
    match outcome {
        HttpOutcome::Failed(m) => r is Err && r->Err_0 is Transport && r->Err_0->Transport_0@ == m@,
        HttpOutcome::Replied(status, body) => if is_success(status) {
            names_result_ok(tag_entries_of(body@), r)
        } else {
            r is Err && r->Err_0 is Upstream && r->Err_0->Upstream_0 == status
        },
    }
}

/// Whether an outcome shows the server up.
pub open spec fn reachable_of(outcome: HttpOutcome) -> bool {
    outcome is Replied && is_success(outcome->Replied_0)
}

/// The models listed in a health reply, none where the body holds no `models`
/// array or is not JSON.
pub open spec fn listed_models_of(outcome: HttpOutcome) -> Seq<Seq<char>> {
    match outcome {
        HttpOutcome::Replied(status, body) => if is_success(status) {
            match tag_entries_of(body@) {
                Some(Some(e)) => names_of(e),
                _ => Seq::empty(),
            }
        } else {
            Seq::empty()
        },
        HttpOutcome::Failed(_) => Seq::empty(),
    }
}

/// Whether `status` is in the success class.
pub fn status_is_success(status: u16) -> (r: bool)
    ensures
        r == is_success(status),
{
    200 <= status && status <= 299
}

/// The translation that a success reply's `response` text gives.
pub fn translation_from_reply(reply: Option<String>) -> (r: Result<TranslateResponse, ClientError>)
    ensures
        translation_result_ok(opt_view(reply), r),
{
    match reply {
        Some(t) => Ok(TranslateResponse { translated_text: trim_text(t.as_str()) }),
        None => Err(ClientError::ResponseFormat),
    }
}

/// The model names that a tags reply's entries give. A reply without a `models`
/// array is no error: it lists no models.
pub fn names_from_entries(entries: Option<Option<Vec<Option<String>>>>) -> (r: Result<
    Option<Vec<String>>,
    ClientError,
>)
    ensures
        names_result_ok(entries_view(entries), r),
        entries matches Some(None) ==> r == Ok::<Option<Vec<String>>, ClientError>(None),
{
    match entries {
        Some(Some(e)) => Ok(Some(collect_names(&e))),
        Some(None) => Ok(None),
        None => Err(ClientError::ResponseFormat),
    }
}

/// The translation that the outcome of a generate request gives.
pub fn translate_outcome(outcome: &HttpOutcome) -> (r: Result<TranslateResponse, ClientError>)
    ensures
        translate_outcome_ok(*outcome, r),
{
    match outcome {
        HttpOutcome::Failed(m) => Err(ClientError::Transport(m.clone())),
        HttpOutcome::Replied(status, body) => {
            if status_is_success(*status) {
                translation_from_reply(parse_reply_text(body.as_str()))
            } else {
                Err(ClientError::Upstream(*status))
            }
        },
    }
}

/// The model names that the outcome of a health probe gives (`None` where the
/// reply holds no model list), or why the server is not usable.
pub fn diagnose_health(outcome: &HttpOutcome) -> (r: Result<Option<Vec<String>>, ClientError>)
    ensures
        diagnose_ok(*outcome, r),
{
    match outcome {
        HttpOutcome::Failed(m) => Err(ClientError::Transport(m.clone())),
        HttpOutcome::Replied(status, body) => {
            if status_is_success(*status) {
                names_from_entries(parse_tag_entries(body.as_str()))
            } else {
                Err(ClientError::Upstream(*status))
            }
        },
    }
}

/// Whether the outcome of a health probe shows the server up, with the models it
/// lists. No outcome is an error here: a server that cannot be reached, or that
/// replies with a failure status, is reported as not reachable.
pub fn health_status(outcome: &HttpOutcome) -> (r: HealthStatus)
    ensures
        r.reachable == reachable_of(*outcome),
        strings_view(r.models@) == listed_models_of(*outcome),
{
    match diagnose_health(outcome) {
        Ok(Some(models)) => HealthStatus { reachable: true, models },
        Ok(None) => HealthStatus { reachable: true, models: Vec::new() },
        Err(e) => {
            let reachable = match e {
                ClientError::ResponseFormat => true,
                _ => false,
            };
            HealthStatus { reachable, models: Vec::new() }
        },
    }
}

/// A translation that an outcome gives is already trimmed: trimming it again
/// changes nothing.
pub proof fn lemma_translation_is_trimmed(outcome: HttpOutcome, r: Result<TranslateResponse, ClientError>)
    requires
        translate_outcome_ok(outcome, r),
        r is Ok,
    ensures
        trimmed(r->Ok_0.translated_text@) == r->Ok_0.translated_text@,
{
    let body = outcome->Replied_1;
    lemma_trim_idempotent(reply_text_of(body@)->Some_0);
}

/// A success reply whose text is empty gives an empty translation, not an error.
pub proof fn lemma_empty_reply_translates(r: Result<TranslateResponse, ClientError>)
    requires
        translation_result_ok(Some(Seq::empty()), r),
    ensures
        r is Ok,
        r->Ok_0.translated_text@ == Seq::<char>::empty(),
{
    assert(trim_start(Seq::<char>::empty()) == Seq::<char>::empty());
    assert(trim_end(Seq::<char>::empty()) == Seq::<char>::empty());
}

/// The escape of a prompt is the escapes of its parts joined.
proof fn lemma_escaped_prompt(style: PromptStyle, from: Seq<char>, to: Seq<char>, text: Seq<char>)
    ensures
        escaped_of(prompt_of(style, from, to, text)) == escaped_of(lead_of(style)) + escaped_of(from)
            + escaped_of(between()) + escaped_of(to) + escaped_of(instructions_of(style))
            + escaped_of(text),
{
    let l = lead_of(style);
    let w = between();
    let n = instructions_of(style);
    lemma_escaped_concat(l, from);
    lemma_escaped_concat(l + from, w);
    lemma_escaped_concat(l + from + w, to);
    lemma_escaped_concat(l + from + w + to, n);
    lemma_escaped_concat(l + from + w + to + n, text);
}

proof fn lemma_contains_self(s: Seq<char>)
    ensures
        contains(s, s),
{
    assert(s.subrange(0, 0int + s.len()) == s);
}

/// The body of a generate request holds the text and both language names, each
/// as JSON writes it inside a string literal.
#[verifier::rlimit(30)]
pub proof fn lemma_body_holds_inputs(
    model: Seq<char>,
    style: PromptStyle,
    from: Seq<char>,
    to: Seq<char>,
    text: Seq<char>,
    num_predict: Option<u32>,
)
    ensures
        contains(generate_body_of(model, prompt_of(style, from, to, text), num_predict), escaped_of(text)),
        contains(generate_body_of(model, prompt_of(style, from, to, text), num_predict), escaped_of(from)),
        contains(generate_body_of(model, prompt_of(style, from, to, text), num_predict), escaped_of(to)),
{
    let p = prompt_of(style, from, to, text);
    let el = escaped_of(lead_of(style));
    let ef = escaped_of(from);
    let ew = escaped_of(between());
    let et = escaped_of(to);
    let en = escaped_of(instructions_of(style));
    let ex = escaped_of(text);
    let ep = escaped_of(p);
    lemma_escaped_prompt(style, from, to, text);
    let head = "{\"model\":"@ + json_quoted(model) + ",\"prompt\":"@ + seq!['"'];
    let tail = seq!['"'] + ",\"stream\":false,\"options\":{"@ + options_of(num_predict) + "}}"@;
    assert(generate_body_of(model, p, num_predict) == head + ep + tail);
    let e = Seq::<char>::empty();
    assert(contains(ep, ex)) by {
        lemma_contains_self(ex);
        lemma_contains_within(el + ef + ew + et + en, ex, e, ex);
        assert(el + ef + ew + et + en + ex + e == ep);
    }
    assert(contains(ep, ef)) by {
        lemma_contains_self(ef);
        lemma_contains_within(el, ef, ew + et + en + ex, ef);
        assert(el + ef + (ew + et + en + ex) == ep);
    }
    assert(contains(ep, et)) by {
        lemma_contains_self(et);
        lemma_contains_within(el + ef + ew, et, en + ex, et);
        assert(el + ef + ew + et + (en + ex) == ep);
    }
    lemma_contains_within(head, ep, tail, ex);
    lemma_contains_within(head, ep, tail, ef);
    lemma_contains_within(head, ep, tail, et);
}

impl OllamaClient {
    /// The settings for short texts: the local server, the default model, the
    /// plain prompt, no bound on produced tokens.
    pub fn new() -> (r: OllamaClient)
        ensures
            r.base_url@ == default_base_url(),
            r.model@ == default_model(),
            r.style == PromptStyle::Text,
            r.num_predict is None,
            r.timeout_secs == DEFAULT_TIMEOUT_SECS,
    {
        OllamaClient {
            base_url: String::from_str("http://localhost:11434"),
            model: String::from_str("qwen2.5:3b"),
            style: PromptStyle::Text,
            num_predict: None,
            timeout_secs: DEFAULT_TIMEOUT_SECS,
        }
    }

    /// The settings for markdown documents on the given server and model.
    pub fn for_documents(base_url: String, model: String) -> (r: OllamaClient)
        ensures
            r.base_url == base_url,
            r.model == model,
            r.style == PromptStyle::Markdown,
            r.num_predict == Some(DOCUMENT_NUM_PREDICT),
            r.timeout_secs == DEFAULT_TIMEOUT_SECS,
    {
        OllamaClient {
            base_url,
            model,
            style: PromptStyle::Markdown,
            num_predict: Some(DOCUMENT_NUM_PREDICT),
            timeout_secs: DEFAULT_TIMEOUT_SECS,
        }
    }

    /// The generate request that asks for `request` to be translated.
    pub fn translate_request(&self, request: &TranslateRequest) -> (r: HttpRequest)
        ensures
            r.method == Method::Post,
            r.url@ == generate_url_of(self.base_url@),
            r.body is Some,
            r.body->Some_0@ == generate_body_of(
                self.model@,
                prompt_of(self.style, request.from_lang@, request.to_lang@, request.text@),
                self.num_predict,
            ),
            r.timeout_secs == self.timeout_secs,
    {
        let prompt = build_prompt(
            self.style,
            request.from_lang.as_str(),
            request.to_lang.as_str(),
            request.text.as_str(),
        );
        let body = generate_body(self.model.as_str(), prompt.as_str(), self.num_predict);
        let mut url = self.base_url.clone();
        url.append("/api/generate");
        HttpRequest { method: Method::Post, url, body: Some(body), timeout_secs: self.timeout_secs }
    }

    /// The request that probes the server and lists its models.
    pub fn health_request(&self) -> (r: HttpRequest)
        ensures
            r.method == Method::Get,
            r.url@ == tags_url_of(self.base_url@),
            r.body is None,
            r.timeout_secs == HEALTH_TIMEOUT_SECS,
    {
        let mut url = self.base_url.clone();
        url.append("/api/tags");
        HttpRequest { method: Method::Get, url, body: None, timeout_secs: HEALTH_TIMEOUT_SECS }
    }
}

} // verus!
