//! The remote query client's side of a chat turn: what is sent, how a response
//! body is read, and which text the user gets to see for each outcome.
//!
//! The request itself is made by the host. It hands in the body it received and
//! gets back either the reply or the reason why there is none.

use vstd::prelude::*;
use vstd::string::*;
use crate::json::{fields_of, parsed_texts, read_reply_fields, text_view, ReplyFields};

verus! {

/// Why a query produced no reply.
#[derive(Clone, Debug, PartialEq, Eq)]
pub enum QueryError {
    /// No API key is configured; nothing was sent.
    MissingKey,
    /// The request could not be sent.
    TransportFailure,
    /// A response came back but could not be read as JSON.
    UnreadableResponse,
    /// The response is JSON but holds no reply text.
    MalformedResponse,
    /// The service answered with an error of its own instead of a reply.
    UpstreamError(String),
}

/// A query error with its text as a sequence of characters.
pub enum QueryFailure {
    MissingKey,
    TransportFailure,
    UnreadableResponse,
    MalformedResponse,
    UpstreamError(Seq<char>),
}

impl View for QueryError {
    type V = QueryFailure;

    open spec fn view(&self) -> QueryFailure {
        match self {
            QueryError::MissingKey => QueryFailure::MissingKey,
            QueryError::TransportFailure => QueryFailure::TransportFailure,
            QueryError::UnreadableResponse => QueryFailure::UnreadableResponse,
            QueryError::MalformedResponse => QueryFailure::MalformedResponse,
            QueryError::UpstreamError(m) => QueryFailure::UpstreamError(m@),
        }
    }
}

/// View of the outcome of a query.
pub open spec fn outcome_view(o: Result<String, QueryError>) -> Result<Seq<char>, QueryFailure> {
    match o {
        Ok(text) => Ok(text@),
        Err(e) => Err(e@),
    }
}

/// Shown when no API key is configured.
pub open spec fn missing_key_message() -> Seq<char> {
    "Please configure an API key"@
}

/// Shown when the service could not be reached.
pub open spec fn transport_message() -> Seq<char> {
    "Meow... I couldn't reach the server!"@
}

/// Shown when a response could not be read.
pub open spec fn unreadable_message() -> Seq<char> {
    "Meow... something went wrong!"@
}

/// Shown when a response holds no reply text, whatever else it holds.
pub open spec fn no_reply_message() -> Seq<char> {
    "Meow? I couldn't understand that..."@
}

/// The text that the reply surface shows for an outcome: the reply itself, or
/// the fixed message of the failure. The message of an upstream error is never
/// shown; it is for the log.
pub open spec fn spec_reply_text(o: Result<Seq<char>, QueryFailure>) -> Seq<char> {
    match o {
        Ok(text) => text,
        Err(QueryFailure::MissingKey) => missing_key_message(),
        Err(QueryFailure::TransportFailure) => transport_message(),
        Err(QueryFailure::UnreadableResponse) => unreadable_message(),
        Err(QueryFailure::MalformedResponse) => no_reply_message(),
        Err(QueryFailure::UpstreamError(_)) => no_reply_message(),
    }
}

/// The failure of a response without a reply text: the upstream error where the
/// response carries one, otherwise the finding that the reply is missing.
pub open spec fn spec_no_reply(error_message: Option<Seq<char>>) -> QueryFailure {
    match error_message {
        Some(message) => QueryFailure::UpstreamError(message),
        None => QueryFailure::MalformedResponse,
    }
}

/// How the fields of a response decide the outcome. A body that is not JSON is
/// unreadable. In the companion's chat a reply text is the reply whatever else
/// the response holds; the assistant looks for an upstream error first. A
/// response without a reply text fails with the upstream error, if it carries
/// one, and as malformed otherwise.
pub open spec fn spec_classify(
    persona: Persona,
    fields: Option<(Option<Seq<char>>, Option<Seq<char>>)>,
) -> Result<Seq<char>, QueryFailure> {
    match fields {
        None => Err(QueryFailure::UnreadableResponse),
        Some((error_message, Some(content))) => if persona == Persona::Assistant
            && error_message is Some {
            Err(spec_no_reply(error_message))
        } else {
            Ok(content)
        },
        Some((error_message, None)) => Err(spec_no_reply(error_message)),
    }
}

/// The fields that a response body holds, or nothing when it is not JSON.
pub open spec fn body_fields(body: Seq<char>) -> Option<(Option<Seq<char>>, Option<Seq<char>>)> {
    match parsed_texts(body) {
        Some(texts) => Some(fields_of(texts)),
        None => None,
    }
}

/// View of what reading a body returned.
pub open spec fn fields_view(fields: Option<ReplyFields>) -> Option<
    (Option<Seq<char>>, Option<Seq<char>>),
> {
    match fields {
        Some(f) => Some(f@),
        None => None,
    }
}

/// The failure of a response without a reply text.
fn no_reply(error_message: Option<String>) -> (e: QueryError)
    ensures
        e@ == spec_no_reply(text_view(error_message)),
{
    match error_message {
        Some(message) => QueryError::UpstreamError(message),
        None => QueryError::MalformedResponse,
    }
}

/// Decides the outcome of a query from the fields read out of its response.
pub fn classify_reply(persona: Persona, fields: Option<ReplyFields>) -> (r: Result<
    String,
    QueryError,
>)
    ensures
        outcome_view(r) == spec_classify(persona, fields_view(fields)),
{
    match fields {
        None => Err(QueryError::UnreadableResponse),
        Some(f) => match f.content {
            Some(content) => match persona {
                Persona::Companion => Ok(content),
                Persona::Assistant => match f.error_message {
                    Some(message) => Err(QueryError::UpstreamError(message)),
                    None => Ok(content),
                },
            },
            None => Err(no_reply(f.error_message)),
        },
    }
}

/// Reads a response body: the reply text on success, otherwise the reason why
/// there is none.
pub fn interpret_body(persona: Persona, body: &str) -> (r: Result<String, QueryError>)
    ensures
        outcome_view(r) == spec_classify(persona, body_fields(body@)),
{
    let fields = read_reply_fields(body);
    classify_reply(persona, fields)
}

/// The text to show for the outcome of a query.
pub fn reply_text(outcome: Result<String, QueryError>) -> (r: String)
    ensures
        r@ == spec_reply_text(outcome_view(outcome)),
{
    match outcome {
        Ok(text) => text,
        Err(QueryError::MissingKey) => "Please configure an API key".to_owned(),
        Err(QueryError::TransportFailure) => "Meow... I couldn't reach the server!".to_owned(),
        Err(QueryError::UnreadableResponse) => "Meow... something went wrong!".to_owned(),
        Err(QueryError::MalformedResponse) => "Meow? I couldn't understand that...".to_owned(),
        Err(QueryError::UpstreamError(_)) => "Meow? I couldn't understand that...".to_owned(),
    }
}

/// The text of an error for a log or for a caller outside the chat flow. Unlike
/// the reply surface, this gives an upstream message as the service sent it.
pub open spec fn spec_error_text(e: QueryFailure) -> Seq<char> {
    match e {
        QueryFailure::MissingKey => "API key not set"@,
        QueryFailure::TransportFailure => "Request failed"@,
        QueryFailure::UnreadableResponse => "Failed to parse response"@,
        QueryFailure::MalformedResponse => "No response from Groq"@,
        QueryFailure::UpstreamError(message) => message,
    }
}

/// Describes an error for a log or for a caller outside the chat flow.
pub fn error_text(e: &QueryError) -> (r: String)
    ensures
        r@ == spec_error_text(e@),
{
    match e {
        QueryError::MissingKey => "API key not set".to_owned(),
        QueryError::TransportFailure => "Request failed".to_owned(),
        QueryError::UnreadableResponse => "Failed to parse response".to_owned(),
        QueryError::MalformedResponse => "No response from Groq".to_owned(),
        QueryError::UpstreamError(message) => message.clone(),
    }
}

/// Which of the two conversations a request belongs to.
#[derive(Clone, Copy, Debug, PartialEq, Eq, Structural)]
pub enum Persona {
    /// The overlay's chat box: short answers, bounded length.
    Companion,
    /// The host application's own question command.
    Assistant,
}

/// One chat-completion request: a system prompt, one user message, and the
/// sampling limits where the persona sets them. `temperature_tenths` counts
/// tenths, so 7 stands for a temperature of seven tenths.
#[derive(Clone, Debug, PartialEq, Eq)]
pub struct ChatRequest {
    pub url: String,
    pub authorization: String,
    pub model: String,
    pub system_prompt: String,
    pub user_message: String,
    pub max_tokens: Option<u32>,
    pub temperature_tenths: Option<u32>,
}

/// A request with its texts as sequences of characters.
pub struct ChatRequestView {
    pub url: Seq<char>,
    pub authorization: Seq<char>,
    pub model: Seq<char>,
    pub system_prompt: Seq<char>,
    pub user_message: Seq<char>,
    pub max_tokens: Option<u32>,
    pub temperature_tenths: Option<u32>,
}

impl View for ChatRequest {
    type V = ChatRequestView;

    open spec fn view(&self) -> ChatRequestView {
        ChatRequestView {
            url: self.url@,
            authorization: self.authorization@,
            model: self.model@,
            system_prompt: self.system_prompt@,
            user_message: self.user_message@,
            max_tokens: self.max_tokens,
            temperature_tenths: self.temperature_tenths,
        }
    }
}

/// Address of the chat-completion endpoint.
pub open spec fn endpoint_url() -> Seq<char> {
    "https://api.groq.com/openai/v1/chat/completions"@
}

/// Value of the `Authorization` header for a key.
pub open spec fn spec_authorization(api_key: Seq<char>) -> Seq<char> {
    "Bearer "@ + api_key
}

/// Model that answers for a persona.
pub open spec fn spec_model(persona: Persona) -> Seq<char> {
    match persona {
        Persona::Companion => "llama-3.3-70b-versatile"@,
        Persona::Assistant => "meta-llama/llama-4-maverick-17b-128e-instruct"@,
    }
}

/// System prompt of a persona.
pub open spec fn spec_system_prompt(persona: Persona) -> Seq<char> {
    match persona {
        Persona::Companion => "You are a helpful, friendly cat assistant named Mitten. Keep your responses concise and friendly - max 2-3 sentences. Add a playful cat-like touch to your responses."@,
        Persona::Assistant => "You are an adorable cat AI companion. Your personality:\n- Very cute and babyish tone, like a sweet little kitten\n- Keep responses SHORT and precise (1-3 sentences max)\n- Use *meow* *purr* *mrrp* as actions at the end of sentences sometimes\n- Start with cat sounds like \"Meow!\" or \"Mrrp!\" occasionally\n- NO slang (no \"ngl\", \"wsp\", \"yo\", \"fr\", etc.)\n- NO emojis at all\n- Be a friendly companion, not a productivity assistant\n- For ANY math expressions, fractions, or formulas, ALWAYS use LaTeX format with \\( \\) delimiters\n- Example math: \"The answer is \\(\\frac{\\sqrt{2}}{2}\\)\" NOT \"sqrt(2)/2\"\n- Example: \"Meow! That equals \\(\\frac{1}{2}\\)! *purr*\"\n- Examples of good responses:\n  \"Meow! Hello there!! How can I help? *meow*\"\n  \"Ooh that sounds fun! *purr*\"\n  \"Mrrp! The answer is \\(\\frac{3}{4}\\)! *meow*\"\n- You are the user's cute cat companion and friend"@,
    }
}

/// The request that carries `message` for a persona.
pub open spec fn spec_request(persona: Persona, api_key: Seq<char>, message: Seq<char>)
    -> ChatRequestView {
    ChatRequestView {
        url: endpoint_url(),
        authorization: spec_authorization(api_key),
        model: spec_model(persona),
        system_prompt: spec_system_prompt(persona),
        user_message: message,
        max_tokens: match persona {
            Persona::Companion => Some(150u32),
            Persona::Assistant => None,
        },
        temperature_tenths: match persona {
            Persona::Companion => Some(7u32),
            Persona::Assistant => None,
        },
    }
}

/// Value of the `Authorization` header for a key.
pub fn authorization_header(api_key: &str) -> (r: String)
    ensures
        r@ == spec_authorization(api_key@),
{
    let mut r = "Bearer ".to_owned();
    r.append(api_key);
    r
}

fn model_name(persona: Persona) -> (r: String)
    ensures
        r@ == spec_model(persona),
{
    match persona {
        Persona::Companion => "llama-3.3-70b-versatile".to_owned(),
        Persona::Assistant => "meta-llama/llama-4-maverick-17b-128e-instruct".to_owned(),
    }
}

fn system_prompt(persona: Persona) -> (r: String)
    ensures
        r@ == spec_system_prompt(persona),
{
    match persona {
        Persona::Companion => "You are a helpful, friendly cat assistant named Mitten. Keep your responses concise and friendly - max 2-3 sentences. Add a playful cat-like touch to your responses.".to_owned(),
        Persona::Assistant => "You are an adorable cat AI companion. Your personality:\n- Very cute and babyish tone, like a sweet little kitten\n- Keep responses SHORT and precise (1-3 sentences max)\n- Use *meow* *purr* *mrrp* as actions at the end of sentences sometimes\n- Start with cat sounds like \"Meow!\" or \"Mrrp!\" occasionally\n- NO slang (no \"ngl\", \"wsp\", \"yo\", \"fr\", etc.)\n- NO emojis at all\n- Be a friendly companion, not a productivity assistant\n- For ANY math expressions, fractions, or formulas, ALWAYS use LaTeX format with \\( \\) delimiters\n- Example math: \"The answer is \\(\\frac{\\sqrt{2}}{2}\\)\" NOT \"sqrt(2)/2\"\n- Example: \"Meow! That equals \\(\\frac{1}{2}\\)! *purr*\"\n- Examples of good responses:\n  \"Meow! Hello there!! How can I help? *meow*\"\n  \"Ooh that sounds fun! *purr*\"\n  \"Mrrp! The answer is \\(\\frac{3}{4}\\)! *meow*\"\n- You are the user's cute cat companion and friend".to_owned(),
    }
}

/// Builds the one request of a chat turn. Without an API key there is nothing
/// to send, and the turn fails before any request exists.
pub fn prepare_request(persona: Persona, api_key: &str, message: &str) -> (r: Result<
    ChatRequest,
    QueryError,
>)
    ensures
        match r {
            Ok(request) => api_key@.len() > 0 && request@ == spec_request(
                persona,
                api_key@,
                message@,
            ),
            Err(e) => api_key@.len() == 0 && e@ == QueryFailure::MissingKey,
        },
{
    if api_key.is_empty() {
        return Err(QueryError::MissingKey);
    }
    let (max_tokens, temperature_tenths) = match persona {
        Persona::Companion => (Some(150u32), Some(7u32)),
        Persona::Assistant => (None, None),
    };
    Ok(
        ChatRequest {
            url: "https://api.groq.com/openai/v1/chat/completions".to_owned(),
            authorization: authorization_header(api_key),
            model: model_name(persona),
            system_prompt: system_prompt(persona),
            user_message: message.to_owned(),
            max_tokens,
            temperature_tenths,
        },
    )
}

} // verus!
