//! The providers that can write a commit message: what each one needs, what
//! is sent to it, and how its reply is read.

use vstd::prelude::*;
use crate::checks::Check;
use crate::diff::report_of;
use crate::error::{DiffError, GenerationError};
use crate::json::{
    below, element, has_child, json_document, json_string_literal, json_texts, member,
    parse_document, quote, text_of, top_text, Step,
};
use crate::text::{joined, strip_wrapping, trim, unicode_trim, unwrapped};

verus! {

/// The closed set of upstream APIs.
#[derive(Clone, Copy, Debug, PartialEq, Eq, Structural)]
pub enum Provider {
    /// Chat completions with a developer and a user message made of text parts.
    OpenAi,
    /// The messages API, with a separate system block that carries a caching hint.
    Anthropic,
    /// The single-shot `generateContent` API.
    Gemini,
    /// Chat completions with a system and a user message.
    DeepSeek,
    /// A self-hosted single-prompt completion server.
    Llama,
    /// The multiplexing API that addresses its models by canonical id.
    OpenRouter,
}

/// One step into a reply document.
#[derive(Clone, Copy, Debug, PartialEq, Eq)]
pub enum PathStep {
    /// The member of an object under this key.
    Key(&'static str),
    /// The element of an array at this position.
    Index(usize),
}

impl View for PathStep {
    type V = Step;

    open spec fn view(&self) -> Step {
        match *self {
            PathStep::Key(key) => Step::Key(key@),
            PathStep::Index(index) => Step::Index(index as nat),
        }
    }
}

/// The steps of a path, as contracts speak of them.
pub open spec fn path_view(path: Seq<PathStep>) -> Seq<Step> {
    path.map_values(|step: PathStep| step@)
}

/// What the value holds that `path` leads to from the top of `contents`,
/// step by step; `None` as soon as a step finds nothing.
pub open spec fn locate(contents: Map<Seq<Step>, Option<Seq<char>>>, path: Seq<Step>) -> Option<
    Map<Seq<Step>, Option<Seq<char>>>,
>
    decreases path.len(),
{
    if path.len() == 0 {
        Some(contents)
    } else if has_child(contents, path[0]) {
        locate(below(contents, path[0]), path.drop_first())
    } else {
        None
    }
}

/// The text that `path` leads to in `contents`: `None` where the path
/// leads nowhere, or to something that is not a string.
pub open spec fn text_at(contents: Map<Seq<Step>, Option<Seq<char>>>, path: Seq<Step>) -> Option<
    Seq<char>,
> {
    match locate(contents, path) {
        Some(found) => top_text(found),
        None => None,
    }
}

/// What is found step by step is what the contents hold under the whole
/// path: the entries whose paths begin with `path`, without that beginning.
pub proof fn lemma_located_lies_under_path(
    contents: Map<Seq<Step>, Option<Seq<char>>>,
    path: Seq<Step>,
)
    requires
        locate(contents, path) is Some,
    ensures
        forall|rest: Seq<Step>|
            #![trigger locate(contents, path).unwrap().contains_key(rest)]
            locate(contents, path).unwrap().contains_key(rest) == contents.contains_key(
                path + rest,
            ),
        forall|rest: Seq<Step>|
            #![trigger locate(contents, path).unwrap()[rest]]
            contents.contains_key(path + rest) ==> locate(contents, path).unwrap()[rest]
                == contents[path + rest],
    decreases path.len(),
{
    let found = locate(contents, path).unwrap();
    if path.len() == 0 {
        assert forall|rest: Seq<Step>| path + rest == rest by {
            assert(path + rest =~= rest);
        }
    } else {
        let inner = below(contents, path[0]);
        lemma_located_lies_under_path(inner, path.drop_first());
        assert forall|rest: Seq<Step>| seq![path[0]] + (path.drop_first() + rest) == path
            + rest by {
            assert(seq![path[0]] + (path.drop_first() + rest) =~= path + rest);
        }
        assert forall|rest: Seq<Step>| found.contains_key(rest) == contents.contains_key(
            path + rest,
        ) by {
            assert(found.contains_key(rest) == inner.contains_key(path.drop_first() + rest));
        }
        assert forall|rest: Seq<Step>| contents.contains_key(path + rest) implies found[rest]
            == contents[path + rest] by {
            assert(found.contains_key(rest));
            assert(found[rest] == inner[path.drop_first() + rest]);
        }
    }
}

/// The text found by following a path step by step is the text that the
/// contents hold at that path.
pub proof fn law_text_at_is_the_entry(
    contents: Map<Seq<Step>, Option<Seq<char>>>,
    path: Seq<Step>,
    text: Seq<char>,
)
    requires
        text_at(contents, path) == Some(text),
    ensures
        contents.contains_key(path),
        contents[path] == Some(text),
{
    lemma_located_lies_under_path(contents, path);
    let found = locate(contents, path).unwrap();
    assert(path + Seq::<Step>::empty() =~= path);
    assert(found.contains_key(Seq::empty()));
    assert(found[Seq::empty()] == contents[path + Seq::<Step>::empty()]);
}

/// Follows `path` from `value`, one defensive lookup per step.
fn walk<'a>(value: &'a serde_json::Value, path: &Vec<PathStep>) -> (found: Option<
    &'a serde_json::Value,
>)
    ensures
        found is Some == locate(json_texts(*value), path_view(path@)) is Some,
        found matches Some(inner) ==> locate(json_texts(*value), path_view(path@)) == Some(
            json_texts(*inner),
        ),
{
    let mut current: &serde_json::Value = value;
    let mut i: usize = 0;
    proof {
        assert(path_view(path@).skip(0) =~= path_view(path@));
    }
    while i < path.len()
        invariant
            i <= path@.len(),
            locate(json_texts(*value), path_view(path@)) == locate(
                json_texts(*current),
                path_view(path@).skip(i as int),
            ),
        decreases path@.len() - i,
    {
        let ghost rest = path_view(path@).skip(i as int);
        proof {
            assert(rest[0] == path@[i as int]@);
            assert(rest.drop_first() =~= path_view(path@).skip(i + 1));
        }
        let next = match path[i] {
            PathStep::Key(key) => member(current, key),
            PathStep::Index(index) => element(current, index),
        };
        match next {
            Some(inner) => {
                current = inner;
            },
            None => {
                return None;
            },
        }
        i = i + 1;
    }
    Some(current)
}

/// A generation result as contracts speak of it: the message by its characters.
pub open spec fn outcome_view(outcome: Result<String, GenerationError>) -> Result<
    Seq<char>,
    GenerationError,
> {
    match outcome {
        Ok(message) => Ok(message@),
        Err(error) => Err(error),
    }
}

/// What becomes of a reply's text once it is trimmed: its wrapping quotes and
/// line feeds go, and nothing left over is no message.
pub open spec fn message_outcome(trimmed: Seq<char>) -> Result<Seq<char>, GenerationError> {
    if unwrapped(trimmed).len() == 0 {
        Err(GenerationError::EmptyResponse)
    } else {
        Ok(unwrapped(trimmed))
    }
}

/// What becomes of the field that a reply holds at the provider's path: a
/// reply without it does not parse; one with it is trimmed and unwrapped.
pub open spec fn field_outcome(field: Option<Seq<char>>) -> Result<Seq<char>, GenerationError> {
    match field {
        None => Err(GenerationError::Parse),
        Some(text) => message_outcome(unicode_trim(text)),
    }
}

/// Unwraps an already trimmed reply text into the message, or reports that
/// nothing is left of it.
pub fn finish_message(trimmed: &str) -> (outcome: Result<String, GenerationError>)
    ensures
        outcome_view(outcome) == message_outcome(trimmed@),
{
    let message = strip_wrapping(trimmed);
    if message.is_empty() {
        Err(GenerationError::EmptyResponse)
    } else {
        Ok(message.to_owned())
    }
}

/// Trims and unwraps a reply text into the message.
pub fn clean_message(text: &str) -> (outcome: Result<String, GenerationError>)
    ensures
        outcome_view(outcome) == message_outcome(unicode_trim(text@)),
{
    finish_message(trim(text))
}

/// Turns the field found in a reply, if any, into the message.
pub fn interpret_field(field: Option<&str>) -> (outcome: Result<String, GenerationError>)
    ensures
        outcome_view(outcome) == field_outcome(
            match field {
                Some(text) => Some(text@),
                None => None,
            },
        ),
{
    match field {
        Some(text) => clean_message(text),
        None => Err(GenerationError::Parse),
    }
}

/// The name of the environment variable that holds what a provider cannot
/// work without: its API key, or for the self-hosted server its address.
pub open spec fn credential_name(provider: Provider) -> Seq<char> {
    match provider {
        Provider::OpenAi => "OPENAI_API_KEY"@,
        Provider::Anthropic => "ANTHROPIC_API_KEY"@,
        Provider::Gemini => "GEMINI_API_KEY"@,
        Provider::DeepSeek => "DEEPSEEK_API_KEY"@,
        Provider::Llama => "LLAMA_API_URL"@,
        Provider::OpenRouter => "OPENROUTER_API_KEY"@,
    }
}

/// The number of seconds after which a request to the provider is given up.
pub open spec fn timeout_of(provider: Provider) -> u64 {
    match provider {
        Provider::OpenAi => 10,
        Provider::Anthropic => 10,
        Provider::Gemini => 15,
        Provider::DeepSeek => 20,
        Provider::Llama => 10,
        Provider::OpenRouter => 20,
    }
}

/// Where in its reply a provider puts the generated text.
pub open spec fn response_path_of(provider: Provider) -> Seq<Step> {
    match provider {
        Provider::OpenAi | Provider::DeepSeek | Provider::OpenRouter => seq![
            Step::Key("choices"@),
            Step::Index(0),
            Step::Key("message"@),
            Step::Key("content"@),
        ],
        Provider::Anthropic => seq![Step::Key("content"@), Step::Index(0), Step::Key("text"@)],
        Provider::Gemini => seq![
            Step::Key("candidates"@),
            Step::Index(0),
            Step::Key("content"@),
            Step::Key("parts"@),
            Step::Index(0),
            Step::Key("text"@),
        ],
        Provider::Llama => seq![Step::Key("response"@)],
    }
}

/// The text that the reply `body` holds at the provider's path: `None` where
/// the body is no document, the path leads nowhere, or it leads to something
/// that is not a string.
pub open spec fn reply_field(provider: Provider, body: Seq<char>) -> Option<Seq<char>> {
    match json_document(body) {
        None => None,
        Some(contents) => text_at(contents, response_path_of(provider)),
    }
}

impl Provider {
    /// The name of the environment variable that must be set for this provider.
    pub fn required_credential(self) -> (name: &'static str)
        ensures
            name@ == credential_name(self),
    {
        match self {
            Provider::OpenAi => "OPENAI_API_KEY",
            Provider::Anthropic => "ANTHROPIC_API_KEY",
            Provider::Gemini => "GEMINI_API_KEY",
            Provider::DeepSeek => "DEEPSEEK_API_KEY",
            Provider::Llama => "LLAMA_API_URL",
            Provider::OpenRouter => "OPENROUTER_API_KEY",
        }
    }

    /// The bound on a request's duration, in seconds.
    pub fn timeout_secs(self) -> (seconds: u64)
        ensures
            seconds == timeout_of(self),
            10 <= seconds <= 20,
    {
        match self {
            Provider::OpenAi => 10,
            Provider::Anthropic => 10,
            Provider::Gemini => 15,
            Provider::DeepSeek => 20,
            Provider::Llama => 10,
            Provider::OpenRouter => 20,
        }
    }

    /// The path to the generated text in this provider's reply.
    pub fn response_path(self) -> (path: Vec<PathStep>)
        ensures
            path_view(path@) == response_path_of(self),
    {
        let mut path: Vec<PathStep> = Vec::new();
        match self {
            Provider::OpenAi | Provider::DeepSeek | Provider::OpenRouter => {
                path.push(PathStep::Key("choices"));
                path.push(PathStep::Index(0));
                path.push(PathStep::Key("message"));
                path.push(PathStep::Key("content"));
            },
            Provider::Anthropic => {
                path.push(PathStep::Key("content"));
                path.push(PathStep::Index(0));
                path.push(PathStep::Key("text"));
            },
            Provider::Gemini => {
                path.push(PathStep::Key("candidates"));
                path.push(PathStep::Index(0));
                path.push(PathStep::Key("content"));
                path.push(PathStep::Key("parts"));
                path.push(PathStep::Index(0));
                path.push(PathStep::Key("text"));
            },
            Provider::Llama => {
                path.push(PathStep::Key("response"));
            },
        }
        assert(path_view(path@) =~= response_path_of(self));
        path
    }

    /// Reads the generated message out of a reply body. A body that is not a
    /// document, or lacks a string at the provider's path, gives
    /// `GenerationError::Parse`; a string of which nothing is left after
    /// trimming and unwrapping gives `GenerationError::EmptyResponse`.
    pub fn parse_response(self, body: &str) -> (outcome: Result<String, GenerationError>)
        ensures
            outcome_view(outcome) == field_outcome(reply_field(self, body@)),
    {
        let document = match parse_document(body) {
            Ok(document) => document,
            Err(_) => {
                return Err(GenerationError::Parse);
            },
        };
        let path = self.response_path();
        match walk(&document, &path) {
            Some(value) => interpret_field(text_of(value)),
            None => Err(GenerationError::Parse),
        }
    }
}

/// What the user message says: the diff, after the words with which the
/// provider is asked for a message where it expects them.
pub open spec fn user_text(provider: Provider, diff: Seq<char>) -> Seq<char> {
    match provider {
        Provider::OpenAi | Provider::OpenRouter =>
            "here's the git diff from which you have to generate a git-commit-message "@ + diff,
        Provider::Anthropic => "here's the git diff "@ + diff,
        Provider::Gemini | Provider::DeepSeek | Provider::Llama => diff,
    }
}

/// The request body of each provider, given the JSON string literals of the
/// system prompt, the user message and the model id. Members stand in
/// alphabetical order of their keys, without whitespace between them.
pub open spec fn request_text(
    provider: Provider,
    prompt: Seq<char>,
    user: Seq<char>,
    model: Seq<char>,
) -> Seq<char> {
    match provider {
        Provider::OpenAi => "{\"messages\":[{\"content\":[{\"text\":"@ + prompt
            + ",\"type\":\"text\"}],\"role\":\"developer\"},{\"content\":[{\"text\":"@ + user
            + ",\"type\":\"text\"}],\"role\":\"user\"}],\"model\":"@ + model + "}"@,
        Provider::Anthropic => "{\"max_tokens\":60,\"messages\":[{\"content\":"@ + user
            + ",\"role\":\"user\"}],\"model\":"@ + model
            + ",\"system\":[{\"cache_control\":{\"type\":\"ephemeral\"},\"text\":"@ + prompt
            + ",\"type\":\"text\"}]}"@,
        Provider::Gemini => "{\"contents\":[{\"parts\":[{\"text\":"@ + user
            + "}],\"role\":\"User\"}],\"systemInstruction\":{\"parts\":[{\"text\":"@ + prompt
            + "}]},\"tools\":[]}"@,
        Provider::DeepSeek => "{\"max_tokens\":200,\"messages\":[{\"content\":"@ + prompt
            + ",\"role\":\"system\"},{\"content\":"@ + user + ",\"role\":\"user\"}],\"model\":"@
            + model + ",\"stream\":false,\"stream_options\":null}"@,
        Provider::Llama => "{\"model\":"@ + model + ",\"prompt\":"@ + user
            + ",\"stream\":false,\"system\":"@ + prompt + "}"@,
        Provider::OpenRouter => "{\"messages\":[{\"content\":"@ + prompt
            + ",\"role\":\"system\"},{\"content\":"@ + user + ",\"role\":\"user\"}],\"model\":"@
            + model + "}"@,
    }
}

/// The address a request goes to. The `generateContent` API names the model
/// in the path and takes the key in the query; the self-hosted server is
/// addressed by the configured value itself.
pub open spec fn endpoint_of(provider: Provider, model: Seq<char>, credential: Seq<char>) -> Seq<
    char,
> {
    match provider {
        Provider::OpenAi => "https://api.openai.com/v1/chat/completions"@,
        Provider::Anthropic => "https://api.anthropic.com/v1/messages"@,
        Provider::Gemini => "https://generativelanguage.googleapis.com/v1beta/models/"@ + model
            + ":generateContent?key="@ + credential,
        Provider::DeepSeek => "https://api.deepseek.com/chat/completions"@,
        Provider::Llama => credential,
        Provider::OpenRouter => "https://openrouter.ai/api/v1/chat/completions"@,
    }
}

/// The headers of a request, as pairs of name and value, in the order sent.
pub open spec fn headers_of(provider: Provider, credential: Seq<char>) -> Seq<
    (Seq<char>, Seq<char>),
> {
    match provider {
        Provider::OpenAi | Provider::DeepSeek | Provider::OpenRouter => seq![
            ("Content-Type"@, "application/json"@),
            ("Authorization"@, "Bearer "@ + credential),
        ],
        Provider::Anthropic => seq![
            ("x-api-key"@, credential),
            ("anthropic-version"@, "2023-06-01"@),
            ("content-type"@, "application/json"@),
        ],
        Provider::Gemini | Provider::Llama => seq![("Content-Type"@, "application/json"@)],
    }
}

/// Headers as contracts speak of them: each name and value by its characters.
pub open spec fn headers_view(headers: Seq<(String, String)>) -> Seq<(Seq<char>, Seq<char>)> {
    headers.map_values(|header: (String, String)| (header.0@, header.1@))
}

/// A request that is ready to be sent.
#[derive(Debug, PartialEq, Eq)]
pub struct Outbound {
    /// The address to post to.
    pub url: String,
    /// The headers, as pairs of name and value.
    pub headers: Vec<(String, String)>,
    /// The JSON body.
    pub body: String,
    /// The number of seconds after which the request is given up.
    pub timeout_secs: u64,
}

/// A request as contracts speak of it.
pub struct OutboundView {
    pub url: Seq<char>,
    pub headers: Seq<(Seq<char>, Seq<char>)>,
    pub body: Seq<char>,
    pub timeout_secs: u64,
}

impl View for Outbound {
    type V = OutboundView;

    open spec fn view(&self) -> OutboundView {
        OutboundView {
            url: self.url@,
            headers: headers_view(self.headers@),
            body: self.body@,
            timeout_secs: self.timeout_secs,
        }
    }
}

/// The request that a generation starts with, or the reason why none is
/// made. The checks run cheapest first: the credential, the system prompt,
/// the diff.
pub open spec fn planned(
    provider: Provider,
    credential: Seq<char>,
    prompt: Seq<char>,
    diff: Seq<char>,
    model: Seq<char>,
) -> Result<OutboundView, GenerationError> {
    if credential.len() == 0 {
        Err(GenerationError::MissingCredential)
    } else if prompt.len() == 0 {
        Err(GenerationError::MissingPrompt)
    } else if diff.len() == 0 {
        Err(GenerationError::Diff(DiffError::NothingStaged))
    } else {
        Ok(
            OutboundView {
                url: endpoint_of(provider, model, credential),
                headers: headers_of(provider, credential),
                body: request_text(
                    provider,
                    json_string_literal(prompt),
                    json_string_literal(user_text(provider, diff)),
                    json_string_literal(model),
                ),
                timeout_secs: timeout_of(provider),
            },
        )
    }
}

/// What a generation ends in, given what came back from the provider:
/// `None` stands for a request that failed or timed out.
pub open spec fn concluded(provider: Provider, reply: Option<Seq<char>>) -> Result<
    Seq<char>,
    GenerationError,
> {
    match reply {
        None => Err(GenerationError::Network),
        Some(body) => field_outcome(reply_field(provider, body)),
    }
}

/// A planned request as contracts speak of it.
pub open spec fn plan_view(plan: Result<Outbound, GenerationError>) -> Result<
    OutboundView,
    GenerationError,
> {
    match plan {
        Ok(outbound) => Ok(outbound@),
        Err(error) => Err(error),
    }
}

impl Provider {
    /// The user message for `diff`.
    pub fn user_prompt(self, diff: &str) -> (message: String)
        ensures
            message@ == user_text(self, diff@),
    {
        match self {
            Provider::OpenAi | Provider::OpenRouter => joined(
                "here's the git diff from which you have to generate a git-commit-message ".to_owned(),
                diff,
            ),
            Provider::Anthropic => joined("here's the git diff ".to_owned(), diff),
            Provider::Gemini | Provider::DeepSeek | Provider::Llama => diff.to_owned(),
        }
    }

    /// Puts the request body together from the JSON string literals of the
    /// system prompt, the user message and the model id.
    pub fn compose_request(self, prompt: &str, user: &str, model: &str) -> (body: String)
        ensures
            body@ == request_text(self, prompt@, user@, model@),
    {
        match self {
            Provider::OpenAi => {
                let body = "{\"messages\":[{\"content\":[{\"text\":".to_owned();
                let body = joined(body, prompt);
                let body = joined(
                    body,
                    ",\"type\":\"text\"}],\"role\":\"developer\"},{\"content\":[{\"text\":",
                );
                let body = joined(body, user);
                let body = joined(body, ",\"type\":\"text\"}],\"role\":\"user\"}],\"model\":");
                let body = joined(body, model);
                joined(body, "}")
            },
            Provider::Anthropic => {
                let body = "{\"max_tokens\":60,\"messages\":[{\"content\":".to_owned();
                let body = joined(body, user);
                let body = joined(body, ",\"role\":\"user\"}],\"model\":");
                let body = joined(body, model);
                let body = joined(
                    body,
                    ",\"system\":[{\"cache_control\":{\"type\":\"ephemeral\"},\"text\":",
                );
                let body = joined(body, prompt);
                joined(body, ",\"type\":\"text\"}]}")
            },
            Provider::Gemini => {
                let body = "{\"contents\":[{\"parts\":[{\"text\":".to_owned();
                let body = joined(body, user);
                let body = joined(
                    body,
                    "}],\"role\":\"User\"}],\"systemInstruction\":{\"parts\":[{\"text\":",
                );
                let body = joined(body, prompt);
                joined(body, "}]},\"tools\":[]}")
            },
            Provider::DeepSeek => {
                let body = "{\"max_tokens\":200,\"messages\":[{\"content\":".to_owned();
                let body = joined(body, prompt);
                let body = joined(body, ",\"role\":\"system\"},{\"content\":");
                let body = joined(body, user);
                let body = joined(body, ",\"role\":\"user\"}],\"model\":");
                let body = joined(body, model);
                joined(body, ",\"stream\":false,\"stream_options\":null}")
            },
            Provider::Llama => {
                let body = "{\"model\":".to_owned();
                let body = joined(body, model);
                let body = joined(body, ",\"prompt\":");
                let body = joined(body, user);
                let body = joined(body, ",\"stream\":false,\"system\":");
                let body = joined(body, prompt);
                joined(body, "}")
            },
            Provider::OpenRouter => {
                let body = "{\"messages\":[{\"content\":".to_owned();
                let body = joined(body, prompt);
                let body = joined(body, ",\"role\":\"system\"},{\"content\":");
                let body = joined(body, user);
                let body = joined(body, ",\"role\":\"user\"}],\"model\":");
                let body = joined(body, model);
                joined(body, "}")
            },
        }
    }

    /// The request body that asks this provider for a message on `diff`.
    pub fn build_request(self, diff: &str, system_prompt: &str, model_id: &str) -> (body: String)
        ensures
            body@ == request_text(
                self,
                json_string_literal(system_prompt@),
                json_string_literal(user_text(self, diff@)),
                json_string_literal(model_id@),
            ),
    {
        let user = self.user_prompt(diff);
        let prompt_literal = quote(system_prompt);
        let user_literal = quote(user.as_str());
        let model_literal = quote(model_id);
        self.compose_request(
            prompt_literal.as_str(),
            user_literal.as_str(),
            model_literal.as_str(),
        )
    }

    /// The address that a request for `model_id` goes to.
    pub fn endpoint(self, model_id: &str, credential: &str) -> (url: String)
        ensures
            url@ == endpoint_of(self, model_id@, credential@),
    {
        match self {
            Provider::OpenAi => "https://api.openai.com/v1/chat/completions".to_owned(),
            Provider::Anthropic => "https://api.anthropic.com/v1/messages".to_owned(),
            Provider::Gemini => {
                let url = "https://generativelanguage.googleapis.com/v1beta/models/".to_owned();
                let url = joined(url, model_id);
                let url = joined(url, ":generateContent?key=");
                joined(url, credential)
            },
            Provider::DeepSeek => "https://api.deepseek.com/chat/completions".to_owned(),
            Provider::Llama => credential.to_owned(),
            Provider::OpenRouter => "https://openrouter.ai/api/v1/chat/completions".to_owned(),
        }
    }

    /// The headers that a request carries.
    pub fn headers(self, credential: &str) -> (headers: Vec<(String, String)>)
        ensures
            headers_view(headers@) == headers_of(self, credential@),
    {
        let mut headers: Vec<(String, String)> = Vec::new();
        match self {
            Provider::OpenAi | Provider::DeepSeek | Provider::OpenRouter => {
                headers.push(("Content-Type".to_owned(), "application/json".to_owned()));
                headers.push(
                    ("Authorization".to_owned(), joined("Bearer ".to_owned(), credential)),
                );
            },
            Provider::Anthropic => {
                headers.push(("x-api-key".to_owned(), credential.to_owned()));
                headers.push(("anthropic-version".to_owned(), "2023-06-01".to_owned()));
                headers.push(("content-type".to_owned(), "application/json".to_owned()));
            },
            Provider::Gemini | Provider::Llama => {
                headers.push(("Content-Type".to_owned(), "application/json".to_owned()));
            },
        }
        assert(headers_view(headers@) =~= headers_of(self, credential@));
        headers
    }

    /// Decides whether a request is made, and which. No request is planned
    /// without a credential, without a system prompt or without a diff.
    pub fn plan_generation(
        self,
        credential: &str,
        system_prompt: &str,
        diff: &str,
        model_id: &str,
    ) -> (plan: Result<Outbound, GenerationError>)
        ensures
            plan_view(plan) == planned(self, credential@, system_prompt@, diff@, model_id@),
    {
        if let Err(error) = Check::api_key_present(credential) {
            return Err(error);
        }
        if let Err(error) = Check::is_prompt_empty(system_prompt) {
            return Err(error);
        }
        if let Err(error) = Check::is_diff_empty(diff) {
            return Err(GenerationError::Diff(error));
        }
        Ok(
            Outbound {
                url: self.endpoint(model_id, credential),
                headers: self.headers(credential),
                body: self.build_request(diff, system_prompt, model_id),
                timeout_secs: self.timeout_secs(),
            },
        )
    }

    /// Turns what came back from the provider into the message or the
    /// failure: `None` stands for a request that failed or timed out.
    pub fn conclude_generation(self, reply: Option<&str>) -> (outcome: Result<
        String,
        GenerationError,
    >)
        ensures
            outcome_view(outcome) == concluded(
                self,
                match reply {
                    Some(body) => Some(body@),
                    None => None,
                },
            ),
    {
        match reply {
            Some(body) => self.parse_response(body),
            None => Err(GenerationError::Network),
        }
    }
}

/// What the user is told when a generation failed.
pub open spec fn explanation_of(provider: Provider, error: GenerationError) -> Seq<char> {
    match error {
        GenerationError::MissingCredential => "either export the "@ + credential_name(provider)
            + " in terminal or define them in .env"@,
        GenerationError::MissingPrompt => "no prompt found"@,
        GenerationError::Diff(cause) => report_of(cause),
        GenerationError::Network => "API request failed"@,
        GenerationError::Parse => "No response content received"@,
        GenerationError::EmptyResponse => "got no response"@,
    }
}

impl Provider {
    /// The words in which a failed generation is reported.
    pub fn explain(self, error: GenerationError) -> (words: String)
        ensures
            words@ == explanation_of(self, error),
    {
        match error {
            GenerationError::MissingCredential => {
                let words = joined("either export the ".to_owned(), self.required_credential());
                joined(words, " in terminal or define them in .env")
            },
            GenerationError::MissingPrompt => "no prompt found".to_owned(),
            GenerationError::Diff(cause) => cause.report(),
            GenerationError::Network => "API request failed".to_owned(),
            GenerationError::Parse => "No response content received".to_owned(),
            GenerationError::EmptyResponse => "got no response".to_owned(),
        }
    }
}

/// A reply that holds no text at the provider's path, because it is no
/// document, because the path leads nowhere in it, or because what stands
/// there is not a string, is a parse error.
pub proof fn law_unreadable_reply_is_a_parse_error(provider: Provider, body: Seq<char>)
    requires
        reply_field(provider, body) is None,
    ensures
        concluded(provider, Some(body)) == Err::<Seq<char>, GenerationError>(
            GenerationError::Parse,
        ),
{
}

/// Whatever came back, a generation ends in a message that says something
/// or in one of three failures.
pub proof fn law_reply_gives_message_or_failure(provider: Provider, reply: Option<Seq<char>>)
    ensures
        match concluded(provider, reply) {
            Ok(message) => message.len() > 0,
            Err(error) => error == GenerationError::Network || error == GenerationError::Parse
                || error == GenerationError::EmptyResponse,
        },
{
}

/// Without a diff no request is planned, whatever else is at hand; where
/// credential and prompt are there, the failure names the missing diff.
pub proof fn law_no_request_without_diff(
    provider: Provider,
    credential: Seq<char>,
    prompt: Seq<char>,
    model: Seq<char>,
)
    ensures
        planned(provider, credential, prompt, Seq::empty(), model) is Err,
        credential.len() > 0 && prompt.len() > 0 ==> planned(
            provider,
            credential,
            prompt,
            Seq::empty(),
            model,
        ) == Err::<OutboundView, GenerationError>(
            GenerationError::Diff(DiffError::NothingStaged),
        ),
{
}

} // verus!
