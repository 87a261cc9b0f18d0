use crate::text::{is_blank, is_blank_spec};
use vstd::prelude::*;

verus! {

/// The chat models offered for selection, by identifier.
pub const MODELS: [&'static str; 10] = [
    "meta-llama/Llama-3.1-8B-Instruct:fastest",
    "google/gemma-3-27b-it",
    "qwen/qwen3-coder-next",
    "qwen/qwen3.5-397b-a17b",
    "stepfun/step-3.5-flash",
    "mistralai/mistral-7b-instruct-v0.2",
    "mistralai/mixtral-8x7b-instruct",
    "z-ai/glm-5",
    "thedrummer/skyfall-36b-v2",
    "undi95/remm-slerp-l2-13b",
];

/// The identifiers of the offered models, in order.
pub open spec fn models_spec() -> Seq<Seq<char>> {
    seq![
        "meta-llama/Llama-3.1-8B-Instruct:fastest"@,
        "google/gemma-3-27b-it"@,
        "qwen/qwen3-coder-next"@,
        "qwen/qwen3.5-397b-a17b"@,
        "stepfun/step-3.5-flash"@,
        "mistralai/mistral-7b-instruct-v0.2"@,
        "mistralai/mixtral-8x7b-instruct"@,
        "z-ai/glm-5"@,
        "thedrummer/skyfall-36b-v2"@,
        "undi95/remm-slerp-l2-13b"@,
    ]
}

/// All offered models, in order.
pub fn get_all_models() -> (r: &'static [&'static str])
    ensures
        r@.len() == models_spec().len(),
        forall|i: int| 0 <= i < r@.len() ==> #[trigger] r@[i]@ == models_spec()[i],
{
    &MODELS
}


/// The chat services the client can talk to.
#[derive(Debug, Clone, Copy, PartialEq, Eq, Structural)]
pub enum Provider {
    OpenRouter,
    HuggingFace,
}

/// The chat-completions endpoint of a provider.
pub open spec fn provider_url_spec(p: Provider) -> Seq<char> {
    match p {
        Provider::OpenRouter => "https://openrouter.ai/api/v1/chat/completions"@,
        Provider::HuggingFace => "https://router.huggingface.co/v1/chat/completions"@,
    }
}

/// The environment variable that holds a provider's API token.
pub open spec fn provider_key_var_spec(p: Provider) -> Seq<char> {
    match p {
        Provider::OpenRouter => "OPENROUTER_API_KEY"@,
        Provider::HuggingFace => "HUGGINGFACE_API_KEY"@,
    }
}

impl Provider {
    /// The name of the environment variable that holds this provider's API token.
    pub fn api_key_var(&self) -> (r: &'static str)
        ensures
            r@ == provider_key_var_spec(*self),
    {
        match self {
            Provider::OpenRouter => "OPENROUTER_API_KEY",
            Provider::HuggingFace => "HUGGINGFACE_API_KEY",
        }
    }

    /// The chat-completions endpoint of this provider.
    pub fn url(&self) -> (r: &'static str)
        ensures
            r@ == provider_url_spec(*self),
    {
        match self {
            Provider::OpenRouter => "https://openrouter.ai/api/v1/chat/completions",
            Provider::HuggingFace => "https://router.huggingface.co/v1/chat/completions",
        }
    }
}

/// One chat message: who speaks and what is said.
#[derive(Debug)]
pub struct Message {
    pub role: String,
    pub content: String,
}

/// The body of a chat-completion request.
#[derive(Debug)]
pub struct ChatRequest {
    pub model: String,
    pub messages: Vec<Message>,
}

/// One proposed answer in a chat-completion reply.
#[derive(Debug)]
pub struct Choice {
    pub message: Message,
}

/// The body of a chat-completion reply.
#[derive(Debug)]
pub struct ChatResponse {
    pub choices: Vec<Choice>,
}

impl ChatRequest {
    /// The messages as (role, content) texts.
    pub open spec fn messages_spec(&self) -> Seq<(Seq<char>, Seq<char>)> {
        self.messages@.map_values(|m: Message| (m.role@, m.content@))
    }
}

/// Where requests go and which model answers them.
#[derive(Debug)]
pub struct NetworkHandler {
    api_key: String,
    model_index: usize,
    url: String,
}

impl NetworkHandler {
    /// The API token sent with each request.
    pub closed spec fn key_spec(&self) -> Seq<char> {
        self.api_key@
    }

    /// The position of the selected model in `MODELS`.
    pub closed spec fn index_spec(&self) -> usize {
        self.model_index
    }

    /// The endpoint requests are sent to.
    pub closed spec fn url_spec(&self) -> Seq<char> {
        self.url@
    }

    /// A handler for Hugging Face with the given token and the first model
    /// selected.
    pub fn default(api_key: String) -> (r: Self)
        ensures
            r.key_spec() == api_key@,
            r.index_spec() == 0,
            r.url_spec() == provider_url_spec(Provider::HuggingFace),
    {
        NetworkHandler {
            api_key,
            model_index: 0,
            url: Provider::HuggingFace.url().to_owned(),
        }
    }

    /// Switches to `api_provider`, whose token is `api_key`; the selected
    /// model stays.
    pub fn provider(&mut self, api_provider: Provider, api_key: String)
        ensures
            final(self).key_spec() == api_key@,
            final(self).url_spec() == provider_url_spec(api_provider),
            final(self).index_spec() == old(self).index_spec(),
    {
        self.api_key = api_key;
        self.url = api_provider.url().to_owned();
    }

    /// The identifier of the selected model.
    pub fn get_selected_model(&self) -> (r: String)
        requires
            self.index_spec() < MODELS.len(),
        ensures
            r@ == models_spec()[self.index_spec() as int],
    {
        MODELS[self.model_index].to_owned()
    }

    /// Selects the model at `index` in `MODELS`.
    pub fn set_selected_model(&mut self, index: usize)
        ensures
            final(self).index_spec() == index,
            final(self).key_spec() == old(self).key_spec(),
            final(self).url_spec() == old(self).url_spec(),
    {
        self.model_index = index;
    }

    /// Whether the selected index names one of `MODELS`.
    pub fn has_valid_model(&self) -> (r: bool)
        ensures
            r == (self.index_spec() < MODELS.len()),
    {
        self.model_index < MODELS.len()
    }

    /// The endpoint requests are sent to.
    pub fn endpoint(&self) -> (r: &str)
        ensures
            r@ == self.url_spec(),
    {
        self.url.as_str()
    }

    /// The value of the `Authorization` header: `Bearer ` and the token.
    pub fn authorization(&self) -> (r: String)
        ensures
            r@ == "Bearer "@ + self.key_spec(),
    {
        let mut header: String = "Bearer ".to_owned();
        header.append(self.api_key.as_str());
        header
    }

    /// The request that asks the selected model to answer `prompt`, or `None`
    /// when the prompt is blank: a blank prompt is answered with an empty
    /// text without asking the service.
    pub fn chat_request(&self, prompt: &str) -> (r: Option<ChatRequest>)
        requires
            is_blank_spec(prompt@) || self.index_spec() < MODELS.len(),
        ensures
            r is None <==> is_blank_spec(prompt@),
            r matches Some(req) ==> {
                &&& req.model@ == models_spec()[self.index_spec() as int]
                &&& req.messages_spec() == seq![("user"@, prompt@)]
            },
    {
        if is_blank(prompt) {
            return None;
        }
        let mut messages: Vec<Message> = Vec::new();
        messages.push(Message { role: "user".to_owned(), content: prompt.to_owned() });
        let req = ChatRequest { model: MODELS[self.model_index].to_owned(), messages };
        proof {
            assert(req.messages_spec() =~= seq![("user"@, prompt@)]);
        }
        Some(req)
    }
}

/// Whether an HTTP status code reports success (200 to 299), as
/// `StatusCode::is_success` decides.
pub fn is_success_status(code: u16) -> (r: bool)
    ensures
        r == (200 <= code && code < 300),
{
    200 <= code && code < 300
}

/// How an HTTP status is displayed: its number and its standard reason phrase.
pub uninterp spec fn status_text(code: u16) -> Seq<char>;

/// `StatusCode::from_u16` then its `Display`: the three-digit code, a space and
/// the canonical reason phrase (or a placeholder for codes without one). The
/// contract names that text `status_text(code)`; `from_u16` accepts exactly
/// 100 to 999.
#[verifier::external_body]
fn status_line(code: u16) -> (r: String)
    requires
        100 <= code <= 999,
    ensures
        r@ == status_text(code),
{
    match reqwest::StatusCode::from_u16(code) {
        Ok(status) => status.to_string(),
        Err(_) => String::new(),
    }
}

/// The text that stands for an error body that could not be read.
pub open spec fn unreadable_body_spec() -> Seq<char> {
    "<failed to read error body>"@
}

/// The error reported for a reply with an unsuccessful status:
/// `API error <status>: <body>`, with a placeholder when the body could not be
/// read.
pub fn api_error_message(code: u16, body: Option<&str>) -> (r: String)
    requires
        100 <= code <= 999,
    ensures
        r@ == "API error "@ + status_text(code) + ": "@ + match body {
            Some(b) => b@,
            None => unreadable_body_spec(),
        },
{
    let mut message: String = "API error ".to_owned();
    let status: String = status_line(code);
    message.append(status.as_str());
    message.append(": ");
    match body {
        Some(b) => message.append(b),
        None => message.append("<failed to read error body>"),
    }
    message
}

/// The error reported when a reply carries no answer.
pub open spec fn missing_choice_spec() -> Seq<char> {
    "API response missing choices[0]"@
}

/// The answer in a successful reply: the content of its first choice, or the
/// missing-choice error when there is none.
pub fn reply_content(response: ChatResponse) -> (r: Result<String, String>)
    ensures
        match r {
            Ok(c) => response.choices@.len() > 0 && c@ == response.choices@[0].message.content@,
            Err(e) => response.choices@.len() == 0 && e@ == missing_choice_spec(),
        },
{
    let mut choices = response.choices;
    if choices.len() == 0 {
        return Err("API response missing choices[0]".to_owned());
    }
    let first: Choice = choices.remove(0);
    Ok(first.message.content)
}

} // verus!
