//! What the language-model worker serves in process: a one-shot chat
//! message and the list of the models on offer.
//!
//! The worker's handlers talk to the model providers over the network. This
//! module holds what they decide before and after: what is asked of the
//! provider, and what becomes of the answer.

use crate::ctx::Ctx;
use vstd::prelude::*;

verus! {

/// The parameters of a call, as every handler of the worker takes them:
/// under the member `data`.
#[derive(Debug)]
pub struct ParamsW<D> {
    pub data: D,
}

/// A failure of a handler of the worker.
#[derive(Debug)]
pub enum Error {
    /// The model layer failed; its message is kept.
    Model(String),
    /// The provider's client failed; its message is kept.
    GenAI(String),
    /// The call to the provider did not come through.
    RpcError,
}

/// In whose voice a chat message speaks.
#[derive(Debug, Clone, Copy, PartialEq, Eq, Structural)]
pub enum ChatUserMode {
    System,
    User,
    Assistant,
}

/// A one-shot chat message.
#[derive(Debug)]
pub struct OneShotMsg {
    pub mode: ChatUserMode,
    pub prompt: String,
}

/// The answer to a one-shot chat message.
#[derive(Debug)]
pub struct OneShotMsgResponse {
    pub response: String,
}

/// A provider of models, or all of them.
#[derive(Debug, Clone, Copy, PartialEq, Eq, Structural)]
pub enum GenAIProviderType {
    OpenAI,
    Gemini,
    Anthropic,
    Groq,
    Cohere,
    All,
}

/// The question after the models of a provider.
#[derive(Debug)]
pub struct GetModelListRequest {
    pub provider: GenAIProviderType,
}

/// The models on offer: the name of each provider asked, with the names of
/// its models.
#[derive(Debug)]
pub struct GetModelListResponse {
    pub models: Vec<(String, Vec<String>)>,
}

/// A provider whose models can be listed.
#[derive(Debug, Clone, Copy, PartialEq, Eq, Structural)]
pub enum AdapterKind {
    OpenAI,
    Gemini,
    Anthropic,
    Groq,
    Cohere,
}

impl AdapterKind {
    /// The name of the provider.
    pub open spec fn name(self) -> Seq<char> {
        match self {
            AdapterKind::OpenAI => "OpenAI"@,
            AdapterKind::Gemini => "Gemini"@,
            AdapterKind::Anthropic => "Anthropic"@,
            AdapterKind::Groq => "Groq"@,
            AdapterKind::Cohere => "Cohere"@,
        }
    }

    /// The name of the provider.
    pub fn as_name(&self) -> (r: String)
        ensures
            r@ == self.name(),
    {
        match self {
            AdapterKind::OpenAI => "OpenAI".to_owned(),
            AdapterKind::Gemini => "Gemini".to_owned(),
            AdapterKind::Anthropic => "Anthropic".to_owned(),
            AdapterKind::Groq => "Groq".to_owned(),
            AdapterKind::Cohere => "Cohere".to_owned(),
        }
    }
}

/// The providers that a question names: the one, or the five of `All` in
/// their fixed order.
pub open spec fn adapters_of(provider: GenAIProviderType) -> Seq<AdapterKind> {
    match provider {
        GenAIProviderType::OpenAI => seq![AdapterKind::OpenAI],
        GenAIProviderType::Gemini => seq![AdapterKind::Gemini],
        GenAIProviderType::Anthropic => seq![AdapterKind::Anthropic],
        GenAIProviderType::Groq => seq![AdapterKind::Groq],
        GenAIProviderType::Cohere => seq![AdapterKind::Cohere],
        GenAIProviderType::All => seq![
            AdapterKind::OpenAI,
            AdapterKind::Gemini,
            AdapterKind::Anthropic,
            AdapterKind::Groq,
            AdapterKind::Cohere,
        ],
    }
}

/// Different providers bear different names.
pub proof fn lemma_names_differ(a: AdapterKind, b: AdapterKind)
    requires
        a != b,
    ensures
        a.name() != b.name(),
{
    reveal_strlit("OpenAI");
    reveal_strlit("Gemini");
    reveal_strlit("Anthropic");
    reveal_strlit("Groq");
    reveal_strlit("Cohere");
    assert("OpenAI"@[0] == 'O' && "Gemini"@[0] == 'G' && "Cohere"@[0] == 'C');
    assert("Anthropic"@.len() == 9 && "Groq"@.len() == 4 && "OpenAI"@.len() == 6);
    assert("Gemini"@.len() == 6 && "Cohere"@.len() == 6);
}

/// No provider is asked twice for one question.
pub proof fn lemma_adapters_differ(provider: GenAIProviderType)
    ensures
        forall|i: int, j: int|
            0 <= i < j < adapters_of(provider).len() ==> adapters_of(provider)[i] != adapters_of(
                provider,
            )[j],
{
}

/// The providers to ask for `req`.
pub fn resolve_adapter_list(req: &GetModelListRequest) -> (r: Vec<AdapterKind>)
    ensures
        r@ == adapters_of(req.provider),
{
    let mut list: Vec<AdapterKind> = Vec::new();
    match req.provider {
        GenAIProviderType::OpenAI => {
            list.push(AdapterKind::OpenAI);
        },
        GenAIProviderType::Gemini => {
            list.push(AdapterKind::Gemini);
        },
        GenAIProviderType::Anthropic => {
            list.push(AdapterKind::Anthropic);
        },
        GenAIProviderType::Groq => {
            list.push(AdapterKind::Groq);
        },
        GenAIProviderType::Cohere => {
            list.push(AdapterKind::Cohere);
        },
        GenAIProviderType::All => {
            list.push(AdapterKind::OpenAI);
            list.push(AdapterKind::Gemini);
            list.push(AdapterKind::Anthropic);
            list.push(AdapterKind::Groq);
            list.push(AdapterKind::Cohere);
        },
    }
    assert(list@ =~= adapters_of(req.provider));
    list
}

/// The first step of the handler `get_model_list`: the providers to ask,
/// one after the other. The answers go to `model_list_response`.
pub fn get_model_list(_ctx: &Ctx, params: ParamsW<GetModelListRequest>) -> (r: Vec<AdapterKind>)
    ensures
        r@ == adapters_of(params.data.provider),
{
    resolve_adapter_list(&params.data)
}

/// The entry of the list for one provider: its name, with the models it
/// named, or with none where it could not be asked.
pub open spec fn listed_entry(kind: AdapterKind, names: Option<Vec<String>>, e: (
    String,
    Vec<String>,
)) -> bool {
    &&& e.0@ == kind.name()
    &&& match names {
        Some(n) => e.1 == n,
        None => e.1@.len() == 0,
    }
}

/// Whether no two of the answers are of the same provider.
pub open spec fn each_asked_once(listed: Seq<(AdapterKind, Option<Vec<String>>)>) -> bool {
    forall|i: int, j: int| 0 <= i < j < listed.len() ==> listed[i].0 != listed[j].0
}

/// Whether no two entries of the list bear the same name.
pub open spec fn each_named_once(models: Seq<(String, Vec<String>)>) -> bool {
    forall|i: int, j: int| 0 <= i < j < models.len() ==> models[i].0@ != models[j].0@
}

/// The last step of the handler `get_model_list`: packs what the providers
/// answered, in the order in which they were asked. A provider that could
/// not be asked is listed without models. Where every provider was asked
/// once, the list holds every name once, so that it is a map from the name
/// of a provider to its models.
pub fn model_list_response(listed: Vec<(AdapterKind, Option<Vec<String>>)>) -> (r:
    GetModelListResponse)
    ensures
        r.models@.len() == listed@.len(),
        forall|i: int|
            0 <= i < listed@.len() ==> listed_entry(
                listed@[i].0,
                listed@[i].1,
                #[trigger] r.models@[i],
            ),
        each_asked_once(listed@) ==> each_named_once(r.models@),
{
    let ghost all = listed@;
    let mut listed = listed;
    let mut models: Vec<(String, Vec<String>)> = Vec::new();
    let mut rest: Vec<(AdapterKind, Option<Vec<String>>)> = Vec::new();
    // The answers are taken from the end; `rest` holds them in reverse.
    while listed.len() > 0
        invariant
            listed@.len() + rest@.len() == all.len(),
            forall|i: int| 0 <= i < listed@.len() ==> listed@[i] == all[i],
            forall|i: int|
                0 <= i < rest@.len() ==> #[trigger] rest@[i] == all[all.len() - 1 - i],
        decreases listed@.len(),
    {
        let last = listed.pop().unwrap();
        rest.push(last);
    }
    while rest.len() > 0
        invariant
            models@.len() + rest@.len() == all.len(),
            forall|i: int|
                0 <= i < rest@.len() ==> #[trigger] rest@[i] == all[all.len() - 1 - i],
            forall|i: int|
                0 <= i < models@.len() ==> listed_entry(all[i].0, all[i].1, #[trigger] models@[i]),
        decreases rest@.len(),
    {
        let (kind, names) = rest.pop().unwrap();
        let names = match names {
            Some(n) => n,
            None => Vec::new(),
        };
        models.push((kind.as_name(), names));
    }
    proof {
        if each_asked_once(all) {
            assert forall|i: int, j: int| 0 <= i < j < models@.len() implies models@[i].0@
                != models@[j].0@ by {
                assert(listed_entry(all[i].0, all[i].1, models@[i]));
                assert(listed_entry(all[j].0, all[j].1, models@[j]));
                lemma_names_differ(all[i].0, all[j].0);
            }
        }
    }
    GetModelListResponse { models }
}

/// One message of a chat.
#[derive(Debug)]
pub struct ChatMessage {
    pub role: ChatUserMode,
    pub content: String,
}

/// What is asked of a provider for a one-shot message.
#[derive(Debug)]
pub struct ChatPlan {
    /// The model to ask.
    pub model: String,
    /// The system instruction of the chat.
    pub system: String,
    /// The messages of the chat, in order.
    pub messages: Vec<ChatMessage>,
}

/// The model that one-shot messages go to.
pub const ONE_SHOT_MODEL: &'static str = "llama3-70b-8192";

/// The system instruction of every one-shot chat.
pub const ONE_SHOT_SYSTEM: &'static str = "Answer with one sentence";

/// The message that opens every one-shot chat.
pub const ONE_SHOT_OPENING: &'static str = "Why is the sky blue";

/// The answer given where the provider sent no text.
pub const NO_ANSWER: &'static str = "No Naswer from LLM";

/// The first step of the handler `one_shot_msg`: the chat to send. It
/// opens with the fixed user message and ends with the caller's prompt, in
/// the voice that the caller chose. The provider's answer goes to
/// `one_shot_msg_response`.
pub fn one_shot_msg(_ctx: &Ctx, params: ParamsW<OneShotMsg>) -> (r: ChatPlan)
    ensures
        r.model@ == ONE_SHOT_MODEL@,
        r.system@ == ONE_SHOT_SYSTEM@,
        r.messages@.len() == 2,
        r.messages@[0].role == ChatUserMode::User,
        r.messages@[0].content@ == ONE_SHOT_OPENING@,
        r.messages@[1].role == params.data.mode,
        r.messages@[1].content == params.data.prompt,
{
    let osm = params.data;
    let mut messages: Vec<ChatMessage> = Vec::new();
    messages.push(ChatMessage { role: ChatUserMode::User, content: ONE_SHOT_OPENING.to_owned() });
    messages.push(ChatMessage { role: osm.mode, content: osm.prompt });
    ChatPlan { model: ONE_SHOT_MODEL.to_owned(), system: ONE_SHOT_SYSTEM.to_owned(), messages }
}

/// The last step of the handler `one_shot_msg`: the provider's first text
/// is the response, `NO_ANSWER` stands in where it sent none, and a call
/// that failed is an `RpcError`, whatever the provider's message.
pub fn one_shot_msg_response(outcome: Result<Option<String>, String>) -> (r: Result<
    OneShotMsgResponse,
    Error,
>)
    ensures
        match outcome {
            Ok(Some(text)) => r matches Ok(resp) && resp.response == text,
            Ok(None) => r matches Ok(resp) && resp.response@ == NO_ANSWER@,
            Err(_) => r matches Err(Error::RpcError),
        },
{
    match outcome {
        Ok(Some(text)) => Ok(OneShotMsgResponse { response: text }),
        Ok(None) => Ok(OneShotMsgResponse { response: NO_ANSWER.to_owned() }),
        Err(_) => Err(Error::RpcError),
    }
}

} // verus!
