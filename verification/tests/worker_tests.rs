use rpc_dispatch::ctx::Ctx;
use rpc_dispatch::worker::{
    get_model_list, model_list_response, one_shot_msg, one_shot_msg_response, resolve_adapter_list,
    AdapterKind, ChatUserMode, Error, GenAIProviderType, GetModelListRequest, OneShotMsg, ParamsW,
    NO_ANSWER, ONE_SHOT_MODEL, ONE_SHOT_OPENING, ONE_SHOT_SYSTEM,
};

fn ctx() -> Ctx {
    Ctx::new(42).unwrap()
}

#[test]
fn one_provider_is_asked_alone() {
    for (provider, kind) in [
        (GenAIProviderType::OpenAI, AdapterKind::OpenAI),
        (GenAIProviderType::Gemini, AdapterKind::Gemini),
        (GenAIProviderType::Anthropic, AdapterKind::Anthropic),
        (GenAIProviderType::Groq, AdapterKind::Groq),
        (GenAIProviderType::Cohere, AdapterKind::Cohere),
    ] {
        assert_eq!(resolve_adapter_list(&GetModelListRequest { provider }), vec![kind]);
    }
}

#[test]
fn all_providers_are_asked_in_a_fixed_order() {
    let all = vec![
        AdapterKind::OpenAI,
        AdapterKind::Gemini,
        AdapterKind::Anthropic,
        AdapterKind::Groq,
        AdapterKind::Cohere,
    ];
    assert_eq!(resolve_adapter_list(&GetModelListRequest { provider: GenAIProviderType::All }), all);
    let params = ParamsW { data: GetModelListRequest { provider: GenAIProviderType::All } };
    assert_eq!(get_model_list(&ctx(), params), all);
}

#[test]
fn providers_have_names() {
    assert_eq!(AdapterKind::OpenAI.as_name(), "OpenAI");
    assert_eq!(AdapterKind::Gemini.as_name(), "Gemini");
    assert_eq!(AdapterKind::Anthropic.as_name(), "Anthropic");
    assert_eq!(AdapterKind::Groq.as_name(), "Groq");
    assert_eq!(AdapterKind::Cohere.as_name(), "Cohere");
}

#[test]
fn model_list_keeps_the_order_and_lists_a_failed_provider_empty() {
    let listed = vec![
        (AdapterKind::OpenAI, Some(vec!["gpt-4o".to_string(), "gpt-4o-mini".to_string()])),
        (AdapterKind::Gemini, None),
        (AdapterKind::Groq, Some(Vec::new())),
        (AdapterKind::Cohere, Some(vec!["command-r".to_string()])),
    ];
    let response = model_list_response(listed);
    assert_eq!(
        response.models,
        vec![
            ("OpenAI".to_string(), vec!["gpt-4o".to_string(), "gpt-4o-mini".to_string()]),
            ("Gemini".to_string(), Vec::new()),
            ("Groq".to_string(), Vec::new()),
            ("Cohere".to_string(), vec!["command-r".to_string()]),
        ]
    );
    assert!(model_list_response(Vec::new()).models.is_empty());
}

#[test]
fn model_list_names_every_provider_once() {
    let kinds = resolve_adapter_list(&GetModelListRequest { provider: GenAIProviderType::All });
    let listed = kinds.iter().map(|k| (*k, Some(vec![k.as_name()]))).collect();
    let response = model_list_response(listed);
    assert_eq!(response.models.len(), 5);
    for (i, (name, _)) in response.models.iter().enumerate() {
        for (other, _) in &response.models[i + 1..] {
            assert_ne!(name, other);
        }
    }
    let names: Vec<&str> = response.models.iter().map(|(n, _)| n.as_str()).collect();
    assert_eq!(names, vec!["OpenAI", "Gemini", "Anthropic", "Groq", "Cohere"]);
}

#[test]
fn one_shot_chat_ends_with_the_prompt_in_the_chosen_voice() {
    assert_eq!(ONE_SHOT_MODEL, "llama3-70b-8192");
    assert_eq!(ONE_SHOT_SYSTEM, "Answer with one sentence");
    assert_eq!(ONE_SHOT_OPENING, "Why is the sky blue");
    for mode in [ChatUserMode::System, ChatUserMode::User, ChatUserMode::Assistant] {
        let params = ParamsW { data: OneShotMsg { mode, prompt: "why is the sea salty".to_string() } };
        let plan = one_shot_msg(&ctx(), params);
        assert_eq!(plan.model, "llama3-70b-8192");
        assert_eq!(plan.system, "Answer with one sentence");
        assert_eq!(plan.messages.len(), 2);
        assert_eq!(plan.messages[0].role, ChatUserMode::User);
        assert_eq!(plan.messages[0].content, "Why is the sky blue");
        assert_eq!(plan.messages[1].role, mode);
        assert_eq!(plan.messages[1].content, "why is the sea salty");
    }
}

#[test]
fn one_shot_answer_is_the_first_text_or_a_stand_in() {
    assert_eq!(NO_ANSWER, "No Naswer from LLM");
    let response = one_shot_msg_response(Ok(Some("Rayleigh scattering.".to_string()))).unwrap();
    assert_eq!(response.response, "Rayleigh scattering.");
    let response = one_shot_msg_response(Ok(None)).unwrap();
    assert_eq!(response.response, "No Naswer from LLM");
    assert!(matches!(one_shot_msg_response(Err("timeout".to_string())), Err(Error::RpcError)));
}
