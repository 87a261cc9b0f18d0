use chat_tui::network_handler::{
    api_error_message, get_all_models, is_success_status, reply_content, ChatResponse, Choice,
    Message, NetworkHandler, Provider, MODELS,
};

#[test]
fn all_models_in_order() {
    let models = get_all_models();
    assert_eq!(models.len(), 10);
    assert_eq!(models[0], "meta-llama/Llama-3.1-8B-Instruct:fastest");
    assert_eq!(models[9], "undi95/remm-slerp-l2-13b");
    assert_eq!(models, &MODELS[..]);
}

#[test]
fn default_handler_uses_hugging_face_and_first_model() {
    let h = NetworkHandler::default("secret".to_string());
    assert_eq!(h.endpoint(), "https://router.huggingface.co/v1/chat/completions");
    assert_eq!(h.get_selected_model(), "meta-llama/Llama-3.1-8B-Instruct:fastest");
    assert_eq!(h.authorization(), "Bearer secret");
}

#[test]
fn provider_switch_changes_endpoint_and_key() {
    let mut h = NetworkHandler::default("a".to_string());
    h.set_selected_model(3);
    h.provider(Provider::OpenRouter, "b".to_string());
    assert_eq!(h.endpoint(), "https://openrouter.ai/api/v1/chat/completions");
    assert_eq!(h.authorization(), "Bearer b");
    assert_eq!(h.get_selected_model(), "qwen/qwen3.5-397b-a17b");
    h.provider(Provider::HuggingFace, "c".to_string());
    assert_eq!(h.endpoint(), "https://router.huggingface.co/v1/chat/completions");
    assert_eq!(Provider::OpenRouter.api_key_var(), "OPENROUTER_API_KEY");
    assert_eq!(Provider::HuggingFace.api_key_var(), "HUGGINGFACE_API_KEY");
}

#[test]
fn selecting_a_model_then_reading_it_back() {
    let mut h = NetworkHandler::default(String::new());
    for i in 0..MODELS.len() {
        h.set_selected_model(i);
        assert!(h.has_valid_model());
        assert_eq!(h.get_selected_model(), MODELS[i]);
    }
    h.set_selected_model(10);
    assert!(!h.has_valid_model());
}

#[test]
fn blank_prompt_needs_no_request() {
    let mut h = NetworkHandler::default(String::new());
    assert!(h.chat_request("").is_none());
    assert!(h.chat_request("  \n\t").is_none());
    h.set_selected_model(99);
    assert!(h.chat_request(" ").is_none());
}

#[test]
fn request_carries_model_and_user_message() {
    let mut h = NetworkHandler::default(String::new());
    h.set_selected_model(7);
    let req = h.chat_request(" hi ").unwrap();
    assert_eq!(req.model, "z-ai/glm-5");
    assert_eq!(req.messages.len(), 1);
    assert_eq!(req.messages[0].role, "user");
    assert_eq!(req.messages[0].content, " hi ");
}

#[test]
fn success_statuses() {
    assert!(is_success_status(200));
    assert!(is_success_status(299));
    assert!(!is_success_status(199));
    assert!(!is_success_status(300));
    assert!(!is_success_status(404));
}

#[test]
fn api_error_messages() {
    assert_eq!(api_error_message(404, Some("nope")), "API error 404 Not Found: nope");
    assert_eq!(
        api_error_message(500, None),
        "API error 500 Internal Server Error: <failed to read error body>"
    );
    assert_eq!(api_error_message(999, Some("")), "API error 999 <unknown status code>: ");
}

fn choice(text: &str) -> Choice {
    Choice { message: Message { role: "assistant".to_string(), content: text.to_string() } }
}

#[test]
fn reply_takes_first_choice() {
    let r = ChatResponse { choices: vec![choice("first"), choice("second")] };
    assert_eq!(reply_content(r), Ok("first".to_string()));
}

#[test]
fn reply_without_choices_is_an_error() {
    let r = ChatResponse { choices: vec![] };
    assert_eq!(reply_content(r), Err("API response missing choices[0]".to_string()));
}
