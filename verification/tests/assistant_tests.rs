use keyboard_windows::assistant::{
    clipboard_text, first_choice_content, select_clipboard_data, ChatMessage, ClipboardData,
    GptModel, Session, MAX_TOKENS,
};

#[test]
fn model_names() {
    assert_eq!(GptModel::Gpt35Turbo.to_string(), "gpt-3.5-turbo-0125");
    assert_eq!(GptModel::Gpt4O.to_string(), "gpt-4o");
    assert_eq!(GptModel::GptO1.to_string(), "o1");
    assert_eq!(GptModel::default(), GptModel::Gpt4O);
}

#[test]
fn models_cycle() {
    let m = GptModel::Gpt35Turbo;
    assert_eq!(m.next(), GptModel::Gpt4O);
    assert_eq!(m.next().next(), GptModel::GptO1);
    assert_eq!(m.next().next().next(), m);
    let mut s = Session::new();
    assert_eq!(s.cycle_model(), GptModel::GptO1);
    assert_eq!(s.cycle_model(), GptModel::Gpt35Turbo);
    assert_eq!(s.cycle_model(), GptModel::Gpt4O);
    assert_eq!(s.model, GptModel::Gpt4O);
}

#[test]
fn new_session() {
    let s = Session::new();
    assert!(s.prompt.is_empty() && s.image.is_empty());
    assert_eq!(s.model, GptModel::Gpt4O);
    assert!(s.summary_prompt);
    assert!(s.output_prompt.is_none());
}

#[test]
fn capture_replaces_prompt_or_image() {
    let mut s = Session::new();
    s.capture(ClipboardData::Text("what is 2+2".to_string()));
    assert_eq!(s.prompt, "what is 2+2");
    s.capture(ClipboardData::Image("data:image/jpeg;base64,AAAA".to_string()));
    assert_eq!(s.prompt, "");
    assert_eq!(s.image, "data:image/jpeg;base64,AAAA");
    s.capture(ClipboardData::Text("next".to_string()));
    assert_eq!(s.prompt, "next");
    assert_eq!(s.image, "data:image/jpeg;base64,AAAA");
    s.capture(ClipboardData::NoData);
    assert_eq!(s.prompt, "");
    assert_eq!(s.image, "data:image/jpeg;base64,AAAA");
    s.clear_image();
    assert_eq!(s.image, "");
}

#[test]
fn generation_and_summary() {
    let mut s = Session::new();
    s.finish_generation(Some("4".to_string()));
    assert_eq!(s.output_prompt.as_deref(), Some("4"));
    s.begin_generation();
    assert!(s.output_prompt.is_none());
    assert!(!s.toggle_summary());
    assert!(!s.summary_prompt);
    assert!(s.toggle_summary());
}

#[test]
fn chat_request_plan() {
    let mut s = Session::new();
    s.capture(ClipboardData::Text("hello".to_string()));
    let plan = s.chat_request();
    assert_eq!(plan.model, GptModel::Gpt4O);
    assert_eq!(
        plan.messages,
        vec![
            ChatMessage::SystemPrompt,
            ChatMessage::SummaryPrompt,
            ChatMessage::User { text: "hello".to_string(), image: None },
        ]
    );
    assert_eq!(plan.max_tokens, 2048);
    assert_eq!(MAX_TOKENS, 2048);

    s.model = GptModel::Gpt35Turbo;
    assert_eq!(s.chat_request().model, GptModel::Gpt35Turbo);
    s.capture(ClipboardData::Image("data:x".to_string()));
    let plan = s.chat_request();
    assert_eq!(plan.model, GptModel::Gpt4O);
    assert_eq!(
        plan.messages[2],
        ChatMessage::User { text: String::new(), image: Some("data:x".to_string()) }
    );

    s.model = GptModel::GptO1;
    s.toggle_summary();
    let plan = s.chat_request();
    assert_eq!(plan.model, GptModel::GptO1);
    assert_eq!(
        plan.messages,
        vec![
            ChatMessage::SystemPrompt,
            ChatMessage::User { text: String::new(), image: Some("data:x".to_string()) },
        ]
    );
}

#[test]
fn clipboard_choices() {
    assert_eq!(clipboard_text(String::new()), None);
    assert_eq!(clipboard_text("x".to_string()), Some("x".to_string()));
    assert_eq!(
        select_clipboard_data(Some("img".to_string()), Some("t".to_string())),
        ClipboardData::Image("img".to_string())
    );
    assert_eq!(
        select_clipboard_data(None, Some("t".to_string())),
        ClipboardData::Text("t".to_string())
    );
    assert_eq!(select_clipboard_data(None, None), ClipboardData::NoData);
}

#[test]
fn first_choice() {
    assert_eq!(first_choice_content(vec![]), None);
    assert_eq!(first_choice_content(vec![None, Some("b".to_string())]), None);
    assert_eq!(
        first_choice_content(vec![Some("a".to_string()), Some("b".to_string())]),
        Some("a".to_string())
    );
}
