use chat_tui::application::{App, DrawPlan, Effect, Key};
use chat_tui::error_handler::ErrorState;
use chat_tui::event_handler::AppEvent;

/// Handles every queued event, answering any request with `answer`.
fn drain(app: &mut App, answer: Result<&str, &str>) -> Vec<String> {
    let mut effects = Vec::new();
    while let Some(event) = app.next_event() {
        match app.update_event(event) {
            Effect::Nothing => effects.push("nothing".to_string()),
            Effect::ClearPrompt => effects.push("clear prompt".to_string()),
            Effect::ClearError => effects.push("clear error".to_string()),
            Effect::Redraw => effects.push("redraw".to_string()),
            Effect::SendPrompt(req) => {
                effects.push(format!("send {} {}", req.model, req.messages[0].content));
                app.prompt_answered(answer.map(|s| s.to_string()).map_err(|s| s.to_string()));
            }
        }
    }
    effects
}

fn type_text(app: &mut App, text: &str) {
    for c in text.chars() {
        app.handle_event(Key::Char(c));
    }
}

#[test]
fn typing_reaches_the_prompt() {
    let mut app = App::new("k".to_string());
    type_text(&mut app, "hey");
    let effects = drain(&mut app, Ok(""));
    assert_eq!(app.prompt_handler.current_prompt(), "hey");
    assert_eq!(effects.iter().filter(|e| *e == "redraw").count(), 3);
    app.handle_event(Key::Backspace);
    drain(&mut app, Ok(""));
    assert_eq!(app.prompt_handler.current_prompt(), "he");
}

#[test]
fn sending_a_prompt_saves_the_pair() {
    let mut app = App::new("k".to_string());
    type_text(&mut app, "hi");
    drain(&mut app, Ok(""));
    app.handle_event(Key::Enter);
    let effects = drain(&mut app, Ok("hello"));
    assert_eq!(effects[0], "send meta-llama/Llama-3.1-8B-Instruct:fastest hi");
    assert_eq!(app.prompt_handler.current_prompt(), "");
    assert_eq!(
        app.conversation_handler.messages,
        vec![("user".to_string(), "hi".to_string()), ("assistant".to_string(), "hello".to_string())]
    );
    assert!(!app.error_handler.error_exists());
}

#[test]
fn blank_prompt_is_answered_at_once() {
    let mut app = App::new("k".to_string());
    type_text(&mut app, "  ");
    drain(&mut app, Ok(""));
    app.handle_event(Key::Enter);
    let effects = drain(&mut app, Ok("never used"));
    assert_eq!(effects[0], "clear prompt");
    assert_eq!(
        app.conversation_handler.messages,
        vec![("user".to_string(), "  ".to_string()), ("assistant".to_string(), String::new())]
    );
}

#[test]
fn failed_prompt_shows_network_error_and_typing_clears_it() {
    let mut app = App::new("k".to_string());
    type_text(&mut app, "q");
    drain(&mut app, Ok(""));
    app.handle_event(Key::Enter);
    drain(&mut app, Err("API error 500 Internal Server Error: x"));
    assert!(app.error_handler.error_exists());
    assert_eq!(app.error_handler.get_error_msg(), Some("API error 500 Internal Server Error: x"));
    assert_eq!(app.prompt_handler.current_prompt(), "q");
    assert!(app.conversation_handler.messages.is_empty());
    let plan = app.prepare_draw();
    assert_eq!(plan, DrawPlan { error: true, popup: false });
    assert_eq!(app.prompt_handler.current_prompt(), "");
    app.handle_event(Key::Char('z'));
    let effects = drain(&mut app, Ok(""));
    assert_eq!(effects[0], "clear error");
    assert!(!app.error_handler.error_exists());
    assert_eq!(app.prompt_handler.current_prompt(), "z");
}

#[test]
fn escape_exits() {
    let mut app = App::new("k".to_string());
    assert!(!app.exit);
    app.handle_event(Key::Esc);
    drain(&mut app, Ok(""));
    assert!(app.exit);
}

#[test]
fn other_keys_are_ignored() {
    let mut app = App::new("k".to_string());
    app.handle_event(Key::Other);
    assert_eq!(app.next_event(), None);
}

#[test]
fn popup_picks_a_model() {
    let mut app = App::new("k".to_string());
    app.handle_event(Key::Tab);
    drain(&mut app, Ok(""));
    assert!(app.ui_handler.popup_shown());
    app.handle_event(Key::Char('j'));
    app.handle_event(Key::Char('j'));
    app.handle_event(Key::Char('k'));
    app.handle_event(Key::Char('j'));
    assert_eq!(app.next_event(), None);
    app.handle_event(Key::Enter);
    assert_eq!(app.next_event(), Some(AppEvent::SelectedModel));
    assert!(matches!(app.update_event(AppEvent::SelectedModel), Effect::Nothing));
    drain(&mut app, Ok(""));
    assert!(!app.ui_handler.popup_shown());
    assert_eq!(app.network_handler.get_selected_model(), "qwen/qwen3-coder-next");
    assert_eq!(app.prompt_handler.current_prompt(), "");
}

#[test]
fn scrolling_keys_move_the_conversation() {
    let mut app = App::new("k".to_string());
    app.conversation_handler.conversation_line_count = 20;
    app.conversation_handler.conversation_height = 5;
    app.handle_event(Key::Down);
    app.handle_event(Key::Down);
    app.handle_event(Key::Up);
    drain(&mut app, Ok(""));
    assert_eq!(app.conversation_handler.scroll_offset, 1);
}

#[test]
fn answered_prompt_scrolls_to_the_end() {
    let mut app = App::new("k".to_string());
    app.conversation_handler.conversation_line_count = 40;
    app.conversation_handler.conversation_height = 10;
    type_text(&mut app, "x");
    app.handle_event(Key::Enter);
    drain(&mut app, Ok("y"));
    assert_eq!(app.conversation_handler.scroll_offset, 30);
}

#[test]
fn screen_content_reflects_state() {
    let mut app = App::new("k".to_string());
    type_text(&mut app, "ab");
    drain(&mut app, Ok(""));
    let content = app.screen_content();
    assert_eq!(content.prompt, "ab");
    assert!(content.conversation.is_empty());
    assert_eq!(content.title, "meta-llama/Llama-3.1-8B-Instruct:fastest");
    assert_eq!(content.error, None);
    assert!(!content.popup);
    app.error_handler.set_error(ErrorState::AppError, "bad");
    assert_eq!(app.screen_content().error, Some("bad".to_string()));
}

#[test]
fn draining_ends() {
    let mut app = App::new("k".to_string());
    for key in [Key::Tab, Key::Enter, Key::Tab, Key::Char('a'), Key::Enter, Key::Up, Key::Backspace] {
        app.handle_event(key);
    }
    let effects = drain(&mut app, Ok("r"));
    assert!(app.next_event().is_none());
    assert!(effects.len() < 50);
}
