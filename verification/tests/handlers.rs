use chat_tui::conversation_handler::ConversationHandler;
use chat_tui::error_handler::{ErrorHandler, ErrorState};
use chat_tui::event_handler::{AppEvent, EventHandler};
use chat_tui::prompt_handler::PromptHandler;
use chat_tui::text::{is_blank, is_white_space};
use chat_tui::ui_handler::Area;
use ratatui::symbols;
use ratatui::text::{Line, Text};
use ratatui::widgets::{Block, Paragraph, Wrap};

fn prompt_of(text: &str) -> PromptHandler {
    let mut p = PromptHandler::default();
    for c in text.chars() {
        p.add_char_prompt(c);
    }
    p
}

#[test]
fn prompt_typing_and_deleting() {
    let mut p = PromptHandler::default();
    assert_eq!(p.current_prompt(), "");
    p.add_char_prompt('h');
    p.add_char_prompt('é');
    assert_eq!(p.current_prompt(), "hé");
    p.remove_char_prompt();
    assert_eq!(p.current_prompt(), "h");
    p.remove_char_prompt();
    p.remove_char_prompt();
    assert_eq!(p.current_prompt(), "");
}

#[test]
fn prompt_delete_undoes_typing() {
    let mut p = prompt_of("abc");
    p.add_char_prompt('x');
    p.remove_char_prompt();
    assert_eq!(p.current_prompt(), "abc");
}

#[test]
fn prompt_is_the_typed_text() {
    let p = prompt_of("typed, in order");
    assert_eq!(p.current_prompt(), "typed, in order");
}

#[test]
fn prompt_clear_empties() {
    let mut p = prompt_of("hello");
    p.clear_prompt();
    assert_eq!(p.current_prompt(), "");
}

#[test]
fn error_set_and_clear() {
    let mut e = ErrorHandler::default();
    assert!(!e.error_exists());
    assert_eq!(e.get_error_msg(), None);
    e.set_error(ErrorState::NetworkError, "boom");
    assert!(e.error_exists());
    assert_eq!(e.get_error_msg(), Some("boom"));
    e.clear_error();
    assert!(!e.error_exists());
    assert_eq!(e.get_error_msg(), None);
}

#[test]
fn error_of_kind_no_error_keeps_message_but_does_not_exist() {
    let mut e = ErrorHandler::default();
    e.set_error(ErrorState::NoError, "quiet");
    assert!(!e.error_exists());
    assert_eq!(e.get_error_msg(), Some("quiet"));
    e.set_error(ErrorState::AppError, "loud");
    assert!(e.error_exists());
}

#[test]
fn banner_follows_the_latest_change() {
    let mut e = ErrorHandler::default();
    e.set_error(ErrorState::AppError, "one");
    e.set_error(ErrorState::NetworkError, "two");
    assert_eq!(e.get_error_msg(), Some("two"));
    e.clear_error();
    e.set_error(ErrorState::NetworkError, "three");
    assert!(e.error_exists());
    assert_eq!(e.get_error_msg(), Some("three"));
    e.clear_error();
    assert!(!e.error_exists());
    assert_eq!(e.get_error_msg(), None);
}

#[test]
fn events_come_out_in_order() {
    let mut q = EventHandler::default();
    assert_eq!(q.next_event(), None);
    q.push_event(AppEvent::CharPressed('a'));
    q.push_event(AppEvent::UpdateUi);
    q.push_event(AppEvent::Exit);
    assert_eq!(q.next_event(), Some(AppEvent::CharPressed('a')));
    assert_eq!(q.next_event(), Some(AppEvent::UpdateUi));
    assert_eq!(q.next_event(), Some(AppEvent::Exit));
    assert_eq!(q.next_event(), None);
}

#[test]
fn save_pair_records_both_and_clears_prompt() {
    let mut c = ConversationHandler::default();
    let mut p = prompt_of("hi there");
    c.save_pair(&mut p, "hello!");
    assert_eq!(p.current_prompt(), "");
    assert_eq!(
        c.messages,
        vec![
            ("user".to_string(), "hi there".to_string()),
            ("assistant".to_string(), "hello!".to_string())
        ]
    );
    assert_eq!(
        c.conversation_lines(),
        vec!["user:hi there".to_string(), String::new(), "assistant:hello!".to_string(), String::new()]
    );
}

fn scrolled(lines: usize, height: u16, offset: u16) -> ConversationHandler {
    let mut c = ConversationHandler::default();
    c.conversation_line_count = lines;
    c.conversation_height = height;
    c.scroll_offset = offset;
    c
}

#[test]
fn scrolling_stays_within_range() {
    let mut c = scrolled(10, 4, 0);
    c.scroll_up();
    assert_eq!(c.scroll_offset, 0);
    for _ in 0..10 {
        c.scroll_down();
    }
    assert_eq!(c.scroll_offset, 6);
    c.scroll_up();
    assert_eq!(c.scroll_offset, 5);
    c.scroll_down();
    assert_eq!(c.scroll_offset, 6);
    let mut short = scrolled(3, 5, 0);
    short.scroll_down();
    assert_eq!(short.scroll_offset, 0);
}

#[test]
fn scroll_to_end_goes_to_last_position() {
    let mut c = scrolled(30, 10, 2);
    c.scroll_to_end();
    assert_eq!(c.scroll_offset, 20);
    let mut d = scrolled(5, 10, 2);
    d.scroll_to_end();
    assert_eq!(d.scroll_offset, 0);
}

#[test]
fn line_count_is_kept_to_sixteen_bits() {
    // 65540 lines wrap around to 4 when cast to u16
    let mut c = scrolled(65540, 1, 0);
    c.scroll_to_end();
    assert_eq!(c.scroll_offset, 3);
}

#[test]
fn metrics_shrink_area_and_pull_scroll_back() {
    let mut c = scrolled(100, 10, 50);
    c.apply_conversation_metrics(Area { x: 0, y: 0, width: 40, height: 12 }, 32);
    assert_eq!(c.conversation_width, 38);
    assert_eq!(c.conversation_height, 10);
    assert_eq!(c.conversation_line_count, 30);
    assert_eq!(c.scroll_offset, 20);
    c.apply_conversation_metrics(Area { x: 0, y: 0, width: 1, height: 1 }, 1);
    assert_eq!(c.conversation_width, 0);
    assert_eq!(c.conversation_height, 0);
    assert_eq!(c.conversation_line_count, 0);
    assert_eq!(c.scroll_offset, 0);
}

fn drawn_line_count(c: &ConversationHandler, title: &str, width: u16) -> usize {
    let lines: Vec<Line> = c.conversation_lines().into_iter().map(Line::from).collect();
    Paragraph::new(Text::from(lines))
        .block(Block::bordered().border_set(symbols::border::DOUBLE).title(title.to_string()))
        .wrap(Wrap { trim: false })
        .line_count(width)
}

#[test]
fn metrics_measure_the_conversation() {
    let mut c = scrolled(0, 0, 7);
    let mut p = prompt_of("hi");
    c.save_pair(&mut p, "yo");
    // four text lines and two border lines: 6 rendered, 4 after removing the borders
    c.update_conversation_metrics(Area { x: 0, y: 0, width: 20, height: 5 }, "model");
    assert_eq!(c.conversation_width, 18);
    assert_eq!(c.conversation_height, 3);
    assert_eq!(c.conversation_line_count, 4);
    assert_eq!(c.scroll_offset, 1);
}

#[test]
fn metrics_follow_word_wrapping() {
    let mut c = ConversationHandler::default();
    let mut p = prompt_of("a fairly long question that needs wrapping");
    c.save_pair(&mut p, "short");
    let expected = drawn_line_count(&c, "m", 10);
    assert!(expected > 6);
    c.update_conversation_metrics(Area { x: 3, y: 4, width: 12, height: 8 }, "m");
    assert_eq!(c.conversation_line_count, expected - 2);
    let before = (c.conversation_line_count, c.scroll_offset);
    c.update_conversation_metrics(Area { x: 3, y: 4, width: 12, height: 8 }, "m");
    assert_eq!((c.conversation_line_count, c.scroll_offset), before);
}

#[test]
fn metrics_of_a_narrow_area_count_no_lines() {
    let mut c = scrolled(9, 0, 4);
    let mut p = prompt_of("some text");
    c.save_pair(&mut p, "more");
    c.update_conversation_metrics(Area { x: 0, y: 0, width: 2, height: 30 }, "t");
    assert_eq!(c.conversation_line_count, 0);
    assert_eq!(c.scroll_offset, 0);
}

#[test]
fn whitespace_matches_std_for_every_char() {
    for n in 0u32..=0x10ffff {
        if let Some(c) = char::from_u32(n) {
            assert_eq!(is_white_space(c), c.is_whitespace(), "char {:#x}", n);
        }
    }
}

#[test]
fn blank_is_empty_after_trim() {
    for s in ["", " ", "\t\n", "\u{3000}\u{a0}", " a ", "x", "\u{200b}"] {
        assert_eq!(is_blank(s), s.trim().is_empty(), "{:?}", s);
    }
}
