use chat_tui::ui_handler::{Area, Areas, LayoutPreset, UiHandler};
use ratatui::layout::{Constraint, Direction, Layout, Rect};

fn area(x: u16, y: u16, width: u16, height: u16) -> Area {
    Area { x, y, width, height }
}

fn from_rect(r: Rect) -> Area {
    area(r.x, r.y, r.width, r.height)
}

#[test]
fn default_layout_puts_prompt_under_conversation() {
    let areas = LayoutPreset::DefaultLayout.compute_layout(area(0, 0, 80, 24));
    assert_eq!(areas.conversation, Some(area(0, 0, 80, 21)));
    assert_eq!(areas.prompt, Some(area(0, 21, 80, 3)));
    assert_eq!(areas.error, areas.prompt);
}

#[test]
fn default_layout_centres_the_popup_as_the_solver_does() {
    let screen = Rect::new(0, 0, 90, 30);
    let centre = [Constraint::Fill(1), Constraint::Min(1), Constraint::Fill(1)];
    let band = Layout::default().direction(Direction::Vertical).constraints(centre).split(screen)[1];
    let popup = Layout::default().direction(Direction::Horizontal).constraints(centre).split(band)[1];
    let areas = LayoutPreset::DefaultLayout.compute_layout(from_rect(screen));
    assert_eq!(areas.popup, Some(from_rect(popup)));
}

#[test]
fn other_layout_places_nothing() {
    let areas = LayoutPreset::AnotherLayout.compute_layout(area(0, 0, 80, 24));
    assert_eq!(areas, Areas { prompt: None, conversation: None, error: None, popup: None });
    assert_eq!(LayoutPreset::default(), LayoutPreset::DefaultLayout);
}

#[test]
fn update_plan_follows_the_preset() {
    let ui = UiHandler::default();
    let screen = area(0, 0, 60, 20);
    assert_eq!(ui.plan_update(screen), Some(LayoutPreset::DefaultLayout.compute_layout(screen)));
}

#[test]
fn popup_toggle_and_selection() {
    let mut ui = UiHandler::default();
    assert!(!ui.popup_shown());
    assert_eq!(ui.popup_selection(), None);
    ui.toggle_popup();
    assert!(ui.popup_shown());
    assert_eq!(ui.get_popup_id(), 0);
    ui.select_next_popup();
    ui.select_next_popup();
    assert_eq!(ui.get_popup_id(), 2);
    ui.select_prev_popup();
    assert_eq!(ui.get_popup_id(), 1);
    ui.toggle_popup();
    assert!(!ui.popup_shown());
    assert_eq!(ui.get_popup_id(), 0);
}

#[test]
fn popup_selection_edges() {
    let mut ui = UiHandler::default();
    ui.select_prev_popup();
    assert_eq!(ui.popup_selection(), Some(usize::MAX));
    ui.select_next_popup();
    assert_eq!(ui.popup_selection(), Some(usize::MAX));
    ui.set_popup_selection(None);
    ui.select_next_popup();
    assert_eq!(ui.popup_selection(), Some(0));
    ui.select_prev_popup();
    assert_eq!(ui.popup_selection(), Some(0));
}
