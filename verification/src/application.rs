use crate::conversation_handler::{sat_sub16, wrapped_line_count, ConversationHandler};
use crate::error_handler::{ErrorHandler, ErrorState};
use crate::event_handler::{AppEvent, EventHandler};
use crate::network_handler::{models_spec, ChatRequest, NetworkHandler, MODELS};
use crate::prompt_handler::PromptHandler;
use crate::text::is_blank_spec;
use crate::ui_handler::{Area, UiHandler};
use vstd::prelude::*;

verus! {

/// A key the user pressed, as far as the client tells keys apart.
#[derive(Debug, Clone, Copy, PartialEq, Eq, Structural)]
pub enum Key {
    Enter,
    Char(char),
    Up,
    Down,
    Backspace,
    Esc,
    Tab,
    /// Any other key; it is ignored.
    Other,
}

/// Outside work that handling an event asks for.
#[derive(Debug)]
pub enum Effect {
    /// Nothing to do outside.
    Nothing,
    /// Clear the prompt area, send the request and hand the outcome to
    /// `App::prompt_answered`.
    SendPrompt(ChatRequest),
    /// Clear the prompt area (a blank prompt was answered at once).
    ClearPrompt,
    /// Clear the error area.
    ClearError,
    /// Rebuild the screen's elements (see `UiHandler::plan_update`,
    /// `App::screen_content` and `App::update_conversation_metrics`).
    Redraw,
}

/// The texts the screen is built from.
#[derive(Debug)]
pub struct ScreenContent {
    /// The prompt being typed.
    pub prompt: String,
    /// The conversation's lines (see `ConversationHandler::lines_spec`).
    pub conversation: Vec<String>,
    /// The conversation's title: the selected model.
    pub title: String,
    /// How far the conversation is scrolled.
    pub scroll: u16,
    /// The error message, when an error is to be shown.
    pub error: Option<String>,
    /// Whether the model-selection popup is to be shown.
    pub popup: bool,
}

/// What to draw besides the prompt and the conversation.
#[derive(Debug, Clone, Copy, PartialEq, Eq, Structural)]
pub struct DrawPlan {
    pub error: bool,
    pub popup: bool,
}

/// The whole client state and its reactions to keys, events and replies.
#[derive(Debug)]
pub struct App {
    pub ui_handler: UiHandler,
    pub network_handler: NetworkHandler,
    pub event_handler: EventHandler,
    pub conversation_handler: ConversationHandler,
    pub prompt_handler: PromptHandler,
    pub error_handler: ErrorHandler,
    pub exit: bool,
}

impl App {
    /// A fresh client: nothing typed, nothing said, no error, no pending
    /// event, popup hidden, Hugging Face with `api_key` and the first model.
    pub fn new(api_key: String) -> (r: Self)
        ensures
            r.prompt_handler@ == Seq::<char>::empty(),
            r.conversation_handler.messages@.len() == 0,
            r.conversation_handler.scroll_offset == 0,
            r.conversation_handler.conversation_width == 0,
            r.conversation_handler.conversation_height == 0,
            r.conversation_handler.conversation_line_count == 0,
            r.error_handler.kind() == ErrorState::NoError,
            r.error_handler.message() is None,
            r.event_handler@ == Seq::<AppEvent>::empty(),
            !r.ui_handler.shown_spec(),
            r.ui_handler.selection_spec() is None,
            r.ui_handler.preset_spec() == crate::ui_handler::LayoutPreset::DefaultLayout,
            r.network_handler.key_spec() == api_key@,
            r.network_handler.index_spec() == 0,
            r.network_handler.url_spec() == crate::network_handler::provider_url_spec(
                crate::network_handler::Provider::HuggingFace,
            ),
            !r.exit,
    {
        App {
            ui_handler: UiHandler::default(),
            network_handler: NetworkHandler::default(api_key),
            event_handler: EventHandler::default(),
            conversation_handler: ConversationHandler::default(),
            prompt_handler: PromptHandler::default(),
            error_handler: ErrorHandler::default(),
            exit: false,
        }
    }

    /// The event queue after a key: which event, if any, the key stands for.
    /// While the popup is shown, Enter picks the selected model and the
    /// letters `j`/`k` move the selection; otherwise Enter sends the prompt
    /// and a character is typed.
    pub open spec fn key_event_spec(shown: bool, key: Key) -> Option<AppEvent> {
        match key {
            Key::Enter => if shown {
                Some(AppEvent::SelectedModel)
            } else {
                Some(AppEvent::PromptSent)
            },
            Key::Char(c) => if shown {
                None
            } else {
                Some(AppEvent::CharPressed(c))
            },
            Key::Up => Some(AppEvent::ScrollUp),
            Key::Down => Some(AppEvent::ScrollDown),
            Key::Backspace => Some(AppEvent::CharDelete),
            Key::Esc => Some(AppEvent::Exit),
            Key::Tab => Some(AppEvent::TogglePopup),
            Key::Other => None,
        }
    }

    /// Reacts to a key: queues the event it stands for, or moves the popup
    /// selection (`j` down, `k` up) while the popup is shown.
    pub fn handle_event(&mut self, key: Key)
        ensures
            final(self).event_handler@ == match Self::key_event_spec(old(self).ui_handler.shown_spec(), key) {
                Some(e) => old(self).event_handler@.push(e),
                None => old(self).event_handler@,
            },
            final(self).ui_handler.shown_spec() == old(self).ui_handler.shown_spec(),
            final(self).ui_handler.preset_spec() == old(self).ui_handler.preset_spec(),
            final(self).ui_handler.selection_spec() == (
            if old(self).ui_handler.shown_spec() && key == Key::Char('j') {
                Some(crate::ui_handler::next_selection(old(self).ui_handler.selection_spec()))
            } else if old(self).ui_handler.shown_spec() && key == Key::Char('k') {
                Some(crate::ui_handler::previous_selection(old(self).ui_handler.selection_spec()))
            } else {
                old(self).ui_handler.selection_spec()
            }),
            final(self).network_handler == old(self).network_handler,
            final(self).conversation_handler == old(self).conversation_handler,
            final(self).prompt_handler == old(self).prompt_handler,
            final(self).error_handler == old(self).error_handler,
            final(self).exit == old(self).exit,
    {
        match key {
            Key::Enter => {
                if self.ui_handler.popup_shown() {
                    self.event_handler.push_event(AppEvent::SelectedModel);
                } else {
                    self.event_handler.push_event(AppEvent::PromptSent);
                }
            },
            Key::Char(c) => {
                if self.ui_handler.popup_shown() {
                    if c == 'j' {
                        self.ui_handler.select_next_popup();
                    } else if c == 'k' {
                        self.ui_handler.select_prev_popup();
                    }
                } else {
                    self.event_handler.push_event(AppEvent::CharPressed(c));
                }
            },
            Key::Up => self.event_handler.push_event(AppEvent::ScrollUp),
            Key::Down => self.event_handler.push_event(AppEvent::ScrollDown),
            Key::Backspace => self.event_handler.push_event(AppEvent::CharDelete),
            Key::Esc => self.event_handler.push_event(AppEvent::Exit),
            Key::Tab => self.event_handler.push_event(AppEvent::TogglePopup),
            Key::Other => {},
        }
    }
}

/// The sizes and line count of two conversation states agree.
pub open spec fn same_metrics(a: &ConversationHandler, b: &ConversationHandler) -> bool {
    &&& a.conversation_width == b.conversation_width
    &&& a.conversation_height == b.conversation_height
    &&& a.conversation_line_count == b.conversation_line_count
}

/// `a` is `b` with only the conversation's scroll position possibly moved.
pub open spec fn only_scroll_moved(a: &ConversationHandler, b: &ConversationHandler) -> bool {
    &&& a.messages == b.messages
    &&& same_metrics(a, b)
}

impl App {
    /// Every part of `new` except the event queue, the conversation and the
    /// prompt is as in `old`.
    pub open spec fn rest_unchanged(new: &App, old: &App) -> bool {
        &&& new.ui_handler == old.ui_handler
        &&& new.network_handler == old.network_handler
        &&& new.error_handler == old.error_handler
        &&& new.exit == old.exit
    }

    /// The prompt was saved with `answer` as a new message pair: the
    /// conversation gained (user, prompt) and (assistant, answer), the prompt
    /// was emptied, and a redraw and the end-of-prompt event were queued.
    pub open spec fn saved_answer(new: &App, old: &App, answer: Seq<char>) -> bool {
        &&& new.conversation_handler.transcript() == old.conversation_handler.transcript().push(
            ("user"@, old.prompt_handler@),
        ).push(("assistant"@, answer))
        &&& new.conversation_handler.scroll_offset == old.conversation_handler.scroll_offset
        &&& same_metrics(&new.conversation_handler, &old.conversation_handler)
        &&& new.prompt_handler@ == Seq::<char>::empty()
        &&& new.event_handler@ == old.event_handler@.push(AppEvent::UpdateUi).push(
            AppEvent::PromptProcessed,
        )
        &&& Self::rest_unchanged(new, old)
    }

    /// The prompt's failure was recorded: a network error with `message`, the
    /// prompt and conversation kept, and a redraw and the end-of-prompt event
    /// queued.
    pub open spec fn failed_answer(new: &App, old: &App, message: Seq<char>) -> bool {
        &&& new.error_handler.kind() == ErrorState::NetworkError
        &&& new.error_handler.message() == Some(message)
        &&& new.event_handler@ == old.event_handler@.push(AppEvent::UpdateUi).push(
            AppEvent::PromptProcessed,
        )
        &&& new.prompt_handler == old.prompt_handler
        &&& new.conversation_handler == old.conversation_handler
        &&& new.ui_handler == old.ui_handler
        &&& new.network_handler == old.network_handler
        &&& new.exit == old.exit
    }

    /// What handling `event` in state `old` leads to, when it leads to `new`
    /// with outside work `effect`.
    pub open spec fn event_outcome(old: &App, event: AppEvent, new: &App, effect: Effect) -> bool {
        match event {
            AppEvent::PromptSent => if is_blank_spec(old.prompt_handler@) {
                &&& effect is ClearPrompt
                &&& Self::saved_answer(new, old, Seq::<char>::empty())
            } else {
                &&& effect matches Effect::SendPrompt(req) && req.model@ == models_spec()[old.network_handler.index_spec() as int]
                    && req.messages_spec() == seq![("user"@, old.prompt_handler@)]
                &&& *new == *old
            },
            AppEvent::Exit => {
                &&& effect is Nothing
                &&& new.exit
                &&& new.ui_handler == old.ui_handler
                &&& new.network_handler == old.network_handler
                &&& new.error_handler == old.error_handler
                &&& new.event_handler == old.event_handler
                &&& new.conversation_handler == old.conversation_handler
                &&& new.prompt_handler == old.prompt_handler
            },
            AppEvent::CharPressed(c) => {
                &&& if old.error_handler.kind() != ErrorState::NoError {
                    &&& effect is ClearError
                    &&& new.error_handler.kind() == ErrorState::NoError
                    &&& new.error_handler.message() is None
                } else {
                    &&& effect is Nothing
                    &&& new.error_handler == old.error_handler
                }
                &&& new.prompt_handler@ == old.prompt_handler@.push(c)
                &&& new.event_handler@ == old.event_handler@.push(AppEvent::UpdateUi)
                &&& new.conversation_handler == old.conversation_handler
                &&& new.ui_handler == old.ui_handler
                &&& new.network_handler == old.network_handler
                &&& new.exit == old.exit
            },
            AppEvent::ScrollUp => {
                &&& effect is Nothing
                &&& new.conversation_handler.scroll_offset == (if old.conversation_handler.scroll_offset > 0 {
                    (old.conversation_handler.scroll_offset - 1) as u16
                } else {
                    0
                })
                &&& only_scroll_moved(&new.conversation_handler, &old.conversation_handler)
                &&& new.event_handler@ == old.event_handler@.push(AppEvent::UpdateUi)
                &&& new.prompt_handler == old.prompt_handler
                &&& Self::rest_unchanged(new, old)
            },
            AppEvent::ScrollDown => {
                &&& effect is Nothing
                &&& new.conversation_handler.scroll_offset == (if old.conversation_handler.scroll_offset
                    < old.conversation_handler.max_scroll_spec() {
                    (old.conversation_handler.scroll_offset + 1) as u16
                } else {
                    old.conversation_handler.scroll_offset
                })
                &&& only_scroll_moved(&new.conversation_handler, &old.conversation_handler)
                &&& new.event_handler@ == old.event_handler@.push(AppEvent::UpdateUi)
                &&& new.prompt_handler == old.prompt_handler
                &&& Self::rest_unchanged(new, old)
            },
            AppEvent::CharDelete => {
                &&& effect is Nothing
                &&& new.prompt_handler@ == (if old.prompt_handler@.len() == 0 {
                    old.prompt_handler@
                } else {
                    old.prompt_handler@.drop_last()
                })
                &&& new.event_handler@ == old.event_handler@.push(AppEvent::UpdateUi)
                &&& new.conversation_handler == old.conversation_handler
                &&& Self::rest_unchanged(new, old)
            },
            AppEvent::PromptProcessed => {
                &&& effect is Nothing
                &&& new.conversation_handler.scroll_offset == old.conversation_handler.max_scroll_spec()
                &&& only_scroll_moved(&new.conversation_handler, &old.conversation_handler)
                &&& new.event_handler@ == old.event_handler@.push(AppEvent::UpdateUi)
                &&& new.prompt_handler == old.prompt_handler
                &&& Self::rest_unchanged(new, old)
            },
            AppEvent::UpdateUi => {
                &&& effect is Redraw
                &&& *new == *old
            },
            AppEvent::TogglePopup => {
                &&& effect is Nothing
                &&& new.ui_handler.shown_spec() == !old.ui_handler.shown_spec()
                &&& new.ui_handler.selection_spec() == Some(0usize)
                &&& new.ui_handler.preset_spec() == old.ui_handler.preset_spec()
                &&& new.event_handler@ == old.event_handler@.push(AppEvent::UpdateUi)
                &&& new.network_handler == old.network_handler
                &&& new.conversation_handler == old.conversation_handler
                &&& new.prompt_handler == old.prompt_handler
                &&& new.error_handler == old.error_handler
                &&& new.exit == old.exit
            },
            AppEvent::SelectedModel => {
                &&& effect is Nothing
                &&& Some(new.network_handler.index_spec()) == old.ui_handler.selection_spec()
                &&& new.network_handler.key_spec() == old.network_handler.key_spec()
                &&& new.network_handler.url_spec() == old.network_handler.url_spec()
                &&& new.event_handler@ == old.event_handler@.push(AppEvent::TogglePopup)
                &&& new.ui_handler == old.ui_handler
                &&& new.conversation_handler == old.conversation_handler
                &&& new.prompt_handler == old.prompt_handler
                &&& new.error_handler == old.error_handler
                &&& new.exit == old.exit
            },
        }
    }

    /// Whether handling `event` now is something the client can do: picking a
    /// model needs a selected row, and sending a non-blank prompt needs the
    /// selected model to be one of `MODELS`.
    pub open spec fn can_handle(&self, event: AppEvent) -> bool {
        &&& event == AppEvent::SelectedModel ==> self.ui_handler.selection_spec() is Some
        &&& event == AppEvent::PromptSent ==> (is_blank_spec(self.prompt_handler@)
            || self.network_handler.index_spec() < MODELS.len())
    }

    /// Takes the oldest pending event.
    pub fn next_event(&mut self) -> (r: Option<AppEvent>)
        ensures
            old(self).event_handler@.len() == 0 ==> r is None && final(self).event_handler@
                == old(self).event_handler@,
            old(self).event_handler@.len() > 0 ==> r == Some(old(self).event_handler@[0])
                && final(self).event_handler@ == old(self).event_handler@.drop_first(),
            final(self).ui_handler == old(self).ui_handler,
            final(self).network_handler == old(self).network_handler,
            final(self).conversation_handler == old(self).conversation_handler,
            final(self).prompt_handler == old(self).prompt_handler,
            final(self).error_handler == old(self).error_handler,
            final(self).exit == old(self).exit,
    {
        self.event_handler.next_event()
    }

    /// Handles one event and says what outside work it needs, as
    /// `event_outcome` describes.
    pub fn update_event(&mut self, event: AppEvent) -> (r: Effect)
        requires
            old(self).can_handle(event),
        ensures
            Self::event_outcome(old(self), event, final(self), r),
    {
        match event {
            AppEvent::PromptSent => {
                match self.network_handler.chat_request(self.prompt_handler.current_prompt()) {
                    Some(req) => Effect::SendPrompt(req),
                    None => {
                        self.conversation_handler.save_pair(&mut self.prompt_handler, "");
                        proof {
                            reveal_strlit("");
                            assert(""@ =~= Seq::<char>::empty());
                        }
                        self.event_handler.push_event(AppEvent::UpdateUi);
                        self.event_handler.push_event(AppEvent::PromptProcessed);
                        Effect::ClearPrompt
                    },
                }
            },
            AppEvent::Exit => {
                self.exit = true;
                Effect::Nothing
            },
            AppEvent::CharPressed(c) => {
                let mut effect = Effect::Nothing;
                if self.error_handler.error_exists() {
                    self.error_handler.clear_error();
                    effect = Effect::ClearError;
                }
                self.prompt_handler.add_char_prompt(c);
                self.event_handler.push_event(AppEvent::UpdateUi);
                effect
            },
            AppEvent::ScrollUp => {
                self.conversation_handler.scroll_up();
                self.event_handler.push_event(AppEvent::UpdateUi);
                Effect::Nothing
            },
            AppEvent::ScrollDown => {
                self.conversation_handler.scroll_down();
                self.event_handler.push_event(AppEvent::UpdateUi);
                Effect::Nothing
            },
            AppEvent::CharDelete => {
                self.prompt_handler.remove_char_prompt();
                self.event_handler.push_event(AppEvent::UpdateUi);
                Effect::Nothing
            },
            AppEvent::PromptProcessed => {
                self.conversation_handler.scroll_to_end();
                self.event_handler.push_event(AppEvent::UpdateUi);
                Effect::Nothing
            },
            AppEvent::UpdateUi => Effect::Redraw,
            AppEvent::TogglePopup => {
                self.ui_handler.toggle_popup();
                self.event_handler.push_event(AppEvent::UpdateUi);
                Effect::Nothing
            },
            AppEvent::SelectedModel => {
                let model_index: usize = self.ui_handler.get_popup_id();
                self.network_handler.set_selected_model(model_index);
                self.event_handler.push_event(AppEvent::TogglePopup);
                Effect::Nothing
            },
        }
    }
}

impl App {
    /// Takes the outcome of sending the prompt: an answer is saved with the
    /// prompt as a new message pair and the prompt is emptied; a failure is
    /// recorded as a network error with its message and the prompt is kept.
    /// Either way a redraw and the end-of-prompt event are queued.
    pub fn prompt_answered(&mut self, outcome: Result<String, String>)
        ensures
            match outcome {
                Ok(answer) => Self::saved_answer(final(self), old(self), answer@),
                Err(message) => Self::failed_answer(final(self), old(self), message@),
            },
    {
        match outcome {
            Ok(answer) => {
                self.conversation_handler.save_pair(&mut self.prompt_handler, answer.as_str());
            },
            Err(message) => {
                self.error_handler.set_error(ErrorState::NetworkError, message.as_str());
            },
        }
        self.event_handler.push_event(AppEvent::UpdateUi);
        self.event_handler.push_event(AppEvent::PromptProcessed);
    }

    /// The texts the screen is rebuilt from: the prompt, the conversation's
    /// lines under the selected model's name scrolled as recorded, the error
    /// message when an error is recorded, and whether the popup shows.
    pub fn screen_content(&self) -> (r: ScreenContent)
        requires
            self.network_handler.index_spec() < MODELS.len(),
        ensures
            r.prompt@ == self.prompt_handler@,
            r.conversation@.map_values(|s: String| s@) == self.conversation_handler.lines_spec(),
            r.title@ == models_spec()[self.network_handler.index_spec() as int],
            r.scroll == self.conversation_handler.scroll_offset,
            match r.error {
                Some(m) => self.error_handler.kind() != ErrorState::NoError
                    && self.error_handler.message() == Some(m@),
                None => self.error_handler.kind() == ErrorState::NoError,
            },
            r.popup == self.ui_handler.shown_spec(),
    {
        let error: Option<String> = if self.error_handler.error_exists() {
            match self.error_handler.get_error_msg() {
                Some(m) => Some(m.to_owned()),
                None => None,
            }
        } else {
            None
        };
        ScreenContent {
            prompt: self.prompt_handler.current_prompt().to_owned(),
            conversation: self.conversation_handler.conversation_lines(),
            title: self.network_handler.get_selected_model(),
            scroll: self.conversation_handler.scroll_offset,
            error,
            popup: self.ui_handler.popup_shown(),
        }
    }

    /// Readies a drawing of the screen: while an error is recorded the prompt
    /// is emptied and the error is drawn; the popup is drawn while shown.
    pub fn prepare_draw(&mut self) -> (r: DrawPlan)
        ensures
            r.error == (old(self).error_handler.kind() != ErrorState::NoError),
            r.popup == old(self).ui_handler.shown_spec(),
            final(self).prompt_handler@ == (if r.error {
                Seq::<char>::empty()
            } else {
                old(self).prompt_handler@
            }),
            final(self).event_handler == old(self).event_handler,
            final(self).conversation_handler == old(self).conversation_handler,
            Self::rest_unchanged(final(self), old(self)),
    {
        let error: bool = self.error_handler.error_exists();
        if error {
            self.prompt_handler.clear_prompt();
        }
        DrawPlan { error, popup: self.ui_handler.popup_shown() }
    }

    /// Measures the conversation as drawn in `area` under the selected
    /// model's name and records the metrics (see
    /// `ConversationHandler::update_conversation_metrics`).
    pub fn update_conversation_metrics(&mut self, area: Area)
        requires
            old(self).network_handler.index_spec() < MODELS.len(),
        ensures
            final(self).conversation_handler == old(self).conversation_handler.with_metrics(
                area,
                wrapped_line_count(
                    old(self).conversation_handler.lines_spec(),
                    models_spec()[old(self).network_handler.index_spec() as int],
                    sat_sub16(area.width, 2),
                ),
            ),
            final(self).event_handler == old(self).event_handler,
            final(self).prompt_handler == old(self).prompt_handler,
            Self::rest_unchanged(final(self), old(self)),
    {
        let title: String = self.network_handler.get_selected_model();
        self.conversation_handler.update_conversation_metrics(area, title.as_str());
    }
}

} // verus!
