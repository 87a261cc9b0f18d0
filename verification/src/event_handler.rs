use std::collections::VecDeque;
use vstd::prelude::*;

verus! {

/// Something the application has to react to.
#[derive(Copy, Clone, Debug, PartialEq, Eq, Structural)]
pub enum AppEvent {
    PromptSent,
    Exit,
    CharPressed(char),
    ScrollUp,
    ScrollDown,
    CharDelete,
    PromptProcessed,
    UpdateUi,
    TogglePopup,
    SelectedModel,
}

/// A first-in first-out queue of pending events.
#[derive(Debug)]
pub struct EventHandler {
    queue: VecDeque<AppEvent>,
}

impl View for EventHandler {
    type V = Seq<AppEvent>;

    /// The pending events, oldest first.
    closed spec fn view(&self) -> Seq<AppEvent> {
        self.queue@
    }
}

impl Default for EventHandler {
    fn default() -> (r: Self)
        ensures
            r@ == Seq::<AppEvent>::empty(),
    {
        EventHandler { queue: VecDeque::new() }
    }
}

impl EventHandler {
    /// Takes the oldest pending event out of the queue.
    pub fn next_event(&mut self) -> (r: Option<AppEvent>)
        ensures
            old(self)@.len() == 0 ==> r is None && final(self)@ == old(self)@,
            old(self)@.len() > 0 ==> r == Some(old(self)@[0]) && final(self)@ == old(self)@.drop_first(),
    {
        self.queue.pop_front()
    }

    /// Appends an event at the back of the queue.
    pub fn push_event(&mut self, event: AppEvent)
        ensures
            final(self)@ == old(self)@.push(event),
    {
        self.queue.push_back(event);
    }
}

} // verus!
