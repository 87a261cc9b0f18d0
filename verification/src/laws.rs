//! Properties that span several operations of the client.
use crate::application::{only_scroll_moved, App, Effect, Key};
use crate::conversation_handler::{sat_sub16, wrapped_line_count, ConversationHandler};
use crate::error_handler::{ErrorHandler, ErrorState};
use crate::prompt_handler::PromptHandler;
use crate::event_handler::AppEvent;
use crate::ui_handler::{next_selection, previous_selection};
use vstd::prelude::*;

verus! {

/// Deleting a character right after typing it gives back the prompt as it
/// was (`add_char_prompt` then `remove_char_prompt`).
pub proof fn law_delete_undoes_typing(prompt: Seq<char>, c: char)
    ensures
        ({
            let typed = prompt.push(c);
            (if typed.len() == 0 {
                typed
            } else {
                typed.drop_last()
            }) == prompt
        }),
{
    assert(prompt.push(c).drop_last() =~= prompt);
}

/// Saving a prompt/answer pair adds exactly four lines to what the
/// conversation shows: `user:<prompt>`, an empty line,
/// `assistant:<answer>`, an empty line.
pub proof fn law_saved_pair_lines(
    before: ConversationHandler,
    after: ConversationHandler,
    prompt: Seq<char>,
    answer: Seq<char>,
)
    requires
        after.transcript() == before.transcript().push(("user"@, prompt)).push(
            ("assistant"@, answer),
        ),
    ensures
        after.lines_spec() == before.lines_spec() + seq![
            "user"@ + ":"@ + prompt,
            Seq::<char>::empty(),
            "assistant"@ + ":"@ + answer,
            Seq::<char>::empty(),
        ],
{
    let n = before.transcript().len();
    let lhs = after.lines_spec();
    let rhs = before.lines_spec() + seq![
        "user"@ + ":"@ + prompt,
        Seq::<char>::empty(),
        "assistant"@ + ":"@ + answer,
        Seq::<char>::empty(),
    ];
    assert(lhs.len() == rhs.len());
    assert forall|i: int| 0 <= i < lhs.len() implies lhs[i] == rhs[i] by {
        if i < 2 * n {
            assert(i / 2 < n) by (nonlinear_arith)
                requires
                    0 <= i < 2 * n,
            ;
        } else {
            assert(i == 2 * n || i == 2 * n + 1 || i == 2 * n + 2 || i == 2 * n + 3);
            if i == 2 * n {
                assert(i % 2 == 0 && i / 2 == n) by (nonlinear_arith)
                    requires
                        i == 2 * n,
                ;
            } else if i == 2 * n + 1 {
                assert(i % 2 == 1 && i / 2 == n) by (nonlinear_arith)
                    requires
                        i == 2 * n + 1,
                ;
            } else if i == 2 * n + 2 {
                assert(i % 2 == 0 && i / 2 == n + 1) by (nonlinear_arith)
                    requires
                        i == 2 * n + 2,
                ;
            } else {
                assert(i % 2 == 1 && i / 2 == n + 1) by (nonlinear_arith)
                    requires
                        i == 2 * n + 3,
                ;
            }
        }
    }
    assert(lhs =~= rhs);
}

/// After the conversation's metrics are updated, whatever size and line count
/// they take, the scroll position is within range.
pub proof fn law_metrics_keep_scroll_in_range(
    c: ConversationHandler,
    area: crate::ui_handler::Area,
    rendered_lines: usize,
)
    ensures
        c.with_metrics(area, rendered_lines).scroll_offset <= c.with_metrics(
            area,
            rendered_lines,
        ).max_scroll_spec(),
{
}

/// Scrolling up, down or to the end keeps an in-range scroll position in
/// range, as handling `ScrollUp`, `ScrollDown` and `PromptProcessed` shows.
pub proof fn law_scrolling_stays_in_range(old: App, event: AppEvent, new: App, effect: Effect)
    requires
        event == AppEvent::ScrollUp || event == AppEvent::ScrollDown || event
            == AppEvent::PromptProcessed,
        App::event_outcome(&old, event, &new, effect),
        old.conversation_handler.scroll_offset <= old.conversation_handler.max_scroll_spec(),
    ensures
        new.conversation_handler.scroll_offset <= new.conversation_handler.max_scroll_spec(),
{
}

/// Scrolling down one line and back up returns to the same position, unless
/// the conversation was already scrolled to the end.
pub proof fn law_scroll_down_then_up(a: App, e1: Effect, b: App, e2: Effect, c: App)
    requires
        App::event_outcome(&a, AppEvent::ScrollDown, &b, e1),
        App::event_outcome(&b, AppEvent::ScrollUp, &c, e2),
        a.conversation_handler.scroll_offset < a.conversation_handler.max_scroll_spec(),
    ensures
        c.conversation_handler.scroll_offset == a.conversation_handler.scroll_offset,
        only_scroll_moved(&c.conversation_handler, &a.conversation_handler),
{
}

/// Moving the popup selection down and then up returns to the same row,
/// unless the row was the largest index.
pub proof fn law_selection_down_then_up(row: usize)
    requires
        row < usize::MAX,
    ensures
        previous_selection(Some(next_selection(Some(row)))) == row,
{
}

/// Toggling the popup twice leaves it as it was, with the first row selected.
pub proof fn law_toggle_twice(a: App, e1: Effect, b: App, e2: Effect, c: App)
    requires
        App::event_outcome(&a, AppEvent::TogglePopup, &b, e1),
        App::event_outcome(&b, AppEvent::TogglePopup, &c, e2),
    ensures
        c.ui_handler.shown_spec() == a.ui_handler.shown_spec(),
        c.ui_handler.selection_spec() == Some(0usize),
{
}

/// A character typed while the popup is hidden is queued, and handling it
/// appends it to the prompt and clears any error.
pub proof fn law_typed_char_reaches_prompt(a: App, c: char, b: App, effect: Effect)
    requires
        App::event_outcome(&a, AppEvent::CharPressed(c), &b, effect),
    ensures
        App::key_event_spec(false, Key::Char(c)) == Some(AppEvent::CharPressed(c)),
        b.prompt_handler@ == a.prompt_handler@.push(c),
        b.error_handler.kind() == crate::error_handler::ErrorState::NoError,
{
}

/// How much work an event stands for: it always exceeds the weight of the
/// events that handling it queues.
pub open spec fn event_weight(e: AppEvent) -> nat {
    match e {
        AppEvent::UpdateUi => 1,
        AppEvent::Exit => 1,
        AppEvent::PromptProcessed => 2,
        AppEvent::CharPressed(_) => 2,
        AppEvent::ScrollUp => 2,
        AppEvent::ScrollDown => 2,
        AppEvent::CharDelete => 2,
        AppEvent::TogglePopup => 2,
        AppEvent::SelectedModel => 3,
        AppEvent::PromptSent => 4,
    }
}

/// The total weight of a queue of events.
pub open spec fn queue_weight(q: Seq<AppEvent>) -> nat
    decreases q.len(),
{
    if q.len() == 0 {
        0
    } else {
        queue_weight(q.drop_last()) + event_weight(q.last())
    }
}

proof fn lemma_weight_push(q: Seq<AppEvent>, e: AppEvent)
    ensures
        queue_weight(q.push(e)) == queue_weight(q) + event_weight(e),
{
    assert(q.push(e).drop_last() =~= q);
}

proof fn lemma_weight_drop_first(q: Seq<AppEvent>)
    requires
        q.len() > 0,
    ensures
        queue_weight(q) == event_weight(q[0]) + queue_weight(q.drop_first()),
    decreases q.len(),
{
    if q.len() > 1 {
        lemma_weight_drop_first(q.drop_last());
        assert(q.drop_last().drop_first() =~= q.drop_first().drop_last());
    } else {
        assert(q.drop_first() =~= Seq::<AppEvent>::empty());
        assert(q.drop_last() =~= Seq::<AppEvent>::empty());
    }
}

/// Taking the oldest event out of a queue removes exactly its weight.
pub proof fn law_taking_removes_weight(q: Seq<AppEvent>)
    requires
        q.len() > 0,
    ensures
        queue_weight(q.drop_first()) + event_weight(q[0]) == queue_weight(q),
{
    lemma_weight_drop_first(q);
}

/// Handling an event, together with the answer to the prompt it may send,
/// queues events that weigh less than it: draining the queue, one event at
/// a time, always ends.
pub proof fn law_handling_lightens_queue(
    old: App,
    event: AppEvent,
    new: App,
    effect: Effect,
    answered: App,
)
    requires
        App::event_outcome(&old, event, &new, effect),
        (effect is SendPrompt) ==> answered.event_handler@ == new.event_handler@.push(
            AppEvent::UpdateUi,
        ).push(AppEvent::PromptProcessed),
        !(effect is SendPrompt) ==> answered == new,
    ensures
        queue_weight(answered.event_handler@) < queue_weight(old.event_handler@) + event_weight(
            event,
        ),
{
    let q = old.event_handler@;
    lemma_weight_push(q, AppEvent::UpdateUi);
    lemma_weight_push(q, AppEvent::TogglePopup);
    lemma_weight_push(q.push(AppEvent::UpdateUi), AppEvent::PromptProcessed);
}

/// Esc queues the exit event whether or not the popup is shown, and
/// handling it makes the client stop.
pub proof fn law_escape_exits(shown: bool, a: App, b: App, effect: Effect)
    requires
        App::event_outcome(&a, AppEvent::Exit, &b, effect),
    ensures
        App::key_event_spec(shown, Key::Esc) == Some(AppEvent::Exit),
        b.exit,
{
}

/// A blank prompt is never sent to the service: it is answered at once with
/// an empty text.
pub proof fn law_blank_prompt_not_sent(a: App, b: App, effect: Effect)
    requires
        App::event_outcome(&a, AppEvent::PromptSent, &b, effect),
        crate::text::is_blank_spec(a.prompt_handler@),
    ensures
        !(effect is SendPrompt),
        b.conversation_handler.transcript().last() == ("assistant"@, Seq::<char>::empty()),
        b.prompt_handler@ == Seq::<char>::empty(),
{
}

/// Every event that changes what the screen shows queues a redraw; a redraw
/// changes nothing; picking a model queues the popup toggle, which in turn
/// queues a redraw.
pub proof fn law_changes_queue_redraw(a: App, event: AppEvent, b: App, effect: Effect)
    requires
        App::event_outcome(&a, event, &b, effect),
        event != AppEvent::Exit,
        event != AppEvent::UpdateUi,
        event != AppEvent::SelectedModel,
        !(effect is SendPrompt),
    ensures
        b.event_handler@.contains(AppEvent::UpdateUi),
        b.event_handler@.len() > a.event_handler@.len(),
{
    let q = a.event_handler@;
    assert(q.push(AppEvent::UpdateUi)[q.len() as int] == AppEvent::UpdateUi);
    assert(q.push(AppEvent::UpdateUi).push(AppEvent::PromptProcessed)[q.len() as int]
        == AppEvent::UpdateUi);
}

/// Picking the model selected in the popup makes the model on that row the
/// one that answers, and the popup closes afterwards.
pub proof fn law_picked_model_answers(a: App, e1: Effect, b: App, row: usize)
    requires
        App::event_outcome(&a, AppEvent::SelectedModel, &b, e1),
        a.ui_handler.selection_spec() == Some(row),
    ensures
        b.network_handler.index_spec() == row,
        b.event_handler@.last() == AppEvent::TogglePopup,
{
}

/// The conversation state after measuring it in `area` under `title`, as
/// `update_conversation_metrics` leaves it.
pub open spec fn measured(c: ConversationHandler, area: crate::ui_handler::Area, title: Seq<char>) -> ConversationHandler {
    c.with_metrics(area, wrapped_line_count(c.lines_spec(), title, sat_sub16(area.width, 2)))
}

/// Measuring the same conversation twice in the same area and under the same
/// title gives the same state as measuring it once.
pub proof fn law_measuring_twice(c: ConversationHandler, area: crate::ui_handler::Area, title: Seq<char>)
    ensures
        measured(measured(c, area, title), area, title) == measured(c, area, title),
{
    let once = measured(c, area, title);
    assert(once.lines_spec() =~= c.lines_spec());
}

/// After a prompt is answered, the queued redraw and end-of-prompt events
/// leave the conversation scrolled to its end: the redraw measures the new
/// conversation, the end-of-prompt event scrolls to the furthest position,
/// and the next redraw measures again without moving it.
pub proof fn law_answer_ends_scrolled_to_end(
    answered: App,
    redrawn: App,
    ended: App,
    e2: Effect,
    redrawn_again: App,
    area: crate::ui_handler::Area,
)
    requires
        redrawn.conversation_handler == measured(
            answered.conversation_handler,
            area,
            crate::network_handler::models_spec()[answered.network_handler.index_spec() as int],
        ),
        redrawn.network_handler == answered.network_handler,
        App::event_outcome(&redrawn, AppEvent::PromptProcessed, &ended, e2),
        redrawn_again.conversation_handler == measured(
            ended.conversation_handler,
            area,
            crate::network_handler::models_spec()[ended.network_handler.index_spec() as int],
        ),
    ensures
        redrawn_again.conversation_handler.scroll_offset == redrawn_again.conversation_handler.max_scroll_spec(),
        redrawn_again.conversation_handler.transcript() == answered.conversation_handler.transcript(),
{
    let title = crate::network_handler::models_spec()[answered.network_handler.index_spec() as int];
    let r = redrawn.conversation_handler;
    let e = ended.conversation_handler;
    assert(e.lines_spec() =~= r.lines_spec());
    assert(r.lines_spec() =~= answered.conversation_handler.lines_spec());
}

/// A change to the error banner: `Some((kind, message))` for `set_error`,
/// `None` for `clear_error`.
pub type BannerChange = Option<(ErrorState, Seq<char>)>;

/// What the banner shows after `changes`, starting from a fresh banner: the
/// kind and message of the latest `set_error` if no `clear_error` came after
/// it, and no error and no message otherwise.
pub open spec fn banner_after(changes: Seq<BannerChange>) -> (ErrorState, Option<Seq<char>>) {
    if changes.len() == 0 {
        (ErrorState::NoError, None)
    } else {
        match changes.last() {
            Some((kind, message)) => (kind, Some(message)),
            None => (ErrorState::NoError, None),
        }
    }
}

/// One change of the banner, as the contracts of `set_error` and
/// `clear_error` describe it.
pub open spec fn banner_step(before: ErrorHandler, change: BannerChange, after: ErrorHandler) -> bool {
    match change {
        Some((kind, message)) => after.kind() == kind && after.message() == Some(message),
        None => after.kind() == ErrorState::NoError && after.message() is None,
    }
}

/// Over any history of `set_error` and `clear_error` calls from a fresh
/// banner, the banner holds what `banner_after` says; so an error exists
/// exactly when the latest change set one of a kind other than `NoError`, and
/// then it has a message.
pub proof fn law_banner_history(states: Seq<ErrorHandler>, changes: Seq<BannerChange>)
    requires
        states.len() == changes.len() + 1,
        states[0].kind() == ErrorState::NoError,
        states[0].message() is None,
        forall|i: int| 0 <= i < changes.len() ==> banner_step(#[trigger] states[i], changes[i], states[i + 1]),
    ensures
        states.last().kind() == banner_after(changes).0,
        states.last().message() == banner_after(changes).1,
        states.last().kind() != ErrorState::NoError ==> states.last().message() is Some,
{
    if changes.len() > 0 {
        let i = changes.len() - 1;
        assert(banner_step(states[i], changes[i], states[i + 1]));
    }
}

/// Characters typed into a fresh prompt, with no deletion or clearing in
/// between, make up the prompt in the order they were typed.
pub proof fn law_prompt_is_typed_text(states: Seq<PromptHandler>, typed: Seq<char>)
    requires
        states.len() == typed.len() + 1,
        states[0]@ == Seq::<char>::empty(),
        forall|i: int| 0 <= i < typed.len() ==> #[trigger] states[i + 1]@ == states[i]@.push(typed[i]),
    ensures
        states.last()@ == typed,
    decreases typed.len(),
{
    if typed.len() > 0 {
        let n = typed.len() - 1;
        law_prompt_is_typed_text(states.drop_last(), typed.drop_last());
        assert(states.drop_last().last() == states[n as int]);
        assert(states[n + 1]@ == states[n as int]@.push(typed[n as int]));
        assert(typed.drop_last().push(typed[n as int]) =~= typed);
    } else {
        assert(typed =~= Seq::<char>::empty());
    }
}

/// One turn of draining the queue: the oldest event of `before` is taken
/// (`mid` is the state after `next_event`), handled into `handled` with
/// outside work `effect`, and, when that work is sending the prompt, the
/// answer is taken, which queues a redraw and the end-of-prompt event.
pub open spec fn drain_turn(before: App, mid: App, effect: Effect, handled: App, after: App) -> bool {
    &&& before.event_handler@.len() > 0
    &&& mid.event_handler@ == before.event_handler@.drop_first()
    &&& App::event_outcome(&mid, before.event_handler@[0], &handled, effect)
    &&& (effect is SendPrompt) ==> after.event_handler@ == handled.event_handler@.push(
        AppEvent::UpdateUi,
    ).push(AppEvent::PromptProcessed)
    &&& !(effect is SendPrompt) ==> after == handled
}

/// Draining the queue handles the events oldest first and ends: however the
/// outside work turns out, a run of turns from a queue `q` has at most
/// `queue_weight(q)` turns, and the weight left falls by at least one per turn.
pub proof fn law_draining_ends(
    states: Seq<App>,
    mids: Seq<App>,
    effects: Seq<Effect>,
    handled: Seq<App>,
)
    requires
        states.len() == mids.len() + 1,
        mids.len() == effects.len(),
        mids.len() == handled.len(),
        forall|i: int|
            0 <= i < mids.len() ==> #[trigger] drain_turn(
                states[i],
                mids[i],
                effects[i],
                handled[i],
                states[i + 1],
            ),
    ensures
        queue_weight(states.last().event_handler@) + mids.len() <= queue_weight(
            states[0].event_handler@,
        ),
        mids.len() <= queue_weight(states[0].event_handler@),
    decreases mids.len(),
{
    if mids.len() > 0 {
        let n = mids.len() - 1;
        law_draining_ends(states.drop_last(), mids.drop_last(), effects.drop_last(), handled.drop_last());
        assert(drain_turn(states[n as int], mids[n as int], effects[n as int], handled[n as int], states[n + 1]));
        let q = states[n as int].event_handler@;
        law_taking_removes_weight(q);
        law_handling_lightens_queue(mids[n as int], q[0], handled[n as int], effects[n as int], states[n + 1]);
        assert(states.drop_last().last() == states[n as int]);
    }
}

/// Which event each key stands for. The arrow keys scroll (Up towards the
/// start, Down towards the end), Backspace deletes, Esc exits and Tab toggles
/// the popup whether or not it is shown; Enter sends the prompt and a
/// character is typed while the popup is hidden, while Enter picks a model
/// and characters only steer the selection while it is shown; other keys do
/// nothing.
pub proof fn law_key_events(shown: bool, c: char)
    ensures
        App::key_event_spec(shown, Key::Up) == Some(AppEvent::ScrollUp),
        App::key_event_spec(shown, Key::Down) == Some(AppEvent::ScrollDown),
        App::key_event_spec(shown, Key::Backspace) == Some(AppEvent::CharDelete),
        App::key_event_spec(shown, Key::Esc) == Some(AppEvent::Exit),
        App::key_event_spec(shown, Key::Tab) == Some(AppEvent::TogglePopup),
        App::key_event_spec(shown, Key::Other) is None,
        App::key_event_spec(false, Key::Enter) == Some(AppEvent::PromptSent),
        App::key_event_spec(true, Key::Enter) == Some(AppEvent::SelectedModel),
        App::key_event_spec(false, Key::Char(c)) == Some(AppEvent::CharPressed(c)),
        App::key_event_spec(true, Key::Char(c)) is None,
{
}

/// Measuring keeps a scroll position that is still within range and pulls
/// one past the new end back onto it; the recorded size is the area less its
/// two border cells each way (none when the area is smaller), and the line
/// count is the rendered count less the two border lines.
pub proof fn law_measuring_keeps_position(
    c: ConversationHandler,
    area: crate::ui_handler::Area,
    rendered_lines: usize,
)
    ensures
        ({
            let m = c.with_metrics(area, rendered_lines);
            &&& c.scroll_offset <= m.max_scroll_spec() ==> m.scroll_offset == c.scroll_offset
            &&& c.scroll_offset > m.max_scroll_spec() ==> m.scroll_offset == m.max_scroll_spec()
            &&& m.conversation_width == (if area.width >= 2 { area.width - 2 } else { 0 })
            &&& m.conversation_height == (if area.height >= 2 { area.height - 2 } else { 0 })
            &&& m.conversation_line_count == (if rendered_lines >= 2 { rendered_lines - 2 } else { 0 })
            &&& m.messages == c.messages
        }),
{
}

/// The furthest scroll position is the number of lines past the visible
/// height, for any line count that fits in 16 bits, and 0 when everything fits.
pub proof fn law_max_scroll(c: ConversationHandler)
    requires
        c.conversation_line_count < 0x10000,
    ensures
        c.conversation_line_count >= c.conversation_height ==> c.max_scroll_spec()
            == c.conversation_line_count - c.conversation_height,
        c.conversation_line_count <= c.conversation_height ==> c.max_scroll_spec() == 0,
{
}

/// Scrolling up moves one line towards the start and never past it: the
/// position never grows, drops by exactly one when above the top, and stays
/// at the top. Scrolling down never lowers the position and moves at most one
/// line; scrolling to the end reaches the furthest position.
pub proof fn law_scroll_directions(a: App, event: AppEvent, b: App, effect: Effect)
    requires
        App::event_outcome(&a, event, &b, effect),
    ensures
        event == AppEvent::ScrollUp ==> {
            &&& b.conversation_handler.scroll_offset <= a.conversation_handler.scroll_offset
            &&& a.conversation_handler.scroll_offset == 0 ==> b.conversation_handler.scroll_offset == 0
            &&& a.conversation_handler.scroll_offset > 0 ==> b.conversation_handler.scroll_offset
                + 1 == a.conversation_handler.scroll_offset
        },
        event == AppEvent::ScrollDown ==> {
            &&& a.conversation_handler.scroll_offset <= b.conversation_handler.scroll_offset
            &&& b.conversation_handler.scroll_offset <= a.conversation_handler.scroll_offset + 1
            &&& a.conversation_handler.scroll_offset < a.conversation_handler.max_scroll_spec()
                ==> b.conversation_handler.scroll_offset == a.conversation_handler.scroll_offset
                + 1
            &&& a.conversation_handler.scroll_offset >= a.conversation_handler.max_scroll_spec()
                ==> b.conversation_handler.scroll_offset == a.conversation_handler.scroll_offset
        },
        event == AppEvent::PromptProcessed ==> b.conversation_handler.scroll_offset
            == a.conversation_handler.max_scroll_spec(),
        (event == AppEvent::ScrollUp || event == AppEvent::ScrollDown || event
            == AppEvent::PromptProcessed) ==> {
            &&& b.conversation_handler.messages == a.conversation_handler.messages
            &&& b.conversation_handler.conversation_line_count
                == a.conversation_handler.conversation_line_count
            &&& b.conversation_handler.conversation_height
                == a.conversation_handler.conversation_height
            &&& b.prompt_handler@ == a.prompt_handler@
        },
{
}

/// Backspace removes exactly the last character of a non-empty prompt and
/// leaves an empty prompt empty; typing a character appends exactly it.
pub proof fn law_prompt_editing(a: App, event: AppEvent, b: App, effect: Effect)
    requires
        App::event_outcome(&a, event, &b, effect),
    ensures
        event == AppEvent::CharDelete && a.prompt_handler@.len() > 0 ==> {
            &&& b.prompt_handler@.len() + 1 == a.prompt_handler@.len()
            &&& b.prompt_handler@ == a.prompt_handler@.take(a.prompt_handler@.len() - 1)
        },
        event == AppEvent::CharDelete && a.prompt_handler@.len() == 0 ==> b.prompt_handler@.len()
            == 0,
        (event matches AppEvent::CharPressed(c) ==> {
            &&& b.prompt_handler@.len() == a.prompt_handler@.len() + 1
            &&& b.prompt_handler@.last() == c
            &&& b.prompt_handler@.take(a.prompt_handler@.len() as int) == a.prompt_handler@
        }),
{
    if let AppEvent::CharPressed(c) = event {
        assert(b.prompt_handler@.take(a.prompt_handler@.len() as int) =~= a.prompt_handler@);
    }
    if event == AppEvent::CharDelete && a.prompt_handler@.len() > 0 {
        assert(a.prompt_handler@.drop_last() =~= a.prompt_handler@.take(a.prompt_handler@.len() - 1));
    }
}

/// Typing a character and then pressing Backspace gives back the prompt as it
/// was.
pub proof fn law_type_then_backspace(a: App, c: char, e1: Effect, b: App, e2: Effect, d: App)
    requires
        App::event_outcome(&a, AppEvent::CharPressed(c), &b, e1),
        App::event_outcome(&b, AppEvent::CharDelete, &d, e2),
    ensures
        d.prompt_handler@ == a.prompt_handler@,
{
    assert(a.prompt_handler@.push(c).drop_last() =~= a.prompt_handler@);
}

/// Saving an answer keeps every earlier message and adds two: the prompt as
/// the user's message, then the answer, whole and unchanged, as the
/// assistant's; the prompt is emptied.
pub proof fn law_answer_saved_whole(new: App, old: App, answer: Seq<char>)
    requires
        App::saved_answer(&new, &old, answer),
    ensures
        ({
            let before = old.conversation_handler.transcript();
            let after = new.conversation_handler.transcript();
            &&& after.len() == before.len() + 2
            &&& forall|i: int| 0 <= i < before.len() ==> after[i] == before[i]
            &&& after[before.len() as int] == ("user"@, old.prompt_handler@)
            &&& after[(before.len() + 1) as int] == ("assistant"@, answer)
            &&& new.prompt_handler@.len() == 0
            &&& new.event_handler@ == old.event_handler@ + seq![AppEvent::UpdateUi, AppEvent::PromptProcessed]
        }),
{
    assert(old.event_handler@.push(AppEvent::UpdateUi).push(AppEvent::PromptProcessed)
        =~= old.event_handler@ + seq![AppEvent::UpdateUi, AppEvent::PromptProcessed]);
}

/// A failed prompt is recorded as a network error carrying the failure's
/// message, unchanged; the prompt and the conversation are kept as they were.
pub proof fn law_failure_recorded(new: App, old: App, message: Seq<char>)
    requires
        App::failed_answer(&new, &old, message),
    ensures
        new.error_handler.kind() == ErrorState::NetworkError,
        new.error_handler.message() == Some(message),
        new.prompt_handler@ == old.prompt_handler@,
        new.conversation_handler.transcript() == old.conversation_handler.transcript(),
        new.event_handler@.len() == old.event_handler@.len() + 2,
{
}

/// Toggling flips whether the popup shows and selects its first row; picking
/// a model makes the selected row the model and queues the toggle that closes
/// the popup; Esc's event stops the client; a redraw changes nothing and asks
/// for the screen to be rebuilt.
pub proof fn law_popup_exit_and_redraw(a: App, event: AppEvent, b: App, effect: Effect)
    requires
        App::event_outcome(&a, event, &b, effect),
    ensures
        event == AppEvent::TogglePopup ==> {
            &&& b.ui_handler.shown_spec() != a.ui_handler.shown_spec()
            &&& b.ui_handler.selection_spec() == Some(0usize)
            &&& b.event_handler@ == a.event_handler@ + seq![AppEvent::UpdateUi]
        },
        event == AppEvent::SelectedModel ==> {
            &&& Some(b.network_handler.index_spec()) == a.ui_handler.selection_spec()
            &&& b.event_handler@ == a.event_handler@ + seq![AppEvent::TogglePopup]
            &&& b.ui_handler.shown_spec() == a.ui_handler.shown_spec()
        },
        event == AppEvent::Exit ==> b.exit && b.prompt_handler@ == a.prompt_handler@
            && b.event_handler@ == a.event_handler@,
        event == AppEvent::UpdateUi ==> (effect is Redraw) && b == a,
{
    assert(a.event_handler@.push(AppEvent::UpdateUi) =~= a.event_handler@ + seq![AppEvent::UpdateUi]);
    assert(a.event_handler@.push(AppEvent::TogglePopup) =~= a.event_handler@ + seq![AppEvent::TogglePopup]);
}

/// Sending a prompt that is not blank changes nothing yet and asks the
/// service for an answer from the selected model to exactly that prompt, as
/// the one user message.
pub proof fn law_prompt_sent_asks_selected_model(a: App, b: App, effect: Effect)
    requires
        App::event_outcome(&a, AppEvent::PromptSent, &b, effect),
        !crate::text::is_blank_spec(a.prompt_handler@),
    ensures
        b == a,
        effect matches Effect::SendPrompt(req) && req.model@ == crate::network_handler::models_spec()[
            a.network_handler.index_spec() as int] && req.messages_spec().len() == 1
            && req.messages_spec()[0] == ("user"@, a.prompt_handler@),
{
}

/// Moving the popup selection down goes one row further (staying on the
/// largest index) and starts at the first row when nothing is selected;
/// moving up goes one row back, stays on the first row, and starts at the
/// largest index when nothing is selected.
pub proof fn law_selection_moves(row: usize)
    ensures
        row < usize::MAX ==> next_selection(Some(row)) == row + 1,
        next_selection(Some(usize::MAX)) == usize::MAX,
        next_selection(None) == 0,
        row > 0 ==> previous_selection(Some(row)) + 1 == row,
        previous_selection(Some(0)) == 0,
        previous_selection(None) == usize::MAX,
{
}

/// In the default layout the error is shown over the prompt and every element
/// has a place; the other preset places nothing.
pub proof fn law_layout_places(area: crate::ui_handler::Area)
    ensures
        ({
            let d = crate::ui_handler::compute_layout_spec(crate::ui_handler::LayoutPreset::DefaultLayout, area);
            &&& d.error == d.prompt
            &&& d.prompt is Some && d.conversation is Some && d.popup is Some
        }),
        ({
            let o = crate::ui_handler::compute_layout_spec(crate::ui_handler::LayoutPreset::AnotherLayout, area);
            &&& o.prompt is None && o.conversation is None && o.error is None && o.popup is None
        }),
{
}

/// A text is blank exactly when each of its parts is; spaces, tabs, line and
/// carriage breaks are blank, and no letter or digit is.
pub proof fn law_blank_text(s: Seq<char>, t: Seq<char>, c: char)
    ensures
        crate::text::is_blank_spec(s + t) == (crate::text::is_blank_spec(s) && crate::text::is_blank_spec(t)),
        crate::text::is_blank_spec(Seq::<char>::empty()),
        crate::text::is_white_space_spec(' ') && crate::text::is_white_space_spec('\t')
            && crate::text::is_white_space_spec('\n') && crate::text::is_white_space_spec('\r'),
        ('a' <= c <= 'z' || 'A' <= c <= 'Z' || '0' <= c <= '9') ==> !crate::text::is_white_space_spec(c),
{
    let u = s + t;
    if crate::text::is_blank_spec(s) && crate::text::is_blank_spec(t) {
        assert forall|i: int| 0 <= i < u.len() implies #[trigger] crate::text::is_white_space_spec(u[i]) by {
            if i < s.len() {
                assert(u[i] == s[i]);
            } else {
                assert(u[i] == t[i - s.len()]);
            }
        }
    }
    if crate::text::is_blank_spec(u) {
        assert forall|i: int| 0 <= i < s.len() implies #[trigger] crate::text::is_white_space_spec(s[i]) by {
            assert(u[i] == s[i]);
        }
        assert forall|i: int| 0 <= i < t.len() implies #[trigger] crate::text::is_white_space_spec(t[i]) by {
            assert(u[i + s.len()] == t[i]);
        }
    }
}

} // verus!
