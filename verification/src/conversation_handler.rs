use crate::prompt_handler::PromptHandler;
use crate::ui_handler::Area;
use ratatui::symbols;
use ratatui::text::{Line, Text};
use ratatui::widgets::{Block, Paragraph, Wrap};
use vstd::prelude::*;

verus! {

/// How many lines the conversation occupies when drawn `width` columns wide:
/// its text `lines` word-wrapped without trimming, inside a double border
/// titled `title`, borders included.
pub uninterp spec fn wrapped_line_count(lines: Seq<Seq<char>>, title: Seq<char>, width: u16) -> usize;

/// `Paragraph::line_count` of the paragraph that shows the conversation: the
/// text `lines`, wrapped without trimming, in a double-bordered block titled
/// `title`. The count is named `wrapped_line_count(lines, title, width)`; the
/// source returns 0 for a zero width.
#[verifier::external_body]
fn rendered_line_count(lines: &Vec<String>, title: &str, width: u16) -> (r: usize)
    ensures
        r == wrapped_line_count(lines@.map_values(|s: String| s@), title@, width),
        width == 0 ==> r == 0,
{
    let text = Text::from(lines.iter().map(|l| Line::from(l.clone())).collect::<Vec<Line>>());
    let block = Block::bordered().border_set(symbols::border::DOUBLE).title(title.to_owned());
    Paragraph::new(text).block(block).wrap(Wrap { trim: false }).line_count(width)
}

/// The low 16 bits of a line count, as the cast to `u16` keeps them.
pub open spec fn low16(n: usize) -> u16 {
    (n % 0x10000) as u16
}

/// `a - b`, or 0 when `b` exceeds `a`.
pub open spec fn sat_sub16(a: u16, b: u16) -> u16 {
    if a >= b {
        (a - b) as u16
    } else {
        0
    }
}

/// The conversation: the saved prompt/answer messages and how it is scrolled.
#[derive(Debug)]
pub struct ConversationHandler {
    pub messages: Vec<(String, String)>,
    pub scroll_offset: u16,
    pub conversation_width: u16,
    pub conversation_height: u16,
    pub conversation_line_count: usize,
}

/// Reserved for a separate scrolling state; it holds nothing.
pub struct ScrollState {}

impl ConversationHandler {
    /// The messages as (role, content) texts, oldest first.
    pub open spec fn transcript(&self) -> Seq<(Seq<char>, Seq<char>)> {
        self.messages@.map_values(|m: (String, String)| (m.0@, m.1@))
    }

    /// The furthest the conversation can be scrolled: the number of rendered
    /// lines (kept to 16 bits) less the visible height, or 0.
    pub open spec fn max_scroll_spec(&self) -> u16 {
        sat_sub16(low16(self.conversation_line_count), self.conversation_height)
    }

    /// The text lines that show the conversation: for each message, a line
    /// `role:content` followed by an empty line.
    pub open spec fn lines_spec(&self) -> Seq<Seq<char>> {
        let t = self.transcript();
        Seq::new(
            2 * t.len(),
            |i: int|
                if i % 2 == 0 {
                    t[i / 2].0 + ":"@ + t[i / 2].1
                } else {
                    Seq::<char>::empty()
                },
        )
    }

    /// The state after a resize to `area` when the paragraph showing the
    /// conversation renders as `rendered_lines` lines at the new width.
    pub open spec fn with_metrics(self, area: Area, rendered_lines: usize) -> Self {
        let lines = if rendered_lines >= 2 {
            (rendered_lines - 2) as usize
        } else {
            0
        };
        let resized = ConversationHandler {
            conversation_width: sat_sub16(area.width, 2),
            conversation_height: sat_sub16(area.height, 2),
            conversation_line_count: lines,
            ..self
        };
        let max = resized.max_scroll_spec();
        ConversationHandler {
            scroll_offset: if self.scroll_offset > max {
                max
            } else {
                self.scroll_offset
            },
            ..resized
        }
    }
}

impl Default for ConversationHandler {
    fn default() -> (r: Self)
        ensures
            r.messages@.len() == 0,
            r.scroll_offset == 0,
            r.conversation_width == 0,
            r.conversation_height == 0,
            r.conversation_line_count == 0,
    {
        ConversationHandler {
            messages: Vec::new(),
            scroll_offset: 0,
            conversation_width: 0,
            conversation_height: 0,
            conversation_line_count: 0,
        }
    }
}

impl ConversationHandler {
    /// Saves the current prompt as a user message and `response` as the
    /// assistant's answer, and empties the prompt.
    pub fn save_pair(&mut self, prompt: &mut PromptHandler, response: &str)
        ensures
            final(self).transcript() == old(self).transcript().push(("user"@, old(prompt)@)).push(
                ("assistant"@, response@),
            ),
            final(prompt)@ == Seq::<char>::empty(),
            final(self).scroll_offset == old(self).scroll_offset,
            final(self).conversation_width == old(self).conversation_width,
            final(self).conversation_height == old(self).conversation_height,
            final(self).conversation_line_count == old(self).conversation_line_count,
    {
        self.save_prompt(prompt);
        self.save_respond(response);
    }

    fn save_prompt(&mut self, prompt_handler: &mut PromptHandler)
        ensures
            final(self).transcript() == old(self).transcript().push(("user"@, old(prompt_handler)@)),
            final(prompt_handler)@ == Seq::<char>::empty(),
            final(self).scroll_offset == old(self).scroll_offset,
            final(self).conversation_width == old(self).conversation_width,
            final(self).conversation_height == old(self).conversation_height,
            final(self).conversation_line_count == old(self).conversation_line_count,
    {
        let role: String = "user".to_owned();
        let content: String = prompt_handler.current_prompt().to_owned();
        self.messages.push((role, content));
        prompt_handler.clear_prompt();
        proof {
            assert(self.transcript() =~= old(self).transcript().push(("user"@, old(prompt_handler)@)));
        }
    }

    fn save_respond(&mut self, respond: &str)
        ensures
            final(self).transcript() == old(self).transcript().push(("assistant"@, respond@)),
            final(self).scroll_offset == old(self).scroll_offset,
            final(self).conversation_width == old(self).conversation_width,
            final(self).conversation_height == old(self).conversation_height,
            final(self).conversation_line_count == old(self).conversation_line_count,
    {
        let role: String = "assistant".to_owned();
        let content: String = respond.to_owned();
        self.messages.push((role, content));
        proof {
            assert(self.transcript() =~= old(self).transcript().push(("assistant"@, respond@)));
        }
    }

    fn max_scroll(&self) -> (r: u16)
        ensures
            r == self.max_scroll_spec(),
    {
        let n: usize = self.conversation_line_count;
        let lines: u16 = n as u16;
        assert(lines == (n % 0x10000) as u16) by (bit_vector)
            requires
                lines == n as u16,
        ;
        lines.saturating_sub(self.conversation_height)
    }

    fn clamp_scroll(&mut self)
        ensures
            final(self).scroll_offset == (if old(self).scroll_offset > old(self).max_scroll_spec() {
                old(self).max_scroll_spec()
            } else {
                old(self).scroll_offset
            }),
            final(self).messages == old(self).messages,
            final(self).conversation_width == old(self).conversation_width,
            final(self).conversation_height == old(self).conversation_height,
            final(self).conversation_line_count == old(self).conversation_line_count,
    {
        let max_scroll: u16 = self.max_scroll();
        if self.scroll_offset > max_scroll {
            self.scroll_offset = max_scroll;
        }
    }

    /// Scrolls to the furthest position, so that the latest lines show.
    pub fn scroll_to_end(&mut self)
        ensures
            final(self).scroll_offset == old(self).max_scroll_spec(),
            final(self).messages == old(self).messages,
            final(self).conversation_width == old(self).conversation_width,
            final(self).conversation_height == old(self).conversation_height,
            final(self).conversation_line_count == old(self).conversation_line_count,
    {
        self.scroll_offset = self.max_scroll();
    }

    /// Scrolls one line up, unless already at the top.
    pub fn scroll_up(&mut self)
        ensures
            final(self).scroll_offset == (if old(self).scroll_offset > 0 {
                (old(self).scroll_offset - 1) as u16
            } else {
                0
            }),
            final(self).messages == old(self).messages,
            final(self).conversation_width == old(self).conversation_width,
            final(self).conversation_height == old(self).conversation_height,
            final(self).conversation_line_count == old(self).conversation_line_count,
    {
        if self.scroll_offset > 0 {
            self.scroll_offset -= 1;
        }
    }

    /// Scrolls one line down, unless already at the furthest position.
    pub fn scroll_down(&mut self)
        ensures
            final(self).scroll_offset == (if old(self).scroll_offset < old(self).max_scroll_spec() {
                (old(self).scroll_offset + 1) as u16
            } else {
                old(self).scroll_offset
            }),
            final(self).messages == old(self).messages,
            final(self).conversation_width == old(self).conversation_width,
            final(self).conversation_height == old(self).conversation_height,
            final(self).conversation_line_count == old(self).conversation_line_count,
    {
        let max_scroll: u16 = self.max_scroll();
        if self.scroll_offset < max_scroll {
            self.scroll_offset += 1;
        }
    }

    /// Records the size of the conversation's area and the number of lines its
    /// paragraph renders to (less the two border lines), then pulls the scroll
    /// position back within range.
    pub fn apply_conversation_metrics(&mut self, area: Area, rendered_lines: usize)
        ensures
            *final(self) == old(self).with_metrics(area, rendered_lines),
    {
        self.conversation_width = area.width.saturating_sub(2);
        self.conversation_height = area.height.saturating_sub(2);
        self.conversation_line_count = rendered_lines.saturating_sub(2);
        self.clamp_scroll();
    }

    /// Measures the conversation as drawn in `area` under the title `title`
    /// (at the width inside its borders) and applies the metrics.
    pub fn update_conversation_metrics(&mut self, area: Area, title: &str)
        ensures
            *final(self) == old(self).with_metrics(
                area,
                wrapped_line_count(old(self).lines_spec(), title@, sat_sub16(area.width, 2)),
            ),
    {
        let inner_width: u16 = area.width.saturating_sub(2);
        let lines: Vec<String> = self.conversation_lines();
        let rendered: usize = rendered_line_count(&lines, title, inner_width);
        self.apply_conversation_metrics(area, rendered);
    }

    /// The text lines that show the conversation, as `lines_spec` describes.
    pub fn conversation_lines(&self) -> (r: Vec<String>)
        ensures
            r@.map_values(|s: String| s@) == self.lines_spec(),
    {
        let mut lines: Vec<String> = Vec::new();
        let n: usize = self.messages.len();
        let mut i: usize = 0;
        while i < n
            invariant
                n == self.messages@.len(),
                i <= n,
                lines@.len() == 2 * i,
                forall|j: int|
                    0 <= j < 2 * i ==> #[trigger] lines@[j]@ == self.lines_spec()[j],
            decreases n - i,
        {
            let mut line: String = self.messages[i].0.as_str().to_owned();
            line.append(":");
            line.append(self.messages[i].1.as_str());
            lines.push(line);
            lines.push(String::new());
            proof {
                let t = self.transcript();
                assert(t[i as int] == (self.messages@[i as int].0@, self.messages@[i as int].1@));
                assert((2 * i) % 2 == 0 && (2 * i) / 2 == i) by (nonlinear_arith);
                assert((2 * i + 1) % 2 == 1 && (2 * i + 1) / 2 == i) by (nonlinear_arith);
            }
            i = i + 1;
        }
        proof {
            assert(lines@.map_values(|s: String| s@) =~= self.lines_spec());
        }
        lines
    }
}

} // verus!
