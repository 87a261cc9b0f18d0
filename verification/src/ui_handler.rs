use ratatui::layout::{Constraint, Direction, Layout, Rect};
use vstd::prelude::*;

verus! {

/// A rectangle of terminal cells: its top-left corner and its size.
#[derive(Debug, Clone, Copy, PartialEq, Eq, Structural)]
pub struct Area {
    pub x: u16,
    pub y: u16,
    pub width: u16,
    pub height: u16,
}

/// The direction in which an area is cut into parts.
#[derive(Debug, Clone, Copy, PartialEq, Eq, Structural)]
pub enum SplitAxis {
    Horizontal,
    Vertical,
}

/// How large one part of a split should be.
#[derive(Debug, Clone, Copy, PartialEq, Eq, Structural)]
pub enum SizeRule {
    /// At least this many cells.
    Min(u16),
    /// Exactly this many cells.
    Length(u16),
    /// A share of the space left over, in proportion to the weight.
    Fill(u16),
}

/// The parts that the layout solver cuts `area` into along `axis`, one per rule.
pub uninterp spec fn layout_split(axis: SplitAxis, rules: Seq<SizeRule>, area: Area) -> Seq<Area>;

/// `Layout::split` of a layout with the given direction and constraints (and
/// the defaults otherwise): the solver's result is named
/// `layout_split(axis, rules, area)`; the source builds one part per
/// constraint.
#[verifier::external_body]
fn split_area(axis: SplitAxis, rules: &Vec<SizeRule>, area: Area) -> (r: Vec<Area>)
    ensures
        r@ == layout_split(axis, rules@, area),
        r@.len() == rules@.len(),
{
    let direction = match axis {
        SplitAxis::Horizontal => Direction::Horizontal,
        SplitAxis::Vertical => Direction::Vertical,
    };
    let constraints = rules.iter().map(|rule| match *rule {
        SizeRule::Min(n) => Constraint::Min(n),
        SizeRule::Length(n) => Constraint::Length(n),
        SizeRule::Fill(n) => Constraint::Fill(n),
    });
    let rect = Rect { x: area.x, y: area.y, width: area.width, height: area.height };
    let parts = Layout::default().direction(direction).constraints(constraints).split(rect);
    parts.iter().map(|p| Area { x: p.x, y: p.y, width: p.width, height: p.height }).collect()
}

/// Where each element of the screen goes, when it is shown at all.
#[derive(Debug, Clone, Copy, PartialEq, Eq, Structural)]
pub struct Areas {
    pub prompt: Option<Area>,
    pub conversation: Option<Area>,
    pub error: Option<Area>,
    pub popup: Option<Area>,
}

/// The arrangements the screen can use.
#[derive(Debug, Clone, Copy, PartialEq, Eq, Structural)]
pub enum LayoutPreset {
    DefaultLayout,
    AnotherLayout,
}

impl Default for LayoutPreset {
    fn default() -> (r: Self)
        ensures
            r == LayoutPreset::DefaultLayout,
    {
        LayoutPreset::DefaultLayout
    }
}

/// The rules of the main split: the conversation takes what is left above a
/// prompt three rows high.
pub open spec fn main_rules() -> Seq<SizeRule> {
    seq![SizeRule::Min(1), SizeRule::Length(3)]
}

/// The rules that centre the popup: equal margins around a middle part.
pub open spec fn centre_rules() -> Seq<SizeRule> {
    seq![SizeRule::Fill(1), SizeRule::Min(1), SizeRule::Fill(1)]
}

/// The arrangement of the default layout on a screen `area`: conversation
/// above, prompt below, the error over the prompt, and the popup in the centre.
pub open spec fn default_layout_spec(area: Area) -> Areas {
    let main = layout_split(SplitAxis::Vertical, main_rules(), area);
    let band = layout_split(SplitAxis::Vertical, centre_rules(), area)[1];
    let popup = layout_split(SplitAxis::Horizontal, centre_rules(), band)[1];
    Areas {
        prompt: Some(main[1]),
        conversation: Some(main[0]),
        error: Some(main[1]),
        popup: Some(popup),
    }
}

/// The arrangement of a preset on a screen `area`.
pub open spec fn compute_layout_spec(preset: LayoutPreset, area: Area) -> Areas {
    match preset {
        LayoutPreset::DefaultLayout => default_layout_spec(area),
        LayoutPreset::AnotherLayout => Areas {
            prompt: None,
            conversation: None,
            error: None,
            popup: None,
        },
    }
}

impl LayoutPreset {
    /// Where each element goes on a screen `area` under this preset.
    pub fn compute_layout(&self, area: Area) -> (r: Areas)
        ensures
            r == compute_layout_spec(*self, area),
    {
        match self {
            LayoutPreset::DefaultLayout => {
                let main_cut: Vec<SizeRule> = vec![SizeRule::Min(1), SizeRule::Length(3)];
                let main = split_area(SplitAxis::Vertical, &main_cut, area);
                let conversation: Area = main[0];
                let prompt: Area = main[1];
                let centre_cut: Vec<SizeRule> = vec![
                    SizeRule::Fill(1),
                    SizeRule::Min(1),
                    SizeRule::Fill(1),
                ];
                let band = split_area(SplitAxis::Vertical, &centre_cut, area);
                let popup_row = split_area(SplitAxis::Horizontal, &centre_cut, band[1]);
                let popup: Area = popup_row[1];
                proof {
                    assert(main_cut@ =~= main_rules());
                    assert(centre_cut@ =~= centre_rules());
                }
                Areas {
                    prompt: Some(prompt),
                    conversation: Some(conversation),
                    error: Some(prompt),
                    popup: Some(popup),
                }
            },
            LayoutPreset::AnotherLayout => Areas {
                prompt: None,
                conversation: None,
                error: None,
                popup: None,
            },
        }
    }
}

/// The row the popup selects after moving down: the next one, or the first
/// when none is selected.
pub open spec fn next_selection(selected: Option<usize>) -> usize {
    match selected {
        Some(i) => if i == usize::MAX {
            i
        } else {
            (i + 1) as usize
        },
        None => 0,
    }
}

/// The row the popup selects after moving up: the previous one (staying at
/// the first), or the largest index when none is selected.
pub open spec fn previous_selection(selected: Option<usize>) -> usize {
    match selected {
        Some(i) => if i == 0 {
            0
        } else {
            (i - 1) as usize
        },
        None => usize::MAX,
    }
}

/// The screen's own state: its layout and the model-selection popup.
#[derive(Debug)]
pub struct UiHandler {
    layout_preset: LayoutPreset,
    show_popup: bool,
    popup_selected: Option<usize>,
}

impl UiHandler {
    /// The layout in use.
    pub closed spec fn preset_spec(&self) -> LayoutPreset {
        self.layout_preset
    }

    /// Whether the model-selection popup is shown.
    pub closed spec fn shown_spec(&self) -> bool {
        self.show_popup
    }

    /// The row selected in the popup, if any.
    pub closed spec fn selection_spec(&self) -> Option<usize> {
        self.popup_selected
    }
}

impl Default for UiHandler {
    fn default() -> (r: Self)
        ensures
            r.preset_spec() == LayoutPreset::DefaultLayout,
            !r.shown_spec(),
            r.selection_spec() is None,
    {
        UiHandler { layout_preset: LayoutPreset::DefaultLayout, show_popup: false, popup_selected: None }
    }
}

impl UiHandler {
    /// Shows the popup when hidden and hides it when shown; either way the
    /// first row becomes selected.
    pub fn toggle_popup(&mut self)
        ensures
            final(self).shown_spec() == !old(self).shown_spec(),
            final(self).selection_spec() == Some(0usize),
            final(self).preset_spec() == old(self).preset_spec(),
    {
        self.popup_selected = Some(0);
        self.show_popup = !self.show_popup;
    }

    /// Moves the popup selection one row down.
    pub fn select_next_popup(&mut self)
        ensures
            final(self).selection_spec() == Some(next_selection(old(self).selection_spec())),
            final(self).shown_spec() == old(self).shown_spec(),
            final(self).preset_spec() == old(self).preset_spec(),
    {
        let next: usize = match self.popup_selected {
            Some(i) => i.saturating_add(1),
            None => 0,
        };
        self.popup_selected = Some(next);
    }

    /// Moves the popup selection one row up.
    pub fn select_prev_popup(&mut self)
        ensures
            final(self).selection_spec() == Some(previous_selection(old(self).selection_spec())),
            final(self).shown_spec() == old(self).shown_spec(),
            final(self).preset_spec() == old(self).preset_spec(),
    {
        let previous: usize = match self.popup_selected {
            Some(i) => i.saturating_sub(1),
            None => usize::MAX,
        };
        self.popup_selected = Some(previous);
    }

    /// Whether the model-selection popup is shown.
    pub fn popup_shown(&self) -> (r: bool)
        ensures
            r == self.shown_spec(),
    {
        self.show_popup
    }

    /// The selected row of the popup.
    pub fn get_popup_id(&self) -> (r: usize)
        requires
            self.selection_spec() is Some,
        ensures
            Some(r) == self.selection_spec(),
    {
        match self.popup_selected {
            Some(i) => i,
            None => 0,
        }
    }

    /// The selected row of the popup, if any, as the table is to show it.
    pub fn popup_selection(&self) -> (r: Option<usize>)
        ensures
            r == self.selection_spec(),
    {
        self.popup_selected
    }

    /// Takes back the selection as the table left it after drawing (drawing
    /// pulls a selection past the last row back onto it).
    pub fn set_popup_selection(&mut self, selected: Option<usize>)
        ensures
            final(self).selection_spec() == selected,
            final(self).shown_spec() == old(self).shown_spec(),
            final(self).preset_spec() == old(self).preset_spec(),
    {
        self.popup_selected = selected;
    }

    /// Where the elements go when the screen is rebuilt on a screen `area`:
    /// the default layout is laid out; the other preset rebuilds nothing.
    pub fn plan_update(&self, area: Area) -> (r: Option<Areas>)
        ensures
            match self.preset_spec() {
                LayoutPreset::DefaultLayout => r == Some(default_layout_spec(area)),
                LayoutPreset::AnotherLayout => r is None,
            },
    {
        match self.layout_preset {
            LayoutPreset::DefaultLayout => Some(self.layout_preset.compute_layout(area)),
            LayoutPreset::AnotherLayout => None,
        }
    }
}

} // verus!
