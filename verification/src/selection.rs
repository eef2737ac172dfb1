//! The interaction state machine of a directory view: which entry is
//! selected, which is in rename-edit mode, and which was just activated.
//! Each transition is driven by one per-entry input event; the activation
//! mark is a one-frame pulse that every frame clears before any input is
//! processed.

use vstd::prelude::*;

verus! {

/// The machine's state triple. `(None, None, None)` is both the initial
/// state of a freshly opened directory and a valid resting state.
#[derive(Clone, Copy, PartialEq, Eq, Structural, Debug)]
pub struct SelectionState {
    pub selected_index: Option<usize>,
    pub editing_index: Option<usize>,
    pub activated_index: Option<usize>,
}

/// One per-entry input event.
#[derive(Clone, Debug)]
pub enum InputEvent {
    /// A single click on the entry.
    Clicked(usize),
    /// A double-click on the entry's icon region: the activation gesture.
    DoubleClickedIcon(usize),
    /// A double-click on the entry's label region: enters rename-edit mode.
    DoubleClickedLabel(usize),
    /// The rename-confirm gesture, carrying the edited text.
    TextCommitted(usize, String),
    /// The text field lost focus without a commit.
    EditLostFocus(usize),
}

/// The index an event is aimed at.
pub open spec fn event_index(e: InputEvent) -> usize {
    match e {
        InputEvent::Clicked(i) => i,
        InputEvent::DoubleClickedIcon(i) => i,
        InputEvent::DoubleClickedLabel(i) => i,
        InputEvent::TextCommitted(i, _) => i,
        InputEvent::EditLostFocus(i) => i,
    }
}

/// What one event does to the state.
///
/// - A click selects its entry — implicitly deselecting any other — and
///   leaves edit mode, unless the clicked entry is the one being edited, in
///   which case the click lands in the text field and changes nothing.
/// - An icon double-click marks the entry activated, leaves the selection
///   alone, and wins over a pending edit of the same entry.
/// - A label double-click enters edit mode for its entry and never
///   activates.
/// - A text commit leaves edit mode; whether it also asks for a rename is
///   decided by the directory view, which knows the entry's current name.
/// - Losing focus without a commit leaves edit mode for that entry.
pub open spec fn sel_step(s: SelectionState, e: InputEvent) -> SelectionState {
    match e {
        InputEvent::Clicked(i) => if s.editing_index == Some(i) {
            s
        } else {
            SelectionState {
                selected_index: Some(i),
                editing_index: None,
                activated_index: s.activated_index,
            }
        },
        InputEvent::DoubleClickedIcon(i) => SelectionState {
            selected_index: s.selected_index,
            editing_index: if s.editing_index == Some(i) {
                None
            } else {
                s.editing_index
            },
            activated_index: Some(i),
        },
        InputEvent::DoubleClickedLabel(i) => SelectionState {
            selected_index: s.selected_index,
            editing_index: Some(i),
            activated_index: s.activated_index,
        },
        InputEvent::TextCommitted(_, _) => SelectionState {
            selected_index: s.selected_index,
            editing_index: None,
            activated_index: s.activated_index,
        },
        InputEvent::EditLostFocus(i) => SelectionState {
            selected_index: s.selected_index,
            editing_index: if s.editing_index == Some(i) {
                None
            } else {
                s.editing_index
            },
            activated_index: s.activated_index,
        },
    }
}

/// What the start of a frame does: the activation mark is a one-frame
/// pulse, cleared before any of the frame's input is processed.
pub open spec fn frame_start(s: SelectionState) -> SelectionState {
    SelectionState {
        selected_index: s.selected_index,
        editing_index: s.editing_index,
        activated_index: None,
    }
}

/// The state after a whole sequence of events.
pub open spec fn sel_run(s: SelectionState, evs: Seq<InputEvent>) -> SelectionState
    decreases evs.len(),
{
    if evs.len() == 0 {
        s
    } else {
        sel_run(sel_step(s, evs[0]), evs.drop_first())
    }
}

/// Running one more event is one more step.
pub proof fn lemma_sel_run_snoc(s: SelectionState, evs: Seq<InputEvent>, e: InputEvent)
    ensures
        sel_run(s, evs.push(e)) == sel_step(sel_run(s, evs), e),
    decreases evs.len(),
{
    if evs.len() == 0 {
        assert(evs.push(e)[0] == e);
        assert(evs.push(e).drop_first() =~= Seq::<InputEvent>::empty());
        assert(sel_run(s, evs) == s);
        assert(sel_run(sel_step(s, e), evs.push(e).drop_first()) == sel_step(s, e));
    } else {
        lemma_sel_run_snoc(sel_step(s, evs[0]), evs.drop_first(), e);
        assert(evs.push(e)[0] == evs[0]);
        assert(evs.push(e).drop_first() =~= evs.drop_first().push(e));
        assert(sel_run(s, evs.push(e)) == sel_run(
            sel_step(s, evs[0]),
            evs.drop_first().push(e),
        ));
        assert(sel_run(s, evs) == sel_run(sel_step(s, evs[0]), evs.drop_first()));
    }
}

impl SelectionState {
    /// The initial state: nothing selected, nothing edited, nothing
    /// activated.
    pub fn new() -> (r: SelectionState)
        ensures
            r.selected_index is None,
            r.editing_index is None,
            r.activated_index is None,
    {
        SelectionState { selected_index: None, editing_index: None, activated_index: None }
    }

    pub fn clicked(&mut self, i: usize)
        ensures
            *final(self) == sel_step(*old(self), InputEvent::Clicked(i)),
    {
        let editing_here = match self.editing_index {
            Some(k) => k == i,
            None => false,
        };
        if !editing_here {
            self.selected_index = Some(i);
            self.editing_index = None;
        }
    }

    pub fn double_clicked_icon(&mut self, i: usize)
        ensures
            *final(self) == sel_step(*old(self), InputEvent::DoubleClickedIcon(i)),
    {
        let editing_here = match self.editing_index {
            Some(k) => k == i,
            None => false,
        };
        if editing_here {
            self.editing_index = None;
        }
        self.activated_index = Some(i);
    }

    pub fn double_clicked_label(&mut self, i: usize)
        ensures
            *final(self) == sel_step(*old(self), InputEvent::DoubleClickedLabel(i)),
    {
        self.editing_index = Some(i);
    }

    /// The state change of a text commit; the caller decides about the
    /// rename request itself.
    pub fn text_committed(&mut self, i: usize)
        ensures
            final(self).editing_index is None,
            final(self).selected_index == old(self).selected_index,
            final(self).activated_index == old(self).activated_index,
            forall|t: String| *final(self) == sel_step(*old(self), InputEvent::TextCommitted(i, t)),
    {
        self.editing_index = None;
    }

    pub fn edit_lost_focus(&mut self, i: usize)
        ensures
            *final(self) == sel_step(*old(self), InputEvent::EditLostFocus(i)),
    {
        let editing_here = match self.editing_index {
            Some(k) => k == i,
            None => false,
        };
        if editing_here {
            self.editing_index = None;
        }
    }

    /// Clears the activation pulse; every frame calls this first.
    pub fn begin_frame(&mut self)
        ensures
            *final(self) == frame_start(*old(self)),
    {
        self.activated_index = None;
    }
}

/// No event other than an icon double-click touches the activation mark.
pub proof fn lemma_non_activation_event(s: SelectionState, e: InputEvent)
    ensures
        !(e is DoubleClickedIcon) ==> sel_step(s, e).activated_index == s.activated_index,
{
}

/// A run without icon double-clicks leaves the activation mark alone.
pub proof fn lemma_run_keeps_activation(s: SelectionState, evs: Seq<InputEvent>)
    requires
        forall|k: int| 0 <= k < evs.len() ==> !(#[trigger] evs[k] is DoubleClickedIcon),
    ensures
        sel_run(s, evs).activated_index == s.activated_index,
    decreases evs.len(),
{
    if evs.len() > 0 {
        lemma_non_activation_event(s, evs[0]);
        lemma_run_keeps_activation(sel_step(s, evs[0]), evs.drop_first());
    }
}

/// The activation mark lives for exactly one frame: a qualifying icon
/// double-click leaves it set for the remainder of that frame — however
/// many other events follow — and the next frame's start, with no further
/// icon double-click, clears it.
pub proof fn lemma_activation_pulse(s: SelectionState, i: usize, rest: Seq<InputEvent>)
    requires
        forall|k: int| 0 <= k < rest.len() ==> !(#[trigger] rest[k] is DoubleClickedIcon),
    ensures
        sel_run(sel_step(s, InputEvent::DoubleClickedIcon(i)), rest).activated_index == Some(i),
        frame_start(
            sel_run(sel_step(s, InputEvent::DoubleClickedIcon(i)), rest),
        ).activated_index is None,
{
    lemma_run_keeps_activation(sel_step(s, InputEvent::DoubleClickedIcon(i)), rest);
}

} // verus!
