//! Per-button widget state: whether the button is selected, whether its
//! icon was double-clicked this frame, whether its label is in text-edit
//! mode, and the label text itself. The rendering toolkit draws the button;
//! this state is what the directory view reads and writes.

use vstd::prelude::*;

verus! {

/// State of one button, kept across frames.
#[derive(Clone, Debug)]
pub struct RSFMButtonState {
    pub selected: bool,
    pub double_clicked: bool,
    pub editing_text: bool,
    pub text: Option<String>,
}

impl Default for RSFMButtonState {
    /// Not selected, not double-clicked, not editing, no text.
    fn default() -> (r: Self)
        ensures
            !r.selected,
            !r.double_clicked,
            !r.editing_text,
            r.text is None,
    {
        RSFMButtonState { selected: false, double_clicked: false, editing_text: false, text: None }
    }
}

impl RSFMButtonState {
    pub fn with_selected(self, selected: bool) -> (r: Self)
        ensures
            r.selected == selected,
            r.double_clicked == self.double_clicked,
            r.editing_text == self.editing_text,
            r.text == self.text,
    {
        RSFMButtonState {
            selected,
            double_clicked: self.double_clicked,
            editing_text: self.editing_text,
            text: self.text,
        }
    }

    pub fn with_double_clicked(self, double_clicked: bool) -> (r: Self)
        ensures
            r.selected == self.selected,
            r.double_clicked == double_clicked,
            r.editing_text == self.editing_text,
            r.text == self.text,
    {
        RSFMButtonState {
            selected: self.selected,
            double_clicked,
            editing_text: self.editing_text,
            text: self.text,
        }
    }

    pub fn with_editing_text(self, editing_text: bool) -> (r: Self)
        ensures
            r.selected == self.selected,
            r.double_clicked == self.double_clicked,
            r.editing_text == editing_text,
            r.text == self.text,
    {
        RSFMButtonState {
            selected: self.selected,
            double_clicked: self.double_clicked,
            editing_text,
            text: self.text,
        }
    }

    pub fn with_text(self, text: String) -> (r: Self)
        ensures
            r.selected == self.selected,
            r.double_clicked == self.double_clicked,
            r.editing_text == self.editing_text,
            r.text == Some(text),
    {
        RSFMButtonState {
            selected: self.selected,
            double_clicked: self.double_clicked,
            editing_text: self.editing_text,
            text: Some(text),
        }
    }

    pub fn double_clicked(&self) -> (r: bool)
        ensures
            r == self.double_clicked,
    {
        self.double_clicked
    }

    pub fn text(&self) -> (r: &Option<String>)
        ensures
            r == self.text,
    {
        &self.text
    }

    pub fn selected(&self) -> (r: bool)
        ensures
            r == self.selected,
    {
        self.selected
    }

    pub fn select(&mut self)
        ensures
            final(self).selected,
            final(self).double_clicked == old(self).double_clicked,
            final(self).editing_text == old(self).editing_text,
            final(self).text == old(self).text,
    {
        self.selected = true;
    }

    pub fn deselect(&mut self)
        ensures
            !final(self).selected,
            final(self).double_clicked == old(self).double_clicked,
            final(self).editing_text == old(self).editing_text,
            final(self).text == old(self).text,
    {
        self.selected = false;
    }
}

} // verus!
