//! State of the choice widgets: the toggle switch and the checkbox (a left
//! click on the widget flips it; clicks elsewhere are ignored) and the
//! segmented control.

use vstd::prelude::*;
use crate::widgets::{ColorMode, EventResponse};

verus! {

/// An on/off switch.
pub struct Toggle {
    on: bool,
}

impl Toggle {
    pub closed spec fn spec_on(&self) -> bool {
        self.on
    }

    pub fn new(on: bool) -> (t: Toggle)
        ensures
            t.spec_on() == on,
    {
        Toggle { on }
    }

    pub fn is_on(&self) -> (b: bool)
        ensures
            b == self.spec_on(),
    {
        self.on
    }

    pub fn set_on(&mut self, on: bool)
        ensures
            final(self).spec_on() == on,
    {
        self.on = on;
    }

    /// A left click, on the track or elsewhere: on the track it flips the
    /// switch and is consumed.
    pub fn click(&mut self, on_track: bool) -> (r: EventResponse)
        ensures
            on_track ==> r is Consumed && final(self).spec_on() == !old(self).spec_on(),
            !on_track ==> r is Ignored && final(self).spec_on() == old(self).spec_on(),
    {
        if on_track {
            self.on = !self.on;
            EventResponse::Consumed
        } else {
            EventResponse::Ignored
        }
    }
}

/// A labelled checkbox.
pub struct Checkbox {
    label: String,
    checked: bool,
}

impl Checkbox {
    pub closed spec fn spec_checked(&self) -> bool {
        self.checked
    }

    pub closed spec fn spec_label(&self) -> Seq<char> {
        self.label@
    }

    pub fn new(label: &str, checked: bool) -> (c: Checkbox)
        ensures
            c.spec_checked() == checked,
            c.spec_label() == label@,
    {
        Checkbox { label: String::from_str(label), checked }
    }

    pub fn label(&self) -> (s: &str)
        ensures
            s@ == self.spec_label(),
    {
        self.label.as_str()
    }

    pub fn set_checked(&mut self, checked: bool)
        ensures
            final(self).spec_checked() == checked,
            final(self).spec_label() == old(self).spec_label(),
    {
        self.checked = checked;
    }

    pub fn is_checked(&self) -> (b: bool)
        ensures
            b == self.spec_checked(),
    {
        self.checked
    }

    /// A left click, on the box or elsewhere: on the box it flips the check
    /// and is consumed.
    pub fn click(&mut self, inside: bool) -> (r: EventResponse)
        ensures
            inside ==> r is Consumed && final(self).spec_checked() == !old(self).spec_checked(),
            !inside ==> r is Ignored && final(self).spec_checked() == old(self).spec_checked(),
            final(self).spec_label() == old(self).spec_label(),
    {
        if inside {
            self.checked = !self.checked;
            EventResponse::Consumed
        } else {
            EventResponse::Ignored
        }
    }
}

/// A row of segments, one of them selected.
pub struct SegmentedControl {
    options: Vec<String>,
    selected_index: usize,
    hovered_index: Option<usize>,
    color_mode: ColorMode,
}

impl SegmentedControl {
    pub closed spec fn spec_options(&self) -> Seq<String> {
        self.options@
    }

    pub closed spec fn spec_selected(&self) -> usize {
        self.selected_index
    }

    pub closed spec fn spec_hovered(&self) -> Option<usize> {
        self.hovered_index
    }

    pub closed spec fn spec_color_mode(&self) -> ColorMode {
        self.color_mode
    }

    pub fn new(options: Vec<String>, selected_index: usize) -> (c: SegmentedControl)
        ensures
            c.spec_options() == options@,
            c.spec_selected() == selected_index,
            c.spec_hovered() is None,
            c.spec_color_mode() == ColorMode::Dark,
    {
        SegmentedControl { options, selected_index, hovered_index: None, color_mode: ColorMode::Dark }
    }

    pub fn selected_index(&self) -> (i: usize)
        ensures
            i == self.spec_selected(),
    {
        self.selected_index
    }

    pub fn set_selected(&mut self, index: usize)
        ensures
            final(self).spec_selected() == index,
            final(self).spec_options() == old(self).spec_options(),
            final(self).spec_hovered() == old(self).spec_hovered(),
    {
        self.selected_index = index;
    }

    /// Draw the control in `mode` from now on.
    pub fn set_color_mode(&mut self, mode: ColorMode)
        ensures
            final(self).spec_color_mode() == mode,
            final(self).spec_selected() == old(self).spec_selected(),
            final(self).spec_options() == old(self).spec_options(),
            final(self).spec_hovered() == old(self).spec_hovered(),
    {
        self.color_mode = mode;
    }

    pub fn hovered_index(&self) -> (h: Option<usize>)
        ensures
            h == self.spec_hovered(),
    {
        self.hovered_index
    }

    /// The pointer moved over segment `segment` (none when outside).
    pub fn hover(&mut self, segment: Option<usize>) -> (r: EventResponse)
        ensures
            r is Ignored,
            final(self).spec_hovered() == segment,
            final(self).spec_selected() == old(self).spec_selected(),
            final(self).spec_options() == old(self).spec_options(),
    {
        self.hovered_index = segment;
        EventResponse::Ignored
    }

    /// A left click on segment `segment` (none when outside): another
    /// segment becomes the selection and the click is consumed; the
    /// selected segment or no segment ignores it.
    pub fn click(&mut self, segment: Option<usize>) -> (r: EventResponse)
        ensures
            final(self).spec_options() == old(self).spec_options(),
            final(self).spec_hovered() == old(self).spec_hovered(),
            match segment {
                Some(i) => if i != old(self).spec_selected() {
                    r is Consumed && final(self).spec_selected() == i
                } else {
                    r is Ignored && final(self).spec_selected() == old(self).spec_selected()
                },
                None => r is Ignored && final(self).spec_selected() == old(self).spec_selected(),
            },
    {
        match segment {
            Some(i) => if i != self.selected_index {
                self.selected_index = i;
                EventResponse::Consumed
            } else {
                EventResponse::Ignored
            },
            None => EventResponse::Ignored,
        }
    }
}

} // verus!
