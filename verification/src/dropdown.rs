//! Selection state of the drop-down widget, and the settings page's use of
//! it for the default profile.

use vstd::prelude::*;
use crate::config::UserPrefs;
use crate::widgets::EventResponse;

verus! {

/// Position of the first option equal to `text` at or after `i`, or -1.
pub open spec fn option_index_from(options: Seq<String>, text: Seq<char>, i: nat) -> int
    decreases options.len() - i,
{
    if i >= options.len() {
        -1
    } else if options[i as int]@ == text {
        i as int
    } else {
        option_index_from(options, text, i + 1)
    }
}

pub open spec fn option_index(options: Seq<String>, text: Seq<char>) -> int {
    option_index_from(options, text, 0)
}

fn find_option(options: &Vec<String>, text: &str) -> (r: Option<usize>)
    ensures
        match r {
            Some(i) => option_index(options@, text@) == i,
            None => option_index(options@, text@) == -1,
        },
{
    let wanted = String::from_str(text);
    let mut i: usize = 0;
    while i < options.len()
        invariant
            i <= options@.len(),
            wanted@ == text@,
            option_index(options@, text@) == option_index_from(options@, text@, i as nat),
        decreases options@.len() - i,
    {
        if options[i] == wanted {
            return Some(i);
        }
        i = i + 1;
    }
    None
}

/// A list of options with one selected entry and an open/closed state.
pub struct Dropdown {
    options: Vec<String>,
    selected: usize,
    open: bool,
}

impl Dropdown {
    pub closed spec fn spec_options(&self) -> Seq<String> {
        self.options@
    }

    pub closed spec fn spec_selected(&self) -> nat {
        self.selected as nat
    }

    pub closed spec fn spec_open(&self) -> bool {
        self.open
    }

    /// The text of the selection, empty when the selection is outside the
    /// options.
    pub open spec fn spec_selected_text(&self) -> Seq<char> {
        if self.spec_selected() < self.spec_options().len() {
            self.spec_options()[self.spec_selected() as int]@
        } else {
            Seq::empty()
        }
    }

    /// A closed drop-down over `options` with entry `selected` chosen.
    pub fn new(options: Vec<String>, selected: usize) -> (d: Dropdown)
        ensures
            d.spec_options() == options@,
            d.spec_selected() == selected,
            !d.spec_open(),
    {
        Dropdown { options, selected, open: false }
    }

    pub fn selected_index(&self) -> (i: usize)
        ensures
            i == self.spec_selected(),
    {
        self.selected
    }

    pub fn selected_text(&self) -> (s: &str)
        ensures
            s@ == self.spec_selected_text(),
    {
        if self.selected < self.options.len() {
            self.options[self.selected].as_str()
        } else {
            proof {
                reveal_strlit("");
            }
            ""
        }
    }

    pub fn options(&self) -> (o: &[String])
        ensures
            o@ == self.spec_options(),
    {
        self.options.as_slice()
    }

    /// Choose entry `index`; an index outside the options changes nothing.
    pub fn set_selected(&mut self, index: usize)
        ensures
            final(self).spec_options() == old(self).spec_options(),
            final(self).spec_open() == old(self).spec_open(),
            final(self).spec_selected() == if index < old(self).spec_options().len() {
                index as nat
            } else {
                old(self).spec_selected()
            },
    {
        if index < self.options.len() {
            self.selected = index;
        }
    }

    /// Choose the first entry equal to `text`; false (and no change) when
    /// there is none.
    pub fn set_selected_by_text(&mut self, text: &str) -> (found: bool)
        ensures
            final(self).spec_options() == old(self).spec_options(),
            final(self).spec_open() == old(self).spec_open(),
            found == (option_index(old(self).spec_options(), text@) >= 0),
            final(self).spec_selected() == if found {
                option_index(old(self).spec_options(), text@) as nat
            } else {
                old(self).spec_selected()
            },
    {
        match find_option(&self.options, text) {
            Some(i) => {
                self.selected = i;
                true
            },
            None => false,
        }
    }

    pub fn is_open(&self) -> (b: bool)
        ensures
            b == self.spec_open(),
    {
        self.open
    }

    /// Whether a left click is taken by the drop-down: one on its header,
    /// or any while its list is open.
    pub open spec fn takes_click(&self, on_header: bool) -> bool {
        on_header || self.spec_open()
    }

    /// The selection after a left click (see `click`).
    pub open spec fn selection_after_click(&self, on_header: bool, item: Option<usize>) -> nat {
        if !on_header && self.spec_open() {
            match item {
                Some(i) => if i < self.spec_options().len() {
                    i as nat
                } else {
                    self.spec_selected()
                },
                None => self.spec_selected(),
            }
        } else {
            self.spec_selected()
        }
    }

    /// Whether the list is open after a left click (see `click`).
    pub open spec fn open_after_click(&self, on_header: bool) -> bool {
        on_header && !self.spec_open()
    }

    /// A left click. On the header it opens or closes the list; while open,
    /// a click on entry `item` chooses it and closes the list, and any other
    /// click closes it; while closed, other clicks are ignored.
    pub fn click(&mut self, on_header: bool, item: Option<usize>) -> (r: EventResponse)
        ensures
            final(self).spec_options() == old(self).spec_options(),
            on_header ==> r is Consumed && final(self).spec_open() == !old(self).spec_open()
                && final(self).spec_selected() == old(self).spec_selected(),
            !on_header && old(self).spec_open() ==> r is Consumed && !final(self).spec_open()
                && final(self).spec_selected() == match item {
                    Some(i) => if i < old(self).spec_options().len() {
                        i as nat
                    } else {
                        old(self).spec_selected()
                    },
                    None => old(self).spec_selected(),
                },
            !on_header && !old(self).spec_open() ==> r is Ignored && final(self).spec_open() == old(self).spec_open()
                && final(self).spec_selected() == old(self).spec_selected(),
            final(self).spec_selected() == old(self).selection_after_click(on_header, item),
            final(self).spec_open() == old(self).open_after_click(on_header),
            r is Consumed <==> old(self).takes_click(on_header),
            r is Consumed || r is Ignored,
    {
        if on_header {
            self.open = !self.open;
            return EventResponse::Consumed;
        }
        if self.open {
            match item {
                Some(i) => {
                    if i < self.options.len() {
                        self.selected = i;
                    }
                },
                None => {},
            }
            self.open = false;
            return EventResponse::Consumed;
        }
        EventResponse::Ignored
    }
}

/// Where a left click falls on a drop-down: on its header, and on which
/// entry of its open list, if any.
#[derive(Debug, Clone, Copy)]
pub struct DropdownHit {
    pub on_header: bool,
    pub item: Option<usize>,
}

/// The default-profile choices of the settings page for a list of profile
/// names: the names (or just "Balanced" when there are none), keeping the
/// current choice when it is still offered, else "Balanced", else the first.
pub fn profile_dropdown_for_names(names: Vec<String>, current: &Dropdown) -> (d: Dropdown)
    ensures
        names@.len() > 0 ==> d.spec_options() == names@,
        names@.len() == 0 ==> d.spec_options().len() == 1 && d.spec_options()[0]@ == "Balanced"@,
        !d.spec_open(),
        d.spec_selected() == if option_index(d.spec_options(), current.spec_selected_text()) >= 0 {
            option_index(d.spec_options(), current.spec_selected_text()) as nat
        } else if option_index(d.spec_options(), "Balanced"@) >= 0 {
            option_index(d.spec_options(), "Balanced"@) as nat
        } else {
            0
        },
{
    let selected = String::from_str(current.selected_text());
    let options = if names.len() == 0 {
        let mut v: Vec<String> = Vec::new();
        v.push(String::from_str("Balanced"));
        v
    } else {
        names
    };
    let index = match find_option(&options, selected.as_str()) {
        Some(i) => i,
        None => match find_option(&options, "Balanced") {
            Some(i) => i,
            None => 0,
        },
    };
    Dropdown::new(options, index)
}

/// The settings page showing preferences: the default profile is chosen
/// by name, falling back to "Balanced" when it is not offered.
pub fn select_preferred_profile(dropdown: &mut Dropdown, prefs: &UserPrefs)
    ensures
        final(dropdown).spec_options() == old(dropdown).spec_options(),
        final(dropdown).spec_open() == old(dropdown).spec_open(),
        final(dropdown).spec_selected() == if option_index(old(dropdown).spec_options(), prefs.default_profile@)
            >= 0 {
            option_index(old(dropdown).spec_options(), prefs.default_profile@) as nat
        } else if option_index(old(dropdown).spec_options(), "Balanced"@) >= 0 {
            option_index(old(dropdown).spec_options(), "Balanced"@) as nat
        } else {
            old(dropdown).spec_selected()
        },
{
    if !dropdown.set_selected_by_text(prefs.default_profile.as_str()) {
        let _ = dropdown.set_selected_by_text("Balanced");
    }
}

/// The preferences that the settings page's controls hold.
pub fn prefs_from_controls(profile: &Dropdown, exclusive_keyboard: bool, relative_mouse: bool) -> (p: UserPrefs)
    ensures
        p.default_profile@ == profile.spec_selected_text(),
        p.exclusive_keyboard == exclusive_keyboard,
        p.relative_mouse == relative_mouse,
{
    UserPrefs {
        default_profile: String::from_str(profile.selected_text()),
        exclusive_keyboard,
        relative_mouse,
    }
}

} // verus!
