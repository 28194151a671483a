//! The overlay's display panel: the host's monitors as a map and as a
//! drop-down, the selected monitor's resolution, and the monitor choice a
//! click sends to the host.

use vstd::prelude::*;
use crate::dropdown::Dropdown;
use crate::text::{decimal, push_decimal};
use crate::widgets::{EventResponse, MonitorInfo, UiAction};

verus! {

/// The drop-down entry for a monitor: its index and whether it is the
/// primary one.
pub open spec fn spec_monitor_label(m: MonitorInfo) -> Seq<char> {
    decimal(m.index as nat) + if m.is_primary {
        ": Primary"@
    } else {
        ": Monitor"@
    }
}

pub fn monitor_label(m: &MonitorInfo) -> (s: String)
    ensures
        s@ == spec_monitor_label(*m),
{
    let mut s = String::new();
    push_decimal(&mut s, m.index as u64);
    if m.is_primary {
        s.append(": Primary");
    } else {
        s.append(": Monitor");
    }
    assert(s@ =~= spec_monitor_label(*m));
    s
}

/// The drop-down entries for a list of monitors, in order.
pub fn monitor_options(monitors: &[MonitorInfo]) -> (v: Vec<String>)
    ensures
        v@.len() == monitors@.len(),
        forall|i: int| 0 <= i < v@.len() ==> #[trigger] v@[i]@ == spec_monitor_label(monitors@[i]),
{
    let mut v: Vec<String> = Vec::new();
    let mut i: usize = 0;
    while i < monitors.len()
        invariant
            i <= monitors@.len(),
            v@.len() == i,
            forall|k: int| 0 <= k < i ==> #[trigger] v@[k]@ == spec_monitor_label(monitors@[k]),
        decreases monitors@.len() - i,
    {
        v.push(monitor_label(&monitors[i]));
        i = i + 1;
    }
    v
}

/// "W×H" for a resolution.
pub open spec fn spec_resolution_text(width: u32, height: u32) -> Seq<char> {
    decimal(width as nat) + "\u{d7}"@ + decimal(height as nat)
}

pub fn resolution_text(width: u32, height: u32) -> (s: String)
    ensures
        s@ == spec_resolution_text(width, height),
{
    let mut s = String::new();
    push_decimal(&mut s, width as u64);
    s.append("\u{d7}");
    push_decimal(&mut s, height as u64);
    assert(s@ =~= spec_resolution_text(width, height));
    s
}

/// The extent of a monitor layout: the least left and top edges and the
/// greatest right and bottom edges, or `(0, 0, 1, 1)` without monitors.
pub open spec fn spec_layout_bounds(monitors: Seq<MonitorInfo>) -> (int, int, int, int)
    decreases monitors.len(),
{
    if monitors.len() == 0 {
        (0, 0, 1, 1)
    } else if monitors.len() == 1 {
        let m = monitors[0];
        (m.x as int, m.y as int, m.x + (m.width as i32), m.y + (m.height as i32))
    } else {
        let rest = spec_layout_bounds(monitors.drop_last());
        let m = monitors.last();
        (
            if (m.x as int) < rest.0 { m.x as int } else { rest.0 },
            if (m.y as int) < rest.1 { m.y as int } else { rest.1 },
            if m.x + (m.width as i32) > rest.2 { m.x + (m.width as i32) } else { rest.2 },
            if m.y + (m.height as i32) > rest.3 { m.y + (m.height as i32) } else { rest.3 },
        )
    }
}

/// Whether every monitor's right and bottom edges, computed in `i32` with
/// the sizes taken as `i32`, stay in range.
pub open spec fn edges_fit(monitors: Seq<MonitorInfo>) -> bool {
    forall|i: int|
        0 <= i < monitors.len() ==> i32::MIN <= #[trigger] monitors[i].x + (monitors[i].width as i32) <= i32::MAX
            && i32::MIN <= monitors[i].y + (monitors[i].height as i32) <= i32::MAX
}

/// The extent of the monitor layout, which the map scales into its area.
pub fn layout_bounds(monitors: &[MonitorInfo]) -> (b: (i32, i32, i32, i32))
    requires
        edges_fit(monitors@),
    ensures
        (b.0 as int, b.1 as int, b.2 as int, b.3 as int) == spec_layout_bounds(monitors@),
{
    if monitors.len() == 0 {
        return (0, 0, 1, 1);
    }
    let m0 = monitors[0];
    assert(i32::MIN <= m0.x + (m0.width as i32) <= i32::MAX);
    let mut b: (i32, i32, i32, i32) = (m0.x, m0.y, m0.x + m0.width as i32, m0.y + m0.height as i32);
    let mut i: usize = 1;
    while i < monitors.len()
        invariant
            1 <= i <= monitors@.len(),
            edges_fit(monitors@),
            (b.0 as int, b.1 as int, b.2 as int, b.3 as int) == spec_layout_bounds(monitors@.subrange(0, i as int)),
        decreases monitors@.len() - i,
    {
        let m = monitors[i];
        assert(i32::MIN <= m.x + (m.width as i32) <= i32::MAX);
        assert(i32::MIN <= m.y + (m.height as i32) <= i32::MAX);
        let right = m.x + m.width as i32;
        let bottom = m.y + m.height as i32;
        b = (
            if m.x < b.0 { m.x } else { b.0 },
            if m.y < b.1 { m.y } else { b.1 },
            if right > b.2 { right } else { b.2 },
            if bottom > b.3 { bottom } else { b.3 },
        );
        proof {
            let pre = monitors@.subrange(0, i as int + 1);
            assert(pre.drop_last() =~= monitors@.subrange(0, i as int));
            assert(pre.last() == m);
        }
        i = i + 1;
    }
    assert(monitors@.subrange(0, i as int) =~= monitors@);
    b
}

/// The monitors of the host as a clickable map, with one selected.
pub struct MonitorMap {
    monitors: Vec<MonitorInfo>,
    selected: u8,
}

impl MonitorMap {
    pub closed spec fn spec_monitors(&self) -> Seq<MonitorInfo> {
        self.monitors@
    }

    pub closed spec fn spec_selected(&self) -> u8 {
        self.selected
    }

    pub fn new(monitors: Vec<MonitorInfo>, selected: u8) -> (m: MonitorMap)
        ensures
            m.spec_monitors() == monitors@,
            m.spec_selected() == selected,
    {
        MonitorMap { monitors, selected }
    }

    pub fn selected(&self) -> (s: u8)
        ensures
            s == self.spec_selected(),
    {
        self.selected
    }

    pub fn monitors(&self) -> (m: &[MonitorInfo])
        ensures
            m@ == self.spec_monitors(),
    {
        self.monitors.as_slice()
    }

    pub fn set_monitors(&mut self, monitors: Vec<MonitorInfo>)
        ensures
            final(self).spec_monitors() == monitors@,
            final(self).spec_selected() == old(self).spec_selected(),
    {
        self.monitors = monitors;
    }

    /// A left click on the map; `hit` is the position in the list of the
    /// first monitor under the pointer. A hit selects that monitor's index.
    pub fn click(&mut self, hit: Option<usize>) -> (r: EventResponse)
        ensures
            final(self).spec_monitors() == old(self).spec_monitors(),
            match hit {
                Some(p) => if p < old(self).spec_monitors().len() {
                    r is Consumed && final(self).spec_selected() == old(self).spec_monitors()[p as int].index
                } else {
                    r is Ignored && final(self).spec_selected() == old(self).spec_selected()
                },
                None => r is Ignored && final(self).spec_selected() == old(self).spec_selected(),
            },
    {
        match hit {
            Some(p) => if p < self.monitors.len() {
                self.selected = self.monitors[p].index;
                EventResponse::Consumed
            } else {
                EventResponse::Ignored
            },
            None => EventResponse::Ignored,
        }
    }
}

/// The display panel of the overlay.
pub struct DisplayPanel {
    monitor_dropdown: Dropdown,
    resolution: String,
    monitor_map: MonitorMap,
    visible: bool,
}

/// The drop-down choice kept when the monitor list changes: the same
/// position, or the last one when the list got shorter.
pub open spec fn kept_selection(selected: nat, count: nat) -> nat {
    let last = if count == 0 { 0 } else { (count - 1) as nat };
    if selected < last { selected } else { last }
}

impl DisplayPanel {
    pub closed spec fn dropdown(&self) -> Dropdown {
        self.monitor_dropdown
    }

    pub closed spec fn map(&self) -> MonitorMap {
        self.monitor_map
    }

    pub closed spec fn resolution_line(&self) -> Seq<char> {
        self.resolution@
    }

    pub closed spec fn is_visible(&self) -> bool {
        self.visible
    }

    /// A hidden panel offering only the primary monitor 0, with no
    /// resolution known.
    pub fn new() -> (p: DisplayPanel)
        ensures
            !p.is_visible(),
            p.dropdown().spec_options().len() == 1,
            p.dropdown().spec_options()[0]@ == "0: Primary"@,
            p.dropdown().spec_selected() == 0,
            p.map().spec_monitors().len() == 0,
            p.map().spec_selected() == 0,
            p.resolution_line() == "Resolution: \u{2014}"@,
    {
        let mut options: Vec<String> = Vec::new();
        options.push(String::from_str("0: Primary"));
        DisplayPanel {
            monitor_dropdown: Dropdown::new(options, 0),
            resolution: String::from_str("Resolution: \u{2014}"),
            monitor_map: MonitorMap::new(Vec::new(), 0),
            visible: false,
        }
    }

    pub fn show(&mut self)
        ensures
            final(self).is_visible(),
            final(self).dropdown() == old(self).dropdown(),
            final(self).map() == old(self).map(),
            final(self).resolution_line() == old(self).resolution_line(),
    {
        self.visible = true;
    }

    pub fn dismiss(&mut self)
        ensures
            !final(self).is_visible(),
            final(self).dropdown() == old(self).dropdown(),
            final(self).map() == old(self).map(),
            final(self).resolution_line() == old(self).resolution_line(),
    {
        self.visible = false;
    }

    pub fn visible(&self) -> (b: bool)
        ensures
            b == self.is_visible(),
    {
        self.visible
    }

    pub fn resolution(&self) -> (s: &str)
        ensures
            s@ == self.resolution_line(),
    {
        self.resolution.as_str()
    }

    pub fn monitor_dropdown(&self) -> (d: &Dropdown)
        ensures
            *d == self.dropdown(),
    {
        &self.monitor_dropdown
    }

    pub fn monitor_map(&self) -> (m: &MonitorMap)
        ensures
            *m == self.map(),
    {
        &self.monitor_map
    }

    /// New monitors from the host: one drop-down entry per monitor, the
    /// choice kept where possible, the resolution of the chosen monitor
    /// shown, and the map redrawn.
    pub fn set_monitors(&mut self, monitors: Vec<MonitorInfo>)
        ensures
            final(self).dropdown().spec_options().len() == monitors@.len(),
            forall|i: int| 0 <= i < monitors@.len() ==> #[trigger] final(self).dropdown().spec_options()[i]@
                == spec_monitor_label(monitors@[i]),
            final(self).dropdown().spec_selected() == kept_selection(
                old(self).dropdown().spec_selected(),
                monitors@.len(),
            ),
            !final(self).dropdown().spec_open(),
            final(self).resolution_line() == if kept_selection(
                old(self).dropdown().spec_selected(),
                monitors@.len(),
            ) < monitors@.len() {
                ({
                    let m = monitors@[kept_selection(old(self).dropdown().spec_selected(), monitors@.len()) as int];
                    spec_resolution_text(m.width, m.height)
                })
            } else {
                old(self).resolution_line()
            },
            final(self).map().spec_monitors() == monitors@,
            final(self).map().spec_selected() == old(self).map().spec_selected(),
            final(self).is_visible() == old(self).is_visible(),
    {
        let options = monitor_options(monitors.as_slice());
        let last = if options.len() == 0 { 0 } else { options.len() - 1 };
        let current = self.monitor_dropdown.selected_index();
        let selected = if current < last { current } else { last };
        self.monitor_dropdown = Dropdown::new(options, selected);
        if selected < monitors.len() {
            let m = monitors[selected];
            self.resolution = resolution_text(m.width, m.height);
        }
        self.monitor_map.set_monitors(monitors);
    }

    /// A left click on the panel: a click that picks another monitor on the
    /// map or in the drop-down asks the host to show it; other clicks the
    /// map or the drop-down take are consumed.
    pub fn click(&mut self, map_hit: Option<usize>, on_header: bool, item: Option<usize>) -> (r: EventResponse)
        ensures
            final(self).is_visible() == old(self).is_visible(),
            final(self).resolution_line() == old(self).resolution_line(),
            ({
                let mons = old(self).map().spec_monitors();
                let map_valid = map_hit is Some && map_hit.unwrap() < mons.len();
                let new_map = if map_valid { mons[map_hit.unwrap() as int].index } else { old(self).map().spec_selected() };
                if new_map != old(self).map().spec_selected() {
                    final(self).map().spec_selected() == new_map && final(self).dropdown() == old(self).dropdown()
                        && r == EventResponse::Action(UiAction::SelectMonitor(new_map))
                } else if map_valid {
                    final(self).map().spec_selected() == new_map && final(self).dropdown() == old(self).dropdown()
                        && r is Consumed
                } else {
                    final(self).map().spec_selected() == old(self).map().spec_selected()
                        && final(self).dropdown().spec_options() == old(self).dropdown().spec_options()
                        && final(self).dropdown().spec_open() == (if on_header {
                        !old(self).dropdown().spec_open()
                    } else {
                        false
                    })
                        && final(self).dropdown().spec_selected() == (if !on_header && old(self).dropdown().spec_open()
                        && item is Some && item.unwrap() < old(self).dropdown().spec_options().len() {
                        item.unwrap() as nat
                    } else {
                        old(self).dropdown().spec_selected()
                    })
                        && if final(self).dropdown().spec_selected() != old(self).dropdown().spec_selected() {
                        r == EventResponse::Action(UiAction::SelectMonitor(final(self).dropdown().spec_selected() as u8))
                    } else {
                        (on_header || old(self).dropdown().spec_open()) == (r is Consumed) && (r is Consumed || r is Ignored)
                    }
                }
            }),
    {
        let old_map = self.monitor_map.selected();
        let r = self.monitor_map.click(map_hit);
        if self.monitor_map.selected() != old_map {
            return EventResponse::Action(UiAction::SelectMonitor(self.monitor_map.selected()));
        }
        if let EventResponse::Consumed = r {
            return r;
        }
        let old_dd = self.monitor_dropdown.selected_index();
        let r = self.monitor_dropdown.click(on_header, item);
        let new_dd = self.monitor_dropdown.selected_index();
        if new_dd != old_dd {
            return EventResponse::Action(UiAction::SelectMonitor(new_dd as u8));
        }
        r
    }
}

} // verus!
