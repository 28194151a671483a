//! Launcher navigation and saved-connection presentation: tabs, settings
//! sections, modals, card filters and statuses, and recency ordering.

use vstd::prelude::*;
use vstd::arithmetic::div_mod::lemma_small_mod;
use crate::platform::unix_time_secs;
use crate::servers::SavedServer;
use crate::text::{decimal, push_decimal};
use crate::widgets::{ChipTone, EventResponse, UiAction};

verus! {

/// Launcher tabs.
#[derive(Debug, Clone, Copy, PartialEq, Eq, Structural)]
pub enum LauncherTab {
    Home,
    SavedConnections,
    Profiles,
    Settings,
}

impl LauncherTab {
    /// The tabs shown in the main navigation, in order.
    pub const PRIMARY: [LauncherTab; 3] = [
        LauncherTab::Home,
        LauncherTab::SavedConnections,
        LauncherTab::Profiles,
    ];

    pub open spec fn spec_label(self) -> Seq<char> {
        match self {
            LauncherTab::Home => "Home"@,
            LauncherTab::SavedConnections => "Saved Connections"@,
            LauncherTab::Profiles => "Profiles"@,
            LauncherTab::Settings => "Settings"@,
        }
    }

    /// Navigation label.
    pub fn label(self) -> (s: &'static str)
        ensures
            s@ == self.spec_label(),
    {
        match self {
            LauncherTab::Home => "Home",
            LauncherTab::SavedConnections => "Saved Connections",
            LauncherTab::Profiles => "Profiles",
            LauncherTab::Settings => "Settings",
        }
    }

    /// Page title (the same text as the label).
    pub fn title(self) -> (s: &'static str)
        ensures
            s@ == self.spec_label(),
    {
        match self {
            LauncherTab::Home => "Home",
            LauncherTab::SavedConnections => "Saved Connections",
            LauncherTab::Profiles => "Profiles",
            LauncherTab::Settings => "Settings",
        }
    }

    pub open spec fn spec_subtitle(self) -> Seq<char> {
        match self {
            LauncherTab::Home => "Connect instantly or reopen the desktops you use most."@,
            LauncherTab::SavedConnections => "Browse saved desktops, reconnect quickly, and keep your machines organized."@,
            LauncherTab::Profiles => "Tune presets for gaming, coding, balanced work, and low-bandwidth sessions."@,
            LauncherTab::Settings => "Review identity, defaults, input behavior, and local client preferences."@,
        }
    }

    /// Page subtitle.
    pub fn subtitle(self) -> (s: &'static str)
        ensures
            s@ == self.spec_subtitle(),
    {
        match self {
            LauncherTab::Home => "Connect instantly or reopen the desktops you use most.",
            LauncherTab::SavedConnections => "Browse saved desktops, reconnect quickly, and keep your machines organized.",
            LauncherTab::Profiles => "Tune presets for gaming, coding, balanced work, and low-bandwidth sessions.",
            LauncherTab::Settings => "Review identity, defaults, input behavior, and local client preferences.",
        }
    }
}

/// Sub-sections of the Settings tab.
#[derive(Debug, Clone, Copy, PartialEq, Eq, Structural)]
pub enum SettingsSection {
    General,
    IdentitySecurity,
    Streaming,
    Input,
    Audio,
}

impl SettingsSection {
    /// All sections, in order.
    pub const ALL: [SettingsSection; 5] = [
        SettingsSection::General,
        SettingsSection::IdentitySecurity,
        SettingsSection::Streaming,
        SettingsSection::Input,
        SettingsSection::Audio,
    ];

    pub open spec fn spec_label(self) -> Seq<char> {
        match self {
            SettingsSection::General => "General"@,
            SettingsSection::IdentitySecurity => "Identity & Security"@,
            SettingsSection::Streaming => "Streaming"@,
            SettingsSection::Input => "Input"@,
            SettingsSection::Audio => "Audio"@,
        }
    }

    /// Section label.
    pub fn label(self) -> (s: &'static str)
        ensures
            s@ == self.spec_label(),
    {
        match self {
            SettingsSection::General => "General",
            SettingsSection::IdentitySecurity => "Identity & Security",
            SettingsSection::Streaming => "Streaming",
            SettingsSection::Input => "Input",
            SettingsSection::Audio => "Audio",
        }
    }
}

/// Add vs edit mode of the server form; server ids are UUIDs as `u128`.
#[derive(Debug, Clone, Copy, PartialEq, Eq, Structural)]
pub enum FormMode {
    Add,
    Edit { server_id: u128 },
}

/// The modal shown on top of the launcher.
#[derive(Debug, Clone)]
pub enum ActiveModal {
    ServerForm { mode: FormMode },
    ConfirmDelete { server_id: u128, name: String },
}

/// Grid of cards or list of rows.
#[derive(Debug, Clone, Copy, PartialEq, Eq, Structural)]
pub enum GridMode {
    Grid,
    Rows,
}

/// Layout of one server card.
#[derive(Debug, Clone, Copy, PartialEq, Eq, Structural)]
pub enum CardLayoutMode {
    Card,
    Row,
}

/// A week in seconds: how long after the last connection a host is recent.
pub const WEEK_SECS: u64 = 604800;

/// The filters above the saved-host grid.
#[derive(Debug, Clone, Copy, PartialEq, Eq, Structural)]
pub enum CardFilter {
    All,
    Recent,
    Dormant,
    New,
}

impl CardFilter {
    pub open spec fn spec_label(self, total_cards: nat) -> Seq<char> {
        match self {
            CardFilter::All => "All Hosts ("@ + decimal(total_cards) + ")"@,
            CardFilter::Recent => "Recent"@,
            CardFilter::Dormant => "Dormant"@,
            CardFilter::New => "New"@,
        }
    }

    /// Chip text; the "All" chip shows how many hosts there are.
    pub fn label(self, total_cards: usize) -> (s: String)
        ensures
            s@ == self.spec_label(total_cards as nat),
    {
        match self {
            CardFilter::All => {
                let mut s = String::from_str("All Hosts (");
                push_decimal(&mut s, total_cards as u64);
                s.append(")");
                s
            },
            CardFilter::Recent => String::from_str("Recent"),
            CardFilter::Dormant => String::from_str("Dormant"),
            CardFilter::New => String::from_str("New"),
        }
    }
}

/// How recently a saved host was used.
#[derive(Debug, Clone, Copy, PartialEq, Eq, Structural)]
pub enum CardStatus {
    Recent,
    Dormant,
    New,
}

impl CardStatus {
    pub open spec fn spec_label(self) -> Seq<char> {
        match self {
            CardStatus::Recent => "Recent"@,
            CardStatus::Dormant => "Dormant"@,
            CardStatus::New => "New"@,
        }
    }

    /// Text of the status chip.
    pub fn label(self) -> (s: &'static str)
        ensures
            s@ == self.spec_label(),
    {
        match self {
            CardStatus::Recent => "Recent",
            CardStatus::Dormant => "Dormant",
            CardStatus::New => "New",
        }
    }

    pub open spec fn spec_chip_tone(self) -> ChipTone {
        match self {
            CardStatus::Recent => ChipTone::Success,
            CardStatus::Dormant => ChipTone::Warning,
            CardStatus::New => ChipTone::Accent,
        }
    }

    /// Colour family of the status chip.
    pub fn chip_tone(self) -> (t: ChipTone)
        ensures
            t == self.spec_chip_tone(),
    {
        match self {
            CardStatus::Recent => ChipTone::Success,
            CardStatus::Dormant => ChipTone::Warning,
            CardStatus::New => ChipTone::Accent,
        }
    }
}

/// Seconds from `then` to `now`, 0 when `then` lies in the future.
pub open spec fn elapsed_secs(then: u64, now: u64) -> nat {
    if now >= then {
        (now - then) as nat
    } else {
        0
    }
}

/// Status of a host last connected at `last_connected` (Unix seconds), seen
/// at `now`: never connected is new, within a week is recent, else dormant.
pub open spec fn spec_card_status(last_connected: Option<u64>, now: u64) -> CardStatus {
    match last_connected {
        Some(t) => if elapsed_secs(t, now) <= WEEK_SECS {
            CardStatus::Recent
        } else {
            CardStatus::Dormant
        },
        None => CardStatus::New,
    }
}

/// The status of a host at a given time.
pub fn card_status(last_connected: Option<u64>, now_secs: u64) -> (s: CardStatus)
    ensures
        s == spec_card_status(last_connected, now_secs),
{
    match last_connected {
        Some(t) => if now_secs.saturating_sub(t) <= WEEK_SECS {
            CardStatus::Recent
        } else {
            CardStatus::Dormant
        },
        None => CardStatus::New,
    }
}

/// The status of a host now, by the wall clock.
pub fn card_status_now(last_connected: Option<u64>) -> (s: CardStatus)
    ensures
        exists|now: u64| s == spec_card_status(last_connected, now),
        last_connected is None ==> s == CardStatus::New,
{
    let now = unix_time_secs();
    card_status(last_connected, now)
}

pub open spec fn spec_matches_filter(status: CardStatus, filter: CardFilter) -> bool {
    match filter {
        CardFilter::All => true,
        CardFilter::Recent => status == CardStatus::Recent,
        CardFilter::Dormant => status == CardStatus::Dormant,
        CardFilter::New => status == CardStatus::New,
    }
}

/// Whether a host with `status` is shown under `filter`.
pub fn matches_filter(status: CardStatus, filter: CardFilter) -> (b: bool)
    ensures
        b == spec_matches_filter(status, filter),
{
    match filter {
        CardFilter::All => true,
        CardFilter::Recent => status == CardStatus::Recent,
        CardFilter::Dormant => status == CardStatus::Dormant,
        CardFilter::New => status == CardStatus::New,
    }
}

/// Positions below `n` whose status passes `filter`, in increasing order.
pub open spec fn matching_positions(statuses: Seq<CardStatus>, filter: CardFilter, n: nat) -> Seq<usize>
    decreases n,
{
    if n == 0 {
        Seq::empty()
    } else {
        let rest = matching_positions(statuses, filter, (n - 1) as nat);
        if spec_matches_filter(statuses[n - 1], filter) {
            rest.push((n - 1) as usize)
        } else {
            rest
        }
    }
}

/// Positions of the cards that `filter` shows, in order.
pub fn visible_positions(statuses: &[CardStatus], filter: CardFilter) -> (v: Vec<usize>)
    ensures
        v@ == matching_positions(statuses@, filter, statuses@.len()),
{
    let mut v: Vec<usize> = Vec::new();
    let mut i: usize = 0;
    while i < statuses.len()
        invariant
            i <= statuses@.len(),
            v@ == matching_positions(statuses@, filter, i as nat),
        decreases statuses@.len() - i,
    {
        if matches_filter(statuses[i], filter) {
            v.push(i);
        }
        i = i + 1;
    }
    v
}

/// How many cards are drawn: the visible ones, capped by `limit` if set.
pub fn visible_card_count(limit: Option<usize>, visible: usize) -> (n: usize)
    ensures
        n == match limit {
            Some(l) => if l < visible { l } else { visible },
            None => visible,
        },
{
    match limit {
        Some(l) => if l < visible { l } else { visible },
        None => visible,
    }
}

/// How many grid slots are used: the drawn cards, plus the "add" card.
pub fn total_items(card_count: usize, show_add_card: bool) -> (n: usize)
    requires
        card_count < usize::MAX,
    ensures
        n == card_count + if show_add_card { 1int } else { 0int },
{
    if show_add_card {
        card_count + 1
    } else {
        card_count
    }
}

/// "N min ago" (at least 1) under an hour, "N hours ago" under a day, else
/// "N days ago"; "Never connected" without a last connection.
pub open spec fn relative_time_text(last_connected: Option<u64>, now: u64) -> Seq<char> {
    match last_connected {
        Some(t) => {
            let delta = elapsed_secs(t, now);
            if delta < 3600 {
                let mins = if delta / 60 >= 1 { delta / 60 } else { 1 };
                decimal(mins) + " min ago"@
            } else if delta < 86400 {
                decimal(delta / 3600) + " hours ago"@
            } else {
                decimal(delta / 86400) + " days ago"@
            }
        },
        None => "Never connected"@,
    }
}

/// How long ago a host was last used, seen at `now_secs`.
pub fn relative_last_connected(last_connected: Option<u64>, now_secs: u64) -> (s: String)
    ensures
        s@ == relative_time_text(last_connected, now_secs),
{
    match last_connected {
        Some(t) => {
            let delta = now_secs.saturating_sub(t);
            let mut s = String::new();
            if delta < 3600 {
                let mins = if delta / 60 >= 1 { delta / 60 } else { 1 };
                push_decimal(&mut s, mins);
                s.append(" min ago");
            } else if delta < 86400 {
                push_decimal(&mut s, delta / 3600);
                s.append(" hours ago");
            } else {
                push_decimal(&mut s, delta / 86400);
                s.append(" days ago");
            }
            assert(s@ =~= relative_time_text(last_connected, now_secs));
            s
        },
        None => String::from_str("Never connected"),
    }
}

/// How long ago a host was last used, by the wall clock.
pub fn relative_last_connected_now(last_connected: Option<u64>) -> (s: String)
    ensures
        exists|now: u64| s@ == relative_time_text(last_connected, now),
{
    let now = unix_time_secs();
    relative_last_connected(last_connected, now)
}

/// The time a host is ordered by: its last connection, else its creation.
pub open spec fn recency_key(s: SavedServer) -> u64 {
    match s.last_connected {
        Some(t) => t,
        None => s.created_at,
    }
}

/// Whether position `a` comes before position `b` in recency order: the
/// more recent first, ties keeping their order.
pub open spec fn comes_before(keys: Seq<u64>, a: int, b: int) -> bool {
    keys[a] > keys[b] || (keys[a] == keys[b] && a < b)
}

/// Whether `order` lists every position below `keys.len()` once, most
/// recent first, ties keeping their order.
pub open spec fn is_recency_order(keys: Seq<u64>, order: Seq<usize>) -> bool {
    &&& order.len() == keys.len()
    &&& forall|i: int| 0 <= i < order.len() ==> order[i] < keys.len()
    &&& forall|i: int, j: int| 0 <= i < j < order.len() ==> comes_before(keys, order[i] as int, order[j] as int)
}

/// The positions of `servers`, most recently used first; hosts with the
/// same time keep their order.
pub fn order_by_recency(servers: &[SavedServer]) -> (order: Vec<usize>)
    ensures
        is_recency_order(servers@.map_values(|s: SavedServer| recency_key(s)), order@),
{
    let ghost keys = servers@.map_values(|s: SavedServer| recency_key(s));
    let mut order: Vec<usize> = Vec::new();
    let mut k: usize = 0;
    while k < servers.len()
        invariant
            k <= servers@.len(),
            keys == servers@.map_values(|s: SavedServer| recency_key(s)),
            order@.len() == k,
            forall|i: int| 0 <= i < order@.len() ==> order@[i] < k,
            forall|i: int, j: int| 0 <= i < j < order@.len() ==> comes_before(keys, order@[i] as int, order@[j] as int),
        decreases servers@.len() - k,
    {
        let key = match servers[k].last_connected {
            Some(t) => t,
            None => servers[k].created_at,
        };
        assert(key == keys[k as int]);
        let mut p: usize = 0;
        while p < order.len()
            invariant
                k < servers@.len(),
                keys == servers@.map_values(|s: SavedServer| recency_key(s)),
                key == keys[k as int],
                p <= order@.len(),
                forall|i: int| 0 <= i < order@.len() ==> order@[i] < k,
                forall|i: int| 0 <= i < p ==> keys[order@[i] as int] >= key,
                forall|i: int, j: int| 0 <= i < j < order@.len() ==> comes_before(keys, order@[i] as int, order@[j] as int),
            ensures
                p <= order@.len(),
                p < order@.len() ==> keys[order@[p as int] as int] < key,
                forall|i: int| 0 <= i < p ==> keys[order@[i] as int] >= key,
            decreases order@.len() - p,
        {
            let o = order[p];
            let ok = match servers[o].last_connected {
                Some(t) => t,
                None => servers[o].created_at,
            };
            assert(ok == keys[o as int]);
            if ok < key {
                break;
            }
            p = p + 1;
        }
        let ghost old_order = order@;
        proof {
            assert forall|j: int| p <= j < old_order.len() implies keys[old_order[j] as int] < key by {
                if p < old_order.len() {
                    if j > p {
                        assert(comes_before(keys, old_order[p as int] as int, old_order[j] as int));
                    }
                }
            }
        }
        order.insert(p, k);
        proof {
            assert forall|i: int, j: int| 0 <= i < j < order@.len() implies comes_before(keys, order@[i] as int, order@[j] as int) by {
                if j < p {
                    assert(order@[i] == old_order[i] && order@[j] == old_order[j]);
                } else if j == p {
                    assert(order@[i] == old_order[i]);
                } else if i < p {
                    assert(order@[i] == old_order[i] && order@[j] == old_order[j - 1]);
                } else if i == p {
                    assert(order@[j] == old_order[j - 1]);
                } else {
                    assert(order@[i] == old_order[i - 1] && order@[j] == old_order[j - 1]);
                }
            }
        }
        k = k + 1;
    }
    order
}

/// The line under a card's address: "codec • WxH", the codec alone, or a
/// note that there was no session yet.
pub open spec fn spec_last_session_info(codec: Option<Seq<char>>, resolution: Option<(u32, u32)>) -> Seq<char> {
    match codec {
        Some(c) => match resolution {
            Some((w, h)) => c + " \u{2022} "@ + decimal(w as nat) + "x"@ + decimal(h as nat),
            None => c,
        },
        None => "No previous session details"@,
    }
}

/// What a card says about the last session with a host.
pub fn last_session_info(codec: &Option<String>, resolution: Option<(u32, u32)>) -> (s: String)
    ensures
        s@ == spec_last_session_info(
            match codec {
                Some(c) => Some(c@),
                None => None,
            },
            resolution,
        ),
{
    match codec {
        Some(c) => match resolution {
            Some((w, h)) => {
                let mut s = c.clone();
                s.append(" \u{2022} ");
                push_decimal(&mut s, w as u64);
                s.append("x");
                push_decimal(&mut s, h as u64);
                s
            },
            None => c.clone(),
        },
        None => String::from_str("No previous session details"),
    }
}

/// The profile chip of a card: the host's default profile, or "Default"
/// when it names none.
pub fn profile_chip_text(default_profile: &str) -> (s: String)
    ensures
        s@ == if default_profile@.len() == 0 { "Default"@ } else { default_profile@ },
{
    if default_profile.is_empty() {
        String::from_str("Default")
    } else {
        String::from_str(default_profile)
    }
}

/// Every host is shown under "All" and under exactly one other filter.
pub proof fn lemma_filters_partition(status: CardStatus)
    ensures
        spec_matches_filter(status, CardFilter::All),
        spec_matches_filter(status, CardFilter::Recent) as int + spec_matches_filter(status, CardFilter::Dormant) as int
            + spec_matches_filter(status, CardFilter::New) as int == 1,
{
}

/// A host is new exactly when it was never connected, and a connection
/// within the last week makes it recent at any later time inside that week.
pub proof fn lemma_status_by_age(last_connected: Option<u64>, now: u64)
    ensures
        (spec_card_status(last_connected, now) == CardStatus::New) <==> last_connected is None,
        last_connected matches Some(t) && t <= now && now - t <= WEEK_SECS ==> spec_card_status(last_connected, now)
            == CardStatus::Recent,
        last_connected matches Some(t) && now > t + WEEK_SECS ==> spec_card_status(last_connected, now)
            == CardStatus::Dormant,
{
}

/// Keyboard focus after Tab among `count` focusable widgets: the next one,
/// wrapping to the first; from no focus, the first. Nothing changes when
/// there is nothing to focus.
pub open spec fn spec_focus_after_tab(current: Option<usize>, count: nat) -> Option<usize> {
    if count == 0 {
        current
    } else {
        match current {
            None => Some(0usize),
            Some(i) => Some(((i + 1) % (count as int)) as usize),
        }
    }
}

/// Keyboard focus after Shift+Tab: the previous widget, wrapping to the
/// last; from no focus, the last.
pub open spec fn spec_focus_after_shift_tab(current: Option<usize>, count: nat) -> Option<usize> {
    if count == 0 {
        current
    } else {
        match current {
            None => Some((count - 1) as usize),
            Some(i) => if i == 0 {
                Some((count - 1) as usize)
            } else {
                Some((i - 1) as usize)
            },
        }
    }
}

pub fn focus_after_tab(current: Option<usize>, count: usize) -> (f: Option<usize>)
    requires
        current matches Some(i) ==> i < usize::MAX,
    ensures
        f == spec_focus_after_tab(current, count as nat),
{
    if count == 0 {
        current
    } else {
        match current {
            None => Some(0),
            Some(i) => Some((i + 1) % count),
        }
    }
}

pub fn focus_after_shift_tab(current: Option<usize>, count: usize) -> (f: Option<usize>)
    ensures
        f == spec_focus_after_shift_tab(current, count as nat),
{
    if count == 0 {
        current
    } else {
        match current {
            None => Some(count - 1),
            Some(i) => if i == 0 {
                Some(count - 1)
            } else {
                Some(i - 1)
            },
        }
    }
}

/// Which of two consecutive widget groups holds the focus: an index below
/// `first_count` focuses that widget of the first group, a larger one the
/// widget of the second group at the remaining offset.
pub fn split_focus(focused: Option<usize>, first_count: usize) -> (r: (Option<usize>, Option<usize>))
    ensures
        r == match focused {
            Some(i) => if i < first_count {
                (Some(i), None::<usize>)
            } else {
                (None::<usize>, Some((i - first_count) as usize))
            },
            None => (None::<usize>, None::<usize>),
        },
{
    match focused {
        Some(i) => if i < first_count {
            (Some(i), None)
        } else {
            (None, Some(i - first_count))
        },
        None => (None, None),
    }
}

/// Shift+Tab undoes Tab and Tab undoes Shift+Tab, for any focused widget.
pub proof fn lemma_tab_shift_tab_inverse(i: usize, count: nat)
    requires
        i < count,
        count <= usize::MAX,
    ensures
        spec_focus_after_shift_tab(spec_focus_after_tab(Some(i), count), count) == Some(i),
        spec_focus_after_tab(spec_focus_after_shift_tab(Some(i), count), count) == Some(i),
{
    if i + 1 < count {
        lemma_small_mod((i + 1) as nat, count);
    } else {
        assert((i + 1) % (count as int) == 0) by (nonlinear_arith)
            requires
                i + 1 == count,
                count > 0,
        ;
    }
    if i == 0 {
        assert(((count - 1) + 1) % (count as int) == 0) by (nonlinear_arith)
            requires
                count > 0,
        ;
    } else {
        lemma_small_mod(i as nat, count);
    }
}

/// Number of rows in the recent-connections list.
pub const MAX_RECENT: usize = 5;

/// The positions of the (at most five) most recently used hosts, most
/// recent first: the start of the recency order.
pub fn recent_positions(servers: &[SavedServer]) -> (r: Vec<usize>)
    ensures
        ({
            let keys = servers@.map_values(|s: SavedServer| recency_key(s));
            &&& r@.len() == if servers@.len() < MAX_RECENT { servers@.len() } else { MAX_RECENT as nat }
            &&& forall|i: int| 0 <= i < r@.len() ==> r@[i] < servers@.len()
            &&& forall|i: int, j: int| 0 <= i < j < r@.len() ==> comes_before(keys, r@[i] as int, r@[j] as int)
            &&& forall|p: usize, i: int|
                #![trigger r@.contains(p), r@[i]]
                p < servers@.len() && !r@.contains(p) && 0 <= i < r@.len() ==> comes_before(
                    keys,
                    r@[i] as int,
                    p as int,
                )
        }),
{
    let order = order_by_recency(servers);
    let ghost keys = servers@.map_values(|s: SavedServer| recency_key(s));
    let n = if order.len() < MAX_RECENT { order.len() } else { MAX_RECENT };
    let mut r: Vec<usize> = Vec::new();
    let mut i: usize = 0;
    while i < n
        invariant
            n <= order@.len(),
            i <= n,
            r@ == order@.subrange(0, i as int),
        decreases n - i,
    {
        r.push(order[i]);
        i = i + 1;
        assert(r@ =~= order@.subrange(0, i as int));
    }
    proof {
        lemma_recency_order_is_permutation(keys, order@);
        assert forall|p: usize, k: int|
            #![trigger r@.contains(p), r@[k]]
            p < servers@.len() && !r@.contains(p) && 0 <= k < r@.len() implies comes_before(
                keys,
                r@[k] as int,
                p as int,
            ) by {
            assert(order@.contains(p));
            let q = choose|q: int| 0 <= q < order@.len() && order@[q] == p;
            if q < n {
                assert(r@[q] == p);
                assert(r@.contains(p));
            }
            assert(k < q);
            assert(order@[k] == r@[k]);
        }
    }
    r
}

/// A recency order lists every position: each one below the length occurs.
pub proof fn lemma_recency_order_is_permutation(keys: Seq<u64>, order: Seq<usize>)
    requires
        is_recency_order(keys, order),
        keys.len() <= usize::MAX,
    ensures
        forall|p: usize| p < keys.len() ==> #[trigger] order.contains(p),
{
    // The entries are distinct (they are strictly ordered) and below the
    // length, so by counting they cover every position.
    assert forall|i: int, j: int| 0 <= i < j < order.len() implies order[i] != order[j] by {
        assert(comes_before(keys, order[i] as int, order[j] as int));
    }
    let s = order.to_set();
    order.unique_seq_to_set();
    assert forall|x: usize| s.contains(x) implies set_int_range_usize(keys.len()).contains(x) by {
        let q = choose|q: int| 0 <= q < order.len() && order[q] == x;
    }
    lemma_full_subset(s, keys.len());
    assert forall|p: usize| p < keys.len() implies #[trigger] order.contains(p) by {
        assert(set_int_range_usize(keys.len()).contains(p));
        assert(s.contains(p));
    }
}

/// The positions below `n`, as a set.
pub open spec fn set_int_range_usize(n: nat) -> Set<usize> {
    Set::new(|x: usize| x < n)
}

proof fn lemma_range_len(n: nat)
    requires
        n <= usize::MAX + 1,
    ensures
        set_int_range_usize(n).finite(),
        set_int_range_usize(n).len() == n,
    decreases n,
{
    if n == 0 {
        assert(set_int_range_usize(0) =~= Set::<usize>::empty());
    } else {
        lemma_range_len((n - 1) as nat);
        assert(set_int_range_usize(n) =~= set_int_range_usize((n - 1) as nat).insert((n - 1) as usize));
    }
}

proof fn lemma_full_subset(s: Set<usize>, n: nat)
    requires
        s.finite(),
        s.len() == n,
        n <= usize::MAX + 1,
        forall|x: usize| s.contains(x) ==> set_int_range_usize(n).contains(x),
    ensures
        forall|x: usize| set_int_range_usize(n).contains(x) ==> s.contains(x),
{
    lemma_range_len(n);
    assert(s.subset_of(set_int_range_usize(n)));
    if exists|x: usize| set_int_range_usize(n).contains(x) && !s.contains(x) {
        let x = choose|x: usize| set_int_range_usize(n).contains(x) && !s.contains(x);
        vstd::set_lib::lemma_len_subset(s, set_int_range_usize(n).remove(x));
    }
}

/// A left click on the launcher's navigation: a settings sub-section under
/// the pointer opens it, else a main tab, else the Settings entry; anything
/// else is ignored.
pub fn nav_click(section: Option<SettingsSection>, tab: Option<LauncherTab>, on_settings: bool) -> (r: EventResponse)
    ensures
        match section {
            Some(s) => r == EventResponse::Action(UiAction::OpenSettingsSection(s)),
            None => match tab {
                Some(t) => r == EventResponse::Action(UiAction::OpenLauncherTab(t)),
                None => if on_settings {
                    r == EventResponse::Action(UiAction::OpenLauncherTab(LauncherTab::Settings))
                } else {
                    r is Ignored
                },
            },
        },
{
    match section {
        Some(s) => EventResponse::Action(UiAction::OpenSettingsSection(s)),
        None => match tab {
            Some(t) => EventResponse::Action(UiAction::OpenLauncherTab(t)),
            None => if on_settings {
                EventResponse::Action(UiAction::OpenLauncherTab(LauncherTab::Settings))
            } else {
                EventResponse::Ignored
            },
        },
    }
}

} // verus!
