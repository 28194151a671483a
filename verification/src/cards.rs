//! Server cards and the saved-hosts grid: what a card shows of a saved
//! host, how the grid orders, filters and counts its cards, and what a
//! mouse press does once the caller has found what lies under the pointer.

use vstd::prelude::*;
use crate::launcher::{
    card_status, is_recency_order, last_session_info, matching_positions,
    order_by_recency, profile_chip_text, recency_key, spec_card_status, spec_last_session_info,
    visible_card_count, visible_positions, CardFilter, CardLayoutMode, CardStatus, GridMode,
};
use crate::platform::unix_time_secs;
use crate::servers::SavedServer;
use crate::widgets::{EventResponse, MouseButton, UiAction};

verus! {

/// Where on a card a mouse press falls: on one of its three buttons,
/// elsewhere on the card, or outside it.
#[derive(Debug, Clone, Copy, PartialEq, Eq, Structural)]
pub enum CardSpot {
    Connect,
    Edit,
    Delete,
    Body,
    Outside,
}

/// What a press on a card answers: with the left button, its connect
/// button (or the card itself) connects to the host and its edit and
/// delete buttons ask for that; with the right button anywhere on the card
/// it asks to edit the host; anything else is ignored.
pub open spec fn card_press_response(
    r: EventResponse,
    id: u128,
    address: Seq<char>,
    spot: CardSpot,
    button: MouseButton,
) -> bool {
    if spot == CardSpot::Outside {
        r is Ignored
    } else {
        match button {
            MouseButton::Left => match spot {
                CardSpot::Edit => r matches EventResponse::Action(UiAction::EditServer(i)) && i == id,
                CardSpot::Delete => r matches EventResponse::Action(UiAction::DeleteServer(i)) && i
                    == id,
                _ => r matches EventResponse::Action(UiAction::Connect { address: a, noise_key: None })
                    && a@ == address,
            },
            MouseButton::Right => r matches EventResponse::Action(UiAction::EditServer(i)) && i == id,
            MouseButton::Middle => r is Ignored,
        }
    }
}

/// Whether a press on a card is ignored by it.
pub open spec fn card_ignores(spot: CardSpot, button: MouseButton) -> bool {
    spot == CardSpot::Outside || button == MouseButton::Middle
}

/// The card layout that goes with a grid layout.
pub open spec fn card_mode_for(mode: GridMode) -> CardLayoutMode {
    match mode {
        GridMode::Grid => CardLayoutMode::Card,
        GridMode::Rows => CardLayoutMode::Row,
    }
}

fn card_mode(mode: GridMode) -> (m: CardLayoutMode)
    ensures
        m == card_mode_for(mode),
{
    match mode {
        GridMode::Grid => CardLayoutMode::Card,
        GridMode::Rows => CardLayoutMode::Row,
    }
}

/// One saved host as a card: its identity, name and address, the profile
/// chip, the time of the last connection, the line about the last session,
/// its accent colour, its layout and its place in the grid (from 1).
pub struct ServerCard {
    server_id: u128,
    display_name: String,
    address: String,
    last_profile: String,
    last_connected: Option<u64>,
    last_info: String,
    accent_color: [u8; 3],
    layout_mode: CardLayoutMode,
    index: Option<usize>,
}

impl ServerCard {
    pub closed spec fn spec_id(&self) -> u128 {
        self.server_id
    }

    pub closed spec fn spec_name(&self) -> Seq<char> {
        self.display_name@
    }

    pub closed spec fn spec_address(&self) -> Seq<char> {
        self.address@
    }

    pub closed spec fn spec_profile(&self) -> Seq<char> {
        self.last_profile@
    }

    pub closed spec fn spec_last_connected(&self) -> Option<u64> {
        self.last_connected
    }

    pub closed spec fn spec_info(&self) -> Seq<char> {
        self.last_info@
    }

    pub closed spec fn spec_accent(&self) -> Seq<u8> {
        self.accent_color@
    }

    pub closed spec fn spec_mode(&self) -> CardLayoutMode {
        self.layout_mode
    }

    pub closed spec fn spec_index(&self) -> Option<usize> {
        self.index
    }

    /// Whether the card shows saved host `s`: its id, name, address,
    /// default profile ("Default" when it names none), last connection,
    /// last session and accent colour.
    pub open spec fn shows(&self, s: SavedServer) -> bool {
        &&& self.spec_id() == s.id
        &&& self.spec_name() == s.display_name@
        &&& self.spec_address() == s.address@
        &&& self.spec_profile() == if s.default_profile@.len() == 0 {
            "Default"@
        } else {
            s.default_profile@
        }
        &&& self.spec_last_connected() == s.last_connected
        &&& self.spec_info() == spec_last_session_info(
            match s.last_codec {
                Some(c) => Some(c@),
                None => None,
            },
            s.last_resolution,
        )
        &&& self.spec_accent() == s.accent_color@
    }

    /// Whether two cards show the same host in the same way, apart from
    /// layout and place.
    pub open spec fn same_host(&self, other: &ServerCard) -> bool {
        &&& self.spec_id() == other.spec_id()
        &&& self.spec_name() == other.spec_name()
        &&& self.spec_address() == other.spec_address()
        &&& self.spec_profile() == other.spec_profile()
        &&& self.spec_last_connected() == other.spec_last_connected()
        &&& self.spec_info() == other.spec_info()
        &&& self.spec_accent() == other.spec_accent()
    }

    /// The card of a saved host, laid out as a card, with no place yet.
    pub fn from_saved(server: &SavedServer) -> (c: ServerCard)
        ensures
            c.shows(*server),
            c.spec_mode() == CardLayoutMode::Card,
            c.spec_index() is None,
    {
        ServerCard {
            server_id: server.id,
            display_name: server.display_name.clone(),
            address: server.address.clone(),
            last_profile: profile_chip_text(server.default_profile.as_str()),
            last_connected: server.last_connected,
            last_info: last_session_info(&server.last_codec, server.last_resolution),
            accent_color: server.accent_color,
            layout_mode: CardLayoutMode::Card,
            index: None,
        }
    }

    /// The same card at place `index`.
    pub fn with_index(self, index: usize) -> (c: ServerCard)
        ensures
            c.same_host(&self),
            c.spec_mode() == self.spec_mode(),
            c.spec_index() == Some(index),
    {
        ServerCard { index: Some(index), ..self }
    }

    /// The same card with layout `mode`.
    pub fn with_layout_mode(self, mode: CardLayoutMode) -> (c: ServerCard)
        ensures
            c.same_host(&self),
            c.spec_mode() == mode,
            c.spec_index() == self.spec_index(),
    {
        ServerCard { layout_mode: mode, ..self }
    }

    pub fn set_layout_mode(&mut self, mode: CardLayoutMode)
        ensures
            final(self).same_host(old(self)),
            final(self).spec_mode() == mode,
            final(self).spec_index() == old(self).spec_index(),
    {
        self.layout_mode = mode;
    }

    pub fn id(&self) -> (i: u128)
        ensures
            i == self.spec_id(),
    {
        self.server_id
    }

    pub fn display_name(&self) -> (s: &str)
        ensures
            s@ == self.spec_name(),
    {
        self.display_name.as_str()
    }

    pub fn address(&self) -> (s: &str)
        ensures
            s@ == self.spec_address(),
    {
        self.address.as_str()
    }

    pub fn last_profile(&self) -> (s: &str)
        ensures
            s@ == self.spec_profile(),
    {
        self.last_profile.as_str()
    }

    pub fn last_info(&self) -> (s: &str)
        ensures
            s@ == self.spec_info(),
    {
        self.last_info.as_str()
    }

    pub fn last_connected(&self) -> (t: Option<u64>)
        ensures
            t == self.spec_last_connected(),
    {
        self.last_connected
    }

    pub fn accent_color(&self) -> (c: [u8; 3])
        ensures
            c@ == self.spec_accent(),
    {
        self.accent_color
    }

    pub fn layout_mode(&self) -> (m: CardLayoutMode)
        ensures
            m == self.spec_mode(),
    {
        self.layout_mode
    }

    pub fn index(&self) -> (i: Option<usize>)
        ensures
            i == self.spec_index(),
    {
        self.index
    }

    /// The host's status at `now` (Unix seconds).
    pub fn status(&self, now: u64) -> (s: CardStatus)
        ensures
            s == spec_card_status(self.spec_last_connected(), now),
    {
        card_status(self.last_connected, now)
    }

    /// What a mouse press at `spot` with `button` does.
    pub fn press(&self, spot: CardSpot, button: MouseButton) -> (r: EventResponse)
        ensures
            card_press_response(r, self.spec_id(), self.spec_address(), spot, button),
    {
        if spot == CardSpot::Outside {
            return EventResponse::Ignored;
        }
        match button {
            MouseButton::Left => match spot {
                CardSpot::Edit => EventResponse::Action(UiAction::EditServer(self.server_id)),
                CardSpot::Delete => EventResponse::Action(UiAction::DeleteServer(self.server_id)),
                _ => EventResponse::Action(
                    UiAction::Connect { address: self.address.clone(), noise_key: None },
                ),
            },
            MouseButton::Right => EventResponse::Action(UiAction::EditServer(self.server_id)),
            MouseButton::Middle => EventResponse::Ignored,
        }
    }
}

/// The statuses of `cards` at `now`.
pub open spec fn statuses_at(cards: Seq<ServerCard>, now: u64) -> Seq<CardStatus> {
    cards.map_values(|c: ServerCard| spec_card_status(c.spec_last_connected(), now))
}

/// The times by which saved hosts are ordered.
pub open spec fn server_keys(servers: Seq<SavedServer>) -> Seq<u64> {
    servers.map_values(|s: SavedServer| recency_key(s))
}

/// Whether `c` shows host `s` laid out as `mode` at place `place`.
pub open spec fn card_at_place(c: ServerCard, s: SavedServer, mode: CardLayoutMode, place: int) -> bool {
    &&& c.shows(s)
    &&& c.spec_mode() == mode
    &&& c.spec_index() == Some(place as usize)
}

/// Whether `c` is card `before` with layout `mode`.
pub open spec fn relaid(c: ServerCard, before: ServerCard, mode: CardLayoutMode) -> bool {
    &&& c.same_host(&before)
    &&& c.spec_index() == before.spec_index()
    &&& c.spec_mode() == mode
}

/// Whether `cards` show `servers` most recently used first (ties in their
/// saved order), numbered from 1 and laid out as `mode`.
pub open spec fn cards_show_in_recency_order(
    cards: Seq<ServerCard>,
    servers: Seq<SavedServer>,
    mode: CardLayoutMode,
) -> bool {
    exists|order: Seq<usize>|
        #![trigger is_recency_order(server_keys(servers), order)]
        {
            &&& is_recency_order(server_keys(servers), order)
            &&& cards.len() == order.len()
            &&& forall|i: int|
                0 <= i < cards.len() ==> #[trigger] card_at_place(cards[i], servers[order[i] as int], mode, i + 1)
        }
}

/// The saved-hosts grid: its cards in recency order, the active filter,
/// an optional cap on the cards drawn, whether the "add" card and the
/// filter chips are shown, and grid or row layout.
pub struct CardGrid {
    cards: Vec<ServerCard>,
    active_filter: CardFilter,
    visible_limit: Option<usize>,
    show_add_card: bool,
    show_filters: bool,
    layout_mode: GridMode,
}

impl CardGrid {
    pub closed spec fn spec_cards(&self) -> Seq<ServerCard> {
        self.cards@
    }

    pub closed spec fn spec_filter(&self) -> CardFilter {
        self.active_filter
    }

    pub closed spec fn spec_limit(&self) -> Option<usize> {
        self.visible_limit
    }

    pub closed spec fn spec_add_card(&self) -> bool {
        self.show_add_card
    }

    pub closed spec fn spec_filters_shown(&self) -> bool {
        self.show_filters
    }

    pub closed spec fn spec_mode(&self) -> GridMode {
        self.layout_mode
    }

    /// Positions (into the cards) of the cards the filter shows at `now`.
    pub open spec fn shown_at(&self, now: u64) -> Seq<usize> {
        matching_positions(
            statuses_at(self.spec_cards(), now),
            self.spec_filter(),
            self.spec_cards().len(),
        )
    }

    /// How many cards are drawn at `now`: those shown, capped by the limit.
    pub open spec fn drawn_at(&self, now: u64) -> nat {
        let shown = self.shown_at(now).len();
        match self.spec_limit() {
            Some(l) => if (l as nat) < shown { l as nat } else { shown },
            None => shown,
        }
    }

    /// Whether everything but the cards is as in `other`.
    pub open spec fn same_settings(&self, other: &CardGrid) -> bool {
        &&& self.spec_filter() == other.spec_filter()
        &&& self.spec_limit() == other.spec_limit()
        &&& self.spec_add_card() == other.spec_add_card()
        &&& self.spec_filters_shown() == other.spec_filters_shown()
        &&& self.spec_mode() == other.spec_mode()
    }

    /// An empty grid: filter "All", no cap, the "add" card shown, the
    /// filter chips hidden, grid layout.
    pub fn new() -> (g: CardGrid)
        ensures
            g.spec_cards().len() == 0,
            g.spec_filter() == CardFilter::All,
            g.spec_limit() is None,
            g.spec_add_card(),
            !g.spec_filters_shown(),
            g.spec_mode() == GridMode::Grid,
    {
        CardGrid {
            cards: Vec::new(),
            active_filter: CardFilter::All,
            visible_limit: None,
            show_add_card: true,
            show_filters: false,
            layout_mode: GridMode::Grid,
        }
    }

    /// Show `servers`, most recently used first.
    pub fn set_servers(&mut self, servers: &[SavedServer])
        ensures
            final(self).same_settings(old(self)),
            cards_show_in_recency_order(final(self).spec_cards(), servers@, card_mode_for(old(self).spec_mode())),
    {
        let order = order_by_recency(servers);
        let ghost keys = servers@.map_values(|s: SavedServer| recency_key(s));
        let mode = card_mode(self.layout_mode);
        let mut cards: Vec<ServerCard> = Vec::new();
        let mut i: usize = 0;
        while i < order.len()
            invariant
                is_recency_order(keys, order@),
                keys == servers@.map_values(|s: SavedServer| recency_key(s)),
                i <= order@.len(),
                cards@.len() == i,
                mode == card_mode_for(self.layout_mode),
                forall|j: int|
                    0 <= j < i ==> #[trigger] card_at_place(cards@[j], servers@[order@[j] as int], mode, j + 1),
            decreases order@.len() - i,
        {
            let p = order[i];
            let card = ServerCard::from_saved(&servers[p]).with_layout_mode(mode).with_index(i + 1);
            let ghost before = cards@;
            cards.push(card);
            proof {
                assert(cards@[i as int] == card);
                assert(card.shows(servers@[order@[i as int] as int]));
                assert(card.spec_mode() == mode);
                assert(card.spec_index() == Some((i + 1) as usize));
                assert forall|j: int| 0 <= j < i implies cards@[j] == before[j] by {}
                assert forall|j: int| 0 <= j < i + 1 implies #[trigger] card_at_place(
                    cards@[j],
                    servers@[order@[j] as int],
                    mode,
                    j + 1,
                ) by {
                    if j < i {
                        assert(cards@[j] == before[j]);
                    }
                }
            }
            i = i + 1;
        }
        self.cards = cards;
        assert(is_recency_order(server_keys(servers@), order@));
        assert(cards@.len() == order@.len());
        assert(forall|j: int|
            0 <= j < cards@.len() ==> #[trigger] card_at_place(
                cards@[j],
                servers@[order@[j] as int],
                card_mode_for(old(self).spec_mode()),
                j + 1,
            ));
    }

    /// Lay the grid out as `mode`; its cards follow.
    pub fn set_layout_mode(&mut self, mode: GridMode)
        ensures
            final(self).spec_mode() == mode,
            final(self).spec_filter() == old(self).spec_filter(),
            final(self).spec_limit() == old(self).spec_limit(),
            final(self).spec_add_card() == old(self).spec_add_card(),
            final(self).spec_filters_shown() == old(self).spec_filters_shown(),
            final(self).spec_cards().len() == old(self).spec_cards().len(),
            mode != old(self).spec_mode() ==> forall|i: int|
                0 <= i < final(self).spec_cards().len() ==> #[trigger] relaid(
                    final(self).spec_cards()[i],
                    old(self).spec_cards()[i],
                    card_mode_for(mode),
                ),
            mode == old(self).spec_mode() ==> final(self).spec_cards() == old(self).spec_cards(),
    {
        if self.layout_mode != mode {
            self.layout_mode = mode;
            let m = card_mode(mode);
            let mut i: usize = 0;
            while i < self.cards.len()
                invariant
                    i <= self.cards@.len(),
                    self.cards@.len() == old(self).cards@.len(),
                    self.layout_mode == mode,
                    mode != old(self).layout_mode,
                    m == card_mode_for(mode),
                    self.active_filter == old(self).active_filter,
                    self.visible_limit == old(self).visible_limit,
                    self.show_add_card == old(self).show_add_card,
                    self.show_filters == old(self).show_filters,
                    forall|j: int| 0 <= j < i ==> #[trigger] relaid(self.cards@[j], old(self).cards@[j], m),
                    forall|j: int| i <= j < self.cards@.len() ==> #[trigger] self.cards@[j] == old(self).cards@[j],
                decreases self.cards@.len() - i,
            {
                let ghost prev = self.cards@;
                let mut card = self.cards.remove(i);
                card.set_layout_mode(m);
                self.cards.insert(i, card);
                proof {
                    assert(self.cards@ =~= prev.update(i as int, card));
                    assert forall|j: int| 0 <= j < i + 1 implies #[trigger] relaid(self.cards@[j], old(self).cards@[j], m) by {
                        if j < i {
                            assert(self.cards@[j] == prev[j]);
                        }
                    }
                    assert forall|j: int| i + 1 <= j < self.cards@.len() implies #[trigger] self.cards@[j] == old(self).cards@[j] by {
                        assert(self.cards@[j] == prev[j]);
                    }
                }
                i = i + 1;
            }
        }
    }

    pub fn set_visible_limit(&mut self, limit: Option<usize>)
        ensures
            final(self).spec_limit() == limit,
            final(self).spec_cards() == old(self).spec_cards(),
            final(self).spec_filter() == old(self).spec_filter(),
            final(self).spec_add_card() == old(self).spec_add_card(),
            final(self).spec_filters_shown() == old(self).spec_filters_shown(),
            final(self).spec_mode() == old(self).spec_mode(),
    {
        self.visible_limit = limit;
    }

    pub fn set_show_add_card(&mut self, show_add_card: bool)
        ensures
            final(self).spec_add_card() == show_add_card,
            final(self).spec_cards() == old(self).spec_cards(),
            final(self).spec_filter() == old(self).spec_filter(),
            final(self).spec_limit() == old(self).spec_limit(),
            final(self).spec_filters_shown() == old(self).spec_filters_shown(),
            final(self).spec_mode() == old(self).spec_mode(),
    {
        self.show_add_card = show_add_card;
    }

    pub fn set_show_filters(&mut self, show_filters: bool)
        ensures
            final(self).spec_filters_shown() == show_filters,
            final(self).spec_cards() == old(self).spec_cards(),
            final(self).spec_filter() == old(self).spec_filter(),
            final(self).spec_limit() == old(self).spec_limit(),
            final(self).spec_add_card() == old(self).spec_add_card(),
            final(self).spec_mode() == old(self).spec_mode(),
    {
        self.show_filters = show_filters;
    }

    /// Back to the "All" filter.
    pub fn reset_filter(&mut self)
        ensures
            final(self).spec_filter() == CardFilter::All,
            final(self).spec_cards() == old(self).spec_cards(),
            final(self).spec_limit() == old(self).spec_limit(),
            final(self).spec_add_card() == old(self).spec_add_card(),
            final(self).spec_filters_shown() == old(self).spec_filters_shown(),
            final(self).spec_mode() == old(self).spec_mode(),
    {
        self.active_filter = CardFilter::All;
    }

    pub fn active_filter(&self) -> (f: CardFilter)
        ensures
            f == self.spec_filter(),
    {
        self.active_filter
    }

    pub fn cards(&self) -> (c: &[ServerCard])
        ensures
            c@ == self.spec_cards(),
    {
        self.cards.as_slice()
    }

    /// Positions of the cards the filter shows at `now` (Unix seconds).
    pub fn visible_indices(&self, now: u64) -> (v: Vec<usize>)
        ensures
            v@ == self.shown_at(now),
    {
        let mut statuses: Vec<CardStatus> = Vec::new();
        let mut i: usize = 0;
        while i < self.cards.len()
            invariant
                i <= self.cards@.len(),
                statuses@ == statuses_at(self.cards@, now).subrange(0, i as int),
            decreases self.cards@.len() - i,
        {
            statuses.push(self.cards[i].status(now));
            i = i + 1;
            assert(statuses@ =~= statuses_at(self.cards@, now).subrange(0, i as int));
        }
        assert(statuses@ =~= statuses_at(self.cards@, now));
        visible_positions(statuses.as_slice(), self.active_filter)
    }

    /// Positions of the cards the filter shows now, by the wall clock.
    pub fn visible_indices_now(&self) -> (v: Vec<usize>)
        ensures
            exists|now: u64| v@ == #[trigger] self.shown_at(now),
    {
        let now = unix_time_secs();
        self.visible_indices(now)
    }

    /// How many cards are drawn at `now`.
    pub fn visible_card_count(&self, now: u64) -> (n: usize)
        ensures
            n == self.drawn_at(now),
    {
        let v = self.visible_indices(now);
        visible_card_count(self.visible_limit, v.len())
    }

    /// A mouse press. With the left button, the floating "add" button
    /// (present with the filter chips) asks to add a host; a filter chip
    /// (present with them) becomes the active filter and consumes the
    /// press; the "add" card, when shown, asks to add a host. Otherwise the
    /// `k`-th drawn card answers when `slot` names it and it does not
    /// ignore the press; anything else is ignored.
    pub fn press(
        &mut self,
        button: MouseButton,
        on_fab: bool,
        chip: Option<CardFilter>,
        on_add_card: bool,
        slot: Option<(usize, CardSpot)>,
        now: u64,
    ) -> (r: EventResponse)
        ensures
            final(self).spec_cards() == old(self).spec_cards(),
            final(self).spec_limit() == old(self).spec_limit(),
            final(self).spec_add_card() == old(self).spec_add_card(),
            final(self).spec_filters_shown() == old(self).spec_filters_shown(),
            final(self).spec_mode() == old(self).spec_mode(),
            ({
                let left = button == MouseButton::Left;
                let filters = old(self).spec_filters_shown();
                if left && filters && on_fab {
                    &&& r matches EventResponse::Action(UiAction::AddServer)
                    &&& final(self).spec_filter() == old(self).spec_filter()
                } else if left && filters && chip is Some {
                    &&& r is Consumed
                    &&& final(self).spec_filter() == chip->0
                } else if left && old(self).spec_add_card() && on_add_card {
                    &&& r matches EventResponse::Action(UiAction::AddServer)
                    &&& final(self).spec_filter() == old(self).spec_filter()
                } else {
                    &&& final(self).spec_filter() == old(self).spec_filter()
                    &&& match slot {
                        Some((k, spot)) => if (k as nat) < old(self).drawn_at(now) && !card_ignores(
                            spot,
                            button,
                        ) {
                            let card = old(self).spec_cards()[old(self).shown_at(now)[k as int] as int];
                            card_press_response(r, card.spec_id(), card.spec_address(), spot, button)
                        } else {
                            r is Ignored
                        },
                        None => r is Ignored,
                    }
                }
            }),
    {
        let left = button == MouseButton::Left;
        if left && self.show_filters && on_fab {
            return EventResponse::Action(UiAction::AddServer);
        }
        if left && self.show_filters {
            match chip {
                Some(f) => {
                    self.active_filter = f;
                    return EventResponse::Consumed;
                },
                None => {},
            }
        }
        if left && self.show_add_card && on_add_card {
            return EventResponse::Action(UiAction::AddServer);
        }
        match slot {
            Some((k, spot)) => {
                let shown = self.visible_indices(now);
                let drawn = visible_card_count(self.visible_limit, shown.len());
                if k < drawn && !(spot == CardSpot::Outside || button == MouseButton::Middle) {
                    proof {
                        lemma_matching_positions_below(
                            statuses_at(self.cards@, now),
                            self.active_filter,
                            self.cards@.len(),
                        );
                    }
                    let p = shown[k];
                    self.cards[p].press(spot, button)
                } else {
                    EventResponse::Ignored
                }
            },
            None => EventResponse::Ignored,
        }
    }
}

/// Every position that a filter shows is below the count it was taken
/// over.
pub proof fn lemma_matching_positions_below(statuses: Seq<CardStatus>, filter: CardFilter, n: nat)
    ensures
        forall|i: int|
            0 <= i < matching_positions(statuses, filter, n).len() ==> #[trigger] matching_positions(
                statuses,
                filter,
                n,
            )[i] < n,
    decreases n,
{
    if n > 0 {
        let rest = matching_positions(statuses, filter, (n - 1) as nat);
        lemma_matching_positions_below(statuses, filter, (n - 1) as nat);
        assert forall|i: int| 0 <= i < matching_positions(statuses, filter, n).len() implies #[trigger] matching_positions(
            statuses,
            filter,
            n,
        )[i] < n by {
            if i < rest.len() {
                assert(matching_positions(statuses, filter, n)[i] == rest[i]);
            }
        }
    }
}

} // verus!
