use prism_client::cards::{CardGrid, CardSpot, ServerCard};
use prism_client::launcher::{CardFilter, CardLayoutMode, CardStatus, GridMode};
use prism_client::servers::SavedServer;
use prism_client::widgets::{EventResponse, MouseButton, UiAction};

const NOW: u64 = 1_700_000_000;

fn make_server() -> SavedServer {
    let mut server = SavedServer::with_identity(0x42, NOW - 86_400, "Test Server", "192.168.1.10:4000");
    server.last_connected = Some(NOW - 60 * 60);
    server.default_profile = "Gaming".to_string();
    server
}

fn make_at(id: u128, name: &str, address: &str, connected_ago: Option<u64>) -> SavedServer {
    let mut server = SavedServer::with_identity(id, NOW - 100 * 86_400, name, address);
    server.last_connected = connected_ago.map(|ago| NOW - ago);
    server
}

fn make_servers() -> Vec<SavedServer> {
    vec![
        make_at(1, "Recent", "10.0.0.1:4000", Some(60 * 30)),
        make_at(2, "Dormant", "10.0.0.2:4000", Some(10 * 24 * 60 * 60)),
        make_at(3, "New", "10.0.0.3:4000", None),
    ]
}

#[test]
fn card_from_saved() {
    let server = make_server();
    let card = ServerCard::from_saved(&server);
    assert_eq!(card.display_name(), "Test Server");
    assert_eq!(card.status(NOW), CardStatus::Recent);
    assert_eq!(card.address(), "192.168.1.10:4000");
    assert_eq!(card.last_profile(), "Gaming");
    assert_eq!(card.last_info(), "No previous session details");
    assert_eq!(card.id(), 0x42);
    assert_eq!(card.accent_color(), server.accent_color);
    assert_eq!(card.layout_mode(), CardLayoutMode::Card);
    assert_eq!(card.index(), None);
}

#[test]
fn card_shows_default_profile_and_session() {
    let mut server = make_server();
    server.default_profile = String::new();
    server.last_codec = Some("H264".to_string());
    server.last_resolution = Some((1920, 1080));
    let card = ServerCard::from_saved(&server).with_index(3).with_layout_mode(CardLayoutMode::Row);
    assert_eq!(card.last_profile(), "Default");
    assert_eq!(card.last_info(), "H264 \u{2022} 1920x1080");
    assert_eq!(card.index(), Some(3));
    assert_eq!(card.layout_mode(), CardLayoutMode::Row);
}

#[test]
fn card_click_connects() {
    let server = make_server();
    let address = server.address.clone();
    let card = ServerCard::from_saved(&server);
    match card.press(CardSpot::Body, MouseButton::Left) {
        EventResponse::Action(UiAction::Connect { address: a, noise_key }) => {
            assert_eq!(a, address);
            assert!(noise_key.is_none());
        }
        other => panic!("expected Connect action, got {:?}", other),
    }
    assert!(matches!(
        card.press(CardSpot::Connect, MouseButton::Left),
        EventResponse::Action(UiAction::Connect { .. })
    ));
}

#[test]
fn edit_button_returns_edit_action() {
    let server = make_server();
    let server_id = server.id;
    let card = ServerCard::from_saved(&server);
    let resp = card.press(CardSpot::Edit, MouseButton::Left);
    assert!(matches!(resp, EventResponse::Action(UiAction::EditServer(id)) if id == server_id));
}

#[test]
fn delete_button_returns_delete_action() {
    let server = make_server();
    let server_id = server.id;
    let card = ServerCard::from_saved(&server);
    let resp = card.press(CardSpot::Delete, MouseButton::Left);
    assert!(matches!(resp, EventResponse::Action(UiAction::DeleteServer(id)) if id == server_id));
}

#[test]
fn card_right_click_edits_and_others_ignored() {
    let card = ServerCard::from_saved(&make_server());
    for spot in [CardSpot::Body, CardSpot::Connect, CardSpot::Delete] {
        assert!(matches!(card.press(spot, MouseButton::Right), EventResponse::Action(UiAction::EditServer(0x42))));
    }
    assert!(matches!(card.press(CardSpot::Body, MouseButton::Middle), EventResponse::Ignored));
    assert!(matches!(card.press(CardSpot::Outside, MouseButton::Left), EventResponse::Ignored));
}

#[test]
fn empty_grid_has_add_card() {
    let mut grid = CardGrid::new();
    assert_eq!(grid.visible_card_count(NOW), 0);
    assert!(matches!(grid.press(MouseButton::Left, false, None, true, None, NOW), EventResponse::Action(UiAction::AddServer)));
}

#[test]
fn grid_orders_and_numbers_cards() {
    let mut grid = CardGrid::new();
    grid.set_servers(&make_servers());
    let names: Vec<&str> = grid.cards().iter().map(|c| c.display_name()).collect();
    // Most recently used first; never-used hosts go by their creation time.
    assert_eq!(names, vec!["Recent", "Dormant", "New"]);
    let places: Vec<Option<usize>> = grid.cards().iter().map(|c| c.index()).collect();
    assert_eq!(places, vec![Some(1), Some(2), Some(3)]);
    assert!(grid.cards().iter().all(|c| c.layout_mode() == CardLayoutMode::Card));
    // Three cards plus the "add" card fill four slots.
    assert_eq!(grid.visible_card_count(NOW), 3);

    grid.set_layout_mode(GridMode::Rows);
    assert!(grid.cards().iter().all(|c| c.layout_mode() == CardLayoutMode::Row));
    grid.set_servers(&make_servers());
    assert!(grid.cards().iter().all(|c| c.layout_mode() == CardLayoutMode::Row));
}

#[test]
fn grid_click_add() {
    let mut grid = CardGrid::new();
    let resp = grid.press(MouseButton::Left, false, None, true, None, NOW);
    assert!(matches!(resp, EventResponse::Action(UiAction::AddServer)));
}

#[test]
fn grid_can_limit_cards_and_hide_add_card() {
    let mut grid = CardGrid::new();
    grid.set_servers(&make_servers());
    grid.set_visible_limit(Some(2));
    grid.set_show_add_card(false);
    assert_eq!(grid.visible_card_count(NOW), 2);
    assert!(matches!(grid.press(MouseButton::Left, false, None, true, None, NOW), EventResponse::Ignored));
    // The third card is not drawn, so a press on its slot does nothing.
    assert!(matches!(
        grid.press(MouseButton::Left, false, None, false, Some((2, CardSpot::Body)), NOW),
        EventResponse::Ignored
    ));
}

#[test]
fn clicking_filter_updates_active_filter() {
    let mut grid = CardGrid::new();
    grid.set_servers(&make_servers());
    grid.set_show_filters(true);
    let resp = grid.press(MouseButton::Left, false, Some(CardFilter::Recent), false, None, NOW);
    assert!(matches!(resp, EventResponse::Consumed));
    assert_eq!(grid.active_filter(), CardFilter::Recent);
    assert_eq!(grid.visible_card_count(NOW), 1);
    assert_eq!(grid.visible_indices(NOW), vec![0]);

    grid.press(MouseButton::Left, false, Some(CardFilter::New), false, None, NOW);
    assert_eq!(grid.visible_indices(NOW), vec![2]);
    // The first drawn card is now the new host.
    match grid.press(MouseButton::Left, false, None, false, Some((0, CardSpot::Body)), NOW) {
        EventResponse::Action(UiAction::Connect { address, .. }) => assert_eq!(address, "10.0.0.3:4000"),
        other => panic!("expected Connect, got {other:?}"),
    }
    grid.reset_filter();
    assert_eq!(grid.active_filter(), CardFilter::All);
    assert_eq!(grid.visible_card_count(NOW), 3);
}

#[test]
fn grid_fab_and_hidden_chips() {
    let mut grid = CardGrid::new();
    grid.set_servers(&make_servers());
    // Without the chips there is no floating button and no chip to press.
    grid.set_show_add_card(false);
    assert!(matches!(grid.press(MouseButton::Left, true, Some(CardFilter::Dormant), false, None, NOW), EventResponse::Ignored));
    assert_eq!(grid.active_filter(), CardFilter::All);
    grid.set_show_filters(true);
    assert!(matches!(grid.press(MouseButton::Left, true, None, false, None, NOW), EventResponse::Action(UiAction::AddServer)));
    // A right press on a card edits it; chips only answer the left button.
    assert!(matches!(
        grid.press(MouseButton::Right, false, Some(CardFilter::New), false, Some((1, CardSpot::Body)), NOW),
        EventResponse::Action(UiAction::EditServer(2))
    ));
    assert_eq!(grid.active_filter(), CardFilter::All);
}

#[test]
fn never_connected_hosts_are_new_by_the_clock() {
    let mut grid = CardGrid::new();
    grid.set_servers(&make_servers());
    grid.set_show_filters(true);
    grid.press(MouseButton::Left, false, Some(CardFilter::New), false, None, NOW);
    assert_eq!(grid.visible_indices_now(), vec![2]);
    grid.reset_filter();
    assert_eq!(grid.visible_indices_now().len(), 3);
}
