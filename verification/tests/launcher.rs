use prism_client::launcher::{
    card_status_now, relative_last_connected_now,
    card_status, last_session_info, recent_positions, matches_filter, order_by_recency, profile_chip_text,
    relative_last_connected, total_items, visible_card_count, visible_positions, CardFilter,
    CardStatus, LauncherTab, SettingsSection, WEEK_SECS,
};
use prism_client::servers::SavedServer;
use prism_client::widgets::ChipTone;

#[test]
fn tab_labels_titles_and_subtitles() {
    assert_eq!(LauncherTab::Home.label(), "Home");
    assert_eq!(LauncherTab::SavedConnections.title(), "Saved Connections");
    assert_eq!(
        LauncherTab::Profiles.subtitle(),
        "Tune presets for gaming, coding, balanced work, and low-bandwidth sessions."
    );
    assert_eq!(LauncherTab::PRIMARY.len(), 3);
    assert_eq!(SettingsSection::IdentitySecurity.label(), "Identity & Security");
    assert_eq!(SettingsSection::ALL.len(), 5);
}

#[test]
fn filter_labels() {
    assert_eq!(CardFilter::All.label(12), "All Hosts (12)");
    assert_eq!(CardFilter::All.label(0), "All Hosts (0)");
    assert_eq!(CardFilter::Recent.label(12), "Recent");
    assert_eq!(CardFilter::Dormant.label(3), "Dormant");
    assert_eq!(CardFilter::New.label(3), "New");
}

#[test]
fn status_labels_and_tones() {
    assert_eq!(CardStatus::Recent.label(), "Recent");
    assert_eq!(CardStatus::Dormant.chip_tone(), ChipTone::Warning);
    assert_eq!(CardStatus::New.chip_tone(), ChipTone::Accent);
    assert_eq!(CardStatus::Recent.chip_tone(), ChipTone::Success);
}

#[test]
fn status_by_age() {
    let now = 10_000_000;
    assert_eq!(card_status(None, now), CardStatus::New);
    assert_eq!(card_status(Some(now), now), CardStatus::Recent);
    assert_eq!(card_status(Some(now - WEEK_SECS), now), CardStatus::Recent);
    assert_eq!(card_status(Some(now - WEEK_SECS - 1), now), CardStatus::Dormant);
    assert_eq!(card_status(Some(now + 50), now), CardStatus::Recent);
}

#[test]
fn filters_select_statuses() {
    assert!(matches_filter(CardStatus::Dormant, CardFilter::All));
    assert!(matches_filter(CardStatus::New, CardFilter::New));
    assert!(!matches_filter(CardStatus::New, CardFilter::Recent));
    let statuses = [CardStatus::New, CardStatus::Recent, CardStatus::New, CardStatus::Dormant];
    assert_eq!(visible_positions(&statuses, CardFilter::New), vec![0, 2]);
    assert_eq!(visible_positions(&statuses, CardFilter::All), vec![0, 1, 2, 3]);
    assert!(visible_positions(&[], CardFilter::Recent).is_empty());
}

#[test]
fn card_counts() {
    assert_eq!(visible_card_count(None, 7), 7);
    assert_eq!(visible_card_count(Some(3), 7), 3);
    assert_eq!(visible_card_count(Some(9), 7), 7);
    assert_eq!(total_items(3, true), 4);
    assert_eq!(total_items(3, false), 3);
}

#[test]
fn relative_times() {
    let now = 1_000_000;
    assert_eq!(relative_last_connected(None, now), "Never connected");
    assert_eq!(relative_last_connected(Some(now), now), "1 min ago");
    assert_eq!(relative_last_connected(Some(now - 59 * 60), now), "59 min ago");
    assert_eq!(relative_last_connected(Some(now - 3600), now), "1 hours ago");
    assert_eq!(relative_last_connected(Some(now - 86_399), now), "23 hours ago");
    assert_eq!(relative_last_connected(Some(now - 3 * 86_400), now), "3 days ago");
    assert_eq!(relative_last_connected(Some(now + 10), now), "1 min ago");
}

#[test]
fn session_info_line() {
    assert_eq!(last_session_info(&Some("H.264".to_string()), Some((1920, 1080))), "H.264 \u{2022} 1920x1080");
    assert_eq!(last_session_info(&Some("H.265".to_string()), None), "H.265");
    assert_eq!(last_session_info(&None, Some((1, 1))), "No previous session details");
}

#[test]
fn profile_chip() {
    assert_eq!(profile_chip_text(""), "Default");
    assert_eq!(profile_chip_text("Gaming"), "Gaming");
}

fn saved(id: u128, created_at: u64, last_connected: Option<u64>) -> SavedServer {
    let mut s = SavedServer::with_identity(id, created_at, "n", "a");
    s.last_connected = last_connected;
    s
}

#[test]
fn recency_order_most_recent_first_ties_stable() {
    let servers = vec![
        saved(1, 100, None),
        saved(2, 50, Some(500)),
        saved(3, 300, None),
        saved(4, 10, Some(100)),
        saved(5, 0, Some(500)),
    ];
    assert_eq!(order_by_recency(&servers), vec![1, 4, 2, 0, 3]);
    assert!(order_by_recency(&[]).is_empty());
}

#[test]
fn recent_list_keeps_five_most_recent() {
    let servers: Vec<SavedServer> = (0..7u64).map(|i| saved(i as u128, i * 10, None)).collect();
    assert_eq!(recent_positions(&servers), vec![6, 5, 4, 3, 2]);
    let two = vec![saved(1, 5, None), saved(2, 1, Some(50))];
    assert_eq!(recent_positions(&two), vec![1, 0]);
    assert!(recent_positions(&[]).is_empty());
}

#[test]
fn clock_based_status_and_time() {
    assert_eq!(card_status_now(None), CardStatus::New);
    assert_eq!(relative_last_connected_now(None), "Never connected");
    // A connection "now or later" is recent whatever the clock says.
    assert_eq!(card_status_now(Some(u64::MAX)), CardStatus::Recent);
    assert_eq!(relative_last_connected_now(Some(u64::MAX)), "1 min ago");
}

#[test]
fn recent_list_limits_to_five() {
    let now: u64 = 1_700_000_000;
    let servers: Vec<SavedServer> = (0..10u64).map(|i| saved(i as u128, 0, Some(now - i * 3600))).collect();
    let rows = recent_positions(&servers);
    assert_eq!(rows.len(), 5);
    assert_eq!(rows, vec![0, 1, 2, 3, 4]);
}
