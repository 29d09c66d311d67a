use slot::transfer_menu::{status_ip, Opening, ServerInfo, TransferMenu, TransferStatus};

#[test]
fn the_address_follows_the_ip_marker() {
    assert_eq!(status_ip("Connected to Home | IP 192.168.1.20").as_deref(), Some("192.168.1.20"));
    assert_eq!(status_ip("Connected | IP 10.0.0.2 | IP 10.0.0.3").as_deref(), Some("10.0.0.2"));
    assert_eq!(status_ip("Not connected"), None);
    assert_eq!(status_ip(" | IP ").as_deref(), Some(""));
}

fn info() -> ServerInfo {
    ServerInfo { address: "192.168.1.20:8080".into(), pin: "4821".into() }
}

#[test]
fn an_offline_screen_says_to_connect_first() {
    let mut menu = TransferMenu::default();
    let before = menu.revision();
    menu.open(Opening::Offline, None);
    assert!(!menu.running());
    assert!(menu.revision() > before);
}

#[test]
fn a_running_server_reports_only_changes() {
    let mut menu = TransferMenu::default();
    menu.open(
        Opening::Started(info()),
        Some(TransferStatus { message: "Ready".into(), uploaded: 0 }),
    );
    assert!(menu.running());
    let r = menu.revision();
    menu.poll(Some(TransferStatus { message: "Ready".into(), uploaded: 0 }));
    assert_eq!(menu.revision(), r);
    menu.poll(Some(TransferStatus { message: "Ready".into(), uploaded: 1 }));
    assert_eq!(menu.revision(), r + 1);
    menu.stop();
    assert!(!menu.running());
    assert_eq!(menu.revision(), r + 2);
    menu.poll(Some(TransferStatus { message: "late".into(), uploaded: 9 }));
    assert_eq!(menu.revision(), r + 2);
}

#[test]
fn a_server_that_would_not_start_is_not_running() {
    let mut menu = TransferMenu::default();
    menu.open(Opening::Failed, None);
    assert!(!menu.running());
}

#[test]
fn an_open_that_starts_no_server_moves_the_revision_by_two() {
    let mut menu = TransferMenu::default();
    assert_eq!(menu.revision(), 1);
    menu.open(Opening::Offline, None);
    assert!(!menu.running());
    assert_eq!(menu.revision(), 3);
}

#[test]
fn an_open_whose_first_report_changes_the_screen_moves_it_by_three() {
    let mut menu = TransferMenu::default();
    menu.open(
        Opening::Started(info()),
        Some(TransferStatus { message: "Ready".into(), uploaded: 0 }),
    );
    assert_eq!(menu.revision(), 4);
    menu.open(
        Opening::Started(info()),
        Some(TransferStatus { message: "Ready".into(), uploaded: 0 }),
    );
    assert_eq!(menu.revision(), 6, "a first report that says the same is no change");
}
