use slot::input::btn::Btn;
use slot::wifi_menu::{
    validate, Network, Request, Security, WifiMenu, WifiSnapshot, KEYS, PASSWORD_MAX,
};

#[test]
fn keyboard_contains_every_printable_ascii_character() {
    for keys in KEYS {
        assert_eq!(keys.len(), 40);
    }
    for b in 32..=126u8 {
        assert!(KEYS.iter().any(|s| s.as_bytes().contains(&b)), "missing {b}");
    }
}

#[test]
fn password_keyboard_masks_input_and_b_cancels_before_leaving() {
    let mut menu = WifiMenu::default();
    menu.networks.push(Network {
        ssid: "Home".into(),
        signal: -30,
        security: Security::Personal,
    });
    menu.row = 4;
    menu.input(Btn::A);
    menu.input(Btn::A);
    assert_eq!(menu.password(), "a");
    menu.input(Btn::Y);
    menu.input(Btn::A);
    assert_eq!(menu.password(), "aA");
    menu.input(Btn::X);
    assert_eq!(menu.password(), "a");
    menu.input(Btn::Start);
    assert!(menu.status.contains("8-63"));
    assert!(!menu.input(Btn::B));
    assert!(menu.password().is_empty());
    assert!(menu.input(Btn::B));
}

fn home(security: Security) -> Network {
    Network { ssid: "Home".into(), signal: -40, security }
}

#[test]
fn a_passphrase_is_eight_to_sixty_three_characters() {
    let personal = home(Security::Personal);
    assert!(validate(&personal, "1234567").is_err());
    assert_eq!(validate(&personal, "12345678"), Ok(()));
    assert_eq!(validate(&personal, &"x".repeat(63)), Ok(()));
    assert_eq!(
        validate(&personal, &"x".repeat(64)),
        Err("Wi-Fi passwords are 8-63 characters".to_string())
    );
    assert_eq!(validate(&home(Security::Open), ""), Ok(()));
    assert_eq!(
        validate(&home(Security::Unsupported), "whatever1"),
        Err("This network's security is not supported".to_string())
    );
}

#[test]
fn without_a_worker_nothing_is_ever_queued() {
    let mut menu = WifiMenu::default();
    menu.open();
    menu.input(Btn::A);
    assert!(menu.take_request().is_none());
    assert_eq!(menu.row, 0);
}

#[test]
fn a_booted_worker_rejoins_the_saved_network() {
    let mut menu = WifiMenu::default();
    menu.boot(true, true);
    let out = menu.take_request().expect("a reconnect is queued");
    assert!(matches!(out.request, Request::Reconnect));
    assert_eq!(out.status, "Connecting to saved network...");
    assert!(menu.take_request().is_none());
    menu.sent(true, &out.status);
    assert!(menu.busy);
    assert_eq!(menu.status, "Connecting to saved network...");
}

#[test]
fn a_worker_that_is_gone_says_so() {
    let mut menu = WifiMenu::default();
    menu.boot(true, false);
    assert_eq!(menu.status, "Select Scan networks to get started");
    menu.open();
    let out = menu.take_request().expect("opening scans");
    assert!(matches!(out.request, Request::Scan));
    menu.sent(false, &out.status);
    assert!(!menu.busy);
    assert_eq!(menu.status, "Wi-Fi worker stopped; restart Slot");
}

#[test]
fn a_scan_result_replaces_the_list_and_pulls_the_row_back() {
    let mut menu = WifiMenu::default();
    menu.boot(true, false);
    menu.networks = vec![home(Security::Open), home(Security::Personal)];
    menu.row = 5;
    menu.busy = true;
    menu.poll(
        true,
        Some(Ok(WifiSnapshot { status: "Found 0 networks".into(), networks: Some(Vec::new()) })),
        1_000,
    );
    assert!(!menu.busy);
    assert!(menu.networks.is_empty());
    assert_eq!(menu.row, 3);
    assert_eq!(menu.status, "Found 0 networks");
}

#[test]
fn a_connected_screen_checks_its_status_every_ten_seconds() {
    let mut menu = WifiMenu::default();
    menu.boot(true, false);
    menu.poll(
        true,
        Some(Ok(WifiSnapshot { status: "Connected to Home | IP 10.0.0.2".into(), networks: None })),
        1_000,
    );
    menu.poll(true, None, 11_000);
    assert!(menu.take_request().is_none());
    menu.poll(true, None, 11_001);
    let out = menu.take_request().expect("a status check");
    assert!(matches!(out.request, Request::Status));
    assert_eq!(out.status, "Connected to Home | IP 10.0.0.2");
}

#[test]
fn a_personal_network_opens_the_keyboard_and_connects_with_what_was_typed() {
    let mut menu = WifiMenu::default();
    menu.boot(true, false);
    menu.networks.push(home(Security::Personal));
    menu.row = 4;
    assert!(!menu.input(Btn::A));
    assert_eq!(menu.status, "Enter the Wi-Fi password");
    for _ in 0..8 {
        menu.input(Btn::A);
    }
    assert_eq!(menu.password(), "aaaaaaaa");
    menu.input(Btn::Start);
    let out = menu.take_request().expect("a connect");
    match out.request {
        Request::Connect(network, password) => {
            assert_eq!(network.ssid, "Home");
            assert_eq!(password, "aaaaaaaa");
        }
        _ => panic!("not a connect"),
    }
    assert_eq!(out.status, "Connecting... (up to 45 seconds)");
    assert!(menu.password().is_empty());
}

#[test]
fn the_keyboard_cursor_stops_at_its_edges_and_the_page_wraps() {
    let mut menu = WifiMenu::default();
    menu.networks.push(home(Security::Personal));
    menu.row = 4;
    menu.input(Btn::A);
    menu.input(Btn::Up);
    menu.input(Btn::Left);
    menu.input(Btn::A);
    assert_eq!(menu.password(), "a");
    for _ in 0..10 {
        menu.input(Btn::Down);
        menu.input(Btn::Right);
    }
    menu.input(Btn::A);
    assert_eq!(menu.password(), "a ");
    menu.input(Btn::Y);
    menu.input(Btn::Y);
    menu.input(Btn::Y);
    menu.input(Btn::A);
    assert_eq!(menu.password(), "a  ");
    for _ in 0..PASSWORD_MAX {
        menu.input(Btn::A);
    }
    assert_eq!(menu.password().len(), PASSWORD_MAX);
}

#[test]
fn an_unsupported_network_is_refused_on_the_list() {
    let mut menu = WifiMenu::default();
    menu.boot(true, false);
    menu.networks.push(home(Security::Unsupported));
    menu.row = 4;
    menu.input(Btn::A);
    assert_eq!(menu.status, "This network's security is not supported");
    assert!(menu.take_request().is_none());
}

#[test]
fn the_list_rows_stop_at_both_ends() {
    let mut menu = WifiMenu::default();
    menu.networks.push(home(Security::Open));
    menu.input(Btn::Up);
    assert_eq!(menu.row, 0);
    for _ in 0..10 {
        menu.input(Btn::Down);
    }
    assert_eq!(menu.row, 4);
}

#[test]
fn a_poll_counts_an_answer_and_a_status_check_as_changes() {
    let mut menu = WifiMenu::default();
    menu.boot(true, false);
    let r0 = menu.revision();
    menu.poll(true, None, 500);
    assert_eq!(menu.revision(), r0, "nothing came and nothing was due");
    menu.poll(
        true,
        Some(Ok(WifiSnapshot { status: "Connected to Home | IP 10.0.0.2".into(), networks: None })),
        1_000,
    );
    assert_eq!(menu.revision(), r0 + 1);
    menu.poll(true, None, 11_001);
    assert_eq!(menu.revision(), r0 + 2, "the status check is asked for");
    menu.poll(false, Some(Err("Wi-Fi worker stopped".into())), 11_002);
    assert_eq!(menu.revision(), r0 + 3);
    assert_eq!(menu.status, "Wi-Fi worker stopped");
}

#[test]
fn arrows_and_y_reach_any_key_from_anywhere() {
    let mut menu = WifiMenu::default();
    menu.networks.push(home(Security::Personal));
    menu.row = 4;
    menu.input(Btn::A);
    for b in [Btn::Down, Btn::Down, Btn::Right, Btn::Y] {
        menu.input(b);
    }
    for _ in 0..4 {
        menu.input(Btn::Up);
    }
    for _ in 0..28 {
        menu.input(Btn::Right);
    }
    for _ in 0..1 {
        menu.input(Btn::Y);
    }
    assert!(!menu.input(Btn::A));
    assert_eq!(menu.password(), "~");
}
