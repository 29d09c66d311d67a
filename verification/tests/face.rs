use slot::face::{blank, fill, render, Paint, OUT_H, OUT_W};
use slot::input::btn::Btn;
use slot::transfer_menu::{Opening, ServerInfo, TransferMenu, TransferStatus};
use slot::wifi_menu::{Network, Security, WifiMenu};

const BRIGHT: [u8; 3] = [240, 240, 244];
const DIM: [u8; 3] = [185, 190, 200];
const GROUND: [u8; 4] = [20, 21, 25, 255];
const BAR: [u8; 4] = [65, 70, 85, 255];

fn text(s: &str, x: i32, y: i32, size: u32, width: i32, ink: [u8; 3]) -> Paint {
    Paint::Text { s: s.to_string(), x, y, size, width, ink }
}

fn rect(x: i32, y: i32, w: i32, h: i32, colour: [u8; 4]) -> Paint {
    Paint::Fill { x, y, w, h, colour }
}

#[test]
fn a_fill_paints_only_inside_the_face() {
    let mut f = blank(4, 3);
    assert_eq!(f.rgba.len(), 48);
    fill(&mut f, 2, -1, 5, 2, [1, 2, 3, 4]);
    for r in 0..3usize {
        for c in 0..4usize {
            let at = (r * 4 + c) * 4;
            let want = if c >= 2 && r == 0 { [1, 2, 3, 4] } else { [0, 0, 0, 0] };
            assert_eq!(f.rgba[at..at + 4], want, "pixel {r},{c}");
        }
    }
    let before = f.rgba.clone();
    fill(&mut f, -10, -10, 3, 3, [9, 9, 9, 9]);
    assert_eq!(f.rgba, before);
}

#[test]
fn the_wifi_list_highlights_its_row() {
    let mut menu = WifiMenu::default();
    menu.networks.push(Network { ssid: "Home".into(), signal: -40, security: Security::Personal });
    menu.networks.push(Network { ssid: "Cafe".into(), signal: -70, security: Security::Open });
    menu.row = 1;
    let status = menu.status.clone();
    assert_eq!(
        menu.paints(),
        vec![
            rect(0, 0, 640, 480, GROUND),
            text("Wi-Fi", 28, 20, 30, 584, BRIGHT),
            text(&status, 28, 63, 18, 584, DIM),
            text("Scan networks", 28, 105, 22, 584, BRIGHT),
            rect(16, 148, 608, 41, BAR),
            text("Reconnect saved network", 28, 151, 22, 584, BRIGHT),
            text("Disconnect (until reconnected)", 28, 197, 22, 584, BRIGHT),
            text("Forget saved network", 28, 243, 22, 584, BRIGHT),
            text("Home  [Password]", 28, 289, 22, 584, BRIGHT),
            text("Cafe  [Open]", 28, 335, 22, 584, BRIGHT),
            text("SFTP: port 22 | user root | your BaseOS password", 28, 391, 18, 584, DIM),
            text("Up/Down Choose   A Select   B Back", 28, 433, 19, 584, BRIGHT),
        ]
    );
}

#[test]
fn the_wifi_list_scrolls_past_six_rows() {
    let mut menu = WifiMenu::default();
    for i in 0..5 {
        menu.networks.push(Network { ssid: format!("n{i}"), signal: -50, security: Security::Unsupported });
    }
    menu.row = 7;
    let face = menu.paints();
    let rows: Vec<&Paint> = face[3..face.len() - 2].iter().collect();
    assert_eq!(rows.len(), 7);
    assert_eq!(*rows[0], text("Disconnect (until reconnected)", 28, 105, 22, 584, BRIGHT));
    assert_eq!(*rows[5], rect(16, 332, 608, 41, BAR));
    assert_eq!(*rows[6], text("n3  [Unsupported]", 28, 335, 22, 584, BRIGHT));
}

#[test]
fn the_keyboard_masks_the_password_and_marks_its_key() {
    let mut menu = WifiMenu::default();
    menu.networks.push(Network { ssid: "Home".into(), signal: -40, security: Security::Personal });
    menu.row = 4;
    menu.input(Btn::A);
    menu.input(Btn::A);
    menu.input(Btn::A);
    menu.input(Btn::Right);
    menu.input(Btn::Down);
    let face = menu.paints();
    assert_eq!(face.len(), 3 + 2 + 40 + 1 + 2);
    assert_eq!(face[3], text("Home", 28, 99, 22, 584, BRIGHT));
    assert_eq!(face[4], text("**  (2 characters)", 28, 139, 19, 584, DIM));
    assert_eq!(face[5], text("a", 36, 190, 23, 40, BRIGHT));
    assert_eq!(face[16], rect(84, 231, 49, 40, BAR));
    assert_eq!(face[17], text("l", 95, 235, 23, 40, BRIGHT));
    assert_eq!(face[45], text("SP", 567, 325, 23, 40, BRIGHT));
    assert_eq!(face[46], text("A Type   X Erase   Y abc/ABC/123", 28, 391, 19, 584, DIM));
    assert_eq!(face[47], text("START Connect   B Cancel", 28, 433, 19, 584, BRIGHT));
}

#[test]
fn a_long_password_shows_two_dozen_stars() {
    let mut menu = WifiMenu::default();
    menu.networks.push(Network { ssid: "Home".into(), signal: -40, security: Security::Personal });
    menu.row = 4;
    menu.input(Btn::A);
    for _ in 0..30 {
        menu.input(Btn::A);
    }
    let face = menu.paints();
    assert_eq!(face[4], text(&format!("{}  (30 characters)", "*".repeat(24)), 28, 139, 19, 584, DIM));
}

#[test]
fn the_transfer_screen_shows_where_to_browse_and_the_code() {
    let mut menu = TransferMenu::default();
    menu.open(
        Opening::Started(ServerInfo { address: "10.0.0.2:8080".into(), pin: "4821".into() }),
        Some(TransferStatus { message: "Waiting".into(), uploaded: 12 }),
    );
    assert_eq!(
        menu.paints(640, 480),
        vec![
            rect(0, 0, 640, 480, GROUND),
            text("File Transfer", 28, 22, 30, 584, BRIGHT),
            text("Open this address on a device on the same Wi-Fi:", 28, 84, 20, 584, DIM),
            text("http://10.0.0.2:8080/", 28, 125, 32, 584, BRIGHT),
            text("Enter this transfer code:", 28, 193, 20, 584, DIM),
            text("4821", 28, 228, 44, 584, [229, 219, 191]),
            text("12 files uploaded", 28, 312, 20, 584, DIM),
            text("Restart Slot after adding games or labels.", 28, 389, 19, 584, DIM),
            text("Keep this screen open.   B Stop & back", 28, 433, 20, 584, BRIGHT),
            text("Waiting", 28, 352, 19, 584, DIM),
        ]
    );
}

#[test]
fn a_transfer_screen_with_no_server_offers_a_retry() {
    let mut menu = TransferMenu::default();
    menu.open(Opening::Offline, None);
    assert_eq!(
        menu.paints(320, 240),
        vec![
            rect(0, 0, 320, 240, GROUND),
            text("File Transfer", 28, 22, 30, 264, BRIGHT),
            text("A Retry   B Back", 28, 433, 20, 264, BRIGHT),
            text("Connect in Settings > Wi-Fi first, then try again.", 28, 352, 19, 264, DIM),
        ]
    );
}

fn pixel(face: &slot::face::Face, x: usize, y: usize) -> [u8; 4] {
    let at = (y * face.w as usize + x) * 4;
    [face.rgba[at], face.rgba[at + 1], face.rgba[at + 2], face.rgba[at + 3]]
}

#[test]
fn the_transfer_face_is_the_screen_over_its_background() {
    let m = TransferMenu::default();
    assert!(!m.running());
    let f = m.face();
    assert_eq!((f.w, f.h), (OUT_W, OUT_H));
    assert_eq!(f.rgba.len(), (OUT_W * OUT_H * 4) as usize);
    assert_eq!(&f.rgba[0..4], &GROUND);
    assert_eq!(&f.rgba[f.rgba.len() - 4..], &GROUND);
    assert!(f.rgba.chunks(4).all(|p| p == GROUND));
}

#[test]
fn the_wifi_face_paints_the_highlighted_row_over_its_background() {
    let mut menu = WifiMenu::default();
    menu.row = 1;
    let f = menu.face();
    assert_eq!((f.w, f.h), (OUT_W, OUT_H));
    assert_eq!(pixel(&f, 0, 0), GROUND);
    assert_eq!(pixel(&f, 639, 479), GROUND);
    let steps = menu.paints();
    let bar = steps.iter().find_map(|p| match p {
        Paint::Fill { x, y, w, h, colour } if *colour == BAR => Some((*x, *y, *w, *h)),
        _ => None,
    });
    let (x, y, _, _) = bar.expect("the highlighted row");
    assert_eq!(pixel(&f, x as usize, y as usize), BAR);
}

#[test]
fn rendering_paints_rectangles_in_order_and_clips_them() {
    let steps = vec![
        rect(-5, -5, 7, 7, [1, 2, 3, 4]),
        text("ignored", 0, 0, 20, 100, BRIGHT),
        rect(2, 2, 100, 100, [9, 9, 9, 9]),
    ];
    let f = render(&steps, 4, 3);
    assert_eq!(pixel(&f, 0, 0), [1, 2, 3, 4]);
    assert_eq!(pixel(&f, 1, 1), [1, 2, 3, 4]);
    assert_eq!(pixel(&f, 2, 2), [9, 9, 9, 9]);
    assert_eq!(pixel(&f, 3, 0), [0, 0, 0, 0]);
}
