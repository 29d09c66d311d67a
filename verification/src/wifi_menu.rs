//! Controller-friendly Wi-Fi screen. Passwords are masked and never part of a render cache key.
//!
//! The worker that scans and connects runs beside the frame loop and is the binary's: this
//! screen decides what to ask it for, and is told what it answered. A request waits in the
//! outbox until the binary has tried to send it and said whether the worker took it.

use vstd::prelude::*;

use crate::face::{
    at, fill_view, painted, push_fill, push_text, render, sized, text_view, views, Face, Paint,
    PaintView, OUT_H, OUT_W,
};
use crate::input::btn::Btn;
use crate::input::trace::{digits, push_digits};

verus! {

/// The on-screen keyboard: lower case, upper case, and symbols, ten keys a row.
pub const KEYS: [&'static str; 3] = [
    "abcdefghijklmnopqrstuvwxyz0123456789-_. ",
    "ABCDEFGHIJKLMNOPQRSTUVWXYZ0123456789-_. ",
    "!@#$%^&*()[]{}<>?/\\|;:'\",+=`~_- .0123456",
];

/// The most a password can hold.
pub const PASSWORD_MAX: usize = 64;

/// The last key on a page.
pub const LAST_KEY: usize = 39;

#[derive(Copy, Clone, Debug, PartialEq, Eq, Structural)]
pub enum Security {
    Open,
    Personal,
    Unsupported,
}

#[derive(Clone, Debug)]
pub struct Network {
    pub ssid: String,
    pub signal: i32,
    pub security: Security,
}

/// The same network, field for field.
pub fn copy_network(n: &Network) -> (r: Network)
    ensures
        r == *n,
{
    Network { ssid: n.ssid.clone(), signal: n.signal, security: n.security }
}

/// What the screen asks the worker for.
#[derive(Clone, Debug)]
pub enum Request {
    Scan,
    Reconnect,
    Disconnect,
    Forget,
    Status,
    Connect(Network, String),
}

/// What the worker answers with: the line to show, and the networks when it scanned.
#[derive(Clone, Debug)]
pub struct WifiSnapshot {
    pub status: String,
    pub networks: Option<Vec<Network>>,
}

/// The line for a refused password.
pub open spec fn password_rule() -> Seq<char> {
    "Wi-Fi passwords are 8-63 characters"@
}

/// Whether `password` is one the network can be joined with.
pub open spec fn spec_validate(security: Security, password: Seq<char>) -> Result<(), Seq<char>> {
    match security {
        Security::Open => Ok(()),
        Security::Personal => if 8 <= password.len() <= 63 {
            Ok(())
        } else {
            Err(password_rule())
        },
        Security::Unsupported => Err("This network's security is not supported"@),
    }
}

/// A WPA personal passphrase is 8 to 63 characters; an open network takes none.
pub fn validate(network: &Network, password: &str) -> (r: Result<(), String>)
    ensures
        match (r, spec_validate(network.security, password@)) {
            (Ok(()), Ok(())) => true,
            (Err(e), Err(s)) => e@ == s,
            _ => false,
        },
{
    match network.security {
        Security::Open => Ok(()),
        Security::Personal => {
            let n = password.unicode_len();
            if 8 <= n && n <= 63 {
                Ok(())
            } else {
                Err(String::from_str("Wi-Fi passwords are 8-63 characters"))
            }
        },
        Security::Unsupported => Err(String::from_str("This network's security is not supported")),
    }
}

/// A request waiting to be sent, with the line to show once the worker has taken it.
pub struct Outgoing {
    pub request: Request,
    pub status: String,
}

/// The keyboard's cursor: a key on a page, always one that exists.
struct Keyboard {
    key: usize,
    page: usize,
}

impl Keyboard {
    #[verifier::type_invariant]
    spec fn on_a_key(self) -> bool {
        self.key <= LAST_KEY && self.page < 3
    }
}

pub struct WifiMenu {
    /// Whether there is a worker to ask at all.
    service: bool,
    pub networks: Vec<Network>,
    pub status: String,
    pub row: usize,
    pub busy: bool,
    editing: Option<Network>,
    password: String,
    keys: Keyboard,
    revision: u64,
    /// When the connection was last confirmed, in the binary's milliseconds.
    checked: u64,
    outbox: Option<Outgoing>,
}

/// The screen's last row: the four fixed rows, then one per network.
pub open spec fn last_row(networks: nat) -> int {
    networks + 3int
}

impl Default for WifiMenu {
    fn default() -> (r: Self)
        ensures
            r.spec_service() == false,
            r.spec_networks().len() == 0,
            r.spec_status() == "Wi-Fi requires BaseOS on the handheld"@,
            r.spec_row() == 0,
            !r.spec_busy(),
            r.spec_editing() is None,
            r.spec_password() == Seq::<char>::empty(),
            r.spec_revision() == 1,
            r.spec_outbox() is None,
            r.spec_key() == 0,
            r.spec_page() == 0,
            r.spec_checked() == 0,
    {
        WifiMenu {
            service: false,
            networks: Vec::new(),
            status: String::from_str("Wi-Fi requires BaseOS on the handheld"),
            row: 0,
            busy: false,
            editing: None,
            password: String::new(),
            keys: Keyboard { key: 0, page: 0 },
            revision: 1,
            checked: 0,
            outbox: None,
        }
    }
}

impl WifiMenu {
    pub closed spec fn spec_networks(&self) -> Seq<Network> {
        self.networks@
    }

    pub closed spec fn spec_status(&self) -> Seq<char> {
        self.status@
    }

    pub closed spec fn spec_row(&self) -> usize {
        self.row
    }

    pub closed spec fn spec_busy(&self) -> bool {
        self.busy
    }

    pub closed spec fn spec_service(&self) -> bool {
        self.service
    }

    pub closed spec fn spec_editing(&self) -> Option<Network> {
        self.editing
    }

    pub closed spec fn spec_password(&self) -> Seq<char> {
        self.password@
    }

    pub closed spec fn spec_key(&self) -> usize {
        self.keys.key
    }

    pub closed spec fn spec_page(&self) -> usize {
        self.keys.page
    }

    pub closed spec fn spec_revision(&self) -> u64 {
        self.revision
    }

    pub closed spec fn spec_checked(&self) -> u64 {
        self.checked
    }

    pub closed spec fn spec_outbox(&self) -> Option<(Request, Seq<char>)> {
        match self.outbox {
            Some(o) => Some((o.request, o.status@)),
            None => None,
        }
    }

    /// Room left in the change counter for one more call.
    pub open spec fn room(&self) -> bool {
        self.spec_revision() + 2 <= u64::MAX
    }

    /// The worker came up, or it did not; `auto_connect` is whether the card keeps a network
    /// to rejoin at boot.
    pub fn boot(&mut self, service: bool, auto_connect: bool)
        requires
            old(self).room(),
        ensures
            final(self).spec_service() == service,
            service ==> final(self).spec_status() == "Select Scan networks to get started"@,
            !service ==> final(self).spec_status() == old(self).spec_status(),
            service && auto_connect ==> (final(self).spec_outbox() matches Some(
                (Request::Reconnect, s),
            ) && s == "Connecting to saved network..."@),
            !(service && auto_connect) ==> final(self).spec_outbox() == old(self).spec_outbox(),
            final(self).spec_revision() == old(self).spec_revision() + if service && auto_connect {
                1int
            } else {
                0int
            },
            final(self).spec_busy() == old(self).spec_busy(),
            final(self).spec_row() == old(self).spec_row(),
            final(self).spec_editing() == old(self).spec_editing(),
            final(self).spec_password() == old(self).spec_password(),
    {
        self.service = service;
        if self.service {
            self.status = String::from_str("Select Scan networks to get started");
            if auto_connect {
                self.request(Request::Reconnect, "Connecting to saved network...");
            }
        }
    }

    pub fn revision(&self) -> (r: u64)
        ensures
            r == self.spec_revision(),
    {
        self.revision
    }

    /// What has been typed on the keyboard so far.
    pub fn password(&self) -> (r: &str)
        ensures
            r@ == self.spec_password(),
    {
        self.password.as_str()
    }

    /// A request for the worker, waiting for the binary to send it. With no worker there is
    /// nothing to ask, and only the screen changes.
    fn request(&mut self, request: Request, status: &str)
        requires
            old(self).spec_revision() < u64::MAX,
        ensures
            old(self).spec_service() ==> final(self).spec_outbox() == Some((request, status@)),
            !old(self).spec_service() ==> final(self).spec_outbox() == old(self).spec_outbox(),
            final(self).spec_revision() == old(self).spec_revision() + 1,
            final(self).spec_service() == old(self).spec_service(),
            final(self).spec_networks() == old(self).spec_networks(),
            final(self).spec_status() == old(self).spec_status(),
            final(self).spec_row() == old(self).spec_row(),
            final(self).spec_busy() == old(self).spec_busy(),
            final(self).spec_editing() == old(self).spec_editing(),
            final(self).spec_password() == old(self).spec_password(),
            final(self).spec_key() == old(self).spec_key(),
            final(self).spec_page() == old(self).spec_page(),
            final(self).spec_checked() == old(self).spec_checked(),
    {
        if self.service {
            self.outbox = Some(Outgoing { request, status: String::from_str(status) });
        }
        self.revision = self.revision + 1;
    }

    /// The request waiting to be sent, taken.
    pub fn take_request(&mut self) -> (r: Option<Outgoing>)
        ensures
            match (r, old(self).spec_outbox()) {
                (Some(o), Some((q, s))) => o.request == q && o.status@ == s,
                (None, None) => true,
                _ => false,
            },
            final(self).spec_outbox() is None,
            final(self).spec_revision() == old(self).spec_revision(),
            final(self).spec_busy() == old(self).spec_busy(),
            final(self).spec_status() == old(self).spec_status(),
    {
        self.outbox.take()
    }

    /// Whether the worker took what `take_request` handed out: busy with it and saying so,
    /// or gone, which only a restart mends.
    pub fn sent(&mut self, taken: bool, status: &str)
        ensures
            taken ==> final(self).spec_busy() && final(self).spec_status() == status@,
            !taken ==> final(self).spec_busy() == old(self).spec_busy() && final(self).spec_status()
                == "Wi-Fi worker stopped; restart Slot"@,
            final(self).spec_revision() == old(self).spec_revision(),
            final(self).spec_outbox() == old(self).spec_outbox(),
            final(self).spec_row() == old(self).spec_row(),
            final(self).spec_editing() == old(self).spec_editing(),
    {
        if taken {
            self.busy = true;
            self.status = String::from_str(status);
        } else {
            self.status = String::from_str("Wi-Fi worker stopped; restart Slot");
        }
    }

    /// The screen comes up at the top, with nothing typed, scanning unless the worker is
    /// already busy.
    pub fn open(&mut self)
        requires
            old(self).room(),
        ensures
            final(self).spec_row() == 0,
            final(self).spec_editing() is None,
            final(self).spec_password() == Seq::<char>::empty(),
            !old(self).spec_busy() && old(self).spec_service() ==> (final(self).spec_outbox() matches Some(
                (Request::Scan, s),
            ) && s == "Scanning for networks..."@),
            old(self).spec_busy() || !old(self).spec_service() ==> final(self).spec_outbox() == old(
                self,
            ).spec_outbox(),
            final(self).spec_revision() == old(self).spec_revision() + if old(self).spec_busy() {
                1int
            } else {
                2int
            },
            final(self).spec_busy() == old(self).spec_busy(),
            final(self).spec_status() == old(self).spec_status(),
    {
        self.row = 0;
        self.editing = None;
        self.password = String::new();
        if !self.busy {
            self.request(Request::Scan, "Scanning for networks...");
        }
        self.revision = self.revision + 1;
    }

    /// The worker's answer, if one came this frame, and a fresh status check every ten
    /// seconds while the screen is up and connected. `now` is the binary's clock, in
    /// milliseconds. A worker may finish while this screen is closed.
    pub fn poll(&mut self, visible: bool, result: Option<Result<WifiSnapshot, String>>, now: u64)
        requires
            old(self).room(),
            old(self).spec_networks().len() + 3 <= usize::MAX,
        ensures
            result is Some ==> !final(self).spec_busy() && final(self).spec_checked() == now,
            match result {
                Some(Ok(snap)) => {
                    &&& final(self).spec_networks() == match snap.networks {
                        Some(n) => n@,
                        None => old(self).spec_networks(),
                    }
                    &&& final(self).spec_row() == if old(self).spec_row() > last_row(
                        final(self).spec_networks().len(),
                    ) {
                        last_row(final(self).spec_networks().len())
                    } else {
                        old(self).spec_row() as int
                    }
                },
                _ => final(self).spec_networks() == old(self).spec_networks() && final(self).spec_row() == old(
                    self,
                ).spec_row(),
            },
            final(self).spec_editing() == old(self).spec_editing(),
            final(self).spec_password() == old(self).spec_password(),
            final(self).spec_status() == polled_status(old(self).spec_status(), result),
            final(self).spec_revision() == old(self).spec_revision() + (if result is Some {
                1int
            } else {
                0int
            }) + (if status_due(old(self), visible, result, now) {
                1int
            } else {
                0int
            }),
            status_due(old(self), visible, result, now) && old(self).spec_service()
                ==> final(self).spec_outbox() == Some((Request::Status, old(self).spec_status())),
            !(status_due(old(self), visible, result, now) && old(self).spec_service())
                ==> final(self).spec_outbox() == old(self).spec_outbox(),
    {
        if let Some(result) = result {
            self.busy = false;
            match result {
                Ok(snapshot) => {
                    self.status = snapshot.status;
                    if let Some(networks) = snapshot.networks {
                        self.networks = networks;
                    }
                    let last = if self.networks.len() <= usize::MAX - 3 {
                        self.networks.len() + 3
                    } else {
                        usize::MAX
                    };
                    if self.row > last {
                        self.row = last;
                    }
                },
                Err(error) => self.status = error,
            }
            self.revision = self.revision + 1;
            self.checked = now;
        }
        let connected = crate::text::starts_with(self.status.as_str(), "Connected");
        if visible && !self.busy && self.editing.is_none() && connected && now >= self.checked
            && now - self.checked > 10_000 {
            let status = self.status.clone();
            self.request(Request::Status, status.as_str());
            self.checked = now;
        }
    }
}


/// The status line after a poll: the worker's, when it answered.
pub open spec fn polled_status(status: Seq<char>, result: Option<Result<WifiSnapshot, String>>) -> Seq<
    char,
> {
    match result {
        Some(Ok(snap)) => snap.status@,
        Some(Err(error)) => error@,
        None => status,
    }
}

/// Whether a poll asks the worker for a fresh status: the screen is up, nothing is running
/// or being typed, the connection was confirmed, and ten seconds have passed since. A poll
/// that brought an answer has just checked.
pub open spec fn status_due(
    m: &WifiMenu,
    visible: bool,
    result: Option<Result<WifiSnapshot, String>>,
    now: u64,
) -> bool {
    &&& result is None
    &&& visible
    &&& !m.spec_busy()
    &&& m.spec_editing() is None
    &&& crate::text::has_prefix(m.spec_status(), "Connected"@)
    &&& now >= m.spec_checked()
    &&& now - m.spec_checked() > 10_000
}

/// What a network's row says about how it is joined.
pub open spec fn security_label(security: Security) -> Seq<char> {
    match security {
        Security::Open => "Open"@,
        Security::Personal => "Password"@,
        Security::Unsupported => "Unsupported"@,
    }
}

/// A network's row on the list.
pub open spec fn network_row(n: Network) -> Seq<char> {
    n.ssid@ + "  ["@ + security_label(n.security) + "]"@
}

/// The list: four fixed rows, then one per network.
pub open spec fn list_rows(networks: Seq<Network>) -> Seq<Seq<char>> {
    seq![
        "Scan networks"@,
        "Reconnect saved network"@,
        "Disconnect (until reconnected)"@,
        "Forget saved network"@,
    ] + networks.map_values(|n: Network| network_row(n))
}

/// A password as the screen shows it: a star a character, up to two dozen, and the count.
pub open spec fn masked(len: nat) -> Seq<char> {
    Seq::new(if len < 24 { len } else { 24 }, |i: int| '*') + "  ("@ + digits(len, 10)
        + " characters)"@
}

/// A key's cap: the space bar is spelled out.
pub open spec fn key_label(c: char) -> Seq<char> {
    if c == ' ' {
        "SP"@
    } else {
        seq![c]
    }
}

/// Key `i` of a page, ten to a row, with the bar behind it when it is the one in hand.
pub open spec fn key_cell(keys: Seq<char>, key: int, i: int) -> Seq<PaintView> {
    let x = 28 + (i % 10) * 59;
    let y = 190 + (i / 10) * 45;
    (if i == key {
        seq![fill_view(x - 3, y - 4, 49, 40, [65, 70, 85, 255])]
    } else {
        Seq::empty()
    }) + seq![text_view(key_label(keys[i]), x + 8, y, 23, 40, [240, 240, 244])]
}

/// The first `n` keys of a page.
pub open spec fn key_cells(keys: Seq<char>, key: int, n: nat) -> Seq<PaintView>
    decreases n,
{
    if n == 0 {
        Seq::empty()
    } else {
        key_cells(keys, key, (n - 1) as nat) + key_cell(keys, key, n - 1)
    }
}

/// Row `i` of the list, drawn `i - first` rows down, with the bar behind it when it is the
/// one in hand.
pub open spec fn row_cell(label: Seq<char>, i: int, first: int, row: int) -> Seq<PaintView> {
    let y = 105 + (i - first) * 46;
    (if i == row {
        seq![fill_view(16, y - 3, 608, 41, [65, 70, 85, 255])]
    } else {
        Seq::empty()
    }) + seq![text_view(label, 28, y, 22, 584, [240, 240, 244])]
}

/// `n` rows of the list from `first`.
pub open spec fn row_cells(rows: Seq<Seq<char>>, first: int, row: int, n: nat) -> Seq<PaintView>
    decreases n,
{
    if n == 0 {
        Seq::empty()
    } else {
        row_cells(rows, first, row, (n - 1) as nat) + row_cell(
            rows[first + n - 1],
            first + n - 1,
            first,
            row,
        )
    }
}

/// The first row on screen: the list scrolls once the highlight is past the sixth.
pub open spec fn first_row(row: int) -> int {
    if row >= 5 {
        row - 5
    } else {
        0
    }
}

/// How many rows fit from `first`: six, or what is left.
pub open spec fn rows_shown(len: int, first: int) -> nat {
    if len <= first {
        0
    } else if len - first < 6 {
        (len - first) as nat
    } else {
        6
    }
}

/// The screen, top to bottom: the title and the worker's line, then either the keyboard with
/// the network it is for, or the list with its footer.
pub open spec fn wifi_face(
    status: Seq<char>,
    networks: Seq<Network>,
    row: int,
    busy: bool,
    editing: Option<Network>,
    password_len: nat,
    page: int,
    key: int,
) -> Seq<PaintView> {
    let top = seq![
        fill_view(0, 0, 640, 480, [20, 21, 25, 255]),
        text_view("Wi-Fi"@, 28, 20, 30, 584, [240, 240, 244]),
        text_view(status, 28, 63, 18, 584, [185, 190, 200]),
    ];
    match editing {
        Some(n) => top + seq![
            text_view(n.ssid@, 28, 99, 22, 584, [240, 240, 244]),
            text_view(masked(password_len), 28, 139, 19, 584, [185, 190, 200]),
        ] + key_cells(KEYS@[page]@, key, 40) + seq![
            text_view("A Type   X Erase   Y abc/ABC/123"@, 28, 391, 19, 584, [185, 190, 200]),
            text_view("START Connect   B Cancel"@, 28, 433, 19, 584, [240, 240, 244]),
        ],
        None => {
            let rows = list_rows(networks);
            let first = first_row(row);
            top + row_cells(rows, first, row, rows_shown(rows.len() as int, first)) + seq![
                text_view(
                    "SFTP: port 22 | user root | your BaseOS password"@,
                    28,
                    391,
                    18,
                    584,
                    [185, 190, 200],
                ),
                text_view(
                    if busy {
                        "Working...   B Back"@
                    } else {
                        "Up/Down Choose   A Select   B Back"@
                    },
                    28,
                    433,
                    19,
                    584,
                    [240, 240, 244],
                ),
            ]
        },
    }
}

/// A network's row, as text.
fn network_row_text(n: &Network) -> (r: String)
    ensures
        r@ == network_row(*n),
{
    let mut r = n.ssid.clone();
    r.append("  [");
    r.append(
        match n.security {
            Security::Open => "Open",
            Security::Personal => "Password",
            Security::Unsupported => "Unsupported",
        },
    );
    r.append("]");
    proof {
        reveal_strlit("  [");
        reveal_strlit("]");
        reveal_strlit("Open");
        reveal_strlit("Password");
        reveal_strlit("Unsupported");
    }
    r
}

/// A password's mask, as text.
fn masked_text(len: usize) -> (r: String)
    ensures
        r@ == masked(len as nat),
{
    let stars = if len < 24 {
        len
    } else {
        24
    };
    let mut r = String::new();
    let mut i: usize = 0;
    while i < stars
        invariant
            i <= stars,
            stars == if len < 24 {
                len
            } else {
                24
            },
            r@ == Seq::new(i as nat, |j: int| '*'),
        decreases stars - i,
    {
        r.append("*");
        proof {
            reveal_strlit("*");
        }
        i += 1;
        assert(r@ =~= Seq::new(i as nat, |j: int| '*'));
    }
    r.append("  (");
    push_digits(&mut r, len as u128, 10);
    r.append(" characters)");
    proof {
        reveal_strlit("  (");
        reveal_strlit(" characters)");
    }
    assert(r@ =~= masked(len as nat));
    r
}

/// Every page of the keyboard is forty keys.
proof fn lemma_pages_are_full()
    ensures
        forall|p: int| 0 <= p < 3 ==> #[trigger] KEYS@[p]@.len() == 40,
{
    reveal_strlit("abcdefghijklmnopqrstuvwxyz0123456789-_. ");
    reveal_strlit("ABCDEFGHIJKLMNOPQRSTUVWXYZ0123456789-_. ");
    reveal_strlit("!@#$%^&*()[]{}<>?/\\|;:'\",+=`~_- .0123456");
}

/// Where an arrow moves the keyboard cursor: ten keys a row, stopping at both ends.
pub open spec fn key_moved(k: int, button: Btn) -> int {
    match button {
        Btn::Up => if k >= 10 { k - 10 } else { 0 },
        Btn::Down => if k + 10 > LAST_KEY { LAST_KEY as int } else { k + 10 },
        Btn::Left => if k >= 1 { k - 1 } else { 0 },
        Btn::Right => if k + 1 > LAST_KEY { LAST_KEY as int } else { k + 1 },
        _ => k,
    }
}

/// Y turns the keyboard's page, round the three.
pub open spec fn page_turned(p: int, button: Btn) -> int {
    if button == Btn::Y {
        (p + 1) % 3
    } else {
        p
    }
}

/// The cursor, key and page, after a run of presses on the keyboard.
pub open spec fn cursor_after(k: int, p: int, presses: Seq<Btn>) -> (int, int)
    decreases presses.len(),
{
    if presses.len() == 0 {
        (k, p)
    } else {
        let (k1, p1) = cursor_after(k, p, presses.drop_last());
        (key_moved(k1, presses.last()), page_turned(p1, presses.last()))
    }
}

/// A press that only moves the cursor: an arrow, or Y.
pub open spec fn moves_only(b: Btn) -> bool {
    b == Btn::Up || b == Btn::Down || b == Btn::Left || b == Btn::Right || b == Btn::Y
}

proof fn lemma_cursor_concat(k: int, p: int, a: Seq<Btn>, b: Seq<Btn>)
    ensures
        cursor_after(k, p, a + b) == cursor_after(cursor_after(k, p, a).0, cursor_after(k, p, a).1, b),
    decreases b.len(),
{
    if b.len() == 0 {
        assert(a + b =~= a);
    } else {
        assert((a + b).drop_last() =~= a + b.drop_last());
        assert((a + b).last() == b.last());
        lemma_cursor_concat(k, p, a, b.drop_last());
    }
}

proof fn lemma_ups(k: int, p: int, n: nat)
    requires
        0 <= k,
    ensures
        cursor_after(k, p, Seq::new(n, |i: int| Btn::Up)) == (if k >= 10 * n { k - 10 * n } else { 0 }, p),
    decreases n,
{
    if n > 0 {
        let s = Seq::new(n, |i: int| Btn::Up);
        assert(s.drop_last() =~= Seq::new((n - 1) as nat, |i: int| Btn::Up));
        lemma_ups(k, p, (n - 1) as nat);
    }
}

proof fn lemma_rights(p: int, n: nat)
    requires
        n <= LAST_KEY,
    ensures
        cursor_after(0, p, Seq::new(n, |i: int| Btn::Right)) == (n as int, p),
    decreases n,
{
    if n > 0 {
        let s = Seq::new(n, |i: int| Btn::Right);
        assert(s.drop_last() =~= Seq::new((n - 1) as nat, |i: int| Btn::Right));
        lemma_rights(p, (n - 1) as nat);
    }
}

proof fn lemma_ys(k: int, p: int, n: nat)
    requires
        0 <= p < 3,
    ensures
        cursor_after(k, p, Seq::new(n, |i: int| Btn::Y)) == (k, (p + n) % 3),
    decreases n,
{
    if n > 0 {
        let s = Seq::new(n, |i: int| Btn::Y);
        assert(s.drop_last() =~= Seq::new((n - 1) as nat, |i: int| Btn::Y));
        lemma_ys(k, p, (n - 1) as nat);
    }
}

/// From wherever the cursor is, some run of arrows and Y puts it on any key of any page,
/// where A types that key.
pub proof fn law_the_cursor_reaches_every_key(k: int, p: int, k2: int, p2: int)
    requires
        0 <= k <= LAST_KEY,
        0 <= p < 3,
        0 <= k2 <= LAST_KEY,
        0 <= p2 < 3,
    ensures
        exists|presses: Seq<Btn>|
            (forall|i: int| 0 <= i < presses.len() ==> moves_only(#[trigger] presses[i]))
                && #[trigger] cursor_after(k, p, presses) == (k2, p2),
{
    let ups = Seq::new(4, |i: int| Btn::Up);
    let rights = Seq::new(k2 as nat, |i: int| Btn::Right);
    let turns = ((p2 - p + 3) % 3) as nat;
    let ys = Seq::new(turns, |i: int| Btn::Y);
    lemma_ups(k, p, 4);
    lemma_rights(p, k2 as nat);
    lemma_ys(k2, p, turns);
    lemma_cursor_concat(k, p, ups, rights);
    lemma_cursor_concat(k, p, ups + rights, ys);
    let presses = ups + rights + ys;
    assert(cursor_after(k, p, presses) == (k2, p2));
    assert forall|i: int| 0 <= i < presses.len() implies moves_only(#[trigger] presses[i]) by {
        if i < 4 {
            assert(presses[i] == Btn::Up);
        } else if i < 4 + k2 {
            assert(presses[i] == Btn::Right);
        } else {
            assert(presses[i] == Btn::Y);
        }
    }
}

/// `c` is on a key: some page holds it at some key the cursor can stand on.
pub open spec fn on_keyboard(c: char) -> bool {
    exists|p: int, k: int| 0 <= p < 3 && 0 <= k <= LAST_KEY && #[trigger] KEYS@[p]@[k] == c
}

/// Every printable ASCII character is on some key of some page, so a password can hold any
/// of them: the arrows and Y reach every key, and A types the one under the cursor.
pub proof fn law_every_printable_character_has_a_key()
    ensures
        forall|c: char| ' ' <= c <= '~' ==> #[trigger] on_keyboard(c),
{
    reveal_strlit("abcdefghijklmnopqrstuvwxyz0123456789-_. ");
    reveal_strlit("ABCDEFGHIJKLMNOPQRSTUVWXYZ0123456789-_. ");
    reveal_strlit("!@#$%^&*()[]{}<>?/\\|;:'\",+=`~_- .0123456");
    assert forall|c: char| ' ' <= c <= '~' implies #[trigger] on_keyboard(c) by {
        assert((c as u32) >= 32 && (c as u32) <= 126);
        if c == ' ' {
            assert(KEYS@[0]@[39] == c);
        } else if c == '!' {
            assert(KEYS@[2]@[0] == c);
        } else if c == '"' {
            assert(KEYS@[2]@[23] == c);
        } else if c == '#' {
            assert(KEYS@[2]@[2] == c);
        } else if c == '$' {
            assert(KEYS@[2]@[3] == c);
        } else if c == '%' {
            assert(KEYS@[2]@[4] == c);
        } else if c == '&' {
            assert(KEYS@[2]@[6] == c);
        } else if c == '\'' {
            assert(KEYS@[2]@[22] == c);
        } else if c == '(' {
            assert(KEYS@[2]@[8] == c);
        } else if c == ')' {
            assert(KEYS@[2]@[9] == c);
        } else if c == '*' {
            assert(KEYS@[2]@[7] == c);
        } else if c == '+' {
            assert(KEYS@[2]@[25] == c);
        } else if c == ',' {
            assert(KEYS@[2]@[24] == c);
        } else if c == '-' {
            assert(KEYS@[0]@[36] == c);
        } else if c == '.' {
            assert(KEYS@[0]@[38] == c);
        } else if c == '/' {
            assert(KEYS@[2]@[17] == c);
        } else if c == '0' {
            assert(KEYS@[0]@[26] == c);
        } else if c == '1' {
            assert(KEYS@[0]@[27] == c);
        } else if c == '2' {
            assert(KEYS@[0]@[28] == c);
        } else if c == '3' {
            assert(KEYS@[0]@[29] == c);
        } else if c == '4' {
            assert(KEYS@[0]@[30] == c);
        } else if c == '5' {
            assert(KEYS@[0]@[31] == c);
        } else if c == '6' {
            assert(KEYS@[0]@[32] == c);
        } else if c == '7' {
            assert(KEYS@[0]@[33] == c);
        } else if c == '8' {
            assert(KEYS@[0]@[34] == c);
        } else if c == '9' {
            assert(KEYS@[0]@[35] == c);
        } else if c == ':' {
            assert(KEYS@[2]@[21] == c);
        } else if c == ';' {
            assert(KEYS@[2]@[20] == c);
        } else if c == '<' {
            assert(KEYS@[2]@[14] == c);
        } else if c == '=' {
            assert(KEYS@[2]@[26] == c);
        } else if c == '>' {
            assert(KEYS@[2]@[15] == c);
        } else if c == '?' {
            assert(KEYS@[2]@[16] == c);
        } else if c == '@' {
            assert(KEYS@[2]@[1] == c);
        } else if c == 'A' {
            assert(KEYS@[1]@[0] == c);
        } else if c == 'B' {
            assert(KEYS@[1]@[1] == c);
        } else if c == 'C' {
            assert(KEYS@[1]@[2] == c);
        } else if c == 'D' {
            assert(KEYS@[1]@[3] == c);
        } else if c == 'E' {
            assert(KEYS@[1]@[4] == c);
        } else if c == 'F' {
            assert(KEYS@[1]@[5] == c);
        } else if c == 'G' {
            assert(KEYS@[1]@[6] == c);
        } else if c == 'H' {
            assert(KEYS@[1]@[7] == c);
        } else if c == 'I' {
            assert(KEYS@[1]@[8] == c);
        } else if c == 'J' {
            assert(KEYS@[1]@[9] == c);
        } else if c == 'K' {
            assert(KEYS@[1]@[10] == c);
        } else if c == 'L' {
            assert(KEYS@[1]@[11] == c);
        } else if c == 'M' {
            assert(KEYS@[1]@[12] == c);
        } else if c == 'N' {
            assert(KEYS@[1]@[13] == c);
        } else if c == 'O' {
            assert(KEYS@[1]@[14] == c);
        } else if c == 'P' {
            assert(KEYS@[1]@[15] == c);
        } else if c == 'Q' {
            assert(KEYS@[1]@[16] == c);
        } else if c == 'R' {
            assert(KEYS@[1]@[17] == c);
        } else if c == 'S' {
            assert(KEYS@[1]@[18] == c);
        } else if c == 'T' {
            assert(KEYS@[1]@[19] == c);
        } else if c == 'U' {
            assert(KEYS@[1]@[20] == c);
        } else if c == 'V' {
            assert(KEYS@[1]@[21] == c);
        } else if c == 'W' {
            assert(KEYS@[1]@[22] == c);
        } else if c == 'X' {
            assert(KEYS@[1]@[23] == c);
        } else if c == 'Y' {
            assert(KEYS@[1]@[24] == c);
        } else if c == 'Z' {
            assert(KEYS@[1]@[25] == c);
        } else if c == '[' {
            assert(KEYS@[2]@[10] == c);
        } else if c == '\\' {
            assert(KEYS@[2]@[18] == c);
        } else if c == ']' {
            assert(KEYS@[2]@[11] == c);
        } else if c == '^' {
            assert(KEYS@[2]@[5] == c);
        } else if c == '_' {
            assert(KEYS@[0]@[37] == c);
        } else if c == '`' {
            assert(KEYS@[2]@[27] == c);
        } else if c == 'a' {
            assert(KEYS@[0]@[0] == c);
        } else if c == 'b' {
            assert(KEYS@[0]@[1] == c);
        } else if c == 'c' {
            assert(KEYS@[0]@[2] == c);
        } else if c == 'd' {
            assert(KEYS@[0]@[3] == c);
        } else if c == 'e' {
            assert(KEYS@[0]@[4] == c);
        } else if c == 'f' {
            assert(KEYS@[0]@[5] == c);
        } else if c == 'g' {
            assert(KEYS@[0]@[6] == c);
        } else if c == 'h' {
            assert(KEYS@[0]@[7] == c);
        } else if c == 'i' {
            assert(KEYS@[0]@[8] == c);
        } else if c == 'j' {
            assert(KEYS@[0]@[9] == c);
        } else if c == 'k' {
            assert(KEYS@[0]@[10] == c);
        } else if c == 'l' {
            assert(KEYS@[0]@[11] == c);
        } else if c == 'm' {
            assert(KEYS@[0]@[12] == c);
        } else if c == 'n' {
            assert(KEYS@[0]@[13] == c);
        } else if c == 'o' {
            assert(KEYS@[0]@[14] == c);
        } else if c == 'p' {
            assert(KEYS@[0]@[15] == c);
        } else if c == 'q' {
            assert(KEYS@[0]@[16] == c);
        } else if c == 'r' {
            assert(KEYS@[0]@[17] == c);
        } else if c == 's' {
            assert(KEYS@[0]@[18] == c);
        } else if c == 't' {
            assert(KEYS@[0]@[19] == c);
        } else if c == 'u' {
            assert(KEYS@[0]@[20] == c);
        } else if c == 'v' {
            assert(KEYS@[0]@[21] == c);
        } else if c == 'w' {
            assert(KEYS@[0]@[22] == c);
        } else if c == 'x' {
            assert(KEYS@[0]@[23] == c);
        } else if c == 'y' {
            assert(KEYS@[0]@[24] == c);
        } else if c == 'z' {
            assert(KEYS@[0]@[25] == c);
        } else if c == '{' {
            assert(KEYS@[2]@[12] == c);
        } else if c == '|' {
            assert(KEYS@[2]@[19] == c);
        } else if c == '}' {
            assert(KEYS@[2]@[13] == c);
        } else if c == '~' {
            assert(KEYS@[2]@[28] == c);
        }
    }
}

/// Whether a button asks the worker for something: START on the keyboard with a password the
/// network takes, or A on the list over one of the four fixed rows or an open network. Every
/// button moves the change counter once, and asking moves it once more.
pub open spec fn input_asks(m: &WifiMenu, button: Btn) -> bool {
    &&& button != Btn::B
    &&& !m.spec_busy()
    &&& match m.spec_editing() {
        Some(n) => button == Btn::Start && spec_validate(n.security, m.spec_password()) is Ok,
        None => button == Btn::A && (m.spec_row() <= 3 || (4 <= m.spec_row()
            < m.spec_networks().len() + 4 && m.spec_networks()[m.spec_row() - 4].security
            == Security::Open)),
    }
}

impl WifiMenu {
    /// One button on this screen. `true` means return to settings.
    ///
    /// B backs out of the keyboard first, taking what was typed with it, and only then off
    /// the screen. Nothing else moves while the worker is busy. On the keyboard the arrows
    /// walk the keys, Y turns the page, X erases, A types and START tries the password; on the
    /// list the arrows pick a row and A acts on it.
    pub fn input(&mut self, button: Btn) -> (back: bool)
        requires
            old(self).room(),
            old(self).spec_networks().len() + 3 <= usize::MAX,
            old(self).spec_row() < usize::MAX,
        ensures
            back == (button == Btn::B && old(self).spec_editing() is None),
            final(self).spec_networks() == old(self).spec_networks(),
            final(self).spec_busy() == old(self).spec_busy(),
            final(self).spec_service() == old(self).spec_service(),
            button == Btn::B ==> {
                &&& final(self).spec_row() == old(self).spec_row()
                &&& final(self).spec_editing() is None
                &&& old(self).spec_editing() is Some ==> final(self).spec_password() == Seq::<
                    char,
                >::empty()
                &&& old(self).spec_editing() is None ==> final(self).spec_password() == old(
                    self,
                ).spec_password()
                &&& final(self).spec_outbox() == old(self).spec_outbox()
            },
            button != Btn::B && old(self).spec_busy() ==> {
                &&& final(self).spec_editing() == old(self).spec_editing()
                &&& final(self).spec_password() == old(self).spec_password()
                &&& final(self).spec_row() == old(self).spec_row()
                &&& final(self).spec_outbox() == old(self).spec_outbox()
            },
            // The keyboard.
            button != Btn::B && !old(self).spec_busy() && old(self).spec_editing() is Some ==> {
                let k = old(self).spec_key();
                let page = old(self).spec_page();
                let typed = old(self).spec_password();
                let network = old(self).spec_editing()->0;
                &&& final(self).spec_row() == old(self).spec_row()
                &&& final(self).spec_key() == key_moved(k as int, button)
                &&& final(self).spec_page() == page_turned(page as int, button)
                &&& button == Btn::X ==> final(self).spec_password() == if typed.len() > 0 {
                    typed.drop_last()
                } else {
                    typed
                }
                &&& button == Btn::A ==> final(self).spec_password() == if typed.len()
                    < PASSWORD_MAX {
                    typed.push(KEYS@[page as int]@[k as int])
                } else {
                    typed
                }
                &&& button == Btn::Start ==> match spec_validate(network.security, typed) {
                    Err(e) => {
                        &&& final(self).spec_status() == e
                        &&& final(self).spec_editing() == old(self).spec_editing()
                        &&& final(self).spec_password() == typed
                        &&& final(self).spec_outbox() == old(self).spec_outbox()
                    },
                    Ok(()) => {
                        &&& final(self).spec_editing() is None
                        &&& final(self).spec_password() == Seq::<char>::empty()
                        &&& old(self).spec_service() ==> (final(self).spec_outbox() matches Some(
                            (Request::Connect(n, p), s),
                        ) && n == network && p@ == typed && s
                            == "Connecting... (up to 45 seconds)"@)
                    },
                }
                &&& button != Btn::Start ==> final(self).spec_editing() == old(self).spec_editing()
                    && final(self).spec_outbox() == old(self).spec_outbox()
                &&& button != Btn::X && button != Btn::A && button != Btn::Start
                    ==> final(self).spec_password() == typed
            },
            // The list.
            button != Btn::B && !old(self).spec_busy() && old(self).spec_editing() is None ==> {
                let row = old(self).spec_row();
                let last = last_row(old(self).spec_networks().len());
                &&& button == Btn::Up ==> final(self).spec_row() == if row >= 1 {
                    row - 1
                } else {
                    0
                }
                &&& button == Btn::Down ==> final(self).spec_row() == if row + 1 > last {
                    last
                } else {
                    row + 1
                }
                &&& button != Btn::Up && button != Btn::Down ==> final(self).spec_row() == row
                &&& button == Btn::A && old(self).spec_service() ==> {
                    &&& row == 0 ==> (final(self).spec_outbox() matches Some((Request::Scan, s))
                        && s == "Scanning for networks..."@)
                    &&& row == 1 ==> (final(self).spec_outbox() matches Some(
                        (Request::Reconnect, s),
                    ) && s == "Connecting to saved network..."@)
                    &&& row == 2 ==> (final(self).spec_outbox() matches Some(
                        (Request::Disconnect, s),
                    ) && s == "Disconnecting..."@)
                    &&& row == 3 ==> (final(self).spec_outbox() matches Some(
                        (Request::Forget, s),
                    ) && s == "Forgetting saved network..."@)
                }
                &&& button == Btn::A && row <= 3 && !old(self).spec_service()
                    ==> final(self).spec_outbox() == old(self).spec_outbox()
                &&& final(self).spec_editing() is None ==> {
                    &&& final(self).spec_password() == old(self).spec_password()
                    &&& final(self).spec_key() == old(self).spec_key()
                    &&& final(self).spec_page() == old(self).spec_page()
                }
                &&& !(button == Btn::A && 4 <= row < old(self).spec_networks().len() + 4
                    && old(self).spec_networks()[row - 4].security != Security::Open)
                    ==> final(self).spec_status() == old(self).spec_status()
                &&& button == Btn::A && 4 <= row < old(self).spec_networks().len() + 4
                    && old(self).spec_networks()[row - 4].security == Security::Open
                    && !old(self).spec_service()
                    ==> final(self).spec_outbox() == old(self).spec_outbox()
                &&& button == Btn::A && 4 <= row < old(self).spec_networks().len() + 4 ==> {
                    let network = old(self).spec_networks()[row - 4];
                    match network.security {
                        Security::Open => {
                            &&& old(self).spec_service() ==> (final(self).spec_outbox() matches Some(
                                (Request::Connect(n, p), s),
                            ) && n == network && p@ == Seq::<char>::empty() && s
                                == "Connecting..."@)
                            &&& final(self).spec_editing() is None
                        },
                        Security::Unsupported => {
                            &&& final(self).spec_status()
                                == "This network's security is not supported"@
                            &&& final(self).spec_editing() is None
                            &&& final(self).spec_outbox() == old(self).spec_outbox()
                        },
                        Security::Personal => {
                            &&& final(self).spec_editing() == Some(network)
                            &&& final(self).spec_password() == Seq::<char>::empty()
                            &&& final(self).spec_key() == 0
                            &&& final(self).spec_page() == 0
                            &&& final(self).spec_status() == "Enter the Wi-Fi password"@
                            &&& final(self).spec_outbox() == old(self).spec_outbox()
                        },
                    }
                }
                &&& button != Btn::A ==> final(self).spec_editing() is None
                    && final(self).spec_outbox() == old(self).spec_outbox()
            },
            final(self).spec_revision() == old(self).spec_revision() + if input_asks(
                old(self),
                button,
            ) {
                2int
            } else {
                1int
            },
            final(self).spec_busy() == old(self).spec_busy(),
            final(self).spec_networks() == old(self).spec_networks(),
            final(self).spec_service() == old(self).spec_service(),
    {
        proof {
            use_type_invariant(&self.keys);
        }
        self.revision = self.revision + 1;
        if button == Btn::B {
            if self.editing.take().is_some() {
                self.password = String::new();
                return false;
            }
            return true;
        }
        if self.busy {
            return false;
        }
        if let Some(editing) = &self.editing {
            let network = copy_network(editing);
            proof {
                lemma_pages_are_full();
            }
            let (key, page) = (self.keys.key, self.keys.page);
            match button {
                Btn::Up => self.keys = Keyboard { key: if key >= 10 { key - 10 } else { 0 }, page },
                Btn::Down => self.keys = Keyboard {
                    key: if key + 10 > LAST_KEY { LAST_KEY } else { key + 10 },
                    page,
                },
                Btn::Left => self.keys = Keyboard { key: if key >= 1 { key - 1 } else { 0 }, page },
                Btn::Right => self.keys = Keyboard {
                    key: if key + 1 > LAST_KEY { LAST_KEY } else { key + 1 },
                    page,
                },
                Btn::Y => self.keys = Keyboard { key, page: (page + 1) % 3 },
                Btn::X => {
                    let n = self.password.unicode_len();
                    if n > 0 {
                        let kept = self.password.as_str().substring_char(0, n - 1);
                        self.password = String::from_str(kept);
                    }
                },
                Btn::A => {
                    if self.password.unicode_len() < PASSWORD_MAX {
                        let row = KEYS[page];
                        let key = row.substring_char(key, key + 1);
                        self.password.append(key);
                        assert(self.password@ =~= old(self).spec_password().push(
                            KEYS@[old(self).spec_page() as int]@[old(self).spec_key() as int],
                        ));
                    }
                },
                Btn::Start => {
                    match validate(&network, self.password.as_str()) {
                        Err(error) => self.status = error,
                        Ok(()) => {
                            let password = self.password.clone();
                            self.password = String::new();
                            self.editing = None;
                            self.request(
                                Request::Connect(network, password),
                                "Connecting... (up to 45 seconds)",
                            );
                        },
                    }
                },
                _ => {},
            }
            return false;
        }
        match button {
            Btn::Up => self.row = if self.row >= 1 { self.row - 1 } else { 0 },
            Btn::Down => {
                let last = self.networks.len() + 3;
                self.row = if self.row + 1 > last { last } else { self.row + 1 };
            },
            Btn::A => {
                if self.row == 0 {
                    self.request(Request::Scan, "Scanning for networks...");
                } else if self.row == 1 {
                    self.request(Request::Reconnect, "Connecting to saved network...");
                } else if self.row == 2 {
                    self.request(Request::Disconnect, "Disconnecting...");
                } else if self.row == 3 {
                    self.request(Request::Forget, "Forgetting saved network...");
                } else if self.row - 4 < self.networks.len() {
                    let network = copy_network(&self.networks[self.row - 4]);
                    match network.security {
                        Security::Open => {
                            self.request(
                                Request::Connect(network, String::new()),
                                "Connecting...",
                            );
                        },
                        Security::Unsupported => {
                            self.status = String::from_str(
                                "This network's security is not supported",
                            );
                        },
                        Security::Personal => {
                            self.editing = Some(network);
                            self.password = String::new();
                            self.keys = Keyboard { key: 0, page: 0 };
                            self.status = String::from_str("Enter the Wi-Fi password");
                        },
                    }
                }
            },
            _ => {},
        }
        false
    }
}

impl WifiMenu {
    /// The screen as it stands, as the face the binary uploads: every rectangle painted in
    /// order, the lines of type left to the rasteriser.
    pub fn face(&self) -> (r: Face)
        ensures
            sized(r),
            r.w == OUT_W,
            r.h == OUT_H,
            forall|row: int, col: int, k: int|
                0 <= row < OUT_H && 0 <= col < OUT_W && 0 <= k < 4 ==> #[trigger] r.rgba@[at(
                    OUT_W as int,
                    row,
                    col,
                    k,
                )] == painted(
                    wifi_face(
                        self.spec_status(),
                        self.spec_networks(),
                        self.spec_row() as int,
                        self.spec_busy(),
                        self.spec_editing(),
                        self.spec_password().len(),
                        self.spec_page() as int,
                        self.spec_key() as int,
                    ),
                    row,
                    col,
                    k,
                ),
    {
        let steps = self.paints();
        render(&steps, OUT_W, OUT_H)
    }

    /// The screen as it stands, as the steps that paint it top to bottom. Only the length of
    /// the password is ever drawn.
    pub fn paints(&self) -> (r: Vec<Paint>)
        ensures
            views(r@) == wifi_face(
                self.spec_status(),
                self.spec_networks(),
                self.spec_row() as int,
                self.spec_busy(),
                self.spec_editing(),
                self.spec_password().len(),
                self.spec_page() as int,
                self.spec_key() as int,
            ),
    {
        proof {
            use_type_invariant(&self.keys);
        }
        let mut out: Vec<Paint> = Vec::new();
        push_fill(&mut out, 0, 0, 640, 480, [20, 21, 25, 255]);
        push_text(&mut out, String::from_str("Wi-Fi"), 28, 20, 30, 584, [240, 240, 244]);
        push_text(&mut out, self.status.clone(), 28, 63, 18, 584, [185, 190, 200]);
        proof {
            reveal_strlit("Wi-Fi");
        }
        let ghost top = views(out@);
        assert(top =~= seq![
            fill_view(0, 0, 640, 480, [20, 21, 25, 255]),
            text_view("Wi-Fi"@, 28, 20, 30, 584, [240, 240, 244]),
            text_view(self.spec_status(), 28, 63, 18, 584, [185, 190, 200]),
        ]);
        match &self.editing {
            Some(network) => {
                push_text(&mut out, network.ssid.clone(), 28, 99, 22, 584, [240, 240, 244]);
                push_text(
                    &mut out,
                    masked_text(self.password.unicode_len()),
                    28,
                    139,
                    19,
                    584,
                    [185, 190, 200],
                );
                proof {
                    lemma_pages_are_full();
                }
                let keys = KEYS[self.keys.page];
                let ghost head = views(out@);
                let mut i: usize = 0;
                while i < 40
                    invariant
                        i <= 40,
                        keys@ == KEYS@[self.keys.page as int]@,
                        keys@.len() == 40,
                        self.keys.key <= LAST_KEY,
                        views(out@) == head + key_cells(keys@, self.keys.key as int, i as nat),
                    decreases 40 - i,
                {
                    let x: i32 = 28 + (i % 10) as i32 * 59;
                    let y: i32 = 190 + (i / 10) as i32 * 45;
                    let ghost before = views(out@);
                    if i == self.keys.key {
                        push_fill(&mut out, x - 3, y - 4, 49, 40, [65, 70, 85, 255]);
                    }
                    let c = keys.get_char(i);
                    let label = if c == ' ' {
                        proof {
                            reveal_strlit("SP");
                        }
                        String::from_str("SP")
                    } else {
                        String::from_str(keys.substring_char(i, i + 1))
                    };
                    assert(label@ =~= key_label(keys@[i as int]));
                    push_text(&mut out, label, x + 8, y, 23, 40, [240, 240, 244]);
                    assert(views(out@) =~= before + key_cell(keys@, self.keys.key as int, i as int));
                    i += 1;
                }
                push_text(
                    &mut out,
                    String::from_str("A Type   X Erase   Y abc/ABC/123"),
                    28,
                    391,
                    19,
                    584,
                    [185, 190, 200],
                );
                push_text(
                    &mut out,
                    String::from_str("START Connect   B Cancel"),
                    28,
                    433,
                    19,
                    584,
                    [240, 240, 244],
                );
                proof {
                    reveal_strlit("A Type   X Erase   Y abc/ABC/123");
                    reveal_strlit("START Connect   B Cancel");
                }
                assert(views(out@) =~= wifi_face(
                    self.spec_status(),
                    self.spec_networks(),
                    self.spec_row() as int,
                    self.spec_busy(),
                    self.spec_editing(),
                    self.spec_password().len(),
                    self.spec_page() as int,
                    self.spec_key() as int,
                ));
            },
            None => {
                let mut rows: Vec<String> = Vec::new();
                rows.push(String::from_str("Scan networks"));
                rows.push(String::from_str("Reconnect saved network"));
                rows.push(String::from_str("Disconnect (until reconnected)"));
                rows.push(String::from_str("Forget saved network"));
                proof {
                    reveal_strlit("Scan networks");
                    reveal_strlit("Reconnect saved network");
                    reveal_strlit("Disconnect (until reconnected)");
                    reveal_strlit("Forget saved network");
                }
                let ghost fixed = rows@.map_values(|r: String| r@);
                assert(fixed =~= seq![
                    "Scan networks"@,
                    "Reconnect saved network"@,
                    "Disconnect (until reconnected)"@,
                    "Forget saved network"@,
                ]);
                let mut j: usize = 0;
                while j < self.networks.len()
                    invariant
                        j <= self.networks@.len(),
                        rows@.len() == 4 + j,
                        rows@.map_values(|r: String| r@) =~= fixed + self.networks@.subrange(
                            0,
                            j as int,
                        ).map_values(|n: Network| network_row(n)),
                    decreases self.networks@.len() - j,
                {
                    let ghost was = rows@;
                    let row = network_row_text(&self.networks[j]);
                    let ghost text = row@;
                    rows.push(row);
                    assert(rows@.map_values(|r: String| r@) =~= was.map_values(|r: String| r@).push(
                        text,
                    ));
                    assert(self.networks@.subrange(0, j + 1).map_values(
                        |n: Network| network_row(n),
                    ) =~= self.networks@.subrange(0, j as int).map_values(
                        |n: Network| network_row(n),
                    ).push(network_row(self.networks@[j as int])));
                    j += 1;
                }
                assert(self.networks@.subrange(0, self.networks@.len() as int)
                    =~= self.networks@);
                let ghost labels = rows@.map_values(|r: String| r@);
                assert(labels =~= list_rows(self.spec_networks()));
                let first = self.row.saturating_sub(5);
                let end = if rows.len() <= first {
                    first
                } else if rows.len() - first < 6 {
                    rows.len()
                } else {
                    first + 6
                };
                let ghost head = views(out@);
                let mut i: usize = first;
                while i < end
                    invariant
                        first <= i,
                        first <= end,
                        i <= end,
                        end <= rows@.len() || end == first,
                        end - first <= 6,
                        first == first_row(self.row as int),
                        labels == rows@.map_values(|r: String| r@),
                        views(out@) == head + row_cells(
                            labels,
                            first as int,
                            self.row as int,
                            (i - first) as nat,
                        ),
                    decreases end - i,
                {
                    let y: i32 = 105 + (i - first) as i32 * 46;
                    let ghost before = views(out@);
                    if i == self.row {
                        push_fill(&mut out, 16, y - 3, 608, 41, [65, 70, 85, 255]);
                    }
                    push_text(&mut out, rows[i].clone(), 28, y, 22, 584, [240, 240, 244]);
                    assert(labels[i as int] == rows@[i as int]@);
                    assert(views(out@) =~= before + row_cell(
                        labels[i as int],
                        i as int,
                        first as int,
                        self.row as int,
                    ));
                    i += 1;
                }
                assert((end - first) as nat == rows_shown(labels.len() as int, first as int));
                push_text(
                    &mut out,
                    String::from_str("SFTP: port 22 | user root | your BaseOS password"),
                    28,
                    391,
                    18,
                    584,
                    [185, 190, 200],
                );
                let footer = if self.busy {
                    String::from_str("Working...   B Back")
                } else {
                    String::from_str("Up/Down Choose   A Select   B Back")
                };
                push_text(&mut out, footer, 28, 433, 19, 584, [240, 240, 244]);
                proof {
                    reveal_strlit("SFTP: port 22 | user root | your BaseOS password");
                    reveal_strlit("Working...   B Back");
                    reveal_strlit("Up/Down Choose   A Select   B Back");
                }
                assert(views(out@) =~= wifi_face(
                    self.spec_status(),
                    self.spec_networks(),
                    self.spec_row() as int,
                    self.spec_busy(),
                    self.spec_editing(),
                    self.spec_password().len(),
                    self.spec_page() as int,
                    self.spec_key() as int,
                ));
            },
        }
        out
    }
}

} // verus!
