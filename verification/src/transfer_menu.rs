//! The File Transfer screen: whether the upload server is running, what it last said, and
//! when the screen has to be drawn again. The server itself runs on its own threads and is
//! the binary's; the screen is told how starting it went and what it reports.

use vstd::prelude::*;

use crate::face::{
    at, fill_view, lemma_painted_skips_type, painted, push_fill, push_text, render, sized, text_view,
    views, Face, Paint, PaintView, OUT_H, OUT_W,
};
use crate::input::trace::{digits, push_digits};
use crate::text::{find_from, first_occurrence};

verus! {

/// What the screen shows of a running server: where to point a browser, and the code to type.
#[derive(Clone, Debug)]
pub struct ServerInfo {
    pub address: String,
    pub pin: String,
}

/// How an attempt to start the server went.
pub enum Opening {
    Started(ServerInfo),
    /// The card and the network were there and the server still would not start.
    Failed,
    /// No card to serve, or no address on the Wi-Fi to serve it at.
    Offline,
}

/// What the server reports: its last line, and how many files have arrived.
#[derive(Clone, Debug)]
pub struct TransferStatus {
    pub message: String,
    pub uploaded: u64,
}

/// The separator the Wi-Fi status puts before the address.
pub open spec fn ip_separator() -> Seq<char> {
    " | IP "@
}

/// The address part of a Wi-Fi status line: what follows the first `" | IP "`, up to the next
/// one or the end.
pub open spec fn spec_status_ip(status: Seq<char>) -> Option<Seq<char>> {
    match first_occurrence(status, ip_separator(), 0) {
        None => None,
        Some(at) => {
            let start = at + ip_separator().len();
            match first_occurrence(status, ip_separator(), start) {
                Some(end) => Some(status.subrange(start, end)),
                None => Some(status.subrange(start, status.len() as int)),
            }
        },
    }
}

/// The text the binary parses as the address to serve at.
pub fn status_ip(status: &str) -> (r: Option<String>)
    ensures
        match (r, spec_status_ip(status@)) {
            (Some(s), Some(t)) => s@ == t,
            (None, None) => true,
            _ => false,
        },
{
    let sep = " | IP ";
    let n = status.unicode_len();
    proof {
        reveal_strlit(" | IP ");
        lemma_occurrence_in_bounds(status@, sep@, 0);
    }
    let at = match find_from(status, sep, 0) {
        Some(at) => at,
        None => return None,
    };
    let start = at + 6;
    proof {
        lemma_occurrence_in_bounds(status@, sep@, start as int);
    }
    let end = match find_from(status, sep, start) {
        Some(end) => end,
        None => n,
    };
    Some(String::from_str(status.substring_char(start, end)))
}

/// An occurrence found is one that fits.
proof fn lemma_occurrence_in_bounds(s: Seq<char>, p: Seq<char>, from: int)
    ensures
        first_occurrence(s, p, from) matches Some(i) ==> from <= i && i + p.len() <= s.len(),
    decreases s.len() + 1 - from,
{
    if from < 0 || from + p.len() > s.len() {
    } else if crate::text::occurs_at(s, p, from) {
    } else {
        lemma_occurrence_in_bounds(s, p, from + 1);
    }
}

/// The screen, `w` by `h`: the title, then where to browse to and the code to type while the
/// server runs or how to try again when it does not, and the server's last line.
pub open spec fn transfer_face(
    w: u32,
    h: u32,
    server: Option<ServerInfo>,
    message: Seq<char>,
    uploaded: u64,
) -> Seq<PaintView> {
    let width = w - 56;
    seq![
        fill_view(0, 0, w as int, h as int, [20, 21, 25, 255]),
        text_view("File Transfer"@, 28, 22, 30, width, [240, 240, 244]),
    ] + match server {
        Some(info) => seq![
            text_view(
                "Open this address on a device on the same Wi-Fi:"@,
                28,
                84,
                20,
                width,
                [185, 190, 200],
            ),
            text_view("http://"@ + info.address@ + "/"@, 28, 125, 32, width, [240, 240, 244]),
            text_view("Enter this transfer code:"@, 28, 193, 20, width, [185, 190, 200]),
            text_view(info.pin@, 28, 228, 44, width, [229, 219, 191]),
            text_view(
                digits(uploaded as nat, 10) + " files uploaded"@,
                28,
                312,
                20,
                width,
                [185, 190, 200],
            ),
            text_view(
                "Restart Slot after adding games or labels."@,
                28,
                389,
                19,
                width,
                [185, 190, 200],
            ),
            text_view(
                "Keep this screen open.   B Stop & back"@,
                28,
                433,
                20,
                width,
                [240, 240, 244],
            ),
        ],
        None => seq![text_view("A Retry   B Back"@, 28, 433, 20, width, [240, 240, 244])],
    } + seq![text_view(message, 28, 352, 19, width, [185, 190, 200])]
}

pub struct TransferMenu {
    server: Option<ServerInfo>,
    message: String,
    uploaded: u64,
    revision: u64,
}

impl Default for TransferMenu {
    fn default() -> (r: Self)
        ensures
            !r.spec_running(),
            r.spec_message() == Seq::<char>::empty(),
            r.spec_uploaded() == 0,
            r.spec_revision() == 1,
    {
        TransferMenu { server: None, message: String::new(), uploaded: 0, revision: 1 }
    }
}

impl TransferMenu {
    pub open spec fn spec_running(&self) -> bool {
        self.spec_server() is Some
    }

    pub closed spec fn spec_server(&self) -> Option<ServerInfo> {
        self.server
    }

    pub closed spec fn spec_message(&self) -> Seq<char> {
        self.message@
    }

    pub closed spec fn spec_uploaded(&self) -> u64 {
        self.uploaded
    }

    pub closed spec fn spec_revision(&self) -> u64 {
        self.revision
    }

    /// The server as this attempt left it, and the line that says why when there is none;
    /// then the server's first report. Whatever was running before is stopped first.
    pub fn open(&mut self, opening: Opening, first: Option<TransferStatus>)
        requires
            old(self).spec_revision() + 3 <= u64::MAX,
        ensures
            match opening {
                Opening::Started(info) => final(self).spec_server() == Some(info),
                _ => final(self).spec_server() is None,
            },
            final(self).spec_running() == opening is Started,
            opening is Failed ==> final(self).spec_message()
                == "Cannot start. Check Wi-Fi, then press A to retry."@,
            opening is Offline ==> final(self).spec_message()
                == "Connect in Settings > Wi-Fi first, then try again."@,
            opening is Started && first is None ==> final(self).spec_message() == old(
                self,
            ).spec_message() && final(self).spec_uploaded() == old(self).spec_uploaded(),
            opening is Started && first is Some ==> final(self).spec_message() == first->0.message@
                && final(self).spec_uploaded() == first->0.uploaded,
            !(opening is Started) ==> final(self).spec_uploaded() == old(self).spec_uploaded(),
            final(self).spec_revision() == old(self).spec_revision() + 2 + if opening is Started
                && first is Some && (first->0.message@ != old(self).spec_message()
                || first->0.uploaded != old(self).spec_uploaded()) {
                1int
            } else {
                0int
            },
    {
        self.stop();
        self.server = match opening {
            Opening::Started(server) => Some(server),
            Opening::Failed => {
                self.message = String::from_str(
                    "Cannot start. Check Wi-Fi, then press A to retry.",
                );
                None
            },
            Opening::Offline => {
                self.message = String::from_str(
                    "Connect in Settings > Wi-Fi first, then try again.",
                );
                None
            },
        };
        self.revision = self.revision + 1;
        self.poll(first);
    }

    /// The screen as it stands, `w` by `h`, as the steps that paint it top to bottom.
    pub fn paints(&self, w: u32, h: u32) -> (r: Vec<Paint>)
        requires
            w <= i32::MAX,
            h <= i32::MAX,
        ensures
            views(r@) == transfer_face(
                w,
                h,
                self.spec_server(),
                self.spec_message(),
                self.spec_uploaded(),
            ),
    {
        let width = w as i32 - 56;
        let mut out: Vec<Paint> = Vec::new();
        push_fill(&mut out, 0, 0, w as i32, h as i32, [20, 21, 25, 255]);
        push_text(&mut out, String::from_str("File Transfer"), 28, 22, 30, width, [240, 240, 244]);
        match &self.server {
            Some(info) => {
                push_text(
                    &mut out,
                    String::from_str("Open this address on a device on the same Wi-Fi:"),
                    28,
                    84,
                    20,
                    width,
                    [185, 190, 200],
                );
                let mut address = String::from_str("http://");
                address.append(info.address.as_str());
                address.append("/");
                push_text(&mut out, address, 28, 125, 32, width, [240, 240, 244]);
                push_text(
                    &mut out,
                    String::from_str("Enter this transfer code:"),
                    28,
                    193,
                    20,
                    width,
                    [185, 190, 200],
                );
                push_text(&mut out, info.pin.clone(), 28, 228, 44, width, [229, 219, 191]);
                let mut count = String::new();
                push_digits(&mut count, self.uploaded as u128, 10);
                count.append(" files uploaded");
                push_text(&mut out, count, 28, 312, 20, width, [185, 190, 200]);
                push_text(
                    &mut out,
                    String::from_str("Restart Slot after adding games or labels."),
                    28,
                    389,
                    19,
                    width,
                    [185, 190, 200],
                );
                push_text(
                    &mut out,
                    String::from_str("Keep this screen open.   B Stop & back"),
                    28,
                    433,
                    20,
                    width,
                    [240, 240, 244],
                );
                proof {
                    reveal_strlit("http://");
                    reveal_strlit("/");
                    reveal_strlit(" files uploaded");
                }
            },
            None => {
                push_text(
                    &mut out,
                    String::from_str("A Retry   B Back"),
                    28,
                    433,
                    20,
                    width,
                    [240, 240, 244],
                );
            },
        }
        push_text(&mut out, self.message.clone(), 28, 352, 19, width, [185, 190, 200]);
        assert(views(out@) =~= transfer_face(
            w,
            h,
            self.spec_server(),
            self.spec_message(),
            self.spec_uploaded(),
        ));
        out
    }

    /// The screen as it stands, as the face the binary uploads: the background and every
    /// rectangle painted, the lines of type left to the rasteriser. Nothing on this screen
    /// but type sits over the background, so every pixel is the background.
    pub fn face(&self) -> (r: Face)
        ensures
            sized(r),
            r.w == OUT_W,
            r.h == OUT_H,
            forall|row: int, col: int, k: int|
                0 <= row < OUT_H && 0 <= col < OUT_W && 0 <= k < 4 ==> #[trigger] r.rgba@[at(
                    OUT_W as int,
                    row,
                    col,
                    k,
                )] == painted(
                    transfer_face(
                        OUT_W,
                        OUT_H,
                        self.spec_server(),
                        self.spec_message(),
                        self.spec_uploaded(),
                    ),
                    row,
                    col,
                    k,
                ),
            forall|row: int, col: int, k: int|
                0 <= row < OUT_H && 0 <= col < OUT_W && 0 <= k < 4 ==> #[trigger] r.rgba@[at(
                    OUT_W as int,
                    row,
                    col,
                    k,
                )] == [20u8, 21, 25, 255]@[k],
    {
        let steps = self.paints(OUT_W, OUT_H);
        let r = render(&steps, OUT_W, OUT_H);
        proof {
            let ps = transfer_face(
                OUT_W,
                OUT_H,
                self.spec_server(),
                self.spec_message(),
                self.spec_uploaded(),
            );
            assert forall|i: int| 1 <= i < ps.len() implies #[trigger] ps[i] is Text by {}
            assert forall|row: int, col: int, k: int|
                0 <= row < OUT_H && 0 <= col < OUT_W && 0 <= k < 4 implies #[trigger] r.rgba@[at(
                    OUT_W as int,
                    row,
                    col,
                    k,
                )] == [20u8, 21, 25, 255]@[k] by {
                lemma_painted_skips_type(ps, 1, row, col, k);
                assert(ps.take(1).drop_last() =~= Seq::<PaintView>::empty());
            }
        }
        r
    }

    pub fn running(&self) -> (r: bool)
        ensures
            r == self.spec_running(),
    {
        self.server.is_some()
    }

    pub fn stop(&mut self)
        requires
            old(self).spec_revision() < u64::MAX,
        ensures
            !final(self).spec_running(),
            final(self).spec_revision() == old(self).spec_revision() + 1,
            final(self).spec_message() == old(self).spec_message(),
            final(self).spec_uploaded() == old(self).spec_uploaded(),
    {
        self.server = None;
        self.revision = self.revision + 1;
    }

    pub fn revision(&self) -> (r: u64)
        ensures
            r == self.spec_revision(),
    {
        self.revision
    }

    /// What the running server last said. A report that changes nothing leaves the screen
    /// as it was drawn; with no server running there is nothing to report.
    pub fn poll(&mut self, status: Option<TransferStatus>)
        requires
            old(self).spec_revision() < u64::MAX,
        ensures
            final(self).spec_server() == old(self).spec_server(),
            match status {
                Some(st) if old(self).spec_running() => {
                    let changed = st.message@ != old(self).spec_message() || st.uploaded != old(
                        self,
                    ).spec_uploaded();
                    &&& final(self).spec_message() == st.message@
                    &&& final(self).spec_uploaded() == st.uploaded
                    &&& final(self).spec_revision() == old(self).spec_revision() + if changed {
                        1int
                    } else {
                        0int
                    }
                },
                _ => {
                    &&& final(self).spec_message() == old(self).spec_message()
                    &&& final(self).spec_uploaded() == old(self).spec_uploaded()
                    &&& final(self).spec_revision() == old(self).spec_revision()
                },
            },
    {
        if self.server.is_some() {
            if let Some(status) = status {
                let same_message = crate::text::same_text(status.message.as_str(), self.message.as_str());
                if !same_message || status.uploaded != self.uploaded {
                    self.message = status.message;
                    self.uploaded = status.uploaded;
                    self.revision = self.revision + 1;
                }
            }
        }
    }
}

} // verus!
