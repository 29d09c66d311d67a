//! The folders of a content root, and where on the card each thing lives. Paths are carried
//! as text here; the binary turns them into the platform's paths and does the creating and
//! reading.

use vstd::prelude::*;

verus! {

/// The folders of a content root, including a platform subdirectory under each of the four
/// folders whose contents are filed per platform, so the binary creates them and the card
/// teaches its own layout to someone dropping files in over USB.
///
/// `States/` goes one level deeper than this — `States/<platform>/<core>/<stem>/` — and the core
/// level is deliberately not scaffolded: slot creates it on first write, and someone moving an
/// old card's `States/mgba/` wholesale into `States/GBA/` lands on exactly the right shape
/// without having to be told the core's spelling.
///
/// Parents come before their children: each is created in turn.
pub const DIRS: [&'static str; 19] = [
    "BIOS",
    "Games",
    "Games/GBA",
    "Games/GB",
    "Games/GBC",
    "Labels",
    "Labels/GBA",
    "Labels/GB",
    "Labels/GBC",
    "Saves",
    "Saves/GBA",
    "Saves/GB",
    "Saves/GBC",
    "States",
    "States/GBA",
    "States/GB",
    "States/GBC",
    "System",
    "Wallpapers",
];

/// What the card calls the BIOS. Both cores look for this name and nothing else.
pub const BIOS_FILE: &'static str = "gba_bios.bin";

/// A GBA BIOS is 16 KB, and its first byte is the low byte of the entry branch every dump of
/// it opens with (`EA000018`, little endian, so 0x18 first).
pub const BIOS_BYTES: u64 = 16 * 1024;
pub const BIOS_FIRST_BYTE: u8 = 0x18;

/// `Path::join` on a relative or absolute component, with `/` as the separator: an absolute
/// component replaces the base, an empty base is just the component, and a separator is put
/// between the two unless the base already ends with one.
pub open spec fn joined(base: Seq<char>, sub: Seq<char>) -> Seq<char> {
    if sub.len() > 0 && sub[0] == '/' {
        sub
    } else if base.len() == 0 {
        sub
    } else if base.last() == '/' {
        base + sub
    } else {
        base + seq!['/'] + sub
    }
}

/// `sub` under `base`.
pub fn join(base: &str, sub: &str) -> (r: String)
    ensures
        r@ == joined(base@, sub@),
{
    let n = sub.unicode_len();
    if n > 0 && sub.get_char(0) == '/' {
        return String::from_str(sub);
    }
    let b = base.unicode_len();
    if b == 0 {
        return String::from_str(sub);
    }
    let mut out = String::from_str(base);
    if base.get_char(b - 1) != '/' {
        out.append("/");
        proof {
            reveal_strlit("/");
        }
    }
    out.append(sub);
    out
}

/// Reported to the core as the libretro system directory. `gba_bios.bin` present means the
/// real BIOS, absent means mGBA's HLE BIOS. Neither is an error.
pub fn bios_dir(root: &str) -> (r: String)
    ensures
        r@ == joined(root@, "BIOS"@),
{
    join(root, "BIOS")
}

pub fn saves_dir(root: &str) -> (r: String)
    ensures
        r@ == joined(root@, "Saves"@),
{
    join(root, "Saves")
}

/// Whether what the card holds under the BIOS's name is a real GBA BIOS rather than merely a
/// file by that name: its length and its first byte, the two things gpSP itself depends on.
/// It reads exactly 16 KB with no length check of its own, and rejects the image outright,
/// falling back to its built-in BIOS, when the first byte is not 0x18. Asking the same
/// question here keeps "slot turned the splash on" and "gpSP actually booted the official
/// BIOS" from disagreeing.
///
/// Deliberately not a checksum: it would turn the feature off for anyone holding a regional
/// dump other than whichever hash got written down.
pub fn is_real_bios(len: Option<u64>, first: Option<u8>) -> (r: bool)
    ensures
        r == (len == Some(BIOS_BYTES) && first == Some(BIOS_FIRST_BYTE)),
{
    match (len, first) {
        (Some(len), Some(first)) => len == BIOS_BYTES && first == BIOS_FIRST_BYTE,
        _ => false,
    }
}

} // verus!
