//! Which link hardware a cart uses, so the link screen draws the thing the game expects: the
//! cable or the Wireless Adapter. Mirrors the rule gpSP's `gpsp_serial=auto` applies, because
//! that is the link the core actually runs — until the player switches it, and then
//! `serial_option` names the mode gpSP has to be loaded with instead.

use vstd::prelude::*;

use crate::text::{has_prefix, same_text, starts_with};

verus! {

#[derive(Copy, Clone, Debug, PartialEq, Eq, Structural)]
pub enum LinkKind {
    Cable,
    Wireless,
}

impl LinkKind {
    /// The one SELECT switches to.
    pub fn other(self) -> (r: LinkKind)
        ensures
            r != self,
    {
        match self {
            LinkKind::Cable => LinkKind::Wireless,
            LinkKind::Wireless => LinkKind::Cable,
        }
    }
}

/// gpSP's `FLAGS_RFU` entries, from `gba_over.h` in `vendor/gpsp-src.tar.gz`.
pub const WIRELESS: [&'static str; 43] = [
    "B2WE", "B3AE", "B4UE", "B4UP", "B85A", "B85P", "BDGE", "BDGP", "BG3E", "BKRJ", "BMGD", "BMGE",
    "BMGF", "BMGI", "BMGJ", "BMGP", "BMGS", "BMGU", "BPED", "BPEE", "BPEF", "BPEI", "BPEJ", "BPES",
    "BPGD", "BPGE", "BPGF", "BPGI", "BPGJ", "BPGS", "BPRD", "BPRE", "BPRF", "BPRI", "BPRJ", "BPRS",
    "BR5E", "BR6E", "BRBE", "BRKE", "BTME", "BTMJ", "BTMP",
];

/// The retail titles gpSP lets onto the adapter.
pub const RETAIL_TITLES: [&'static str; 3] = ["POKEMON FIRE", "POKEMON LEAF", "POKEMON EMER"];

/// The codes that open every Pokémon family header.
pub const POKEMON_CODES: [&'static str; 5] = ["AXV", "AXP", "BPE", "BPR", "BPG"];

/// One of the strings in `list`.
pub open spec fn listed<const N: usize>(list: [&'static str; N], s: Seq<char>) -> bool {
    exists|i: int| 0 <= i < N && #[trigger] list@[i]@ == s
}

/// Opens with one of the strings in `list`.
pub open spec fn prefixed<const N: usize>(list: [&'static str; N], s: Seq<char>) -> bool {
    exists|i: int| 0 <= i < N && has_prefix(s, #[trigger] list@[i]@)
}

/// The Pokémon family, by title or by any of its codes.
pub open spec fn is_pokemon(code: Seq<char>, title: Seq<char>) -> bool {
    has_prefix(title, "POKEMON"@) || prefixed(POKEMON_CODES, code)
}

/// gpSP's automatic pick for a header.
pub open spec fn spec_link_kind(code: Seq<char>, title: Seq<char>, clean: bool) -> LinkKind {
    if is_pokemon(code, title) {
        if clean && listed(WIRELESS, code) && listed(RETAIL_TITLES, title) {
            LinkKind::Wireless
        } else {
            LinkKind::Cable
        }
    } else if listed(WIRELESS, code) {
        LinkKind::Wireless
    } else {
        LinkKind::Cable
    }
}

/// The `gpsp_serial` a cart loads with to link over `chosen`.
pub open spec fn spec_serial_option(
    chosen: LinkKind,
    auto: LinkKind,
    code: Seq<char>,
    title: Seq<char>,
) -> Seq<char> {
    if chosen == auto {
        "auto"@
    } else {
        match chosen {
            LinkKind::Wireless => "rfu"@,
            LinkKind::Cable => if is_pokemon(code, title) {
                "mul_poke"@
            } else if has_prefix(code, "AWR"@) {
                "mul_aw1"@
            } else if has_prefix(code, "AW2"@) {
                "mul_aw2"@
            } else {
                "auto"@
            },
        }
    }
}

/// The carts gpSP has a link protocol for.
pub open spec fn spec_link_carried(code: Seq<char>, title: Seq<char>) -> bool {
    listed(WIRELESS, code) || is_pokemon(code, title) || has_prefix(code, "AWR"@) || has_prefix(
        code,
        "AW2"@,
    )
}

/// Whether `s` is one of `list`.
fn in_list<const N: usize>(list: &[&'static str; N], s: &str) -> (r: bool)
    ensures
        r == listed(*list, s@),
{
    let mut i: usize = 0;
    while i < N
        invariant
            i <= N,
            forall|j: int| 0 <= j < i ==> list@[j]@ != s@,
        decreases N - i,
    {
        if same_text(list[i], s) {
            assert(list@[i as int]@ == s@);
            return true;
        }
        i += 1;
    }
    false
}

/// Whether `s` opens with one of `list`.
fn has_listed_prefix<const N: usize>(list: &[&'static str; N], s: &str) -> (r: bool)
    ensures
        r == prefixed(*list, s@),
{
    let mut i: usize = 0;
    while i < N
        invariant
            i <= N,
            forall|j: int| 0 <= j < i ==> !has_prefix(s@, #[trigger] list@[j]@),
        decreases N - i,
    {
        if starts_with(s, list[i]) {
            assert(has_prefix(s@, list@[i as int]@));
            return true;
        }
        i += 1;
    }
    false
}

/// `code` and `title` are the header's, as `Cart` has them; `clean` is whether the ROM's
/// header is standard.
pub fn link_kind(code: &str, title: &str, clean: bool) -> (r: LinkKind)
    ensures
        r == spec_link_kind(code@, title@, clean),
{
    if pokemon(code, title) {
        // gpSP treats a Pokémon ROM as a hack, and links it by cable, unless its header is
        // standard, it is 16 MB or smaller, its code is one gpSP knows and its title is exactly
        // the retail one. Of the retail games only FireRed, LeafGreen and Emerald get the adapter.
        let retail = clean && in_list(&WIRELESS, code) && in_list(&RETAIL_TITLES, title);
        return if retail {
            LinkKind::Wireless
        } else {
            LinkKind::Cable
        };
    }
    if in_list(&WIRELESS, code) {
        LinkKind::Wireless
    } else {
        LinkKind::Cable
    }
}

/// The `gpsp_serial` a cart loads with to link over `chosen`, where `auto` is what gpSP picks
/// for it on its own (`link_kind`'s answer). `code` and `title` are the header's.
///
/// The mode gpSP would pick is left to gpSP, as `auto`, which is how every cart loaded before
/// there was a choice: a cart nobody switched never changes. The adapter is one mode for every
/// game. The cable is not — gpSP speaks each family's own protocol and has no generic one — so
/// a switch to the cable names the family's, and any other game stays on `auto`, which is
/// still gpSP's own pick.
pub fn serial_option(chosen: LinkKind, auto: LinkKind, code: &str, title: &str) -> (r:
    &'static str)
    ensures
        r@ == spec_serial_option(chosen, auto, code@, title@),
{
    if chosen == auto {
        return "auto";
    }
    match chosen {
        LinkKind::Wireless => "rfu",
        LinkKind::Cable => {
            if pokemon(code, title) {
                "mul_poke"
            } else if starts_with(code, "AWR") {
                "mul_aw1"
            } else if starts_with(code, "AW2") {
                "mul_aw2"
            } else {
                "auto"
            }
        },
    }
}

/// Whether gpSP can actually carry this cart's link.
///
/// gpSP does not emulate the link cable. `serial.c` has no generic multiplayer path at all: it
/// speaks the Wireless Adapter and three named cable protocols — Pokémon Gen3, Advance Wars 1
/// and Advance Wars 2 — and a cart it recognises none of is left on `SERIAL_MODE_AUTO`, which
/// `netpacket_receive` has no case for: two devices join, and then every packet is dropped in
/// silence.
///
/// True for the three sets gpSP has a protocol for, which are exactly the ones `serial_option`
/// can name. Whether the header is clean does not enter into it, unlike `link_kind`: a clean
/// header can only change which mode a cart is carried in.
pub fn link_carried(code: &str, title: &str) -> (r: bool)
    ensures
        r == spec_link_carried(code@, title@),
{
    in_list(&WIRELESS, code) || pokemon(code, title) || starts_with(code, "AWR") || starts_with(
        code,
        "AW2",
    )
}

/// The Pokémon family, by title or by any of its codes. gpSP's own test, and the one both its
/// automatic pick and its cable protocol hang off.
pub fn pokemon(code: &str, title: &str) -> (r: bool)
    ensures
        r == is_pokemon(code@, title@),
{
    starts_with(title, "POKEMON") || has_listed_prefix(&POKEMON_CODES, code)
}

/// Every cart `link_kind` puts on the adapter is one `link_carried` says gpSP can carry, and
/// a cart switched to the other hardware only ever names a mode gpSP has when it is carried.
pub proof fn law_a_cart_on_the_adapter_is_carried(code: Seq<char>, title: Seq<char>, clean: bool)
    ensures
        spec_link_kind(code, title, clean) == LinkKind::Wireless ==> spec_link_carried(code, title),
{
}

/// The player's choice matching gpSP's own pick always loads with `auto`: a cart nobody
/// switched never changes.
pub proof fn law_an_unswitched_cart_stays_on_auto(
    chosen: LinkKind,
    code: Seq<char>,
    title: Seq<char>,
    clean: bool,
)
    requires
        chosen == spec_link_kind(code, title, clean),
    ensures
        spec_serial_option(chosen, spec_link_kind(code, title, clean), code, title) == "auto"@,
{
}

/// Switching to the adapter always asks for `rfu`, whatever the game.
pub proof fn law_switching_to_the_adapter_asks_for_rfu(
    auto: LinkKind,
    code: Seq<char>,
    title: Seq<char>,
)
    requires
        auto == LinkKind::Cable,
    ensures
        spec_serial_option(LinkKind::Wireless, auto, code, title) == "rfu"@,
{
}


/// Of the retail Pokémon carts whose code gpSP lists for the adapter and whose header is
/// clean, exactly FireRed, LeafGreen and Emerald go on the adapter, each of the three, and
/// every other title on such a code is linked by cable.
pub proof fn law_the_three_retail_games_get_the_adapter(code: Seq<char>, title: Seq<char>)
    requires
        listed(WIRELESS, code),
        has_prefix(title, "POKEMON"@),
    ensures
        spec_link_kind(code, title, true) == LinkKind::Wireless <==> (title == "POKEMON FIRE"@
            || title == "POKEMON LEAF"@ || title == "POKEMON EMER"@),
        spec_link_kind(code, title, false) == LinkKind::Cable,
{
    reveal_strlit("POKEMON FIRE");
    reveal_strlit("POKEMON LEAF");
    reveal_strlit("POKEMON EMER");
    assert(RETAIL_TITLES@[0]@ == "POKEMON FIRE"@);
    assert(RETAIL_TITLES@[1]@ == "POKEMON LEAF"@);
    assert(RETAIL_TITLES@[2]@ == "POKEMON EMER"@);
}


/// Outside the Pokémon family the adapter goes to exactly the codes gpSP lists for it, clean
/// header or not. A switch to the cable names the family's own protocol: Pokémon's, then
/// Advance Wars 1's and 2's, and gpSP's own pick for anything else.
pub proof fn law_the_cable_names_the_familys_protocol(code: Seq<char>, title: Seq<char>, clean: bool)
    ensures
        !is_pokemon(code, title) ==> (spec_link_kind(code, title, clean) == LinkKind::Wireless
            <==> listed(WIRELESS, code)),
        is_pokemon(code, title) ==> spec_serial_option(
            LinkKind::Cable,
            LinkKind::Wireless,
            code,
            title,
        ) == "mul_poke"@,
        !is_pokemon(code, title) && has_prefix(code, "AWR"@) ==> spec_serial_option(
            LinkKind::Cable,
            LinkKind::Wireless,
            code,
            title,
        ) == "mul_aw1"@,
        !is_pokemon(code, title) && has_prefix(code, "AW2"@) ==> spec_serial_option(
            LinkKind::Cable,
            LinkKind::Wireless,
            code,
            title,
        ) == "mul_aw2"@,
        spec_serial_option(LinkKind::Cable, LinkKind::Cable, code, title) == "auto"@,
        spec_serial_option(LinkKind::Wireless, LinkKind::Wireless, code, title) == "auto"@,
{
    reveal_strlit("AWR");
    reveal_strlit("AW2");
    if has_prefix(code, "AW2"@) {
        assert(code.subrange(0, 3)[2] == '2');
        assert(!has_prefix(code, "AWR"@));
    }
}

} // verus!
