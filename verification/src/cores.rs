//! Which dylib backs a core, where to look for it, and what each core is told before it
//! loads a game. Opening the dylib and calling into it are the binary's.

use vstd::prelude::*;

use crate::root::{join, joined};

verus! {

/// The emulators a cart can run on.
#[derive(Copy, Clone, Debug, PartialEq, Eq, Structural)]
pub enum Core {
    Mgba,
    Gpsp,
    TgbDual,
}

/// A core's own name, which is also how its dylib and its options are spelled.
pub open spec fn core_name(core: Core) -> Seq<char> {
    match core {
        Core::Mgba => "mgba"@,
        Core::Gpsp => "gpsp"@,
        Core::TgbDual => "tgbdual"@,
    }
}

impl Core {
    pub fn as_str(self) -> (s: &'static str)
        ensures
            s@ == core_name(self),
    {
        match self {
            Core::Mgba => "mgba",
            Core::Gpsp => "gpsp",
            Core::TgbDual => "tgbdual",
        }
    }
}

/// The dylib's file name, with the platform's own extension.
pub open spec fn spec_dylib_name(core: Core, extension: Seq<char>) -> Seq<char> {
    core_name(core) + "_libretro."@ + extension
}

/// Which dylib backs a core. The device keeps every core in `System/`, so this is a file name
/// rather than a search.
pub fn dylib_name(core: Core, extension: &str) -> (r: String)
    ensures
        r@ == spec_dylib_name(core, extension@),
{
    let mut r = String::from_str(core.as_str());
    r.append("_libretro.");
    r.append(extension);
    r
}

/// Where a core is looked for, most specific first: a dylib named outright, which wins over
/// every other answer; then the content root's own `System/`, where the device keeps it; then
/// beside the binary and in its `vendor/`; then `vendor/` under the working directory.
pub open spec fn spec_candidates(
    root: Seq<char>,
    core: Core,
    named: Option<Seq<char>>,
    exe_dir: Option<Seq<char>>,
    extension: Seq<char>,
) -> Seq<Seq<char>> {
    match named {
        Some(n) => seq![n],
        None => {
            let name = spec_dylib_name(core, extension);
            seq![joined(joined(root, "System"@), name)] + match exe_dir {
                Some(d) => seq![joined(d, name), joined(joined(d, "vendor"@), name)],
                None => Seq::empty(),
            } + seq![joined("vendor"@, name)]
        },
    }
}

/// The paths to try for `core`. `named` is a dylib named outright, for a build that keeps it
/// somewhere the search does not look; `exe_dir` is where the binary lives, when that is known.
pub fn candidates(
    root: &str,
    core: Core,
    named: Option<&str>,
    exe_dir: Option<&str>,
    extension: &str,
) -> (r: Vec<String>)
    ensures
        r@.map_values(|s: String| s@) == spec_candidates(
            root@,
            core,
            match named {
                Some(n) => Some(n@),
                None => None,
            },
            match exe_dir {
                Some(d) => Some(d@),
                None => None,
            },
            extension@,
        ),
{
    let mut paths: Vec<String> = Vec::new();
    if let Some(n) = named {
        paths.push(String::from_str(n));
        assert(paths@.map_values(|s: String| s@) =~= seq![n@]);
        return paths;
    }
    let name = dylib_name(core, extension);
    let system = join(root, "System");
    paths.push(join(system.as_str(), name.as_str()));
    if let Some(d) = exe_dir {
        paths.push(join(d, name.as_str()));
        let vendor = join(d, "vendor");
        paths.push(join(vendor.as_str(), name.as_str()));
    }
    paths.push(join("vendor", name.as_str()));
    proof {
        reveal_strlit("vendor");
    }
    assert(paths@.map_values(|s: String| s@) =~= spec_candidates(
        root@,
        core,
        None,
        match exe_dir {
            Some(d) => Some(d@),
            None => None,
        },
        extension@,
    ));
    paths
}

/// What a core is told before it loads a game, in order. Both emulators for the handheld get
/// auto frameskip, which only ever skips when the frontend says a fast forward's audio is
/// about to run dry. mGBA draws no Super Game Boy border, which would not fit the panel,
/// colours a monochrome cart as the SP's Game Boy Color boot ROM did, and corrects colour on
/// `colour`. gpSP gets its link mode, the real BIOS boot when there is one, and its own
/// colour correction.
pub open spec fn spec_core_options(core: Core, serial: Seq<char>, bios: bool, colour: bool) -> Seq<
    (Seq<char>, Seq<char>),
> {
    (if core == Core::Mgba || core == Core::Gpsp {
        seq![(core_name(core) + "_frameskip"@, "auto"@)]
    } else {
        Seq::empty()
    }) + (if core == Core::Mgba {
        seq![
            ("mgba_sgb_borders"@, "OFF"@),
            ("mgba_gb_colors_preset"@, "1"@),
            ("mgba_gb_colors"@, "GBC Dark Green →A"@),
            (
                "mgba_color_correction"@,
                if colour {
                    "Auto"@
                } else {
                    "OFF"@
                },
            ),
        ]
    } else {
        Seq::empty()
    }) + (if core == Core::Gpsp {
        seq![("gpsp_serial"@, serial)] + (if bios {
            seq![("gpsp_boot_mode"@, "bios"@)]
        } else {
            Seq::empty()
        }) + seq![
            (
                "gpsp_color_correction"@,
                if colour {
                    "enabled"@
                } else {
                    "disabled"@
                },
            ),
        ]
    } else {
        Seq::empty()
    })
}

/// The options as pairs of text.
pub open spec fn option_views(options: Seq<(String, String)>) -> Seq<(Seq<char>, Seq<char>)> {
    options.map_values(|o: (String, String)| (o.0@, o.1@))
}

fn push_option(out: &mut Vec<(String, String)>, key: String, value: &str)
    ensures
        option_views(final(out)@) == option_views(old(out)@).push((key@, value@)),
{
    let ghost k = key@;
    out.push((key, String::from_str(value)));
    assert(option_views(out@) =~= option_views(old(out)@).push((k, value@)));
}

/// The options for `core`: `serial` is gpSP's link mode, `bios` whether the card holds a real
/// BIOS, `colour` the quick menu's Colour Correction.
pub fn core_options(core: Core, serial: &str, bios: bool, colour: bool) -> (r: Vec<
    (String, String),
>)
    ensures
        option_views(r@) == spec_core_options(core, serial@, bios, colour),
{
    let mut out: Vec<(String, String)> = Vec::new();
    if core == Core::Mgba || core == Core::Gpsp {
        let mut key = String::from_str(core.as_str());
        key.append("_frameskip");
        push_option(&mut out, key, "auto");
    }
    if core == Core::Mgba {
        push_option(&mut out, String::from_str("mgba_sgb_borders"), "OFF");
        push_option(&mut out, String::from_str("mgba_gb_colors_preset"), "1");
        push_option(&mut out, String::from_str("mgba_gb_colors"), "GBC Dark Green →A");
        push_option(
            &mut out,
            String::from_str("mgba_color_correction"),
            if colour {
                "Auto"
            } else {
                "OFF"
            },
        );
    }
    if core == Core::Gpsp {
        push_option(&mut out, String::from_str("gpsp_serial"), serial);
        if bios {
            push_option(&mut out, String::from_str("gpsp_boot_mode"), "bios");
        }
        push_option(
            &mut out,
            String::from_str("gpsp_color_correction"),
            if colour {
                "enabled"
            } else {
                "disabled"
            },
        );
    }
    assert(option_views(out@) =~= spec_core_options(core, serial@, bios, colour));
    out
}

} // verus!
