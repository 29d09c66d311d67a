//! What a save, a load or a flush needs from the emulator, and the choices made before
//! anything is written to the card. The writing itself is the binary's.

use vstd::prelude::*;

use crate::root::{joined, saves_dir};

verus! {

/// What a save, a load or a flush needs from the emulator. The core runs on a worker thread
/// and nothing above this trait knows that.
pub trait Snapshot {
    fn state(&self) -> Option<Vec<u8>>;

    fn save_ram(&self) -> Option<Vec<u8>>;

    /// The last frame the core produced, PNG encoded. Encoded on the worker, which is where
    /// the frame already is, so a save does not cost the compositor a hitch.
    fn thumb(&self) -> Option<Vec<u8>>;

    fn load(&self, state: Vec<u8>);

    /// `false` exactly when the core was handed a resume it went on to refuse: it is running
    /// from wherever `load` left it, so its state is not the player's session.
    fn resume_trusted(&self) -> bool;

    /// The save-ram twin of `resume_trusted`.
    fn save_ram_trusted(&self) -> bool;
}

/// The battery save's file: mGBA standalone writes `.sav`, and only `.sav` is ever written.
pub open spec fn spec_sav_path(root: Seq<char>, stem: Seq<char>) -> Seq<char> {
    joined(joined(root, "Saves"@), stem + ".sav"@)
}

/// RetroArch's libretro cores write `.srm`: the same battery bytes, read when there is no
/// `.sav`.
pub open spec fn spec_srm_path(root: Seq<char>, stem: Seq<char>) -> Seq<char> {
    joined(joined(root, "Saves"@), stem + ".srm"@)
}

fn file_name(stem: &str, extension: &str) -> (r: String)
    ensures
        r@ == stem@ + extension@,
{
    let mut name = String::from_str(stem);
    name.append(extension);
    name
}

pub fn sav_path(root: &str, stem: &str) -> (r: String)
    ensures
        r@ == spec_sav_path(root@, stem@),
{
    let dir = saves_dir(root);
    crate::root::join(dir.as_str(), file_name(stem, ".sav").as_str())
}

pub fn srm_path(root: &str, stem: &str) -> (r: String)
    ensures
        r@ == spec_srm_path(root@, stem@),
{
    let dir = saves_dir(root);
    crate::root::join(dir.as_str(), file_name(stem, ".srm").as_str())
}

/// The core hands back the whole save ram whether or not the game touched it, so an
/// unchanged one is a rewrite of up to 128 KB of card for nothing. Whether `sav` differs from
/// what the card already holds.
pub fn sav_changed(before: Option<&[u8]>, sav: &[u8]) -> (r: bool)
    ensures
        r == match before {
            Some(o) => o@ != sav@,
            None => true,
        },
{
    let held = match before {
        Some(o) => o,
        None => return true,
    };
    if held.len() != sav.len() {
        return true;
    }
    let mut i: usize = 0;
    while i < sav.len()
        invariant
            before == Some(held),
            held@.len() == sav@.len(),
            i <= sav@.len(),
            forall|j: int| 0 <= j < i ==> held@[j] == sav@[j],
        decreases sav@.len() - i,
    {
        if held[i] != sav[i] {
            assert(held@[i as int] != sav@[i as int]);
            return true;
        }
        i += 1;
    }
    assert(held@ =~= sav@);
    false
}

/// The write-back half of the guard a running core records. `state` is the bytes the live
/// core holds; the two flags say whether it accepted the resume and the save ram it was opened
/// with. A region it refused is withheld, turned into `None` rather than written over the file
/// that refusal left alone, because a core running on its own default state has nothing worth
/// keeping there.
pub fn trusted_write(
    state: Vec<u8>,
    sav: Option<Vec<u8>>,
    resume_trusted: bool,
    save_ram_trusted: bool,
) -> (r: (Option<Vec<u8>>, Option<Vec<u8>>))
    ensures
        r.0 == if resume_trusted {
            Some(state)
        } else {
            None
        },
        r.1 == if save_ram_trusted {
            sav
        } else {
            None
        },
{
    let state = if resume_trusted {
        Some(state)
    } else {
        None
    };
    let sav = if save_ram_trusted {
        sav
    } else {
        None
    };
    (state, sav)
}

} // verus!
