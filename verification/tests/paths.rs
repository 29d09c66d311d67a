use slot::persist::{sav_changed, sav_path, srm_path, trusted_write};
use slot::root::{bios_dir, is_real_bios, join, saves_dir, BIOS_BYTES, BIOS_FILE, DIRS};

#[test]
fn folders_hang_off_the_root() {
    assert_eq!(bios_dir("/mnt/sd"), "/mnt/sd/BIOS");
    assert_eq!(saves_dir("/mnt/sd/"), "/mnt/sd/Saves");
    assert_eq!(saves_dir(""), "Saves");
    assert_eq!(join("/mnt/sd", "/abs"), "/abs");
    assert_eq!(BIOS_FILE, "gba_bios.bin");
}

#[test]
fn every_folder_comes_after_its_parent() {
    for (i, d) in DIRS.iter().enumerate() {
        if let Some((parent, _)) = d.rsplit_once('/') {
            assert!(DIRS[..i].contains(&parent), "{d} before {parent}");
        }
    }
}

#[test]
fn a_real_bios_is_sixteen_kilobytes_opening_with_its_branch() {
    assert!(is_real_bios(Some(BIOS_BYTES), Some(0x18)));
    assert!(!is_real_bios(Some(BIOS_BYTES), Some(0x00)));
    assert!(!is_real_bios(Some(16 * 1024 + 1), Some(0x18)));
    assert!(!is_real_bios(None, None));
}

#[test]
fn saves_are_named_for_the_cart() {
    assert_eq!(sav_path("/mnt/sd", "Golden Sun"), "/mnt/sd/Saves/Golden Sun.sav");
    assert_eq!(srm_path("/mnt/sd", "Golden Sun"), "/mnt/sd/Saves/Golden Sun.srm");
}

#[test]
fn an_unchanged_save_is_not_rewritten() {
    assert!(!sav_changed(Some(&[1, 2, 3]), &[1, 2, 3]));
    assert!(sav_changed(Some(&[1, 2, 3]), &[1, 2, 4]));
    assert!(sav_changed(Some(&[1, 2]), &[1, 2, 3]));
    assert!(sav_changed(None, &[]));
}

#[test]
fn a_refused_region_is_withheld() {
    assert_eq!(trusted_write(vec![1], Some(vec![2]), true, true), (Some(vec![1]), Some(vec![2])));
    assert_eq!(trusted_write(vec![1], Some(vec![2]), false, true), (None, Some(vec![2])));
    assert_eq!(trusted_write(vec![1], Some(vec![2]), true, false), (Some(vec![1]), None));
}
