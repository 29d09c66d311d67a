use slot::cores::{candidates, core_options, dylib_name, Core};

fn pairs(options: Vec<(String, String)>) -> Vec<(String, String)> {
    options
}

fn owned(list: &[(&str, &str)]) -> Vec<(String, String)> {
    list.iter().map(|(k, v)| (k.to_string(), v.to_string())).collect()
}

#[test]
fn candidates_search_the_named_cores_own_filename_only() {
    let root = "/root";
    let mgba = candidates(root, Core::Mgba, None, Some("/opt/slot"), "so");
    let gpsp = candidates(root, Core::Gpsp, None, Some("/opt/slot"), "so");
    assert_ne!(mgba, gpsp, "the two cores searched the same paths");
    assert!(!mgba.is_empty());
    assert!(!gpsp.is_empty());
    for path in &mgba {
        let name = path.rsplit('/').next().unwrap();
        assert!(name.starts_with("mgba_libretro"), "{name} is not mGBA's");
    }
    for path in &gpsp {
        let name = path.rsplit('/').next().unwrap();
        assert!(name.starts_with("gpsp_libretro"), "{name} is not gpSP's");
    }
}

#[test]
fn candidates_search_the_roots_own_system_directory() {
    let root = "/some/content/root";
    assert_eq!(
        candidates(root, Core::Gpsp, None, None, "so")[0],
        format!("{root}/System/{}", dylib_name(Core::Gpsp, "so")),
    );
}

#[test]
fn the_env_override_ignores_which_core_was_asked_for() {
    let root = "/root";
    let mgba = candidates(root, Core::Mgba, Some("/dev/null/named-core"), Some("/opt"), "so");
    let gpsp = candidates(root, Core::Gpsp, Some("/dev/null/named-core"), Some("/opt"), "so");
    assert_eq!(mgba, vec!["/dev/null/named-core".to_string()]);
    assert_eq!(mgba, gpsp, "the override stopped winning for one of the cores");
}

#[test]
fn the_search_order_is_root_binary_vendor() {
    assert_eq!(
        candidates("/mnt/sd", Core::Mgba, None, Some("/usr/bin"), "so"),
        vec![
            "/mnt/sd/System/mgba_libretro.so".to_string(),
            "/usr/bin/mgba_libretro.so".to_string(),
            "/usr/bin/vendor/mgba_libretro.so".to_string(),
            "vendor/mgba_libretro.so".to_string(),
        ]
    );
    assert_eq!(dylib_name(Core::TgbDual, "dylib"), "tgbdual_libretro.dylib");
}

#[test]
fn each_core_is_told_only_its_own_options() {
    assert_eq!(
        pairs(core_options(Core::Mgba, "auto", true, true)),
        owned(&[
            ("mgba_frameskip", "auto"),
            ("mgba_sgb_borders", "OFF"),
            ("mgba_gb_colors_preset", "1"),
            ("mgba_gb_colors", "GBC Dark Green →A"),
            ("mgba_color_correction", "Auto"),
        ])
    );
    assert_eq!(
        pairs(core_options(Core::Gpsp, "mul_poke", true, false)),
        owned(&[
            ("gpsp_frameskip", "auto"),
            ("gpsp_serial", "mul_poke"),
            ("gpsp_boot_mode", "bios"),
            ("gpsp_color_correction", "disabled"),
        ])
    );
    assert_eq!(
        pairs(core_options(Core::Gpsp, "auto", false, true)),
        owned(&[
            ("gpsp_frameskip", "auto"),
            ("gpsp_serial", "auto"),
            ("gpsp_color_correction", "enabled"),
        ])
    );
    assert!(core_options(Core::TgbDual, "auto", true, true).is_empty());
}
