use slot::link_kind::{link_carried, link_kind, pokemon, serial_option, LinkKind};

#[test]
fn retail_emerald_with_a_clean_header_gets_the_adapter() {
    assert_eq!(link_kind("BPEE", "POKEMON EMER", true), LinkKind::Wireless);
}

#[test]
fn a_pokemon_hack_is_linked_by_cable() {
    assert_eq!(link_kind("BPEE", "POKEMON EMER", false), LinkKind::Cable);
    assert_eq!(link_kind("BPEE", "POKEMON EMERALD X", true), LinkKind::Cable);
    assert_eq!(link_kind("AXVE", "POKEMON RUBY", true), LinkKind::Cable);
}

#[test]
fn a_listed_game_that_is_not_pokemon_gets_the_adapter() {
    assert_eq!(link_kind("BMGE", "MARIO GOLF", false), LinkKind::Wireless);
    assert_eq!(link_kind("AMKE", "MARIO KART", true), LinkKind::Cable);
}

#[test]
fn other_switches_between_the_two() {
    assert_eq!(LinkKind::Cable.other(), LinkKind::Wireless);
    assert_eq!(LinkKind::Wireless.other(), LinkKind::Cable);
}

#[test]
fn the_serial_option_names_each_family() {
    assert_eq!(serial_option(LinkKind::Cable, LinkKind::Cable, "AMKE", "MARIO KART"), "auto");
    assert_eq!(serial_option(LinkKind::Wireless, LinkKind::Cable, "AMKE", "MARIO KART"), "rfu");
    assert_eq!(serial_option(LinkKind::Cable, LinkKind::Wireless, "BPEE", "POKEMON EMER"), "mul_poke");
    assert_eq!(serial_option(LinkKind::Cable, LinkKind::Wireless, "AWRE", "ADVANCEWARS"), "mul_aw1");
    assert_eq!(serial_option(LinkKind::Cable, LinkKind::Wireless, "AW2E", "ADVANCEWARS2"), "mul_aw2");
    assert_eq!(serial_option(LinkKind::Cable, LinkKind::Wireless, "BMGE", "MARIO GOLF"), "auto");
}

#[test]
fn only_the_carried_families_link() {
    assert!(link_carried("BMGE", "MARIO GOLF"));
    assert!(link_carried("BPRE", "POKEMON FIRE"));
    assert!(link_carried("XXXX", "POKEMON HACK"));
    assert!(link_carried("AWRE", "ADVANCEWARS"));
    assert!(link_carried("AW2P", "ADVANCEWARS2"));
    assert!(!link_carried("AMKE", "MARIO KART"));
}

#[test]
fn pokemon_is_known_by_title_or_code() {
    assert!(pokemon("ZZZZ", "POKEMON X"));
    assert!(pokemon("BPGE", "LEAFGREEN"));
    assert!(!pokemon("AMKE", "MARIO KART"));
}
