use slot::wallpaper::pick;

fn names(list: &[&str]) -> Vec<String> {
    list.iter().map(|s| s.to_string()).collect()
}

#[test]
fn the_seed_counts_round_the_sorted_pngs() {
    let card = ["b.png", "a.PNG", "c.jpg", ".png", "x.png", "notes.txt"];
    assert_eq!(pick(names(&card), 0), Some("a.PNG".to_string()));
    assert_eq!(pick(names(&card), 1), Some("b.png".to_string()));
    assert_eq!(pick(names(&card), 2), Some("x.png".to_string()));
    assert_eq!(pick(names(&card), 3), Some("a.PNG".to_string()));
    assert_eq!(pick(names(&card), 1_000_000_000), Some("b.png".to_string()));
}

#[test]
fn the_order_the_directory_gives_does_not_change_the_picture() {
    let one = ["sky.png", "Sea.png", "moon.png", "dune.PnG"];
    let other = ["moon.png", "dune.PnG", "sky.png", "Sea.png"];
    for seed in 0..12u64 {
        assert_eq!(pick(names(&one), seed), pick(names(&other), seed));
    }
}

#[test]
fn upper_case_sorts_before_lower_case() {
    assert_eq!(pick(names(&["b.png", "B.png"]), 0), Some("B.png".to_string()));
    assert_eq!(pick(names(&["ab.png", "a.png"]), 0), Some("a.png".to_string()));
}

#[test]
fn no_png_is_no_picture() {
    assert_eq!(pick(Vec::new(), 5), None);
    assert_eq!(pick(names(&[".png", "a.jpg", "png", "apng", "a.pngx", "a.png.txt"]), 0), None);
}

#[test]
fn a_dotted_stem_still_has_a_png_extension() {
    assert_eq!(pick(names(&["..png"]), 0), Some("..png".to_string()));
    assert_eq!(pick(names(&["a.b.PNG"]), 9), Some("a.b.PNG".to_string()));
}
