use fourth_shot::paths::normalize;

#[test]
fn strips_prefix_and_lowercases() {
    let raw = "/lol-game-data/assets/ASSETS/Characters/Akshan/Skins/Base/Images/akshan_splash_uncentered_0.jpg";
    let normalized = normalize(raw);
    assert_eq!(
        normalized,
        "assets/characters/akshan/skins/base/images/akshan_splash_uncentered_0.jpg"
    );
}

#[test]
fn keeps_icon_paths_addressable() {
    let raw = "/lol-game-data/assets/v1/champion-icons/1.png";
    assert_eq!(normalize(raw), "v1/champion-icons/1.png");
}

#[test]
fn without_prefix_only_lowercases() {
    assert_eq!(normalize("Characters/Annie/Tile.JPG"), "characters/annie/tile.jpg");
    assert_eq!(normalize(""), "");
}

#[test]
fn prefix_match_is_case_sensitive() {
    assert_eq!(
        normalize("/LOL-GAME-DATA/ASSETS/foo.PNG"),
        "/lol-game-data/assets/foo.png"
    );
}

#[test]
fn normalize_is_idempotent_on_normal_forms() {
    let cases = [
        "/lol-game-data/assets/ASSETS/Characters/Annie/Skins/Base/annie_tile_0.jpg",
        "/lol-game-data/assets/v1/champion-icons/1.png",
        "Characters/Annie/Tile.JPG",
        "",
    ];
    for raw in cases {
        let once = normalize(raw);
        let twice = normalize(&once);
        assert_eq!(once, twice);
    }
}

#[test]
fn non_ascii_characters_pass_through() {
    assert_eq!(normalize("Ähnlich/Pfad.PNG"), "Ähnlich/pfad.png");
}
