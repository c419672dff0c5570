use fourth_shot::codec::{
    DecodeError, champion_from_json, champion_to_json, decode_champion, decode_champion_ids,
    decode_champions, decode_plugins, plugin_from_json, plugins_to_json, skin_lines_from_json,
    skin_to_json,
};
use fourth_shot::domain::{PluginName, PluginType, Rarity, SkinType};
use fourth_shot::json::{JsonValue, parse_json, render_json};

fn id_obj(id: u64) -> JsonValue {
    JsonValue::Object(vec![(String::from("id"), JsonValue::UInt(id))])
}

#[test]
fn skin_lines_null_is_empty() {
    let ids = skin_lines_from_json(&JsonValue::Null).unwrap();
    assert!(ids.is_empty());
}

#[test]
fn skin_lines_reads_every_id() {
    let v = JsonValue::Array(vec![id_obj(9), id_obj(21)]);
    assert_eq!(skin_lines_from_json(&v).unwrap(), vec![9, 21]);
}

#[test]
fn skin_lines_element_missing_id_fails() {
    let bad = JsonValue::Object(vec![(String::from("name"), JsonValue::Text(String::from("x")))]);
    let v = JsonValue::Array(vec![id_obj(9), bad]);
    let err = skin_lines_from_json(&v).unwrap_err();
    assert_eq!(err, DecodeError::MissingField(String::from("id")));
}

#[test]
fn skin_lines_element_not_an_object_fails() {
    let v = JsonValue::Array(vec![JsonValue::UInt(3)]);
    assert_eq!(skin_lines_from_json(&v).unwrap_err(), DecodeError::NotAnObject);
}

#[test]
fn skin_lines_non_integer_id_fails() {
    let bad = JsonValue::Object(vec![(String::from("id"), JsonValue::Text(String::from("9")))]);
    let v = JsonValue::Array(vec![bad]);
    assert_eq!(
        skin_lines_from_json(&v).unwrap_err(),
        DecodeError::WrongType(String::from("id"))
    );
}

#[test]
fn summary_skips_the_first_element() {
    let text = r#"[{"id": -1, "name": "placeholder"}, {"id": 1}, {"id": 2}, {"id": 166}]"#;
    let ids = decode_champion_ids(text).unwrap();
    assert_eq!(ids, vec![1, 2, 166]);
}

#[test]
fn summary_of_length_n_yields_n_minus_one_ids() {
    for n in 1u64..6 {
        let mut elems: Vec<String> = vec![String::from(r#"{"sentinel": true}"#)];
        for i in 1..n {
            elems.push(format!(r#"{{"id": {}}}"#, i));
        }
        let text = format!("[{}]", elems.join(","));
        let ids = decode_champion_ids(&text).unwrap();
        assert_eq!(ids.len() as u64, n - 1);
    }
}

#[test]
fn summary_not_json_is_a_syntax_error() {
    assert_eq!(decode_champion_ids("not json").unwrap_err(), DecodeError::Syntax);
    assert_eq!(decode_champion_ids("{}").unwrap_err(), DecodeError::NotAnArray);
}

fn annie_json() -> String {
    String::from(
        r#"{
        "id": 1,
        "name": "Annie",
        "alias": "Annie",
        "title": "the Dark Child",
        "shortBio": "Dangerous, yet disarmingly precocious.",
        "tacticalInfo": {"style": 10, "difficulty": 2, "damageType": "kMagic"},
        "playstyleInfo": {"damage": 3, "durability": 1, "crowdControl": 2, "mobility": 1, "utility": 1},
        "squarePortraitPath": "/lol-game-data/assets/v1/champion-icons/1.png",
        "recommendedItemDefaults": [],
        "roles": ["mage", "support"],
        "skins": [{
            "id": 1000,
            "isBase": true,
            "name": "Annie",
            "splashPath": "/lol-game-data/assets/ASSETS/Characters/Annie/Skins/Base/annie_splash_centered_0.jpg",
            "uncenteredSplashPath": "/lol-game-data/assets/ASSETS/Characters/Annie/Skins/Base/annie_splash_uncentered_0.jpg",
            "tilePath": "/lol-game-data/assets/ASSETS/Characters/Annie/Skins/Base/annie_tile_0.jpg",
            "loadScreenPath": "/lol-game-data/assets/ASSETS/Characters/Annie/Skins/Base/annie_loadscreen_0.jpg",
            "skinType": "",
            "rarity": "kNoRarity",
            "isLegacy": false,
            "skinLines": null,
            "description": null
        }]
    }"#,
    )
}

#[test]
fn decodes_a_full_champion() {
    let annie = decode_champion(&annie_json()).unwrap();
    assert_eq!(annie.id, 1);
    assert_eq!(annie.name, "Annie");
    assert_eq!(annie.title, "the Dark Child");
    assert_eq!(annie.playstyle_info.damage, 3);
    assert_eq!(annie.tactical_info.damage_type, "kMagic");
    assert_eq!(annie.square_portrait_path, "v1/champion-icons/1.png");
    assert_eq!(annie.roles, vec!["mage", "support"]);
    assert_eq!(annie.skins.len(), 1);
    let base = &annie.skins[0];
    assert!(base.is_base);
    assert_eq!(
        base.splash_path,
        "assets/characters/annie/skins/base/annie_splash_centered_0.jpg"
    );
    assert_eq!(base.skin_type, SkinType::Unspecified);
    assert_eq!(base.rarity, Rarity::KNoRarity);
    assert!(base.skin_lines.is_empty());
    assert_eq!(base.description, None);
}

#[test]
fn champion_missing_field_is_reported() {
    let text = r#"{"id": 7}"#;
    assert_eq!(
        decode_champion(text).unwrap_err(),
        DecodeError::MissingField(String::from("name"))
    );
}

#[test]
fn champion_cache_round_trip() {
    let annie = decode_champion(&annie_json()).unwrap();
    let encoded = render_json(&champion_to_json(&annie));
    let again = decode_champion(&encoded).unwrap();
    assert_eq!(annie, again);
}

#[test]
fn champion_list_cache_round_trip() {
    let annie = decode_champion(&annie_json()).unwrap();
    let mut lux = decode_champion(&annie_json()).unwrap();
    lux.id = 99;
    lux.name = String::from("Lux");
    let list = vec![annie, lux];
    let v = fourth_shot::codec::champions_to_json(&list);
    let text = render_json(&v);
    let again = decode_champions(&text).unwrap();
    assert_eq!(list, again);
}

const PLUGIN_LISTING: &str = r#"[
    {"name": "rcp-be-lol-game-data", "type": "directory", "mtime": "Sun, 01 Jan 2023 00:00:00 UTC", "size": null},
    {"name": "plugin-ledger", "type": "file", "mtime": "Sat, 01 Jun 2024 00:00:00 UTC", "size": 1024}
]"#;

#[test]
fn decodes_the_plugin_manifest() {
    let plugins = decode_plugins(PLUGIN_LISTING).unwrap();
    assert_eq!(plugins.len(), 2);
    assert_eq!(plugins[0].name, PluginName::RcpBeLolGameData);
    assert_eq!(plugins[0].ty, PluginType::Directory);
    assert_eq!(plugins[0].mtime, 1672531200);
    assert_eq!(plugins[0].size, None);
    assert_eq!(plugins[1].name, PluginName::Other(String::from("plugin-ledger")));
    assert_eq!(plugins[1].ty, PluginType::File);
    assert_eq!(plugins[1].size, Some(1024));
}

#[test]
fn plugin_bad_mtime_is_reported() {
    let v = parse_json(r#"{"name": "rcp-fe-audio", "type": "file", "mtime": "yesterday", "size": 1}"#)
        .unwrap();
    assert_eq!(
        plugin_from_json(&v).unwrap_err(),
        DecodeError::WrongType(String::from("mtime"))
    );
}

#[test]
fn plugin_manifest_cache_round_trip() {
    let plugins = decode_plugins(PLUGIN_LISTING).unwrap();
    let text = render_json(&plugins_to_json(&plugins));
    let again = decode_plugins(&text).unwrap();
    assert_eq!(plugins, again);
}

#[test]
fn plugin_names_round_trip_on_the_wire() {
    let names = [
        PluginName::RcpBeLolGameData,
        PluginName::RcpFeLolL10n,
        PluginName::RcpFeLolTftTeamPlanner,
        PluginName::RcpFePluginRunner,
        PluginName::Other(String::from("some-new-plugin")),
    ];
    for name in names {
        let wire = name.wire_name();
        assert_eq!(PluginName::of_wire(wire), name);
    }
}

#[test]
fn rarities_round_trip_on_the_wire() {
    let all = [
        Rarity::KEpic,
        Rarity::KLegendary,
        Rarity::KMythic,
        Rarity::KNoRarity,
        Rarity::KRare,
        Rarity::KTranscendent,
        Rarity::KUltimate,
        Rarity::KExalted,
    ];
    for rarity in all {
        assert_eq!(Rarity::from_wire(&rarity.wire_name()), Some(rarity));
    }
    assert_eq!(Rarity::from_wire("kCommon"), None);
}

#[test]
fn skin_encoding_keeps_skin_lines() {
    let annie = decode_champion(&annie_json()).unwrap();
    let mut skin = annie.skins[0].clone();
    skin.skin_lines = vec![14, 30];
    skin.description = Some(String::from("a description"));
    let v = skin_to_json(&skin);
    let text = render_json(&v);
    let reparsed = parse_json(&text).unwrap();
    let mut champ = annie.clone();
    champ.skins = vec![skin.clone()];
    let again = match fourth_shot::codec::skin_from_json(&reparsed) {
        Ok(s) => s,
        Err(e) => panic!("{:?}", e),
    };
    assert_eq!(skin, again);
    assert_eq!(champ.skins[0].skin_lines, vec![14, 30]);
}

#[test]
fn champion_from_json_rejects_non_objects() {
    assert_eq!(
        champion_from_json(&JsonValue::UInt(3)).unwrap_err(),
        DecodeError::NotAnObject
    );
}
