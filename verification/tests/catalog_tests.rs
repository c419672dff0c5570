use fourth_shot::catalog::{CDragon, CatalogError, FetchError};
use fourth_shot::codec::DecodeError;
use fourth_shot::dates::parse_mtime;
use fourth_shot::domain::{
    Champion, ChampionDetail, Plugin, PluginName, PluginType, PlaystyleInfo, Rarity, Skin,
    SkinAsset, SkinType, Status, TacticalInfo,
};

fn champion(id: u64, name: &str) -> Champion {
    Champion {
        id,
        name: String::from(name),
        alias: String::from(name),
        title: String::from("the Example"),
        short_bio: String::from("An example champion."),
        tactical_info: TacticalInfo {
            style: 5,
            difficulty: 1,
            damage_type: String::from("kMagic"),
        },
        playstyle_info: PlaystyleInfo {
            damage: 2,
            durability: 2,
            crowd_control: 1,
            mobility: 1,
            utility: 1,
        },
        square_portrait_path: format!("v1/champion-icons/{}.png", id),
        roles: vec![String::from("mage")],
        skins: vec![skin(id * 1000, true), skin(id * 1000 + 1, false)],
    }
}

fn skin(id: u64, is_base: bool) -> Skin {
    Skin {
        id,
        is_base,
        name: format!("skin-{}", id),
        splash_path: format!("assets/characters/x/skins/{}/splash.jpg", id),
        uncentered_splash_path: format!("assets/characters/x/skins/{}/uncentered.jpg", id),
        tile_path: format!("assets/characters/x/skins/{}/tile.jpg", id),
        load_screen_path: format!("assets/characters/x/skins/{}/loadscreen.jpg", id),
        skin_type: SkinType::Unspecified,
        rarity: Rarity::KNoRarity,
        is_legacy: false,
        skin_lines: vec![],
        description: None,
    }
}

fn plugin(name: PluginName, mtime: i64) -> Plugin {
    Plugin { name, ty: PluginType::Directory, mtime, size: None }
}

#[test]
fn lookup_by_id_finds_and_misses() {
    let cat = CDragon::new(vec![], vec![champion(1, "Annie"), champion(166, "Akshan")]);
    assert_eq!(cat.champion_by_id(166).unwrap().name, "Akshan");
    assert!(cat.champion_by_id(9999).is_none());
}

#[test]
fn lookup_by_name_is_exact_and_case_sensitive() {
    let cat = CDragon::new(vec![], vec![champion(1, "Annie"), champion(166, "Akshan")]);
    assert_eq!(cat.champion_by_name("Akshan").unwrap().id, 166);
    assert!(cat.champion_by_name("akshan").is_none());
    assert!(cat.champion_by_name("Aksha").is_none());
}

#[test]
fn duplicate_ids_keep_the_later_entry() {
    let older = champion(1, "Annie");
    let newer = champion(1, "Annie Reworked");
    let cat = CDragon::new(vec![], vec![older, newer]);
    assert_eq!(cat.champions.len(), 1);
    assert_eq!(cat.champion_by_id(1).unwrap().name, "Annie Reworked");
}

#[test]
fn construction_reports_what_to_persist() {
    let (cat, save_plugins, save_champions) =
        CDragon::from_sources(vec![], false, vec![champion(1, "Annie")], false);
    assert_eq!(cat.status, Status::Uninitialized);
    assert!(save_plugins);
    assert!(save_champions);

    let (cat2, save_plugins2, save_champions2) =
        CDragon::from_sources(vec![], true, vec![], true);
    assert_eq!(cat2.status, Status::Uninitialized);
    assert!(!save_plugins2);
    assert!(!save_champions2);
}

#[test]
fn status_uses_the_cached_and_remote_dates() {
    let cached = parse_mtime("Sun, 01 Jan 2023 00:00:00 UTC").unwrap();
    let remote = parse_mtime("Sat, 01 Jun 2024 00:00:00 UTC").unwrap();
    assert_eq!(CDragon::status_for(None, remote), Status::OutOfDate);
    assert_eq!(CDragon::status_for(Some(cached), remote), Status::OutOfDate);
    assert_eq!(CDragon::status_for(Some(remote), remote), Status::UpToDate);
    assert_eq!(CDragon::status_for(Some(remote), cached), Status::UpToDate);
}

#[test]
fn plugin_mtime_finds_the_named_plugin() {
    let plugins = vec![
        plugin(PluginName::RcpFeAudio, 100),
        plugin(PluginName::RcpBeLolGameData, 200),
        plugin(PluginName::Other(String::from("plugin-ledger")), 300),
    ];
    assert_eq!(CDragon::plugin_mtime(&plugins, &PluginName::RcpBeLolGameData), Some(200));
    assert_eq!(
        CDragon::plugin_mtime(&plugins, &PluginName::Other(String::from("plugin-ledger"))),
        Some(300)
    );
    assert_eq!(CDragon::plugin_mtime(&plugins, &PluginName::RcpFeLolLoot), None);
}

#[test]
fn updated_since_compares_strictly() {
    let date_2023 = parse_mtime("Sun, 01 Jan 2023 00:00:00 UTC").unwrap();
    let date_2026 = parse_mtime("Thu, 01 Jan 2026 00:00:00 UTC").unwrap();
    let champs_plugin = plugin(PluginName::RcpBeLolGameData, date_2023 + 1);
    assert!(champs_plugin.updated_since(date_2023));
    assert!(!champs_plugin.updated_since(date_2026));
    assert!(!champs_plugin.updated_since(date_2023 + 1));
}

#[test]
fn update_replaces_the_whole_dataset() {
    let mut cat = CDragon::new(vec![plugin(PluginName::RcpFeAudio, 1)], vec![champion(1, "Annie")]);
    let new_plugins = vec![plugin(PluginName::RcpBeLolGameData, 2)];
    let new_champions = vec![champion(166, "Akshan")];
    let r = cat.update(Ok(new_plugins.clone()), Ok(new_champions));
    assert!(r.is_ok());
    assert_eq!(cat.plugins, new_plugins);
    assert_eq!(cat.champions.len(), 1);
    assert_eq!(cat.champions[0].id, 166);
    assert_eq!(cat.status, Status::UpToDate);
}

#[test]
fn failed_champion_fetch_keeps_the_old_champions() {
    let mut cat = CDragon::new(vec![plugin(PluginName::RcpFeAudio, 1)], vec![champion(1, "Annie")]);
    let old_champions = cat.champions.clone();
    let old_status = cat.status;
    let new_plugins = vec![plugin(PluginName::RcpBeLolGameData, 2)];
    let r = cat.update(
        Ok(new_plugins.clone()),
        Err(FetchError::Decode(DecodeError::Syntax)),
    );
    assert_eq!(r.unwrap_err(), FetchError::Decode(DecodeError::Syntax));
    assert_eq!(cat.plugins, new_plugins);
    assert_eq!(cat.champions, old_champions);
    assert_eq!(cat.status, old_status);
}

#[test]
fn failed_plugin_fetch_changes_nothing() {
    let mut cat = CDragon::new(vec![plugin(PluginName::RcpFeAudio, 1)], vec![champion(1, "Annie")]);
    let old_plugins = cat.plugins.clone();
    let old_champions = cat.champions.clone();
    let r = cat.update(
        Err(FetchError::Network(String::from("connection refused"))),
        Ok(vec![]),
    );
    assert_eq!(r.unwrap_err(), FetchError::Network(String::from("connection refused")));
    assert_eq!(cat.plugins, old_plugins);
    assert_eq!(cat.champions, old_champions);
    assert_eq!(cat.status, Status::Uninitialized);
}

#[test]
fn icon_path_for_missing_champion_is_not_found() {
    let cat = CDragon::new(vec![], vec![champion(1, "Annie")]);
    assert_eq!(cat.champion_icon_path(1).unwrap(), "v1/champion-icons/1.png");
    assert_eq!(cat.champion_icon_path(42).unwrap_err(), CatalogError::NotFound);
}

#[test]
fn skin_path_selects_the_requested_asset() {
    let cat = CDragon::new(vec![], vec![]);
    let s = skin(1000, true);
    assert_eq!(cat.skin_path_of(&s, &SkinAsset::Splash), s.splash_path);
    assert_eq!(cat.skin_path_of(&s, &SkinAsset::UncenteredSplash), s.uncentered_splash_path);
    assert_eq!(cat.skin_path_of(&s, &SkinAsset::Tile), s.tile_path);
    assert_eq!(cat.skin_path_of(&s, &SkinAsset::LoadScreen), s.load_screen_path);
}

#[test]
fn base_skin_and_the_rest() {
    let champ = champion(1, "Annie");
    let detail = ChampionDetail {
        id: champ.id,
        name: champ.name.clone(),
        title: champ.title.clone(),
        short_bio: champ.short_bio.clone(),
        skins: champ.skins.clone(),
    };
    let base = detail.base_skin().unwrap();
    assert!(base.is_base);
    assert_eq!(base.id, 1000);
    let rest = detail.skins_no_base();
    assert_eq!(rest.len(), 1);
    assert!(!rest[0].is_base);

    let no_base = ChampionDetail {
        id: 2,
        name: String::from("X"),
        title: String::new(),
        short_bio: String::new(),
        skins: vec![skin(5, false)],
    };
    assert!(no_base.base_skin().is_none());
    assert_eq!(no_base.skins_no_base().len(), 1);
}
