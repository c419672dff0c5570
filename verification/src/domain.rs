//! The domain entities: champions, skins, plugins and their wire names, and
//! the catalog status values.

use vstd::prelude::*;
use vstd::string::StringExecFns;

use crate::paths::spec_is_normal;
use crate::text::str_eq;

verus! {

broadcast use vstd::string::group_string_axioms;

/// Freshness of the catalog's dataset with respect to the remote source.
#[derive(Clone, Copy, Debug, PartialEq, Eq, Structural)]
pub enum Status {
    Uninitialized,
    OutOfDate,
    UpToDate,
}

/// Rarity tier of a skin, as the remote API names them.
#[derive(Clone, Copy, Debug, PartialEq, Eq, Structural)]
pub enum Rarity {
    KEpic,
    KLegendary,
    KMythic,
    KNoRarity,
    KRare,
    KTranscendent,
    KUltimate,
    KExalted,
}

/// The wire spelling of a rarity tier.
pub open spec fn spec_rarity_wire(r: Rarity) -> Seq<char> {
    match r {
        Rarity::KEpic => "kEpic"@,
        Rarity::KLegendary => "kLegendary"@,
        Rarity::KMythic => "kMythic"@,
        Rarity::KNoRarity => "kNoRarity"@,
        Rarity::KRare => "kRare"@,
        Rarity::KTranscendent => "kTranscendent"@,
        Rarity::KUltimate => "kUltimate"@,
        Rarity::KExalted => "kExalted"@,
    }
}

/// The rarity tier a wire spelling decodes to, if any is recognized.
pub open spec fn spec_rarity_from_wire(s: Seq<char>) -> Option<Rarity> {
    if s == "kEpic"@ {
        Some(Rarity::KEpic)
    } else if s == "kLegendary"@ {
        Some(Rarity::KLegendary)
    } else if s == "kMythic"@ {
        Some(Rarity::KMythic)
    } else if s == "kNoRarity"@ {
        Some(Rarity::KNoRarity)
    } else if s == "kRare"@ {
        Some(Rarity::KRare)
    } else if s == "kTranscendent"@ {
        Some(Rarity::KTranscendent)
    } else if s == "kUltimate"@ {
        Some(Rarity::KUltimate)
    } else if s == "kExalted"@ {
        Some(Rarity::KExalted)
    } else {
        None
    }
}

impl Rarity {
    /// The spelling this tier has on the wire and in cache files.
    pub fn wire_name(&self) -> (r: String)
        ensures
            r@ == spec_rarity_wire(*self),
    {
        match self {
            Rarity::KEpic => String::from_str("kEpic"),
            Rarity::KLegendary => String::from_str("kLegendary"),
            Rarity::KMythic => String::from_str("kMythic"),
            Rarity::KNoRarity => String::from_str("kNoRarity"),
            Rarity::KRare => String::from_str("kRare"),
            Rarity::KTranscendent => String::from_str("kTranscendent"),
            Rarity::KUltimate => String::from_str("kUltimate"),
            Rarity::KExalted => String::from_str("kExalted"),
        }
    }

    /// Decodes a wire spelling; unrecognized spellings are rejected.
    pub fn from_wire(s: &str) -> (r: Option<Rarity>)
        ensures
            r == spec_rarity_from_wire(s@),
    {
        if str_eq(s, "kEpic") {
            Some(Rarity::KEpic)
        } else if str_eq(s, "kLegendary") {
            Some(Rarity::KLegendary)
        } else if str_eq(s, "kMythic") {
            Some(Rarity::KMythic)
        } else if str_eq(s, "kNoRarity") {
            Some(Rarity::KNoRarity)
        } else if str_eq(s, "kRare") {
            Some(Rarity::KRare)
        } else if str_eq(s, "kTranscendent") {
            Some(Rarity::KTranscendent)
        } else if str_eq(s, "kUltimate") {
            Some(Rarity::KUltimate)
        } else if str_eq(s, "kExalted") {
            Some(Rarity::KExalted)
        } else {
            None
        }
    }
}

/// Every rarity tier decodes back from its own wire spelling.
pub proof fn lemma_rarity_wire_round_trip(r: Rarity)
    ensures
        spec_rarity_from_wire(spec_rarity_wire(r)) == Some(r),
{
    reveal_strlit("kEpic");
    reveal_strlit("kLegendary");
    reveal_strlit("kMythic");
    reveal_strlit("kNoRarity");
    reveal_strlit("kRare");
    reveal_strlit("kTranscendent");
    reveal_strlit("kUltimate");
    reveal_strlit("kExalted");
    assert("kEpic"@.len() == 5);
    assert("kLegendary"@.len() == 10);
    assert("kMythic"@.len() == 7);
    assert("kNoRarity"@.len() == 9);
    assert("kRare"@.len() == 5);
    assert("kTranscendent"@.len() == 13);
    assert("kUltimate"@.len() == 9);
    assert("kExalted"@.len() == 8);
    assert("kEpic"@[1] != "kRare"@[1]);
    assert("kNoRarity"@[1] != "kUltimate"@[1]);
}

/// Special skin kind; everything the remote source does not mark as ultimate
/// decodes to `Unspecified` (spelled `None` on the wire).
#[derive(Clone, Copy, Debug, PartialEq, Eq, Structural)]
pub enum SkinType {
    Ultimate,
    Unspecified,
}

/// The wire spelling of a skin kind.
pub open spec fn spec_skin_type_wire(t: SkinType) -> Seq<char> {
    match t {
        SkinType::Ultimate => "Ultimate"@,
        SkinType::Unspecified => "None"@,
    }
}

/// The skin kind a wire spelling decodes to: only `Ultimate` is recognized,
/// every other spelling is the unspecified kind.
pub open spec fn spec_skin_type_from_wire(s: Seq<char>) -> SkinType {
    if s == "Ultimate"@ {
        SkinType::Ultimate
    } else {
        SkinType::Unspecified
    }
}

impl SkinType {
    /// The spelling this kind has on the wire and in cache files.
    pub fn wire_name(&self) -> (r: String)
        ensures
            r@ == spec_skin_type_wire(*self),
    {
        match self {
            SkinType::Ultimate => String::from_str("Ultimate"),
            SkinType::Unspecified => String::from_str("None"),
        }
    }

    /// Decodes a wire spelling; never fails.
    pub fn from_wire(s: &str) -> (r: SkinType)
        ensures
            r == spec_skin_type_from_wire(s@),
    {
        if str_eq(s, "Ultimate") {
            SkinType::Ultimate
        } else {
            SkinType::Unspecified
        }
    }
}

/// Every skin kind decodes back from its own wire spelling.
pub proof fn lemma_skin_type_wire_round_trip(t: SkinType)
    ensures
        spec_skin_type_from_wire(spec_skin_type_wire(t)) == t,
{
    reveal_strlit("Ultimate");
    reveal_strlit("None");
    assert("None"@.len() == 4);
    assert("Ultimate"@.len() == 8);
}

/// Which of a skin's four asset images an operation addresses.
#[derive(Clone, Copy, Debug, PartialEq, Eq, Structural)]
pub enum SkinAsset {
    Splash,
    UncenteredSplash,
    Tile,
    LoadScreen,
}

/// A line of thematically connected skins.
#[derive(Clone, Debug, PartialEq, Eq)]
pub struct SkinLine {
    pub id: u64,
    pub name: String,
    pub description: String,
}

/// A champion's combat profile.
#[derive(Clone, Debug, PartialEq, Eq)]
pub struct TacticalInfo {
    pub style: u64,
    pub difficulty: u64,
    pub damage_type: String,
}

/// Mathematical value of a `TacticalInfo`.
#[verifier::ext_equal]
pub struct TacticalInfoModel {
    pub style: u64,
    pub difficulty: u64,
    pub damage_type: Seq<char>,
}

impl View for TacticalInfo {
    type V = TacticalInfoModel;

    open spec fn view(&self) -> TacticalInfoModel {
        TacticalInfoModel {
            style: self.style,
            difficulty: self.difficulty,
            damage_type: self.damage_type@,
        }
    }
}

/// A champion's playstyle ratings.
#[derive(Clone, Copy, Debug, PartialEq, Eq, Structural)]
pub struct PlaystyleInfo {
    pub damage: u64,
    pub durability: u64,
    pub crowd_control: u64,
    pub mobility: u64,
    pub utility: u64,
}

/// One skin of a champion. All path fields hold normalized paths: they are
/// normalized at decode time, never at use time.
#[derive(Clone, Debug, PartialEq, Eq)]
pub struct Skin {
    pub id: u64,
    pub is_base: bool,
    pub name: String,
    pub splash_path: String,
    pub uncentered_splash_path: String,
    pub tile_path: String,
    pub load_screen_path: String,
    pub skin_type: SkinType,
    pub rarity: Rarity,
    pub is_legacy: bool,
    pub skin_lines: Vec<u64>,
    pub description: Option<String>,
}

/// Mathematical value of a `Skin`.
#[verifier::ext_equal]
pub struct SkinModel {
    pub id: u64,
    pub is_base: bool,
    pub name: Seq<char>,
    pub splash_path: Seq<char>,
    pub uncentered_splash_path: Seq<char>,
    pub tile_path: Seq<char>,
    pub load_screen_path: Seq<char>,
    pub skin_type: SkinType,
    pub rarity: Rarity,
    pub is_legacy: bool,
    pub skin_lines: Seq<u64>,
    pub description: Option<Seq<char>>,
}

impl View for Skin {
    type V = SkinModel;

    open spec fn view(&self) -> SkinModel {
        SkinModel {
            id: self.id,
            is_base: self.is_base,
            name: self.name@,
            splash_path: self.splash_path@,
            uncentered_splash_path: self.uncentered_splash_path@,
            tile_path: self.tile_path@,
            load_screen_path: self.load_screen_path@,
            skin_type: self.skin_type,
            rarity: self.rarity,
            is_legacy: self.is_legacy,
            skin_lines: self.skin_lines@,
            description: match self.description {
                Some(d) => Some(d@),
                None => None,
            },
        }
    }
}

impl SkinModel {
    /// All four asset paths are in normal form.
    pub open spec fn wf(self) -> bool {
        &&& spec_is_normal(self.splash_path)
        &&& spec_is_normal(self.uncentered_splash_path)
        &&& spec_is_normal(self.tile_path)
        &&& spec_is_normal(self.load_screen_path)
    }
}

impl Skin {
    /// All four asset paths are in normal form.
    pub open spec fn wf(self) -> bool {
        self@.wf()
    }
}

/// One champion with its full detail.
#[derive(Clone, Debug, PartialEq, Eq)]
pub struct Champion {
    pub id: u64,
    pub name: String,
    pub alias: String,
    pub title: String,
    pub short_bio: String,
    pub tactical_info: TacticalInfo,
    pub playstyle_info: PlaystyleInfo,
    pub square_portrait_path: String,
    pub roles: Vec<String>,
    pub skins: Vec<Skin>,
}

/// The models of a sequence of skins, in order.
pub open spec fn spec_skin_views(ss: Seq<Skin>) -> Seq<SkinModel> {
    ss.map_values(|s: Skin| s@)
}

/// The models of a sequence of champions, in order.
pub open spec fn spec_champion_views(cs: Seq<Champion>) -> Seq<ChampionModel> {
    cs.map_values(|c: Champion| c@)
}

/// The views of a sequence of strings, in order.
pub open spec fn spec_string_views(ss: Seq<String>) -> Seq<Seq<char>> {
    ss.map_values(|s: String| s@)
}

/// Mathematical value of a `Champion`.
#[verifier::ext_equal]
pub struct ChampionModel {
    pub id: u64,
    pub name: Seq<char>,
    pub alias: Seq<char>,
    pub title: Seq<char>,
    pub short_bio: Seq<char>,
    pub tactical_info: TacticalInfoModel,
    pub playstyle_info: PlaystyleInfo,
    pub square_portrait_path: Seq<char>,
    pub roles: Seq<Seq<char>>,
    pub skins: Seq<SkinModel>,
}

impl View for Champion {
    type V = ChampionModel;

    open spec fn view(&self) -> ChampionModel {
        ChampionModel {
            id: self.id,
            name: self.name@,
            alias: self.alias@,
            title: self.title@,
            short_bio: self.short_bio@,
            tactical_info: self.tactical_info@,
            playstyle_info: self.playstyle_info,
            square_portrait_path: self.square_portrait_path@,
            roles: spec_string_views(self.roles@),
            skins: spec_skin_views(self.skins@),
        }
    }
}

impl ChampionModel {
    /// The portrait path and every skin's paths are in normal form.
    pub open spec fn wf(self) -> bool {
        &&& spec_is_normal(self.square_portrait_path)
        &&& forall|i: int| 0 <= i < self.skins.len() ==> (#[trigger] self.skins[i]).wf()
    }
}

impl Champion {
    /// The portrait path and every skin's paths are in normal form.
    pub open spec fn wf(self) -> bool {
        self@.wf()
    }
}

/// Identifier of a plugin in the remote manifest. The known identifiers are a
/// closed set; anything else the manifest lists decodes to `Other`, which
/// keeps the original wire spelling so nothing is lost on a round trip.
#[derive(Clone, Debug, PartialEq, Eq)]
pub enum PluginName {
    RcpBeLolGameData,
    RcpBeLolLicenseAgreement,
    RcpBeSanitizer,
    RcpFeAudio,
    RcpFeCommonLibs,
    RcpFeEmberLibs,
    RcpFeLolCareerStats,
    RcpFeLolChampSelect,
    RcpFeLolChampionDetails,
    RcpFeLolChampionStatistics,
    RcpFeLolClash,
    RcpFeLolCollections,
    RcpFeLolEsportsSpectate,
    RcpFeLolEventHub,
    RcpFeLolEventShop,
    RcpFeLolHighlights,
    RcpFeLolHonor,
    RcpFeLolKickout,
    RcpFeLolL10n,
    RcpFeLolLeagues,
    RcpFeLolLockAndLoad,
    RcpFeLolLoot,
    RcpFeLolMatchHistory,
    RcpFeLolNavigation,
    RcpFeLolNewPlayerExperience,
    RcpFeLolNpeRewards,
    RcpFeLolParties,
    RcpFeLolPaw,
    RcpFeLolPft,
    RcpFeLolPostgame,
    RcpFeLolPremadeVoice,
    RcpFeLolProfiles,
    RcpFeLolSettings,
    RcpFeLolSharedComponents,
    RcpFeLolSkinsPicker,
    RcpFeLolSocial,
    RcpFeLolStartup,
    RcpFeLolStaticAssets,
    RcpFeLolStore,
    RcpFeLolTft,
    RcpFeLolTftTeamPlanner,
    RcpFeLolTftTroves,
    RcpFeLolTypekit,
    RcpFeLolUikit,
    RcpFeLolYourshop,
    RcpFePluginRunner,
    Other(String),
}

/// The wire spelling of a plugin name.
pub open spec fn spec_plugin_name_wire(p: PluginName) -> Seq<char> {
    match p {
        PluginName::RcpBeLolGameData => "rcp-be-lol-game-data"@,
        PluginName::RcpBeLolLicenseAgreement => "rcp-be-lol-license-agreement"@,
        PluginName::RcpBeSanitizer => "rcp-be-sanitizer"@,
        PluginName::RcpFeAudio => "rcp-fe-audio"@,
        PluginName::RcpFeCommonLibs => "rcp-fe-common-libs"@,
        PluginName::RcpFeEmberLibs => "rcp-fe-ember-libs"@,
        PluginName::RcpFeLolCareerStats => "rcp-fe-lol-career-stats"@,
        PluginName::RcpFeLolChampSelect => "rcp-fe-lol-champ-select"@,
        PluginName::RcpFeLolChampionDetails => "rcp-fe-lol-champion-details"@,
        PluginName::RcpFeLolChampionStatistics => "rcp-fe-lol-champion-statistics"@,
        PluginName::RcpFeLolClash => "rcp-fe-lol-clash"@,
        PluginName::RcpFeLolCollections => "rcp-fe-lol-collections"@,
        PluginName::RcpFeLolEsportsSpectate => "rcp-fe-lol-esports-spectate"@,
        PluginName::RcpFeLolEventHub => "rcp-fe-lol-event-hub"@,
        PluginName::RcpFeLolEventShop => "rcp-fe-lol-event-shop"@,
        PluginName::RcpFeLolHighlights => "rcp-fe-lol-highlights"@,
        PluginName::RcpFeLolHonor => "rcp-fe-lol-honor"@,
        PluginName::RcpFeLolKickout => "rcp-fe-lol-kickout"@,
        PluginName::RcpFeLolL10n => "rcp-fe-lol-l10n"@,
        PluginName::RcpFeLolLeagues => "rcp-fe-lol-leagues"@,
        PluginName::RcpFeLolLockAndLoad => "rcp-fe-lol-lock-and-load"@,
        PluginName::RcpFeLolLoot => "rcp-fe-lol-loot"@,
        PluginName::RcpFeLolMatchHistory => "rcp-fe-lol-match-history"@,
        PluginName::RcpFeLolNavigation => "rcp-fe-lol-navigation"@,
        PluginName::RcpFeLolNewPlayerExperience => "rcp-fe-lol-new-player-experience"@,
        PluginName::RcpFeLolNpeRewards => "rcp-fe-lol-npe-rewards"@,
        PluginName::RcpFeLolParties => "rcp-fe-lol-parties"@,
        PluginName::RcpFeLolPaw => "rcp-fe-lol-paw"@,
        PluginName::RcpFeLolPft => "rcp-fe-lol-pft"@,
        PluginName::RcpFeLolPostgame => "rcp-fe-lol-postgame"@,
        PluginName::RcpFeLolPremadeVoice => "rcp-fe-lol-premade-voice"@,
        PluginName::RcpFeLolProfiles => "rcp-fe-lol-profiles"@,
        PluginName::RcpFeLolSettings => "rcp-fe-lol-settings"@,
        PluginName::RcpFeLolSharedComponents => "rcp-fe-lol-shared-components"@,
        PluginName::RcpFeLolSkinsPicker => "rcp-fe-lol-skins-picker"@,
        PluginName::RcpFeLolSocial => "rcp-fe-lol-social"@,
        PluginName::RcpFeLolStartup => "rcp-fe-lol-startup"@,
        PluginName::RcpFeLolStaticAssets => "rcp-fe-lol-static-assets"@,
        PluginName::RcpFeLolStore => "rcp-fe-lol-store"@,
        PluginName::RcpFeLolTft => "rcp-fe-lol-tft"@,
        PluginName::RcpFeLolTftTeamPlanner => "rcp-fe-lol-tft-team-planner"@,
        PluginName::RcpFeLolTftTroves => "rcp-fe-lol-tft-troves"@,
        PluginName::RcpFeLolTypekit => "rcp-fe-lol-typekit"@,
        PluginName::RcpFeLolUikit => "rcp-fe-lol-uikit"@,
        PluginName::RcpFeLolYourshop => "rcp-fe-lol-yourshop"@,
        PluginName::RcpFePluginRunner => "rcp-fe-plugin-runner"@,
        PluginName::Other(s) => s@,
    }
}

/// The plugin name a wire `String` decodes to: a known identifier gives its
/// variant, anything else is kept verbatim in `Other`. Never fails.
pub open spec fn spec_plugin_name_of(s: String) -> PluginName {
    if s@ == "rcp-be-lol-game-data"@ {
        PluginName::RcpBeLolGameData
    } else if s@ == "rcp-be-lol-license-agreement"@ {
        PluginName::RcpBeLolLicenseAgreement
    } else if s@ == "rcp-be-sanitizer"@ {
        PluginName::RcpBeSanitizer
    } else if s@ == "rcp-fe-audio"@ {
        PluginName::RcpFeAudio
    } else if s@ == "rcp-fe-common-libs"@ {
        PluginName::RcpFeCommonLibs
    } else if s@ == "rcp-fe-ember-libs"@ {
        PluginName::RcpFeEmberLibs
    } else if s@ == "rcp-fe-lol-career-stats"@ {
        PluginName::RcpFeLolCareerStats
    } else if s@ == "rcp-fe-lol-champ-select"@ {
        PluginName::RcpFeLolChampSelect
    } else if s@ == "rcp-fe-lol-champion-details"@ {
        PluginName::RcpFeLolChampionDetails
    } else if s@ == "rcp-fe-lol-champion-statistics"@ {
        PluginName::RcpFeLolChampionStatistics
    } else if s@ == "rcp-fe-lol-clash"@ {
        PluginName::RcpFeLolClash
    } else if s@ == "rcp-fe-lol-collections"@ {
        PluginName::RcpFeLolCollections
    } else if s@ == "rcp-fe-lol-esports-spectate"@ {
        PluginName::RcpFeLolEsportsSpectate
    } else if s@ == "rcp-fe-lol-event-hub"@ {
        PluginName::RcpFeLolEventHub
    } else if s@ == "rcp-fe-lol-event-shop"@ {
        PluginName::RcpFeLolEventShop
    } else if s@ == "rcp-fe-lol-highlights"@ {
        PluginName::RcpFeLolHighlights
    } else if s@ == "rcp-fe-lol-honor"@ {
        PluginName::RcpFeLolHonor
    } else if s@ == "rcp-fe-lol-kickout"@ {
        PluginName::RcpFeLolKickout
    } else if s@ == "rcp-fe-lol-l10n"@ {
        PluginName::RcpFeLolL10n
    } else if s@ == "rcp-fe-lol-leagues"@ {
        PluginName::RcpFeLolLeagues
    } else if s@ == "rcp-fe-lol-lock-and-load"@ {
        PluginName::RcpFeLolLockAndLoad
    } else if s@ == "rcp-fe-lol-loot"@ {
        PluginName::RcpFeLolLoot
    } else if s@ == "rcp-fe-lol-match-history"@ {
        PluginName::RcpFeLolMatchHistory
    } else if s@ == "rcp-fe-lol-navigation"@ {
        PluginName::RcpFeLolNavigation
    } else if s@ == "rcp-fe-lol-new-player-experience"@ {
        PluginName::RcpFeLolNewPlayerExperience
    } else if s@ == "rcp-fe-lol-npe-rewards"@ {
        PluginName::RcpFeLolNpeRewards
    } else if s@ == "rcp-fe-lol-parties"@ {
        PluginName::RcpFeLolParties
    } else if s@ == "rcp-fe-lol-paw"@ {
        PluginName::RcpFeLolPaw
    } else if s@ == "rcp-fe-lol-pft"@ {
        PluginName::RcpFeLolPft
    } else if s@ == "rcp-fe-lol-postgame"@ {
        PluginName::RcpFeLolPostgame
    } else if s@ == "rcp-fe-lol-premade-voice"@ {
        PluginName::RcpFeLolPremadeVoice
    } else if s@ == "rcp-fe-lol-profiles"@ {
        PluginName::RcpFeLolProfiles
    } else if s@ == "rcp-fe-lol-settings"@ {
        PluginName::RcpFeLolSettings
    } else if s@ == "rcp-fe-lol-shared-components"@ {
        PluginName::RcpFeLolSharedComponents
    } else if s@ == "rcp-fe-lol-skins-picker"@ {
        PluginName::RcpFeLolSkinsPicker
    } else if s@ == "rcp-fe-lol-social"@ {
        PluginName::RcpFeLolSocial
    } else if s@ == "rcp-fe-lol-startup"@ {
        PluginName::RcpFeLolStartup
    } else if s@ == "rcp-fe-lol-static-assets"@ {
        PluginName::RcpFeLolStaticAssets
    } else if s@ == "rcp-fe-lol-store"@ {
        PluginName::RcpFeLolStore
    } else if s@ == "rcp-fe-lol-tft"@ {
        PluginName::RcpFeLolTft
    } else if s@ == "rcp-fe-lol-tft-team-planner"@ {
        PluginName::RcpFeLolTftTeamPlanner
    } else if s@ == "rcp-fe-lol-tft-troves"@ {
        PluginName::RcpFeLolTftTroves
    } else if s@ == "rcp-fe-lol-typekit"@ {
        PluginName::RcpFeLolTypekit
    } else if s@ == "rcp-fe-lol-uikit"@ {
        PluginName::RcpFeLolUikit
    } else if s@ == "rcp-fe-lol-yourshop"@ {
        PluginName::RcpFeLolYourshop
    } else if s@ == "rcp-fe-plugin-runner"@ {
        PluginName::RcpFePluginRunner
    } else {
        PluginName::Other(s)
    }
}

impl PluginName {
    /// The spelling this name has on the wire and in cache files.
    pub fn wire_name(&self) -> (r: String)
        ensures
            r@ == spec_plugin_name_wire(*self),
    {
        match self {
            PluginName::RcpBeLolGameData => String::from_str("rcp-be-lol-game-data"),
            PluginName::RcpBeLolLicenseAgreement => String::from_str("rcp-be-lol-license-agreement"),
            PluginName::RcpBeSanitizer => String::from_str("rcp-be-sanitizer"),
            PluginName::RcpFeAudio => String::from_str("rcp-fe-audio"),
            PluginName::RcpFeCommonLibs => String::from_str("rcp-fe-common-libs"),
            PluginName::RcpFeEmberLibs => String::from_str("rcp-fe-ember-libs"),
            PluginName::RcpFeLolCareerStats => String::from_str("rcp-fe-lol-career-stats"),
            PluginName::RcpFeLolChampSelect => String::from_str("rcp-fe-lol-champ-select"),
            PluginName::RcpFeLolChampionDetails => String::from_str("rcp-fe-lol-champion-details"),
            PluginName::RcpFeLolChampionStatistics => String::from_str(
                "rcp-fe-lol-champion-statistics",
            ),
            PluginName::RcpFeLolClash => String::from_str("rcp-fe-lol-clash"),
            PluginName::RcpFeLolCollections => String::from_str("rcp-fe-lol-collections"),
            PluginName::RcpFeLolEsportsSpectate => String::from_str("rcp-fe-lol-esports-spectate"),
            PluginName::RcpFeLolEventHub => String::from_str("rcp-fe-lol-event-hub"),
            PluginName::RcpFeLolEventShop => String::from_str("rcp-fe-lol-event-shop"),
            PluginName::RcpFeLolHighlights => String::from_str("rcp-fe-lol-highlights"),
            PluginName::RcpFeLolHonor => String::from_str("rcp-fe-lol-honor"),
            PluginName::RcpFeLolKickout => String::from_str("rcp-fe-lol-kickout"),
            PluginName::RcpFeLolL10n => String::from_str("rcp-fe-lol-l10n"),
            PluginName::RcpFeLolLeagues => String::from_str("rcp-fe-lol-leagues"),
            PluginName::RcpFeLolLockAndLoad => String::from_str("rcp-fe-lol-lock-and-load"),
            PluginName::RcpFeLolLoot => String::from_str("rcp-fe-lol-loot"),
            PluginName::RcpFeLolMatchHistory => String::from_str("rcp-fe-lol-match-history"),
            PluginName::RcpFeLolNavigation => String::from_str("rcp-fe-lol-navigation"),
            PluginName::RcpFeLolNewPlayerExperience => String::from_str(
                "rcp-fe-lol-new-player-experience",
            ),
            PluginName::RcpFeLolNpeRewards => String::from_str("rcp-fe-lol-npe-rewards"),
            PluginName::RcpFeLolParties => String::from_str("rcp-fe-lol-parties"),
            PluginName::RcpFeLolPaw => String::from_str("rcp-fe-lol-paw"),
            PluginName::RcpFeLolPft => String::from_str("rcp-fe-lol-pft"),
            PluginName::RcpFeLolPostgame => String::from_str("rcp-fe-lol-postgame"),
            PluginName::RcpFeLolPremadeVoice => String::from_str("rcp-fe-lol-premade-voice"),
            PluginName::RcpFeLolProfiles => String::from_str("rcp-fe-lol-profiles"),
            PluginName::RcpFeLolSettings => String::from_str("rcp-fe-lol-settings"),
            PluginName::RcpFeLolSharedComponents => String::from_str(
                "rcp-fe-lol-shared-components",
            ),
            PluginName::RcpFeLolSkinsPicker => String::from_str("rcp-fe-lol-skins-picker"),
            PluginName::RcpFeLolSocial => String::from_str("rcp-fe-lol-social"),
            PluginName::RcpFeLolStartup => String::from_str("rcp-fe-lol-startup"),
            PluginName::RcpFeLolStaticAssets => String::from_str("rcp-fe-lol-static-assets"),
            PluginName::RcpFeLolStore => String::from_str("rcp-fe-lol-store"),
            PluginName::RcpFeLolTft => String::from_str("rcp-fe-lol-tft"),
            PluginName::RcpFeLolTftTeamPlanner => String::from_str("rcp-fe-lol-tft-team-planner"),
            PluginName::RcpFeLolTftTroves => String::from_str("rcp-fe-lol-tft-troves"),
            PluginName::RcpFeLolTypekit => String::from_str("rcp-fe-lol-typekit"),
            PluginName::RcpFeLolUikit => String::from_str("rcp-fe-lol-uikit"),
            PluginName::RcpFeLolYourshop => String::from_str("rcp-fe-lol-yourshop"),
            PluginName::RcpFePluginRunner => String::from_str("rcp-fe-plugin-runner"),
            PluginName::Other(s) => s.clone(),
        }
    }

    /// Decodes a wire spelling, taking ownership of the `String` so that an
    /// unknown spelling is kept verbatim.
    pub fn of_wire(s: String) -> (r: PluginName)
        ensures
            r == spec_plugin_name_of(s),
    {
        if str_eq(s.as_str(), "rcp-be-lol-game-data") {
            PluginName::RcpBeLolGameData
        } else if str_eq(s.as_str(), "rcp-be-lol-license-agreement") {
            PluginName::RcpBeLolLicenseAgreement
        } else if str_eq(s.as_str(), "rcp-be-sanitizer") {
            PluginName::RcpBeSanitizer
        } else if str_eq(s.as_str(), "rcp-fe-audio") {
            PluginName::RcpFeAudio
        } else if str_eq(s.as_str(), "rcp-fe-common-libs") {
            PluginName::RcpFeCommonLibs
        } else if str_eq(s.as_str(), "rcp-fe-ember-libs") {
            PluginName::RcpFeEmberLibs
        } else if str_eq(s.as_str(), "rcp-fe-lol-career-stats") {
            PluginName::RcpFeLolCareerStats
        } else if str_eq(s.as_str(), "rcp-fe-lol-champ-select") {
            PluginName::RcpFeLolChampSelect
        } else if str_eq(s.as_str(), "rcp-fe-lol-champion-details") {
            PluginName::RcpFeLolChampionDetails
        } else if str_eq(s.as_str(), "rcp-fe-lol-champion-statistics") {
            PluginName::RcpFeLolChampionStatistics
        } else if str_eq(s.as_str(), "rcp-fe-lol-clash") {
            PluginName::RcpFeLolClash
        } else if str_eq(s.as_str(), "rcp-fe-lol-collections") {
            PluginName::RcpFeLolCollections
        } else if str_eq(s.as_str(), "rcp-fe-lol-esports-spectate") {
            PluginName::RcpFeLolEsportsSpectate
        } else if str_eq(s.as_str(), "rcp-fe-lol-event-hub") {
            PluginName::RcpFeLolEventHub
        } else if str_eq(s.as_str(), "rcp-fe-lol-event-shop") {
            PluginName::RcpFeLolEventShop
        } else if str_eq(s.as_str(), "rcp-fe-lol-highlights") {
            PluginName::RcpFeLolHighlights
        } else if str_eq(s.as_str(), "rcp-fe-lol-honor") {
            PluginName::RcpFeLolHonor
        } else if str_eq(s.as_str(), "rcp-fe-lol-kickout") {
            PluginName::RcpFeLolKickout
        } else if str_eq(s.as_str(), "rcp-fe-lol-l10n") {
            PluginName::RcpFeLolL10n
        } else if str_eq(s.as_str(), "rcp-fe-lol-leagues") {
            PluginName::RcpFeLolLeagues
        } else if str_eq(s.as_str(), "rcp-fe-lol-lock-and-load") {
            PluginName::RcpFeLolLockAndLoad
        } else if str_eq(s.as_str(), "rcp-fe-lol-loot") {
            PluginName::RcpFeLolLoot
        } else if str_eq(s.as_str(), "rcp-fe-lol-match-history") {
            PluginName::RcpFeLolMatchHistory
        } else if str_eq(s.as_str(), "rcp-fe-lol-navigation") {
            PluginName::RcpFeLolNavigation
        } else if str_eq(s.as_str(), "rcp-fe-lol-new-player-experience") {
            PluginName::RcpFeLolNewPlayerExperience
        } else if str_eq(s.as_str(), "rcp-fe-lol-npe-rewards") {
            PluginName::RcpFeLolNpeRewards
        } else if str_eq(s.as_str(), "rcp-fe-lol-parties") {
            PluginName::RcpFeLolParties
        } else if str_eq(s.as_str(), "rcp-fe-lol-paw") {
            PluginName::RcpFeLolPaw
        } else if str_eq(s.as_str(), "rcp-fe-lol-pft") {
            PluginName::RcpFeLolPft
        } else if str_eq(s.as_str(), "rcp-fe-lol-postgame") {
            PluginName::RcpFeLolPostgame
        } else if str_eq(s.as_str(), "rcp-fe-lol-premade-voice") {
            PluginName::RcpFeLolPremadeVoice
        } else if str_eq(s.as_str(), "rcp-fe-lol-profiles") {
            PluginName::RcpFeLolProfiles
        } else if str_eq(s.as_str(), "rcp-fe-lol-settings") {
            PluginName::RcpFeLolSettings
        } else if str_eq(s.as_str(), "rcp-fe-lol-shared-components") {
            PluginName::RcpFeLolSharedComponents
        } else if str_eq(s.as_str(), "rcp-fe-lol-skins-picker") {
            PluginName::RcpFeLolSkinsPicker
        } else if str_eq(s.as_str(), "rcp-fe-lol-social") {
            PluginName::RcpFeLolSocial
        } else if str_eq(s.as_str(), "rcp-fe-lol-startup") {
            PluginName::RcpFeLolStartup
        } else if str_eq(s.as_str(), "rcp-fe-lol-static-assets") {
            PluginName::RcpFeLolStaticAssets
        } else if str_eq(s.as_str(), "rcp-fe-lol-store") {
            PluginName::RcpFeLolStore
        } else if str_eq(s.as_str(), "rcp-fe-lol-tft") {
            PluginName::RcpFeLolTft
        } else if str_eq(s.as_str(), "rcp-fe-lol-tft-team-planner") {
            PluginName::RcpFeLolTftTeamPlanner
        } else if str_eq(s.as_str(), "rcp-fe-lol-tft-troves") {
            PluginName::RcpFeLolTftTroves
        } else if str_eq(s.as_str(), "rcp-fe-lol-typekit") {
            PluginName::RcpFeLolTypekit
        } else if str_eq(s.as_str(), "rcp-fe-lol-uikit") {
            PluginName::RcpFeLolUikit
        } else if str_eq(s.as_str(), "rcp-fe-lol-yourshop") {
            PluginName::RcpFeLolYourshop
        } else if str_eq(s.as_str(), "rcp-fe-plugin-runner") {
            PluginName::RcpFePluginRunner
        } else {
            PluginName::Other(s)
        }
    }
}

/// Whether a manifest entry is a file or a directory.
#[derive(Clone, Copy, Debug, PartialEq, Eq, Structural)]
pub enum PluginType {
    File,
    Directory,
}

/// The wire spelling of a plugin entry type.
pub open spec fn spec_plugin_type_wire(t: PluginType) -> Seq<char> {
    match t {
        PluginType::File => "file"@,
        PluginType::Directory => "directory"@,
    }
}

/// The entry type a wire spelling decodes to, if recognized.
pub open spec fn spec_plugin_type_from_wire(s: Seq<char>) -> Option<PluginType> {
    if s == "file"@ {
        Some(PluginType::File)
    } else if s == "directory"@ {
        Some(PluginType::Directory)
    } else {
        None
    }
}

impl PluginType {
    /// The spelling this entry type has on the wire and in cache files.
    pub fn wire_name(&self) -> (r: String)
        ensures
            r@ == spec_plugin_type_wire(*self),
    {
        match self {
            PluginType::File => String::from_str("file"),
            PluginType::Directory => String::from_str("directory"),
        }
    }

    /// Decodes a wire spelling; unrecognized spellings are rejected.
    pub fn from_wire(s: &str) -> (r: Option<PluginType>)
        ensures
            r == spec_plugin_type_from_wire(s@),
    {
        if str_eq(s, "file") {
            Some(PluginType::File)
        } else if str_eq(s, "directory") {
            Some(PluginType::Directory)
        } else {
            None
        }
    }
}

/// Every entry type decodes back from its own wire spelling.
pub proof fn lemma_plugin_type_wire_round_trip(t: PluginType)
    ensures
        spec_plugin_type_from_wire(spec_plugin_type_wire(t)) == Some(t),
{
    reveal_strlit("file");
    reveal_strlit("directory");
    assert("file"@.len() == 4);
    assert("directory"@.len() == 9);
}

/// One entry of the remote plugin manifest. `mtime` is the last-modified
/// instant in seconds since the Unix epoch. Identity is `name`; a fresh fetch
/// replaces the whole list.
#[derive(Clone, Debug, PartialEq, Eq)]
pub struct Plugin {
    pub name: PluginName,
    pub ty: PluginType,
    pub mtime: i64,
    pub size: Option<i32>,
}

impl Plugin {
    /// A plausible manifest entry: a size, when present, is non-negative.
    /// Every entry the decoder produces satisfies this.
    pub open spec fn wf(self) -> bool {
        match self.size {
            Some(z) => z >= 0,
            None => true,
        }
    }

    /// Whether this entry was modified strictly after the given instant.
    pub fn updated_since(&self, date: i64) -> (r: bool)
        ensures
            r == (self.mtime > date),
    {
        self.mtime > date
    }
}

/// The subset of a champion's detail the presentation layer shows, with the
/// skins split into the base skin and the rest.
#[derive(Clone, Debug, PartialEq, Eq)]
pub struct ChampionDetail {
    pub id: u64,
    pub name: String,
    pub title: String,
    pub short_bio: String,
    pub skins: Vec<Skin>,
}

/// The first base skin of a sequence, if any.
pub open spec fn spec_first_base(skins: Seq<Skin>) -> Option<Skin>
    decreases skins.len(),
{
    if skins.len() == 0 {
        None
    } else if skins[0].is_base {
        Some(skins[0])
    } else {
        spec_first_base(skins.skip(1))
    }
}

/// The subsequence of skins that are not the base skin, in order.
pub open spec fn spec_non_base(skins: Seq<Skin>) -> Seq<Skin> {
    skins.filter(|s: Skin| !s.is_base)
}

/// Dereferenced copy of a sequence of borrowed skins.
pub open spec fn spec_deref_skins(skins: Seq<&Skin>) -> Seq<Skin> {
    skins.map_values(|s: &Skin| *s)
}

impl ChampionDetail {
    /// The champion's base skin: the first skin marked `is_base`, or nothing
    /// when no skin is so marked.
    pub fn base_skin(&self) -> (r: Option<&Skin>)
        ensures
            match r {
                Some(s) => spec_first_base(self.skins@) == Some(*s),
                None => spec_first_base(self.skins@) is None,
            },
    {
        let n = self.skins.len();
        let mut i: usize = 0;
        proof {
            assert(self.skins@.skip(0) =~= self.skins@);
        }
        while i < n
            invariant
                n == self.skins@.len(),
                0 <= i <= n,
                spec_first_base(self.skins@) == spec_first_base(self.skins@.skip(i as int)),
            decreases n - i,
        {
            proof {
                assert(self.skins@.skip(i as int)[0] == self.skins@[i as int]);
                assert(self.skins@.skip(i as int).skip(1) =~= self.skins@.skip(i + 1));
            }
            if self.skins[i].is_base {
                return Some(&self.skins[i]);
            }
            i += 1;
        }
        proof {
            assert(self.skins@.skip(n as int) =~= Seq::<Skin>::empty());
        }
        None
    }

    /// Every skin that is not marked `is_base`, in their original order.
    pub fn skins_no_base(&self) -> (r: Vec<&Skin>)
        ensures
            spec_deref_skins(r@) == spec_non_base(self.skins@),
    {
        let n = self.skins.len();
        let mut out: Vec<&Skin> = Vec::new();
        let mut i: usize = 0;
        while i < n
            invariant
                n == self.skins@.len(),
                0 <= i <= n,
                spec_deref_skins(out@) == spec_non_base(self.skins@.take(i as int)),
            decreases n - i,
        {
            proof {
                reveal(Seq::filter);
                assert(self.skins@.take(i + 1).drop_last() =~= self.skins@.take(i as int));
                assert(self.skins@.take(i + 1).last() == self.skins@[i as int]);
            }
            if !self.skins[i].is_base {
                out.push(&self.skins[i]);
                proof {
                    assert(spec_deref_skins(out@) =~= spec_non_base(self.skins@.take(i + 1)));
                }
            } else {
                proof {
                    assert(spec_deref_skins(out@) =~= spec_non_base(self.skins@.take(i + 1)));
                }
            }
            i += 1;
        }
        proof {
            assert(self.skins@.take(n as int) =~= self.skins@);
        }
        out
    }
}

} // verus!
