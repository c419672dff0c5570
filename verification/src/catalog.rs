//! The catalog: the in-memory dataset of plugins and champions, with lookup,
//! staleness reporting, and the all-or-nothing refresh rule. All I/O is done
//! by the embedding, which hands outcomes in as plain values; every decision
//! made on those values is verified here.

use vstd::prelude::*;

use vstd::string::StringExecFns;

use crate::codec::DecodeError;
use crate::domain::{
    Champion, Plugin, PluginName, Skin, SkinAsset, SkinModel, Status, spec_plugin_name_wire,
};
use crate::text::str_eq;

verus! {

/// The discriminator of the two collection cache files.
#[derive(Clone, Copy, Debug, PartialEq, Eq, Structural)]
pub enum CacheFile {
    Plugins,
    Champions,
}

/// The fixed file name a collection's cache blob is kept under.
pub open spec fn spec_cache_file_name(f: CacheFile) -> Seq<char> {
    match f {
        CacheFile::Plugins => "plugins.json"@,
        CacheFile::Champions => "champions.json"@,
    }
}

impl CacheFile {
    /// The file, inside the cache directory, that holds this collection.
    pub fn file_name(&self) -> (r: String)
        ensures
            r@ == spec_cache_file_name(*self),
    {
        match self {
            CacheFile::Plugins => String::from_str("plugins.json"),
            CacheFile::Champions => String::from_str("champions.json"),
        }
    }
}

/// A failure of a remote fetch or of local persistence, as the embedding
/// reports it: a transport failure, a payload that would not decode, or a
/// directory or file that could not be written.
#[derive(Clone, Debug, PartialEq, Eq)]
pub enum FetchError {
    Network(String),
    Decode(DecodeError),
    Filesystem(String),
}

/// A lookup for an entity the dataset does not hold.
#[derive(Clone, Copy, Debug, PartialEq, Eq, Structural)]
pub enum CatalogError {
    NotFound,
}

/// No two champions of a collection share an id.
pub open spec fn spec_unique_ids(cs: Seq<Champion>) -> bool {
    forall|i: int, j: int| 0 <= i < j < cs.len() ==> cs[i].id != cs[j].id
}

/// Some champion of the collection has this id.
pub open spec fn spec_has_id(cs: Seq<Champion>, id: u64) -> bool {
    exists|i: int| 0 <= i < cs.len() && cs[i].id == id
}

/// What building the champion collection from a decoded list guarantees:
/// ids are unique, every listed id is present, and the champion kept for an
/// id is the last one the list holds for it — the behaviour of inserting the
/// list in order into a map keyed by id.
/// `c` stands at some position of `list` at or after `from`, and no later
/// entry shares its id: `c` is the entry a map insert of the list would
/// keep for its id.
pub open spec fn spec_last_occurrence_from(list: Seq<Champion>, from: int, c: Champion) -> bool {
    exists|j: int|
        #![trigger list[j]]
        from <= j < list.len() && list[j] == c && (forall|j2: int|
            #![trigger list[j2]]
            j < j2 < list.len() ==> list[j2].id != c.id)
}

pub open spec fn spec_dedup_rel(list: Seq<Champion>, out: Seq<Champion>) -> bool {
    &&& spec_unique_ids(out)
    &&& forall|i: int|
        0 <= i < out.len() ==> spec_last_occurrence_from(list, 0, #[trigger] out[i])
    &&& forall|j: int| 0 <= j < list.len() ==> spec_has_id(out, (#[trigger] list[j]).id)
}

/// A last occurrence at or after `from` is also one at or after any earlier
/// position.
proof fn lemma_last_occurrence_weaken(list: Seq<Champion>, from: int, from2: int, c: Champion)
    requires
        spec_last_occurrence_from(list, from, c),
        from2 <= from,
    ensures
        spec_last_occurrence_from(list, from2, c),
{
    let j = choose|j: int|
        #![trigger list[j]]
        from <= j < list.len() && list[j] == c && (forall|j2: int|
            #![trigger list[j2]]
            j < j2 < list.len() ==> list[j2].id != c.id);
    assert(from2 <= j < list.len() && list[j] == c);
}

/// Whether some champion of `cs` has the id.
pub fn has_id(cs: &Vec<Champion>, id: u64) -> (r: bool)
    ensures
        r == spec_has_id(cs@, id),
{
    let n = cs.len();
    let mut i: usize = 0;
    while i < n
        invariant
            0 <= i <= n,
            n == cs@.len(),
            forall|j: int| 0 <= j < i ==> cs@[j].id != id,
        decreases n - i,
    {
        if cs[i].id == id {
            return true;
        }
        i += 1;
    }
    false
}

/// Builds the champion collection from a decoded list: keyed by id, where a
/// later entry with an id already seen replaces the earlier one, as a map
/// insert would.
pub fn champions_collection(list: Vec<Champion>) -> (r: Vec<Champion>)
    ensures
        spec_dedup_rel(list@, r@),
{
    let ghost orig = list@;
    let mut rest = list;
    let mut out: Vec<Champion> = Vec::new();
    proof {
        assert(orig.take(orig.len() as int) =~= orig);
    }
    while rest.len() > 0
        invariant
            rest@.len() <= orig.len(),
            rest@ == orig.take(rest@.len() as int),
            spec_unique_ids(out@),
            forall|i: int|
                0 <= i < out@.len() ==> spec_last_occurrence_from(
                    orig,
                    rest@.len() as int,
                    #[trigger] out@[i],
                ),
            forall|j: int|
                rest@.len() <= j < orig.len() ==> spec_has_id(out@, (#[trigger] orig[j]).id),
        decreases rest@.len(),
    {
        let c = rest.pop().unwrap();
        let ghost m = rest@.len() as int;
        let ghost out0 = out@;
        proof {
            assert(orig.take(m + 1).last() == orig[m]);
            assert(orig.take(m + 1).drop_last() =~= orig.take(m));
        }
        if !has_id(&out, c.id) {
            proof {
                assert forall|j2: int| m < j2 < orig.len() implies orig[j2].id != c.id by {
                    assert(spec_has_id(out0, orig[j2].id));
                }
            }
            out.push(c);
            proof {
                assert(out@[out0.len() as int] == c);
                assert(orig[m] == c);
                assert(spec_last_occurrence_from(orig, m, c));
            }
        }
        proof {
            assert(out0.len() <= out@.len());
            assert(forall|i: int| 0 <= i < out0.len() ==> out@[i] == out0[i]);
            assert(spec_has_id(out@, c.id));
            assert forall|j: int|
                rest@.len() <= j < orig.len() implies spec_has_id(
                out@,
                (#[trigger] orig[j]).id,
            ) by {
                if j == m {
                    assert(orig[j] == c);
                } else {
                    assert(spec_has_id(out0, orig[j].id));
                    let i0 = choose|i0: int| 0 <= i0 < out0.len() && out0[i0].id == orig[j].id;
                    assert(out@[i0].id == orig[j].id);
                }
            }
            assert forall|i: int|
                0 <= i < out@.len() implies spec_last_occurrence_from(
                orig,
                m,
                #[trigger] out@[i],
            ) by {
                if i < out0.len() {
                    assert(spec_last_occurrence_from(orig, m + 1, out0[i]));
                    lemma_last_occurrence_weaken(orig, m + 1, m, out0[i]);
                    assert(out@[i] == out0[i]);
                } else {
                    assert(out@[i] == c);
                }
            }
        }
    }
    proof {
        assert(orig.take(0) =~= Seq::<Champion>::empty());
    }
    out
}

/// The catalog. It owns the dataset; consumers read it through the lookup
/// functions, and the embedding replaces it only through `update`.
#[derive(Debug)]
pub struct CDragon {
    pub plugins: Vec<Plugin>,
    pub champions: Vec<Champion>,
    pub status: Status,
}

/// What the staleness check reports, given the cached timestamp of a plugin
/// (if one is cached at all) and the remote one: out of date exactly when
/// nothing is cached or the cached timestamp is strictly older.
pub open spec fn spec_status_for(cached: Option<i64>, remote: i64) -> Status {
    match cached {
        None => Status::OutOfDate,
        Some(t) => if t < remote {
            Status::OutOfDate
        } else {
            Status::UpToDate
        },
    }
}

/// The timestamp of the first plugin of the list whose name has the given
/// wire spelling, if any.
pub open spec fn spec_find_plugin_mtime(ps: Seq<Plugin>, w: Seq<char>) -> Option<i64>
    decreases ps.len(),
{
    if ps.len() == 0 {
        None
    } else if spec_plugin_name_wire(ps[0].name) == w {
        Some(ps[0].mtime)
    } else {
        spec_find_plugin_mtime(ps.skip(1), w)
    }
}

/// The path of the requested asset image of a skin.
pub open spec fn spec_skin_asset_path(m: SkinModel, asset: SkinAsset) -> Seq<char> {
    match asset {
        SkinAsset::Splash => m.splash_path,
        SkinAsset::UncenteredSplash => m.uncentered_splash_path,
        SkinAsset::Tile => m.tile_path,
        SkinAsset::LoadScreen => m.load_screen_path,
    }
}

impl CDragon {
    /// The champion ids are unique: established at construction, preserved
    /// by every update.
    pub open spec fn wf(self) -> bool {
        spec_unique_ids(self.champions@)
    }

    /// A catalog over an already-obtained dataset. The champion list is
    /// keyed by id (a duplicate id keeps the last entry); no staleness check
    /// has run yet, so the status is `Uninitialized`.
    pub fn new(plugins: Vec<Plugin>, champions: Vec<Champion>) -> (r: CDragon)
        ensures
            r.plugins == plugins,
            spec_dedup_rel(champions@, r.champions@),
            r.status == Status::Uninitialized,
            r.wf(),
    {
        CDragon {
            plugins,
            champions: champions_collection(champions),
            status: Status::Uninitialized,
        }
    }

    /// The construction protocol: each collection comes either from the
    /// cache or from exactly one remote fetch, and exactly the collections
    /// that were fetched must then be persisted — after a construction with
    /// an empty cache, both cache files exist.
    pub fn from_sources(
        plugins: Vec<Plugin>,
        plugins_cached: bool,
        champions: Vec<Champion>,
        champions_cached: bool,
    ) -> (r: (CDragon, bool, bool))
        ensures
            r.0.plugins == plugins,
            spec_dedup_rel(champions@, r.0.champions@),
            r.0.status == Status::Uninitialized,
            r.0.wf(),
            r.1 == !plugins_cached,
            r.2 == !champions_cached,
    {
        (CDragon::new(plugins, champions), !plugins_cached, !champions_cached)
    }

    /// The champion with this id, or nothing: a lookup for an id the dataset
    /// does not hold reports the miss rather than failing.
    pub fn champion_by_id(&self, id: u64) -> (r: Option<&Champion>)
        ensures
            match r {
                Some(c) => c.id == id && exists|i: int|
                    0 <= i < self.champions@.len() && (#[trigger] self.champions@[i]) == *c && (
                    forall|j: int| 0 <= j < i ==> (#[trigger] self.champions@[j]).id != id),
                None => !spec_has_id(self.champions@, id),
            },
    {
        let n = self.champions.len();
        let mut i: usize = 0;
        while i < n
            invariant
                0 <= i <= n,
                n == self.champions@.len(),
                forall|j: int| 0 <= j < i ==> self.champions@[j].id != id,
            decreases n - i,
        {
            if self.champions[i].id == id {
                return Some(&self.champions[i]);
            }
            i += 1;
        }
        None
    }

    /// The first champion with exactly this name — the match is
    /// case-sensitive — or nothing when no champion has it.
    pub fn champion_by_name(&self, name: &str) -> (r: Option<&Champion>)
        ensures
            match r {
                Some(c) => c.name@ == name@ && exists|i: int|
                    0 <= i < self.champions@.len() && (#[trigger] self.champions@[i]) == *c && (
                    forall|j: int|
                        0 <= j < i ==> (#[trigger] self.champions@[j]).name@ != name@),
                None => forall|i: int|
                    0 <= i < self.champions@.len() ==> (#[trigger] self.champions@[i]).name@
                        != name@,
            },
    {
        let n = self.champions.len();
        let mut i: usize = 0;
        while i < n
            invariant
                0 <= i <= n,
                n == self.champions@.len(),
                forall|j: int| 0 <= j < i ==> (#[trigger] self.champions@[j]).name@ != name@,
            decreases n - i,
        {
            if str_eq(self.champions[i].name.as_str(), name) {
                return Some(&self.champions[i]);
            }
            i += 1;
        }
        None
    }

    /// The advisory staleness report for one plugin: `OutOfDate` when no
    /// cached entry exists or the cached timestamp is strictly earlier than
    /// the remote one, `UpToDate` otherwise. It only reports; nothing is
    /// refreshed on its account.
    pub fn status_for(cached_mtime: Option<i64>, remote_mtime: i64) -> (s: Status)
        ensures
            s == spec_status_for(cached_mtime, remote_mtime),
            (s is OutOfDate) <==> (cached_mtime is None || (cached_mtime matches Some(t) && t
                < remote_mtime)),
    {
        match cached_mtime {
            None => Status::OutOfDate,
            Some(t) => if t < remote_mtime {
                Status::OutOfDate
            } else {
                Status::UpToDate
            },
        }
    }

    /// The timestamp of the named plugin in a plugin list (a cached one or a
    /// freshly fetched one); names are compared by their wire spelling.
    pub fn plugin_mtime(plugins: &Vec<Plugin>, name: &PluginName) -> (r: Option<i64>)
        ensures
            r == spec_find_plugin_mtime(plugins@, spec_plugin_name_wire(*name)),
    {
        let ghost w = spec_plugin_name_wire(*name);
        let target = name.wire_name();
        let n = plugins.len();
        let mut i: usize = 0;
        proof {
            assert(plugins@.skip(0) =~= plugins@);
        }
        while i < n
            invariant
                0 <= i <= n,
                n == plugins@.len(),
                target@ == w,
                w == spec_plugin_name_wire(*name),
                spec_find_plugin_mtime(plugins@, w) == spec_find_plugin_mtime(
                    plugins@.skip(i as int),
                    w,
                ),
            decreases n - i,
        {
            proof {
                assert(plugins@.skip(i as int)[0] == plugins@[i as int]);
                assert(plugins@.skip(i as int).skip(1) =~= plugins@.skip(i + 1));
            }
            let pw = plugins[i].name.wire_name();
            if str_eq(pw.as_str(), target.as_str()) {
                proof {
                    assert(spec_plugin_name_wire(plugins@[i as int].name) == w);
                    assert(spec_find_plugin_mtime(plugins@.skip(i as int), w) == Some(
                        plugins@[i as int].mtime,
                    ));
                }
                return Some(plugins[i].mtime);
            }
            i += 1;
        }
        proof {
            assert(plugins@.skip(n as int) =~= Seq::<Plugin>::empty());
        }
        None
    }

    /// The full refresh rule. The embedding fetches both collections and
    /// hands in the outcomes; a collection whose fetch (or persistence)
    /// failed leaves its half of the dataset untouched. Plugins and
    /// champions are independent all-or-nothing units: a plugins failure
    /// changes nothing and surfaces that error; a champions failure after a
    /// plugins success keeps the new plugins, leaves the champion map
    /// unchanged, and surfaces the champions error; only a double success
    /// marks the catalog up to date.
    pub fn update(
        &mut self,
        plugins: Result<Vec<Plugin>, FetchError>,
        champions: Result<Vec<Champion>, FetchError>,
    ) -> (r: Result<(), FetchError>)
        ensures
            match plugins {
                Err(e) => *final(self) == *old(self) && r == Err::<(), FetchError>(e),
                Ok(ps) => final(self).plugins == ps && match champions {
                    Err(e2) => final(self).champions == old(self).champions && final(self).status
                        == old(self).status && r == Err::<(), FetchError>(e2),
                    Ok(cs) => spec_dedup_rel(cs@, final(self).champions@) && final(self).status
                        == Status::UpToDate && r is Ok && final(self).wf(),
                },
            },
    {
        let ps = match plugins {
            Ok(ps) => ps,
            Err(e) => {
                return Err(e);
            },
        };
        self.plugins = ps;
        let cs = match champions {
            Ok(cs) => cs,
            Err(e) => {
                return Err(e);
            },
        };
        self.champions = champions_collection(cs);
        self.status = Status::UpToDate;
        Ok(())
    }

    /// The normalized portrait path of the champion with this id, to fetch
    /// and store its icon; an id the dataset does not hold is reported as
    /// not found.
    pub fn champion_icon_path(&self, champ_id: u64) -> (r: Result<String, CatalogError>)
        ensures
            match r {
                Ok(p) => exists|i: int|
                    0 <= i < self.champions@.len() && (#[trigger] self.champions@[i]).id
                        == champ_id && p@ == self.champions@[i].square_portrait_path@,
                Err(e) => e == CatalogError::NotFound && !spec_has_id(self.champions@, champ_id),
            },
    {
        match self.champion_by_id(champ_id) {
            Some(c) => Ok(c.square_portrait_path.clone()),
            None => Err(CatalogError::NotFound),
        }
    }

    /// The normalized path of the requested asset image of a skin.
    pub fn skin_path_of(&self, skin: &Skin, asset: &SkinAsset) -> (r: String)
        ensures
            r@ == spec_skin_asset_path(skin@, *asset),
    {
        match asset {
            SkinAsset::Splash => skin.splash_path.clone(),
            SkinAsset::UncenteredSplash => skin.uncentered_splash_path.clone(),
            SkinAsset::Tile => skin.tile_path.clone(),
            SkinAsset::LoadScreen => skin.load_screen_path.clone(),
        }
    }
}

} // verus!
