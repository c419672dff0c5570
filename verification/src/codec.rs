//! Typed decoding of JSON trees into domain entities, and the encoding used
//! for the local cache files. Path fields are normalized here, at decode
//! time, never at use time.

use vstd::prelude::*;
use vstd::string::StringExecFns;

use crate::dates::{format_mtime, parse_mtime, spec_format_mtime, spec_parse_mtime};
use crate::domain::{
    Champion, ChampionModel, PlaystyleInfo, Plugin, PluginName, PluginType, Rarity, Skin,
    SkinModel, SkinType, TacticalInfo, TacticalInfoModel, spec_champion_views,
    spec_plugin_name_of, spec_plugin_name_wire, spec_plugin_type_from_wire,
    spec_rarity_from_wire, spec_skin_type_from_wire,
    spec_skin_views, spec_string_views, lemma_plugin_type_wire_round_trip,
    lemma_rarity_wire_round_trip, lemma_skin_type_wire_round_trip,
};
use crate::json::{JsonValue, lookup, parse_json, spec_lookup, spec_parse_json};
use crate::paths::{normalize, spec_normalize};

verus! {

broadcast use vstd::string::group_string_axioms;

/// Why a payload failed to decode: the offending field or element is named.
#[derive(Clone, Debug, PartialEq, Eq)]
pub enum DecodeError {
    /// The text is not valid JSON at all.
    Syntax,
    /// A JSON array was expected.
    NotAnArray,
    /// A JSON object was expected.
    NotAnObject,
    /// The named required field is absent.
    MissingField(String),
    /// The named field is present but has the wrong shape.
    WrongType(String),
}

/// Mathematical value of a `DecodeError`.
#[verifier::ext_equal]
pub enum DecodeErrorModel {
    Syntax,
    NotAnArray,
    NotAnObject,
    MissingField(Seq<char>),
    WrongType(Seq<char>),
}

impl View for DecodeError {
    type V = DecodeErrorModel;

    open spec fn view(&self) -> DecodeErrorModel {
        match self {
            DecodeError::Syntax => DecodeErrorModel::Syntax,
            DecodeError::NotAnArray => DecodeErrorModel::NotAnArray,
            DecodeError::NotAnObject => DecodeErrorModel::NotAnObject,
            DecodeError::MissingField(f) => DecodeErrorModel::MissingField(f@),
            DecodeError::WrongType(f) => DecodeErrorModel::WrongType(f@),
        }
    }
}

/// A required `u64` field of an object.
pub open spec fn spec_u64_entry(fields: Seq<(String, JsonValue)>, key: Seq<char>) -> Result<
    u64,
    DecodeErrorModel,
> {
    match spec_lookup(fields, key) {
        Some(JsonValue::UInt(n)) => Ok(n),
        Some(_) => Err(DecodeErrorModel::WrongType(key)),
        None => Err(DecodeErrorModel::MissingField(key)),
    }
}

/// A required `bool` field of an object.
pub open spec fn spec_bool_entry(fields: Seq<(String, JsonValue)>, key: Seq<char>) -> Result<
    bool,
    DecodeErrorModel,
> {
    match spec_lookup(fields, key) {
        Some(JsonValue::Bool(b)) => Ok(b),
        Some(_) => Err(DecodeErrorModel::WrongType(key)),
        None => Err(DecodeErrorModel::MissingField(key)),
    }
}

/// A required string field of an object, kept as the stored `String` value.
pub open spec fn spec_text_entry(fields: Seq<(String, JsonValue)>, key: Seq<char>) -> Result<
    String,
    DecodeErrorModel,
> {
    match spec_lookup(fields, key) {
        Some(JsonValue::Text(s)) => Ok(s),
        Some(_) => Err(DecodeErrorModel::WrongType(key)),
        None => Err(DecodeErrorModel::MissingField(key)),
    }
}

/// An optional string field: absent or `null` is `None`.
pub open spec fn spec_opt_text_entry(fields: Seq<(String, JsonValue)>, key: Seq<char>) -> Result<
    Option<String>,
    DecodeErrorModel,
> {
    match spec_lookup(fields, key) {
        None => Ok(None),
        Some(JsonValue::Null) => Ok(None),
        Some(JsonValue::Text(s)) => Ok(Some(s)),
        Some(_) => Err(DecodeErrorModel::WrongType(key)),
    }
}

/// An optional non-negative integer field that must fit `i32`: absent or
/// `null` is `None`.
pub open spec fn spec_opt_i32_entry(fields: Seq<(String, JsonValue)>, key: Seq<char>) -> Result<
    Option<i32>,
    DecodeErrorModel,
> {
    match spec_lookup(fields, key) {
        None => Ok(None),
        Some(JsonValue::Null) => Ok(None),
        Some(JsonValue::UInt(n)) => if n <= 0x7fffffff {
            Ok(Some(n as i32))
        } else {
            Err(DecodeErrorModel::WrongType(key))
        },
        Some(_) => Err(DecodeErrorModel::WrongType(key)),
    }
}

fn u64_entry(fields: &Vec<(String, JsonValue)>, key: &str) -> (r: Result<u64, DecodeError>)
    ensures
        match r {
            Ok(n) => spec_u64_entry(fields@, key@) == Ok::<u64, DecodeErrorModel>(n),
            Err(e) => spec_u64_entry(fields@, key@) == Err::<u64, DecodeErrorModel>(e@),
        },
{
    match lookup(fields, key) {
        Some(JsonValue::UInt(n)) => Ok(*n),
        Some(_) => Err(DecodeError::WrongType(String::from_str(key))),
        None => Err(DecodeError::MissingField(String::from_str(key))),
    }
}

fn bool_entry(fields: &Vec<(String, JsonValue)>, key: &str) -> (r: Result<bool, DecodeError>)
    ensures
        match r {
            Ok(b) => spec_bool_entry(fields@, key@) == Ok::<bool, DecodeErrorModel>(b),
            Err(e) => spec_bool_entry(fields@, key@) == Err::<bool, DecodeErrorModel>(e@),
        },
{
    match lookup(fields, key) {
        Some(JsonValue::Bool(b)) => Ok(*b),
        Some(_) => Err(DecodeError::WrongType(String::from_str(key))),
        None => Err(DecodeError::MissingField(String::from_str(key))),
    }
}

fn text_entry(fields: &Vec<(String, JsonValue)>, key: &str) -> (r: Result<String, DecodeError>)
    ensures
        match r {
            Ok(s) => spec_text_entry(fields@, key@) == Ok::<String, DecodeErrorModel>(s),
            Err(e) => spec_text_entry(fields@, key@) == Err::<String, DecodeErrorModel>(e@),
        },
{
    match lookup(fields, key) {
        Some(JsonValue::Text(s)) => Ok(s.clone()),
        Some(_) => Err(DecodeError::WrongType(String::from_str(key))),
        None => Err(DecodeError::MissingField(String::from_str(key))),
    }
}

fn opt_text_entry(fields: &Vec<(String, JsonValue)>, key: &str) -> (r: Result<
    Option<String>,
    DecodeError,
>)
    ensures
        match r {
            Ok(s) => spec_opt_text_entry(fields@, key@) == Ok::<Option<String>, DecodeErrorModel>(
                s,
            ),
            Err(e) => spec_opt_text_entry(fields@, key@) == Err::<Option<String>, DecodeErrorModel>(
                e@,
            ),
        },
{
    match lookup(fields, key) {
        None => Ok(None),
        Some(JsonValue::Null) => Ok(None),
        Some(JsonValue::Text(s)) => Ok(Some(s.clone())),
        Some(_) => Err(DecodeError::WrongType(String::from_str(key))),
    }
}

fn opt_i32_entry(fields: &Vec<(String, JsonValue)>, key: &str) -> (r: Result<
    Option<i32>,
    DecodeError,
>)
    ensures
        match r {
            Ok(s) => spec_opt_i32_entry(fields@, key@) == Ok::<Option<i32>, DecodeErrorModel>(s),
            Err(e) => spec_opt_i32_entry(fields@, key@) == Err::<Option<i32>, DecodeErrorModel>(
                e@,
            ),
        },
{
    match lookup(fields, key) {
        None => Ok(None),
        Some(JsonValue::Null) => Ok(None),
        Some(JsonValue::UInt(n)) => if *n <= 0x7fffffff {
            Ok(Some(*n as i32))
        } else {
            Err(DecodeError::WrongType(String::from_str(key)))
        },
        Some(_) => Err(DecodeError::WrongType(String::from_str(key))),
    }
}

/// Decoding a whole array, element by element, stopping at the first failing
/// element: the error of the first failing element is the error of the whole.
pub open spec fn spec_decode_seq<T>(
    items: Seq<JsonValue>,
    f: spec_fn(JsonValue) -> Result<T, DecodeErrorModel>,
) -> Result<Seq<T>, DecodeErrorModel>
    decreases items.len(),
{
    if items.len() == 0 {
        Ok(Seq::empty())
    } else {
        match f(items[0]) {
            Err(e) => Err(e),
            Ok(x) => match spec_decode_seq(items.skip(1), f) {
                Ok(rest) => Ok(seq![x] + rest),
                Err(e) => Err(e),
            },
        }
    }
}

/// Splits `spec_decode_seq` at position `k`, provided every element before
/// `k` decodes: the whole result is the decoded prefix joined with whatever
/// the tail gives.
pub proof fn lemma_decode_seq_prefix<T>(
    items: Seq<JsonValue>,
    f: spec_fn(JsonValue) -> Result<T, DecodeErrorModel>,
    k: int,
)
    requires
        0 <= k <= items.len(),
        forall|j: int| 0 <= j < k ==> (#[trigger] f(items[j])) is Ok,
    ensures
        spec_decode_seq(items, f) == match spec_decode_seq(items.skip(k), f) {
            Ok(rest) => Ok::<Seq<T>, DecodeErrorModel>(
                Seq::new(k as nat, |j: int| f(items[j])->Ok_0) + rest,
            ),
            Err(e) => Err::<Seq<T>, DecodeErrorModel>(e),
        },
    decreases k,
{
    if k == 0 {
        assert(items.skip(0) =~= items);
        match spec_decode_seq(items, f) {
            Ok(rest) => {
                assert(Seq::new(0, |j: int| f(items[j])->Ok_0) + rest =~= rest);
            },
            Err(_) => {},
        }
    } else {
        lemma_decode_seq_prefix(items, f, k - 1);
        let tail = items.skip(k - 1);
        assert(tail[0] == items[k - 1]);
        assert(tail.skip(1) =~= items.skip(k));
        match spec_decode_seq(items.skip(k), f) {
            Ok(rest) => {
                assert(spec_decode_seq(tail, f) == Ok::<Seq<T>, DecodeErrorModel>(
                    seq![f(items[k - 1])->Ok_0] + rest,
                ));
                assert(Seq::new((k - 1) as nat, |j: int| f(items[j])->Ok_0) + (seq![
                    f(items[k - 1])->Ok_0,
                ] + rest) =~= Seq::new(k as nat, |j: int| f(items[j])->Ok_0) + rest);
            },
            Err(_) => {},
        }
    }
}

/// One element of an id-bearing array: an object whose `id` field is a
/// `u64`. Used both for skin lines and for the champion summary.
pub open spec fn spec_id_of(v: JsonValue) -> Result<u64, DecodeErrorModel> {
    match v {
        JsonValue::Object(fields) => spec_u64_entry(fields@, "id"@),
        _ => Err(DecodeErrorModel::NotAnObject),
    }
}

/// `spec_id_of` as a function value, so that contracts and proofs all speak
/// of one and the same function.
pub open spec fn spec_id_fn() -> spec_fn(JsonValue) -> Result<u64, DecodeErrorModel> {
    |e: JsonValue| spec_id_of(e)
}

fn id_of(v: &JsonValue) -> (r: Result<u64, DecodeError>)
    ensures
        match r {
            Ok(n) => spec_id_of(*v) == Ok::<u64, DecodeErrorModel>(n),
            Err(e) => spec_id_of(*v) == Err::<u64, DecodeErrorModel>(e@),
        },
{
    match v {
        JsonValue::Object(fields) => u64_entry(fields, "id"),
        _ => Err(DecodeError::NotAnObject),
    }
}

/// Decodes the ids of `items[start..]`, stopping at the first bad element.
fn decode_id_items(items: &Vec<JsonValue>, start: usize) -> (r: Result<Vec<u64>, DecodeError>)
    requires
        start <= items@.len(),
    ensures
        match r {
            Ok(ids) => spec_decode_seq(items@.skip(start as int), spec_id_fn()) == Ok::<
                Seq<u64>,
                DecodeErrorModel,
            >(ids@),
            Err(e) => spec_decode_seq(items@.skip(start as int), spec_id_fn()) == Err::<
                Seq<u64>,
                DecodeErrorModel,
            >(e@),
        },
{
    let ghost s = items@.skip(start as int);
    let n = items.len();
    let mut out: Vec<u64> = Vec::new();
    let mut i: usize = start;
    while i < n
        invariant
            start <= i <= n,
            n == items@.len(),
            s == items@.skip(start as int),
            out@.len() == i - start,
            forall|j: int|
                start <= j < i ==> (#[trigger] spec_id_of(items@[j])) == Ok::<
                    u64,
                    DecodeErrorModel,
                >(out@[j - start]),
        decreases n - i,
    {
        match id_of(&items[i]) {
            Ok(id) => {
                out.push(id);
            },
            Err(e) => {
                proof {
                    assert forall|j: int| 0 <= j < i - start implies (#[trigger] spec_id_fn()(
                        s[j],
                    )) is Ok by {
                        assert(s[j] == items@[j + start]);
                    }
                    lemma_decode_seq_prefix(s, spec_id_fn(), i - start);
                    assert(s.skip(i - start) =~= items@.skip(i as int));
                    assert(items@.skip(i as int)[0] == items@[i as int]);
                    assert(spec_decode_seq(items@.skip(i as int), spec_id_fn()) == Err::<
                        Seq<u64>,
                        DecodeErrorModel,
                    >(e@));
                }
                return Err(e);
            },
        }
        i += 1;
    }
    proof {
        assert forall|j: int| 0 <= j < n - start implies (#[trigger] spec_id_fn()(s[j])) is Ok by {
            assert(s[j] == items@[j + start]);
        }
        lemma_decode_seq_prefix(s, spec_id_fn(), n - start);
        assert(s.skip(n - start) =~= Seq::<JsonValue>::empty());
        assert(Seq::new((n - start) as nat, |j: int| spec_id_fn()(s[j])->Ok_0) + Seq::<
            u64,
        >::empty() =~= out@);
    }
    Ok(out)
}

/// A `skinLines` value: `null` is the empty list; an array must consist of
/// objects carrying a `u64` `id`, and its first bad element fails the whole
/// decode. Anything else is rejected.
pub open spec fn spec_skin_lines_value(v: JsonValue) -> Result<Seq<u64>, DecodeErrorModel> {
    match v {
        JsonValue::Null => Ok(Seq::empty()),
        JsonValue::Array(items) => spec_decode_seq(items@, spec_id_fn()),
        _ => Err(DecodeErrorModel::NotAnArray),
    }
}

/// Decodes a `skinLines` value: `null` gives an empty list, a malformed
/// element is an error, never silently dropped.
pub fn skin_lines_from_json(v: &JsonValue) -> (r: Result<Vec<u64>, DecodeError>)
    ensures
        match r {
            Ok(ids) => spec_skin_lines_value(*v) == Ok::<Seq<u64>, DecodeErrorModel>(ids@),
            Err(e) => spec_skin_lines_value(*v) == Err::<Seq<u64>, DecodeErrorModel>(e@),
        },
{
    match v {
        JsonValue::Null => Ok(Vec::new()),
        JsonValue::Array(items) => {
            proof {
                assert(items@.skip(0) =~= items@);
            }
            decode_id_items(items, 0)
        },
        _ => Err(DecodeError::NotAnArray),
    }
}

/// The `skinLines` field of a skin object: an absent field is the empty
/// list, a present one is decoded by `spec_skin_lines_value`.
pub open spec fn spec_skin_lines_entry(f: Seq<(String, JsonValue)>) -> Result<
    Seq<u64>,
    DecodeErrorModel,
> {
    match spec_lookup(f, "skinLines"@) {
        None => Ok(Seq::empty()),
        Some(x) => spec_skin_lines_value(x),
    }
}

/// A required string field holding an asset path, normalized at decode time.
pub open spec fn spec_path_entry(f: Seq<(String, JsonValue)>, key: Seq<char>) -> Result<
    Seq<char>,
    DecodeErrorModel,
> {
    match spec_text_entry(f, key) {
        Ok(s) => Ok(spec_normalize(s@)),
        Err(e) => Err(e),
    }
}

/// The `rarity` field: a string naming a known rarity tier.
pub open spec fn spec_rarity_entry(f: Seq<(String, JsonValue)>) -> Result<
    Rarity,
    DecodeErrorModel,
> {
    match spec_text_entry(f, "rarity"@) {
        Ok(s) => match spec_rarity_from_wire(s@) {
            Some(r) => Ok(r),
            None => Err(DecodeErrorModel::WrongType("rarity"@)),
        },
        Err(e) => Err(e),
    }
}

/// The `skinType` field: any string other than the ultimate spelling decodes
/// to the unspecified kind.
pub open spec fn spec_skin_type_entry(f: Seq<(String, JsonValue)>) -> Result<
    SkinType,
    DecodeErrorModel,
> {
    match spec_text_entry(f, "skinType"@) {
        Ok(s) => Ok(spec_skin_type_from_wire(s@)),
        Err(e) => Err(e),
    }
}

/// A whole skin object, field by field, in the order the fields are checked;
/// the first failing field is the error of the whole.
pub open spec fn spec_skin_from_fields(f: Seq<(String, JsonValue)>) -> Result<
    SkinModel,
    DecodeErrorModel,
> {
    if spec_u64_entry(f, "id"@) is Err {
        Err(spec_u64_entry(f, "id"@)->Err_0)
    } else if spec_bool_entry(f, "isBase"@) is Err {
        Err(spec_bool_entry(f, "isBase"@)->Err_0)
    } else if spec_text_entry(f, "name"@) is Err {
        Err(spec_text_entry(f, "name"@)->Err_0)
    } else if spec_path_entry(f, "splashPath"@) is Err {
        Err(spec_path_entry(f, "splashPath"@)->Err_0)
    } else if spec_path_entry(f, "uncenteredSplashPath"@) is Err {
        Err(spec_path_entry(f, "uncenteredSplashPath"@)->Err_0)
    } else if spec_path_entry(f, "tilePath"@) is Err {
        Err(spec_path_entry(f, "tilePath"@)->Err_0)
    } else if spec_path_entry(f, "loadScreenPath"@) is Err {
        Err(spec_path_entry(f, "loadScreenPath"@)->Err_0)
    } else if spec_skin_type_entry(f) is Err {
        Err(spec_skin_type_entry(f)->Err_0)
    } else if spec_rarity_entry(f) is Err {
        Err(spec_rarity_entry(f)->Err_0)
    } else if spec_bool_entry(f, "isLegacy"@) is Err {
        Err(spec_bool_entry(f, "isLegacy"@)->Err_0)
    } else if spec_skin_lines_entry(f) is Err {
        Err(spec_skin_lines_entry(f)->Err_0)
    } else if spec_opt_text_entry(f, "description"@) is Err {
        Err(spec_opt_text_entry(f, "description"@)->Err_0)
    } else {
        Ok(
            SkinModel {
                id: spec_u64_entry(f, "id"@)->Ok_0,
                is_base: spec_bool_entry(f, "isBase"@)->Ok_0,
                name: (spec_text_entry(f, "name"@)->Ok_0)@,
                splash_path: spec_path_entry(f, "splashPath"@)->Ok_0,
                uncentered_splash_path: spec_path_entry(f, "uncenteredSplashPath"@)->Ok_0,
                tile_path: spec_path_entry(f, "tilePath"@)->Ok_0,
                load_screen_path: spec_path_entry(f, "loadScreenPath"@)->Ok_0,
                skin_type: spec_skin_type_entry(f)->Ok_0,
                rarity: spec_rarity_entry(f)->Ok_0,
                is_legacy: spec_bool_entry(f, "isLegacy"@)->Ok_0,
                skin_lines: spec_skin_lines_entry(f)->Ok_0,
                description: match spec_opt_text_entry(f, "description"@)->Ok_0 {
                    Some(d) => Some(d@),
                    None => None,
                },
            },
        )
    }
}

/// A skin value: an object decoded by `spec_skin_from_fields`.
pub open spec fn spec_skin_from_json(v: JsonValue) -> Result<SkinModel, DecodeErrorModel> {
    match v {
        JsonValue::Object(fields) => spec_skin_from_fields(fields@),
        _ => Err(DecodeErrorModel::NotAnObject),
    }
}

/// `spec_skin_from_json` as a function value.
pub open spec fn spec_skin_fn() -> spec_fn(JsonValue) -> Result<SkinModel, DecodeErrorModel> {
    |e: JsonValue| spec_skin_from_json(e)
}

/// Decodes one skin object.
pub fn skin_from_json(v: &JsonValue) -> (r: Result<Skin, DecodeError>)
    ensures
        match r {
            Ok(s) => spec_skin_from_json(*v) == Ok::<SkinModel, DecodeErrorModel>(s@),
            Err(e) => spec_skin_from_json(*v) == Err::<SkinModel, DecodeErrorModel>(e@),
        },
{
    let fields = match v {
        JsonValue::Object(fields) => fields,
        _ => {
            return Err(DecodeError::NotAnObject);
        },
    };
    let id = match u64_entry(fields, "id") {
        Ok(x) => x,
        Err(e) => {
            return Err(e);
        },
    };
    let is_base = match bool_entry(fields, "isBase") {
        Ok(x) => x,
        Err(e) => {
            return Err(e);
        },
    };
    let name = match text_entry(fields, "name") {
        Ok(x) => x,
        Err(e) => {
            return Err(e);
        },
    };
    let splash_raw = match text_entry(fields, "splashPath") {
        Ok(x) => x,
        Err(e) => {
            return Err(e);
        },
    };
    let uncentered_raw = match text_entry(fields, "uncenteredSplashPath") {
        Ok(x) => x,
        Err(e) => {
            return Err(e);
        },
    };
    let tile_raw = match text_entry(fields, "tilePath") {
        Ok(x) => x,
        Err(e) => {
            return Err(e);
        },
    };
    let load_screen_raw = match text_entry(fields, "loadScreenPath") {
        Ok(x) => x,
        Err(e) => {
            return Err(e);
        },
    };
    let skin_type_raw = match text_entry(fields, "skinType") {
        Ok(x) => x,
        Err(e) => {
            return Err(e);
        },
    };
    let skin_type = SkinType::from_wire(skin_type_raw.as_str());
    let rarity_raw = match text_entry(fields, "rarity") {
        Ok(x) => x,
        Err(e) => {
            return Err(e);
        },
    };
    let rarity = match Rarity::from_wire(rarity_raw.as_str()) {
        Some(r) => r,
        None => {
            return Err(DecodeError::WrongType(String::from_str("rarity")));
        },
    };
    let is_legacy = match bool_entry(fields, "isLegacy") {
        Ok(x) => x,
        Err(e) => {
            return Err(e);
        },
    };
    let skin_lines = match lookup(fields, "skinLines") {
        None => Vec::new(),
        Some(x) => match skin_lines_from_json(x) {
            Ok(ids) => ids,
            Err(e) => {
                return Err(e);
            },
        },
    };
    let description = match opt_text_entry(fields, "description") {
        Ok(x) => x,
        Err(e) => {
            return Err(e);
        },
    };
    Ok(
        Skin {
            id,
            is_base,
            name,
            splash_path: normalize(splash_raw.as_str()),
            uncentered_splash_path: normalize(uncentered_raw.as_str()),
            tile_path: normalize(tile_raw.as_str()),
            load_screen_path: normalize(load_screen_raw.as_str()),
            skin_type,
            rarity,
            is_legacy,
            skin_lines,
            description,
        },
    )
}

/// Decodes a whole array of skins, stopping at the first bad element.
fn decode_skin_items(items: &Vec<JsonValue>) -> (r: Result<Vec<Skin>, DecodeError>)
    ensures
        match r {
            Ok(ss) => spec_decode_seq(items@, spec_skin_fn()) == Ok::<
                Seq<SkinModel>,
                DecodeErrorModel,
            >(spec_skin_views(ss@)),
            Err(e) => spec_decode_seq(items@, spec_skin_fn()) == Err::<
                Seq<SkinModel>,
                DecodeErrorModel,
            >(e@),
        },
{
    let n = items.len();
    let mut out: Vec<Skin> = Vec::new();
    let mut i: usize = 0;
    while i < n
        invariant
            0 <= i <= n,
            n == items@.len(),
            out@.len() == i,
            forall|j: int|
                0 <= j < i ==> (#[trigger] spec_skin_from_json(items@[j])) == Ok::<
                    SkinModel,
                    DecodeErrorModel,
                >(out@[j]@),
        decreases n - i,
    {
        match skin_from_json(&items[i]) {
            Ok(s) => {
                out.push(s);
            },
            Err(e) => {
                proof {
                    lemma_decode_seq_prefix(items@, spec_skin_fn(), i as int);
                    assert(items@.skip(i as int)[0] == items@[i as int]);
                }
                return Err(e);
            },
        }
        i += 1;
    }
    proof {
        lemma_decode_seq_prefix(items@, spec_skin_fn(), n as int);
        assert(items@.skip(n as int) =~= Seq::<JsonValue>::empty());
        assert(Seq::new(n as nat, |j: int| spec_skin_fn()(items@[j])->Ok_0) + Seq::<
            SkinModel,
        >::empty() =~= spec_skin_views(out@));
    }
    Ok(out)
}

/// One element of a `roles` array: a string.
pub open spec fn spec_role_of(v: JsonValue) -> Result<Seq<char>, DecodeErrorModel> {
    match v {
        JsonValue::Text(s) => Ok(s@),
        _ => Err(DecodeErrorModel::WrongType("roles"@)),
    }
}

/// `spec_role_of` as a function value.
pub open spec fn spec_role_fn() -> spec_fn(JsonValue) -> Result<Seq<char>, DecodeErrorModel> {
    |e: JsonValue| spec_role_of(e)
}

fn role_of(v: &JsonValue) -> (r: Result<String, DecodeError>)
    ensures
        match r {
            Ok(s) => spec_role_of(*v) == Ok::<Seq<char>, DecodeErrorModel>(s@),
            Err(e) => spec_role_of(*v) == Err::<Seq<char>, DecodeErrorModel>(e@),
        },
{
    match v {
        JsonValue::Text(s) => Ok(s.clone()),
        _ => Err(DecodeError::WrongType(String::from_str("roles"))),
    }
}

/// Decodes a whole array of role tags, stopping at the first bad element.
fn decode_role_items(items: &Vec<JsonValue>) -> (r: Result<Vec<String>, DecodeError>)
    ensures
        match r {
            Ok(rs) => spec_decode_seq(items@, spec_role_fn()) == Ok::<
                Seq<Seq<char>>,
                DecodeErrorModel,
            >(spec_string_views(rs@)),
            Err(e) => spec_decode_seq(items@, spec_role_fn()) == Err::<
                Seq<Seq<char>>,
                DecodeErrorModel,
            >(e@),
        },
{
    let n = items.len();
    let mut out: Vec<String> = Vec::new();
    let mut i: usize = 0;
    while i < n
        invariant
            0 <= i <= n,
            n == items@.len(),
            out@.len() == i,
            forall|j: int|
                0 <= j < i ==> (#[trigger] spec_role_of(items@[j])) == Ok::<
                    Seq<char>,
                    DecodeErrorModel,
                >(out@[j]@),
        decreases n - i,
    {
        match role_of(&items[i]) {
            Ok(s) => {
                out.push(s);
            },
            Err(e) => {
                proof {
                    lemma_decode_seq_prefix(items@, spec_role_fn(), i as int);
                    assert(items@.skip(i as int)[0] == items@[i as int]);
                }
                return Err(e);
            },
        }
        i += 1;
    }
    proof {
        lemma_decode_seq_prefix(items@, spec_role_fn(), n as int);
        assert(items@.skip(n as int) =~= Seq::<JsonValue>::empty());
        assert(Seq::new(n as nat, |j: int| spec_role_fn()(items@[j])->Ok_0) + Seq::<
            Seq<char>,
        >::empty() =~= spec_string_views(out@));
    }
    Ok(out)
}

/// The `tacticalInfo` object of a champion.
pub open spec fn spec_tactical_from_fields(tf: Seq<(String, JsonValue)>) -> Result<
    TacticalInfoModel,
    DecodeErrorModel,
> {
    if spec_u64_entry(tf, "style"@) is Err {
        Err(spec_u64_entry(tf, "style"@)->Err_0)
    } else if spec_u64_entry(tf, "difficulty"@) is Err {
        Err(spec_u64_entry(tf, "difficulty"@)->Err_0)
    } else if spec_text_entry(tf, "damageType"@) is Err {
        Err(spec_text_entry(tf, "damageType"@)->Err_0)
    } else {
        Ok(
            TacticalInfoModel {
                style: spec_u64_entry(tf, "style"@)->Ok_0,
                difficulty: spec_u64_entry(tf, "difficulty"@)->Ok_0,
                damage_type: (spec_text_entry(tf, "damageType"@)->Ok_0)@,
            },
        )
    }
}

/// The `tacticalInfo` field: a required object.
pub open spec fn spec_tactical_entry(f: Seq<(String, JsonValue)>) -> Result<
    TacticalInfoModel,
    DecodeErrorModel,
> {
    match spec_lookup(f, "tacticalInfo"@) {
        Some(JsonValue::Object(tf)) => spec_tactical_from_fields(tf@),
        Some(_) => Err(DecodeErrorModel::WrongType("tacticalInfo"@)),
        None => Err(DecodeErrorModel::MissingField("tacticalInfo"@)),
    }
}

/// The `playstyleInfo` object of a champion.
pub open spec fn spec_playstyle_from_fields(pf: Seq<(String, JsonValue)>) -> Result<
    PlaystyleInfo,
    DecodeErrorModel,
> {
    if spec_u64_entry(pf, "damage"@) is Err {
        Err(spec_u64_entry(pf, "damage"@)->Err_0)
    } else if spec_u64_entry(pf, "durability"@) is Err {
        Err(spec_u64_entry(pf, "durability"@)->Err_0)
    } else if spec_u64_entry(pf, "crowdControl"@) is Err {
        Err(spec_u64_entry(pf, "crowdControl"@)->Err_0)
    } else if spec_u64_entry(pf, "mobility"@) is Err {
        Err(spec_u64_entry(pf, "mobility"@)->Err_0)
    } else if spec_u64_entry(pf, "utility"@) is Err {
        Err(spec_u64_entry(pf, "utility"@)->Err_0)
    } else {
        Ok(
            PlaystyleInfo {
                damage: spec_u64_entry(pf, "damage"@)->Ok_0,
                durability: spec_u64_entry(pf, "durability"@)->Ok_0,
                crowd_control: spec_u64_entry(pf, "crowdControl"@)->Ok_0,
                mobility: spec_u64_entry(pf, "mobility"@)->Ok_0,
                utility: spec_u64_entry(pf, "utility"@)->Ok_0,
            },
        )
    }
}

/// The `playstyleInfo` field: a required object.
pub open spec fn spec_playstyle_entry(f: Seq<(String, JsonValue)>) -> Result<
    PlaystyleInfo,
    DecodeErrorModel,
> {
    match spec_lookup(f, "playstyleInfo"@) {
        Some(JsonValue::Object(pf)) => spec_playstyle_from_fields(pf@),
        Some(_) => Err(DecodeErrorModel::WrongType("playstyleInfo"@)),
        None => Err(DecodeErrorModel::MissingField("playstyleInfo"@)),
    }
}

/// The `roles` field: a required array of strings, order kept.
pub open spec fn spec_roles_entry(f: Seq<(String, JsonValue)>) -> Result<
    Seq<Seq<char>>,
    DecodeErrorModel,
> {
    match spec_lookup(f, "roles"@) {
        Some(JsonValue::Array(items)) => spec_decode_seq(items@, spec_role_fn()),
        Some(_) => Err(DecodeErrorModel::WrongType("roles"@)),
        None => Err(DecodeErrorModel::MissingField("roles"@)),
    }
}

/// The `skins` field: a required array of skin objects, order kept.
pub open spec fn spec_skins_entry(f: Seq<(String, JsonValue)>) -> Result<
    Seq<SkinModel>,
    DecodeErrorModel,
> {
    match spec_lookup(f, "skins"@) {
        Some(JsonValue::Array(items)) => spec_decode_seq(items@, spec_skin_fn()),
        Some(_) => Err(DecodeErrorModel::WrongType("skins"@)),
        None => Err(DecodeErrorModel::MissingField("skins"@)),
    }
}

/// A whole champion object, field by field, in the order the fields are
/// checked; the first failing field is the error of the whole.
pub open spec fn spec_champion_from_fields(f: Seq<(String, JsonValue)>) -> Result<
    ChampionModel,
    DecodeErrorModel,
> {
    if spec_u64_entry(f, "id"@) is Err {
        Err(spec_u64_entry(f, "id"@)->Err_0)
    } else if spec_text_entry(f, "name"@) is Err {
        Err(spec_text_entry(f, "name"@)->Err_0)
    } else if spec_text_entry(f, "alias"@) is Err {
        Err(spec_text_entry(f, "alias"@)->Err_0)
    } else if spec_text_entry(f, "title"@) is Err {
        Err(spec_text_entry(f, "title"@)->Err_0)
    } else if spec_text_entry(f, "shortBio"@) is Err {
        Err(spec_text_entry(f, "shortBio"@)->Err_0)
    } else if spec_tactical_entry(f) is Err {
        Err(spec_tactical_entry(f)->Err_0)
    } else if spec_playstyle_entry(f) is Err {
        Err(spec_playstyle_entry(f)->Err_0)
    } else if spec_path_entry(f, "squarePortraitPath"@) is Err {
        Err(spec_path_entry(f, "squarePortraitPath"@)->Err_0)
    } else if spec_roles_entry(f) is Err {
        Err(spec_roles_entry(f)->Err_0)
    } else if spec_skins_entry(f) is Err {
        Err(spec_skins_entry(f)->Err_0)
    } else {
        Ok(
            ChampionModel {
                id: spec_u64_entry(f, "id"@)->Ok_0,
                name: (spec_text_entry(f, "name"@)->Ok_0)@,
                alias: (spec_text_entry(f, "alias"@)->Ok_0)@,
                title: (spec_text_entry(f, "title"@)->Ok_0)@,
                short_bio: (spec_text_entry(f, "shortBio"@)->Ok_0)@,
                tactical_info: spec_tactical_entry(f)->Ok_0,
                playstyle_info: spec_playstyle_entry(f)->Ok_0,
                square_portrait_path: spec_path_entry(f, "squarePortraitPath"@)->Ok_0,
                roles: spec_roles_entry(f)->Ok_0,
                skins: spec_skins_entry(f)->Ok_0,
            },
        )
    }
}

/// A champion value: an object decoded by `spec_champion_from_fields`.
pub open spec fn spec_champion_from_json(v: JsonValue) -> Result<ChampionModel, DecodeErrorModel> {
    match v {
        JsonValue::Object(fields) => spec_champion_from_fields(fields@),
        _ => Err(DecodeErrorModel::NotAnObject),
    }
}

/// `spec_champion_from_json` as a function value.
pub open spec fn spec_champion_fn() -> spec_fn(JsonValue) -> Result<
    ChampionModel,
    DecodeErrorModel,
> {
    |e: JsonValue| spec_champion_from_json(e)
}

/// Decodes one champion object.
pub fn champion_from_json(v: &JsonValue) -> (r: Result<Champion, DecodeError>)
    ensures
        match r {
            Ok(c) => spec_champion_from_json(*v) == Ok::<ChampionModel, DecodeErrorModel>(c@),
            Err(e) => spec_champion_from_json(*v) == Err::<ChampionModel, DecodeErrorModel>(e@),
        },
{
    let fields = match v {
        JsonValue::Object(fields) => fields,
        _ => {
            return Err(DecodeError::NotAnObject);
        },
    };
    let id = match u64_entry(fields, "id") {
        Ok(x) => x,
        Err(e) => {
            return Err(e);
        },
    };
    let name = match text_entry(fields, "name") {
        Ok(x) => x,
        Err(e) => {
            return Err(e);
        },
    };
    let alias = match text_entry(fields, "alias") {
        Ok(x) => x,
        Err(e) => {
            return Err(e);
        },
    };
    let title = match text_entry(fields, "title") {
        Ok(x) => x,
        Err(e) => {
            return Err(e);
        },
    };
    let short_bio = match text_entry(fields, "shortBio") {
        Ok(x) => x,
        Err(e) => {
            return Err(e);
        },
    };
    let tactical_info = match lookup(fields, "tacticalInfo") {
        Some(JsonValue::Object(tf)) => {
            let style = match u64_entry(tf, "style") {
                Ok(x) => x,
                Err(e) => {
                    return Err(e);
                },
            };
            let difficulty = match u64_entry(tf, "difficulty") {
                Ok(x) => x,
                Err(e) => {
                    return Err(e);
                },
            };
            let damage_type = match text_entry(tf, "damageType") {
                Ok(x) => x,
                Err(e) => {
                    return Err(e);
                },
            };
            TacticalInfo { style, difficulty, damage_type }
        },
        Some(_) => {
            return Err(DecodeError::WrongType(String::from_str("tacticalInfo")));
        },
        None => {
            return Err(DecodeError::MissingField(String::from_str("tacticalInfo")));
        },
    };
    let playstyle_info = match lookup(fields, "playstyleInfo") {
        Some(JsonValue::Object(pf)) => {
            let damage = match u64_entry(pf, "damage") {
                Ok(x) => x,
                Err(e) => {
                    return Err(e);
                },
            };
            let durability = match u64_entry(pf, "durability") {
                Ok(x) => x,
                Err(e) => {
                    return Err(e);
                },
            };
            let crowd_control = match u64_entry(pf, "crowdControl") {
                Ok(x) => x,
                Err(e) => {
                    return Err(e);
                },
            };
            let mobility = match u64_entry(pf, "mobility") {
                Ok(x) => x,
                Err(e) => {
                    return Err(e);
                },
            };
            let utility = match u64_entry(pf, "utility") {
                Ok(x) => x,
                Err(e) => {
                    return Err(e);
                },
            };
            PlaystyleInfo { damage, durability, crowd_control, mobility, utility }
        },
        Some(_) => {
            return Err(DecodeError::WrongType(String::from_str("playstyleInfo")));
        },
        None => {
            return Err(DecodeError::MissingField(String::from_str("playstyleInfo")));
        },
    };
    let portrait_raw = match text_entry(fields, "squarePortraitPath") {
        Ok(x) => x,
        Err(e) => {
            return Err(e);
        },
    };
    let roles = match lookup(fields, "roles") {
        Some(JsonValue::Array(items)) => match decode_role_items(items) {
            Ok(x) => x,
            Err(e) => {
                return Err(e);
            },
        },
        Some(_) => {
            return Err(DecodeError::WrongType(String::from_str("roles")));
        },
        None => {
            return Err(DecodeError::MissingField(String::from_str("roles")));
        },
    };
    let skins = match lookup(fields, "skins") {
        Some(JsonValue::Array(items)) => match decode_skin_items(items) {
            Ok(x) => x,
            Err(e) => {
                return Err(e);
            },
        },
        Some(_) => {
            return Err(DecodeError::WrongType(String::from_str("skins")));
        },
        None => {
            return Err(DecodeError::MissingField(String::from_str("skins")));
        },
    };
    Ok(
        Champion {
            id,
            name,
            alias,
            title,
            short_bio,
            tactical_info,
            playstyle_info,
            square_portrait_path: normalize(portrait_raw.as_str()),
            roles,
            skins,
        },
    )
}

/// The `type` field of a plugin entry.
pub open spec fn spec_plugin_ty_entry(f: Seq<(String, JsonValue)>) -> Result<
    PluginType,
    DecodeErrorModel,
> {
    match spec_text_entry(f, "type"@) {
        Ok(s) => match spec_plugin_type_from_wire(s@) {
            Some(t) => Ok(t),
            None => Err(DecodeErrorModel::WrongType("type"@)),
        },
        Err(e) => Err(e),
    }
}

/// The `mtime` field of a plugin entry: a timestamp text.
pub open spec fn spec_mtime_entry(f: Seq<(String, JsonValue)>) -> Result<i64, DecodeErrorModel> {
    match spec_text_entry(f, "mtime"@) {
        Ok(s) => match spec_parse_mtime(s@) {
            Some(t) => Ok(t),
            None => Err(DecodeErrorModel::WrongType("mtime"@)),
        },
        Err(e) => Err(e),
    }
}

/// A whole plugin entry. This one is stated over plugin values, not models:
/// a plugin holds no collection, so the decoded value is pinned exactly.
pub open spec fn spec_plugin_from_fields(f: Seq<(String, JsonValue)>) -> Result<
    Plugin,
    DecodeErrorModel,
> {
    if spec_text_entry(f, "name"@) is Err {
        Err(spec_text_entry(f, "name"@)->Err_0)
    } else if spec_plugin_ty_entry(f) is Err {
        Err(spec_plugin_ty_entry(f)->Err_0)
    } else if spec_mtime_entry(f) is Err {
        Err(spec_mtime_entry(f)->Err_0)
    } else if spec_opt_i32_entry(f, "size"@) is Err {
        Err(spec_opt_i32_entry(f, "size"@)->Err_0)
    } else {
        Ok(
            Plugin {
                name: spec_plugin_name_of(spec_text_entry(f, "name"@)->Ok_0),
                ty: spec_plugin_ty_entry(f)->Ok_0,
                mtime: spec_mtime_entry(f)->Ok_0,
                size: spec_opt_i32_entry(f, "size"@)->Ok_0,
            },
        )
    }
}

/// A plugin value: an object decoded by `spec_plugin_from_fields`.
pub open spec fn spec_plugin_from_json(v: JsonValue) -> Result<Plugin, DecodeErrorModel> {
    match v {
        JsonValue::Object(fields) => spec_plugin_from_fields(fields@),
        _ => Err(DecodeErrorModel::NotAnObject),
    }
}

/// `spec_plugin_from_json` as a function value.
pub open spec fn spec_plugin_fn() -> spec_fn(JsonValue) -> Result<Plugin, DecodeErrorModel> {
    |e: JsonValue| spec_plugin_from_json(e)
}

/// Every plugin entry the decoder accepts is well-formed: a decoded size is
/// non-negative, so an accepted list can always be re-encoded for the cache.
pub proof fn lemma_decoded_plugin_wf(v: JsonValue)
    requires
        spec_plugin_from_json(v) is Ok,
    ensures
        (spec_plugin_from_json(v)->Ok_0).wf(),
{
}

/// Decodes one plugin entry.
pub fn plugin_from_json(v: &JsonValue) -> (r: Result<Plugin, DecodeError>)
    ensures
        match r {
            Ok(p) => spec_plugin_from_json(*v) == Ok::<Plugin, DecodeErrorModel>(p),
            Err(e) => spec_plugin_from_json(*v) == Err::<Plugin, DecodeErrorModel>(e@),
        },
{
    let fields = match v {
        JsonValue::Object(fields) => fields,
        _ => {
            return Err(DecodeError::NotAnObject);
        },
    };
    let name_raw = match text_entry(fields, "name") {
        Ok(x) => x,
        Err(e) => {
            return Err(e);
        },
    };
    let ty_raw = match text_entry(fields, "type") {
        Ok(x) => x,
        Err(e) => {
            return Err(e);
        },
    };
    let ty = match PluginType::from_wire(ty_raw.as_str()) {
        Some(t) => t,
        None => {
            return Err(DecodeError::WrongType(String::from_str("type")));
        },
    };
    let mtime_raw = match text_entry(fields, "mtime") {
        Ok(x) => x,
        Err(e) => {
            return Err(e);
        },
    };
    let mtime = match parse_mtime(mtime_raw.as_str()) {
        Some(t) => t,
        None => {
            return Err(DecodeError::WrongType(String::from_str("mtime")));
        },
    };
    let size = match opt_i32_entry(fields, "size") {
        Ok(x) => x,
        Err(e) => {
            return Err(e);
        },
    };
    Ok(Plugin { name: PluginName::of_wire(name_raw), ty, mtime, size })
}

/// Decodes a whole array of plugin entries, stopping at the first bad one.
fn decode_plugin_items(items: &Vec<JsonValue>) -> (r: Result<Vec<Plugin>, DecodeError>)
    ensures
        match r {
            Ok(ps) => spec_decode_seq(items@, spec_plugin_fn()) == Ok::<
                Seq<Plugin>,
                DecodeErrorModel,
            >(ps@),
            Err(e) => spec_decode_seq(items@, spec_plugin_fn()) == Err::<
                Seq<Plugin>,
                DecodeErrorModel,
            >(e@),
        },
{
    let n = items.len();
    let mut out: Vec<Plugin> = Vec::new();
    let mut i: usize = 0;
    while i < n
        invariant
            0 <= i <= n,
            n == items@.len(),
            out@.len() == i,
            forall|j: int|
                0 <= j < i ==> (#[trigger] spec_plugin_from_json(items@[j])) == Ok::<
                    Plugin,
                    DecodeErrorModel,
                >(out@[j]),
        decreases n - i,
    {
        match plugin_from_json(&items[i]) {
            Ok(p) => {
                out.push(p);
            },
            Err(e) => {
                proof {
                    lemma_decode_seq_prefix(items@, spec_plugin_fn(), i as int);
                    assert(items@.skip(i as int)[0] == items@[i as int]);
                }
                return Err(e);
            },
        }
        i += 1;
    }
    proof {
        lemma_decode_seq_prefix(items@, spec_plugin_fn(), n as int);
        assert(items@.skip(n as int) =~= Seq::<JsonValue>::empty());
        assert(Seq::new(n as nat, |j: int| spec_plugin_fn()(items@[j])->Ok_0) + Seq::<
            Plugin,
        >::empty() =~= out@);
    }
    Ok(out)
}

/// Decodes a whole array of champion objects, stopping at the first bad one.
fn decode_champion_items(items: &Vec<JsonValue>) -> (r: Result<Vec<Champion>, DecodeError>)
    ensures
        match r {
            Ok(cs) => spec_decode_seq(items@, spec_champion_fn()) == Ok::<
                Seq<ChampionModel>,
                DecodeErrorModel,
            >(spec_champion_views(cs@)),
            Err(e) => spec_decode_seq(items@, spec_champion_fn()) == Err::<
                Seq<ChampionModel>,
                DecodeErrorModel,
            >(e@),
        },
{
    let n = items.len();
    let mut out: Vec<Champion> = Vec::new();
    let mut i: usize = 0;
    while i < n
        invariant
            0 <= i <= n,
            n == items@.len(),
            out@.len() == i,
            forall|j: int|
                0 <= j < i ==> (#[trigger] spec_champion_from_json(items@[j])) == Ok::<
                    ChampionModel,
                    DecodeErrorModel,
                >(out@[j]@),
        decreases n - i,
    {
        match champion_from_json(&items[i]) {
            Ok(c) => {
                out.push(c);
            },
            Err(e) => {
                proof {
                    lemma_decode_seq_prefix(items@, spec_champion_fn(), i as int);
                    assert(items@.skip(i as int)[0] == items@[i as int]);
                }
                return Err(e);
            },
        }
        i += 1;
    }
    proof {
        lemma_decode_seq_prefix(items@, spec_champion_fn(), n as int);
        assert(items@.skip(n as int) =~= Seq::<JsonValue>::empty());
        assert(Seq::new(n as nat, |j: int| spec_champion_fn()(items@[j])->Ok_0) + Seq::<
            ChampionModel,
        >::empty() =~= spec_champion_views(out@));
    }
    Ok(out)
}

/// A plugin-manifest value: a JSON array of plugin entries.
pub open spec fn spec_plugin_list_value(v: JsonValue) -> Result<Seq<Plugin>, DecodeErrorModel> {
    match v {
        JsonValue::Array(items) => spec_decode_seq(items@, spec_plugin_fn()),
        _ => Err(DecodeErrorModel::NotAnArray),
    }
}

/// A champion-list value: a JSON array of champion objects.
pub open spec fn spec_champion_list_value(v: JsonValue) -> Result<
    Seq<ChampionModel>,
    DecodeErrorModel,
> {
    match v {
        JsonValue::Array(items) => spec_decode_seq(items@, spec_champion_fn()),
        _ => Err(DecodeErrorModel::NotAnArray),
    }
}

/// A champion-summary value: a JSON array whose first element is a sentinel
/// and is skipped unconditionally; every later element must carry a `u64`
/// `id`.
pub open spec fn spec_summary_value(v: JsonValue) -> Result<Seq<u64>, DecodeErrorModel> {
    match v {
        JsonValue::Array(items) => if items@.len() == 0 {
            Ok(Seq::empty())
        } else {
            spec_decode_seq(items@.skip(1), spec_id_fn())
        },
        _ => Err(DecodeErrorModel::NotAnArray),
    }
}

/// What a whole payload text decodes to, given what it parses to: text that
/// is not JSON is a syntax error.
pub open spec fn spec_plugins_payload(o: Option<JsonValue>) -> Result<
    Seq<Plugin>,
    DecodeErrorModel,
> {
    match o {
        None => Err(DecodeErrorModel::Syntax),
        Some(v) => spec_plugin_list_value(v),
    }
}

/// As `spec_plugins_payload`, for a champion list.
pub open spec fn spec_champions_payload(o: Option<JsonValue>) -> Result<
    Seq<ChampionModel>,
    DecodeErrorModel,
> {
    match o {
        None => Err(DecodeErrorModel::Syntax),
        Some(v) => spec_champion_list_value(v),
    }
}

/// As `spec_plugins_payload`, for one champion.
pub open spec fn spec_champion_payload(o: Option<JsonValue>) -> Result<
    ChampionModel,
    DecodeErrorModel,
> {
    match o {
        None => Err(DecodeErrorModel::Syntax),
        Some(v) => spec_champion_from_json(v),
    }
}

/// As `spec_plugins_payload`, for the champion summary.
pub open spec fn spec_summary_payload(o: Option<JsonValue>) -> Result<Seq<u64>, DecodeErrorModel> {
    match o {
        None => Err(DecodeErrorModel::Syntax),
        Some(v) => spec_summary_value(v),
    }
}

/// Decodes a plugin-manifest payload.
pub fn decode_plugins(text: &str) -> (r: Result<Vec<Plugin>, DecodeError>)
    ensures
        match r {
            Ok(ps) => spec_plugins_payload(spec_parse_json(text@)) == Ok::<
                Seq<Plugin>,
                DecodeErrorModel,
            >(ps@),
            Err(e) => spec_plugins_payload(spec_parse_json(text@)) == Err::<
                Seq<Plugin>,
                DecodeErrorModel,
            >(e@),
        },
{
    match parse_json(text) {
        None => Err(DecodeError::Syntax),
        Some(JsonValue::Array(items)) => decode_plugin_items(&items),
        Some(_) => Err(DecodeError::NotAnArray),
    }
}

/// Decodes a champion-list payload (the shape of the champions cache file).
pub fn decode_champions(text: &str) -> (r: Result<Vec<Champion>, DecodeError>)
    ensures
        match r {
            Ok(cs) => spec_champions_payload(spec_parse_json(text@)) == Ok::<
                Seq<ChampionModel>,
                DecodeErrorModel,
            >(spec_champion_views(cs@)),
            Err(e) => spec_champions_payload(spec_parse_json(text@)) == Err::<
                Seq<ChampionModel>,
                DecodeErrorModel,
            >(e@),
        },
{
    match parse_json(text) {
        None => Err(DecodeError::Syntax),
        Some(JsonValue::Array(items)) => decode_champion_items(&items),
        Some(_) => Err(DecodeError::NotAnArray),
    }
}

/// Decodes a single-champion payload.
pub fn decode_champion(text: &str) -> (r: Result<Champion, DecodeError>)
    ensures
        match r {
            Ok(c) => spec_champion_payload(spec_parse_json(text@)) == Ok::<
                ChampionModel,
                DecodeErrorModel,
            >(c@),
            Err(e) => spec_champion_payload(spec_parse_json(text@)) == Err::<
                ChampionModel,
                DecodeErrorModel,
            >(e@),
        },
{
    match parse_json(text) {
        None => Err(DecodeError::Syntax),
        Some(v) => champion_from_json(&v),
    }
}

/// Decodes a champion-summary payload into the champion ids, skipping the
/// summary's sentinel first element unconditionally.
pub fn decode_champion_ids(text: &str) -> (r: Result<Vec<u64>, DecodeError>)
    ensures
        match r {
            Ok(ids) => spec_summary_payload(spec_parse_json(text@)) == Ok::<
                Seq<u64>,
                DecodeErrorModel,
            >(ids@),
            Err(e) => spec_summary_payload(spec_parse_json(text@)) == Err::<
                Seq<u64>,
                DecodeErrorModel,
            >(e@),
        },
{
    match parse_json(text) {
        None => Err(DecodeError::Syntax),
        Some(JsonValue::Array(items)) => {
            if items.len() == 0 {
                Ok(Vec::new())
            } else {
                decode_id_items(&items, 1)
            }
        },
        Some(_) => Err(DecodeError::NotAnArray),
    }
}

/// Whenever an array decodes whole, the result has one element per input
/// element.
pub proof fn lemma_decode_seq_len<T>(
    items: Seq<JsonValue>,
    f: spec_fn(JsonValue) -> Result<T, DecodeErrorModel>,
)
    requires
        spec_decode_seq(items, f) is Ok,
    ensures
        (spec_decode_seq(items, f)->Ok_0).len() == items.len(),
    decreases items.len(),
{
    if items.len() > 0 {
        lemma_decode_seq_len(items.skip(1), f);
    }
}

/// Decoding a champion-summary array of N elements, N at least 1, yields
/// exactly N−1 ids: the sentinel is skipped, and nothing else is.
pub proof fn lemma_summary_count(v: JsonValue)
    requires
        v matches JsonValue::Array(items) && items@.len() >= 1,
        spec_summary_value(v) is Ok,
    ensures
        (spec_summary_value(v)->Ok_0).len() == (v->Array_0)@.len() - 1,
{
    let items = v->Array_0;
    lemma_decode_seq_len(items@.skip(1), spec_id_fn());
}

/// A skin model with its four paths re-normalized: what decoding an encoded
/// skin yields.
pub open spec fn spec_renorm_skin(m: SkinModel) -> SkinModel {
    SkinModel {
        splash_path: spec_normalize(m.splash_path),
        uncentered_splash_path: spec_normalize(m.uncentered_splash_path),
        tile_path: spec_normalize(m.tile_path),
        load_screen_path: spec_normalize(m.load_screen_path),
        ..m
    }
}

/// `spec_renorm_skin` over a whole sequence.
pub open spec fn spec_renorm_skins(ms: Seq<SkinModel>) -> Seq<SkinModel> {
    ms.map_values(|m: SkinModel| spec_renorm_skin(m))
}

/// A champion model with every path re-normalized.
pub open spec fn spec_renorm_champion(m: ChampionModel) -> ChampionModel {
    ChampionModel {
        square_portrait_path: spec_normalize(m.square_portrait_path),
        skins: spec_renorm_skins(m.skins),
        ..m
    }
}

/// `spec_renorm_champion` over a whole sequence.
pub open spec fn spec_renorm_champions(ms: Seq<ChampionModel>) -> Seq<ChampionModel> {
    ms.map_values(|m: ChampionModel| spec_renorm_champion(m))
}

/// Re-normalizing changes nothing on a skin whose paths are already normal.
pub proof fn lemma_renorm_skin_id(m: SkinModel)
    requires
        m.wf(),
    ensures
        spec_renorm_skin(m) == m,
{
    assert(spec_renorm_skin(m) =~= m);
}

/// Re-normalizing changes nothing on a champion whose paths are already
/// normal.
pub proof fn lemma_renorm_champion_id(m: ChampionModel)
    requires
        m.wf(),
    ensures
        spec_renorm_champion(m) == m,
{
    assert forall|i: int| 0 <= i < m.skins.len() implies spec_renorm_skins(m.skins)[i]
        == m.skins[i] by {
        lemma_renorm_skin_id(m.skins[i]);
    }
    assert(spec_renorm_skins(m.skins) =~= m.skins);
    assert(spec_renorm_champion(m) =~= m);
}

/// The champion cache round trip: a champion list whose paths are all in
/// normal form (as every decoded champion's are, short of a degenerate path
/// whose normal form re-exposes the raw remote prefix) decodes back from its
/// own encoding unchanged.
pub proof fn lemma_champion_cache_round_trip(cs: Seq<Champion>)
    requires
        forall|i: int| 0 <= i < cs.len() ==> (#[trigger] cs[i]).wf(),
    ensures
        spec_renorm_champions(spec_champion_views(cs)) == spec_champion_views(cs),
{
    assert forall|i: int| 0 <= i < cs.len() implies spec_renorm_champions(
        spec_champion_views(cs),
    )[i] == spec_champion_views(cs)[i] by {
        lemma_renorm_champion_id(cs[i]@);
    }
    assert(spec_renorm_champions(spec_champion_views(cs)) =~= spec_champion_views(cs));
}

/// A plugin name decoded from any wire text spells back to that same text.
pub proof fn lemma_plugin_name_wire_of(s: String)
    ensures
        spec_plugin_name_wire(spec_plugin_name_of(s)) == s@,
{
}

/// Encodes a skin-line id list as the remote shape: an array of objects each
/// carrying the id.
fn skin_lines_to_json(ids: &Vec<u64>) -> (r: JsonValue)
    ensures
        spec_skin_lines_value(r) == Ok::<Seq<u64>, DecodeErrorModel>(ids@),
{
    let n = ids.len();
    let mut items: Vec<JsonValue> = Vec::new();
    let mut i: usize = 0;
    while i < n
        invariant
            0 <= i <= n,
            n == ids@.len(),
            items@.len() == i,
            forall|j: int|
                0 <= j < i ==> (#[trigger] spec_id_of(items@[j])) == Ok::<u64, DecodeErrorModel>(
                    ids@[j],
                ),
        decreases n - i,
    {
        let mut g: Vec<(String, JsonValue)> = Vec::new();
        g.push((String::from_str("id"), JsonValue::UInt(ids[i])));
        let obj = JsonValue::Object(g);
        proof {
            assert(spec_id_of(obj) == Ok::<u64, DecodeErrorModel>(ids@[i as int]));
        }
        items.push(obj);
        i += 1;
    }
    proof {
        lemma_decode_seq_prefix(items@, spec_id_fn(), n as int);
        assert(items@.skip(n as int) =~= Seq::<JsonValue>::empty());
        assert(Seq::new(n as nat, |j: int| spec_id_fn()(items@[j])->Ok_0) + Seq::<
            u64,
        >::empty() =~= ids@);
    }
    JsonValue::Array(items)
}

/// Encodes one skin as the remote shape. Decoding the result gives the skin
/// back with its paths re-normalized.
pub fn skin_to_json(s: &Skin) -> (r: JsonValue)
    ensures
        spec_skin_from_json(r) == Ok::<SkinModel, DecodeErrorModel>(spec_renorm_skin(s@)),
{
    let mut f: Vec<(String, JsonValue)> = Vec::new();
    f.push((String::from_str("id"), JsonValue::UInt(s.id)));
    f.push((String::from_str("isBase"), JsonValue::Bool(s.is_base)));
    f.push((String::from_str("name"), JsonValue::Text(s.name.clone())));
    f.push((String::from_str("splashPath"), JsonValue::Text(s.splash_path.clone())));
    f.push(
        (String::from_str("uncenteredSplashPath"), JsonValue::Text(
            s.uncentered_splash_path.clone(),
        )),
    );
    f.push((String::from_str("tilePath"), JsonValue::Text(s.tile_path.clone())));
    f.push((String::from_str("loadScreenPath"), JsonValue::Text(s.load_screen_path.clone())));
    f.push((String::from_str("skinType"), JsonValue::Text(s.skin_type.wire_name())));
    f.push((String::from_str("rarity"), JsonValue::Text(s.rarity.wire_name())));
    f.push((String::from_str("isLegacy"), JsonValue::Bool(s.is_legacy)));
    f.push((String::from_str("skinLines"), skin_lines_to_json(&s.skin_lines)));
    f.push(
        (String::from_str("description"), match &s.description {
            Some(d) => JsonValue::Text(d.clone()),
            None => JsonValue::Null,
        }),
    );
    let ghost fs = f@;
    let r = JsonValue::Object(f);
    proof {
        reveal_with_fuel(spec_lookup, 15);
        reveal_strlit("id");
        reveal_strlit("isBase");
        reveal_strlit("name");
        reveal_strlit("splashPath");
        reveal_strlit("uncenteredSplashPath");
        reveal_strlit("tilePath");
        reveal_strlit("loadScreenPath");
        reveal_strlit("skinType");
        reveal_strlit("rarity");
        reveal_strlit("isLegacy");
        reveal_strlit("skinLines");
        reveal_strlit("description");
        assert("id"@.len() == 2);
        assert("isBase"@.len() == 6);
        assert("name"@.len() == 4);
        assert("splashPath"@.len() == 10);
        assert("uncenteredSplashPath"@.len() == 20);
        assert("tilePath"@.len() == 8);
        assert("loadScreenPath"@.len() == 14);
        assert("skinType"@.len() == 8);
        assert("rarity"@.len() == 6);
        assert("isLegacy"@.len() == 8);
        assert("skinLines"@.len() == 9);
        assert("description"@.len() == 11);
        assert("isBase"@[0] != "rarity"@[0]);
        assert("tilePath"@[0] != "skinType"@[0]);
        assert("tilePath"@[0] != "isLegacy"@[0]);
        assert("skinType"@[0] != "isLegacy"@[0]);
        lemma_skin_type_wire_round_trip(s.skin_type);
        lemma_rarity_wire_round_trip(s.rarity);
        assert(spec_u64_entry(fs, "id"@) == Ok::<u64, DecodeErrorModel>(s.id));
        assert(spec_bool_entry(fs, "isBase"@) == Ok::<bool, DecodeErrorModel>(s.is_base));
        assert(spec_text_entry(fs, "name"@) is Ok);
        assert((spec_text_entry(fs, "name"@)->Ok_0)@ == s.name@);
        assert(spec_path_entry(fs, "splashPath"@) == Ok::<Seq<char>, DecodeErrorModel>(
            spec_normalize(s.splash_path@),
        ));
        assert(spec_path_entry(fs, "uncenteredSplashPath"@) == Ok::<Seq<char>, DecodeErrorModel>(
            spec_normalize(s.uncentered_splash_path@),
        ));
        assert(spec_path_entry(fs, "tilePath"@) == Ok::<Seq<char>, DecodeErrorModel>(
            spec_normalize(s.tile_path@),
        ));
        assert(spec_path_entry(fs, "loadScreenPath"@) == Ok::<Seq<char>, DecodeErrorModel>(
            spec_normalize(s.load_screen_path@),
        ));
        assert(spec_skin_type_entry(fs) == Ok::<SkinType, DecodeErrorModel>(s.skin_type));
        assert(spec_rarity_entry(fs) == Ok::<Rarity, DecodeErrorModel>(s.rarity));
        assert(spec_bool_entry(fs, "isLegacy"@) == Ok::<bool, DecodeErrorModel>(s.is_legacy));
        assert(spec_skin_lines_entry(fs) == Ok::<Seq<u64>, DecodeErrorModel>(s.skin_lines@));
        assert(spec_opt_text_entry(fs, "description"@) is Ok);
        assert(spec_skin_from_fields(fs) is Ok);
        assert(spec_skin_from_fields(fs)->Ok_0 =~= spec_renorm_skin(s@));
    }
    r
}

/// Encodes a whole skin list.
fn skins_to_json(skins: &Vec<Skin>) -> (r: JsonValue)
    ensures
        r matches JsonValue::Array(items) && spec_decode_seq(items@, spec_skin_fn()) == Ok::<
            Seq<SkinModel>,
            DecodeErrorModel,
        >(spec_renorm_skins(spec_skin_views(skins@))),
{
    let n = skins.len();
    let mut items: Vec<JsonValue> = Vec::new();
    let mut i: usize = 0;
    while i < n
        invariant
            0 <= i <= n,
            n == skins@.len(),
            items@.len() == i,
            forall|j: int|
                0 <= j < i ==> (#[trigger] spec_skin_from_json(items@[j])) == Ok::<
                    SkinModel,
                    DecodeErrorModel,
                >(spec_renorm_skin(skins@[j]@)),
        decreases n - i,
    {
        let obj = skin_to_json(&skins[i]);
        items.push(obj);
        i += 1;
    }
    proof {
        lemma_decode_seq_prefix(items@, spec_skin_fn(), n as int);
        assert(items@.skip(n as int) =~= Seq::<JsonValue>::empty());
        assert(Seq::new(n as nat, |j: int| spec_skin_fn()(items@[j])->Ok_0) + Seq::<
            SkinModel,
        >::empty() =~= spec_renorm_skins(spec_skin_views(skins@)));
    }
    JsonValue::Array(items)
}

/// Encodes a role list.
fn roles_to_json(roles: &Vec<String>) -> (r: JsonValue)
    ensures
        r matches JsonValue::Array(items) && spec_decode_seq(items@, spec_role_fn()) == Ok::<
            Seq<Seq<char>>,
            DecodeErrorModel,
        >(spec_string_views(roles@)),
{
    let n = roles.len();
    let mut items: Vec<JsonValue> = Vec::new();
    let mut i: usize = 0;
    while i < n
        invariant
            0 <= i <= n,
            n == roles@.len(),
            items@.len() == i,
            forall|j: int|
                0 <= j < i ==> (#[trigger] spec_role_of(items@[j])) == Ok::<
                    Seq<char>,
                    DecodeErrorModel,
                >(roles@[j]@),
        decreases n - i,
    {
        items.push(JsonValue::Text(roles[i].clone()));
        i += 1;
    }
    proof {
        lemma_decode_seq_prefix(items@, spec_role_fn(), n as int);
        assert(items@.skip(n as int) =~= Seq::<JsonValue>::empty());
        assert(Seq::new(n as nat, |j: int| spec_role_fn()(items@[j])->Ok_0) + Seq::<
            Seq<char>,
        >::empty() =~= spec_string_views(roles@));
    }
    JsonValue::Array(items)
}

/// Encodes one champion as the remote shape. Decoding the result gives the
/// champion back with every path re-normalized.
pub fn champion_to_json(c: &Champion) -> (r: JsonValue)
    ensures
        spec_champion_from_json(r) == Ok::<ChampionModel, DecodeErrorModel>(
            spec_renorm_champion(c@),
        ),
{
    let mut tf: Vec<(String, JsonValue)> = Vec::new();
    tf.push((String::from_str("style"), JsonValue::UInt(c.tactical_info.style)));
    tf.push((String::from_str("difficulty"), JsonValue::UInt(c.tactical_info.difficulty)));
    tf.push(
        (String::from_str("damageType"), JsonValue::Text(c.tactical_info.damage_type.clone())),
    );
    let ghost tfs = tf@;
    let mut pf: Vec<(String, JsonValue)> = Vec::new();
    pf.push((String::from_str("damage"), JsonValue::UInt(c.playstyle_info.damage)));
    pf.push((String::from_str("durability"), JsonValue::UInt(c.playstyle_info.durability)));
    pf.push((String::from_str("crowdControl"), JsonValue::UInt(c.playstyle_info.crowd_control)));
    pf.push((String::from_str("mobility"), JsonValue::UInt(c.playstyle_info.mobility)));
    pf.push((String::from_str("utility"), JsonValue::UInt(c.playstyle_info.utility)));
    let ghost pfs = pf@;
    let mut f: Vec<(String, JsonValue)> = Vec::new();
    f.push((String::from_str("id"), JsonValue::UInt(c.id)));
    f.push((String::from_str("name"), JsonValue::Text(c.name.clone())));
    f.push((String::from_str("alias"), JsonValue::Text(c.alias.clone())));
    f.push((String::from_str("title"), JsonValue::Text(c.title.clone())));
    f.push((String::from_str("shortBio"), JsonValue::Text(c.short_bio.clone())));
    f.push((String::from_str("tacticalInfo"), JsonValue::Object(tf)));
    f.push((String::from_str("playstyleInfo"), JsonValue::Object(pf)));
    f.push(
        (String::from_str("squarePortraitPath"), JsonValue::Text(c.square_portrait_path.clone())),
    );
    f.push((String::from_str("roles"), roles_to_json(&c.roles)));
    f.push((String::from_str("skins"), skins_to_json(&c.skins)));
    let ghost fs = f@;
    let r = JsonValue::Object(f);
    proof {
        reveal_with_fuel(spec_lookup, 12);
        reveal_strlit("id");
        reveal_strlit("name");
        reveal_strlit("alias");
        reveal_strlit("title");
        reveal_strlit("shortBio");
        reveal_strlit("tacticalInfo");
        reveal_strlit("playstyleInfo");
        reveal_strlit("squarePortraitPath");
        reveal_strlit("roles");
        reveal_strlit("skins");
        reveal_strlit("style");
        reveal_strlit("difficulty");
        reveal_strlit("damageType");
        reveal_strlit("damage");
        reveal_strlit("durability");
        reveal_strlit("crowdControl");
        reveal_strlit("mobility");
        reveal_strlit("utility");
        assert("id"@.len() == 2);
        assert("name"@.len() == 4);
        assert("alias"@.len() == 5);
        assert("title"@.len() == 5);
        assert("shortBio"@.len() == 8);
        assert("tacticalInfo"@.len() == 12);
        assert("playstyleInfo"@.len() == 13);
        assert("squarePortraitPath"@.len() == 18);
        assert("roles"@.len() == 5);
        assert("skins"@.len() == 5);
        assert("style"@.len() == 5);
        assert("difficulty"@.len() == 10);
        assert("damageType"@.len() == 10);
        assert("damage"@.len() == 6);
        assert("durability"@.len() == 10);
        assert("crowdControl"@.len() == 12);
        assert("mobility"@.len() == 8);
        assert("utility"@.len() == 7);
        assert("alias"@[0] != "title"@[0]);
        assert("alias"@[0] != "roles"@[0]);
        assert("alias"@[0] != "skins"@[0]);
        assert("title"@[0] != "roles"@[0]);
        assert("title"@[0] != "skins"@[0]);
        assert("roles"@[0] != "skins"@[0]);
        assert("alias"@[0] != "style"@[0]);
        assert("title"@[0] != "style"@[0]);
        assert("roles"@[0] != "style"@[0]);
        assert("skins"@[1] != "style"@[1]);
        assert("difficulty"@[1] != "damageType"@[1]);
        assert("difficulty"@[1] != "durability"@[1]);
        assert("damageType"@[1] != "durability"@[1]);
        assert(spec_tactical_from_fields(tfs) == Ok::<TacticalInfoModel, DecodeErrorModel>(
            c.tactical_info@,
        ));
        assert(spec_playstyle_from_fields(pfs) == Ok::<PlaystyleInfo, DecodeErrorModel>(
            c.playstyle_info,
        ));
        assert(spec_u64_entry(fs, "id"@) == Ok::<u64, DecodeErrorModel>(c.id));
        assert(spec_text_entry(fs, "name"@) is Ok);
        assert((spec_text_entry(fs, "name"@)->Ok_0)@ == c.name@);
        assert(spec_text_entry(fs, "alias"@) is Ok);
        assert((spec_text_entry(fs, "alias"@)->Ok_0)@ == c.alias@);
        assert(spec_text_entry(fs, "title"@) is Ok);
        assert((spec_text_entry(fs, "title"@)->Ok_0)@ == c.title@);
        assert(spec_text_entry(fs, "shortBio"@) is Ok);
        assert((spec_text_entry(fs, "shortBio"@)->Ok_0)@ == c.short_bio@);
        assert(spec_tactical_entry(fs) == Ok::<TacticalInfoModel, DecodeErrorModel>(
            c.tactical_info@,
        ));
        assert(spec_playstyle_entry(fs) == Ok::<PlaystyleInfo, DecodeErrorModel>(
            c.playstyle_info,
        ));
        assert(spec_path_entry(fs, "squarePortraitPath"@) == Ok::<Seq<char>, DecodeErrorModel>(
            spec_normalize(c.square_portrait_path@),
        ));
        assert(spec_roles_entry(fs) == Ok::<Seq<Seq<char>>, DecodeErrorModel>(
            spec_string_views(c.roles@),
        ));
        assert(spec_skins_entry(fs) == Ok::<Seq<SkinModel>, DecodeErrorModel>(
            spec_renorm_skins(spec_skin_views(c.skins@)),
        ));
        assert(spec_champion_from_fields(fs) is Ok);
        assert(spec_champion_from_fields(fs)->Ok_0 =~= spec_renorm_champion(c@));
    }
    r
}

/// Encodes one plugin entry. The name and the entry type decode back
/// exactly (the name by its wire spelling); the timestamp decodes back to
/// whatever instant its formatted text parses to, and a timestamp whose text
/// does not parse back makes the whole entry fail to decode.
pub fn plugin_to_json(p: &Plugin) -> (r: JsonValue)
    requires
        p.wf(),
    ensures
        spec_parse_mtime(spec_format_mtime(p.mtime)) matches Some(t2) ==> (spec_plugin_from_json(
            r,
        ) matches Ok(q) && q.mtime == t2 && q.ty == p.ty && q.size == p.size
            && spec_plugin_name_wire(q.name) == spec_plugin_name_wire(p.name)),
        spec_parse_mtime(spec_format_mtime(p.mtime)) is None ==> spec_plugin_from_json(r) == Err::<
            Plugin,
            DecodeErrorModel,
        >(DecodeErrorModel::WrongType("mtime"@)),
{
    let mut f: Vec<(String, JsonValue)> = Vec::new();
    f.push((String::from_str("name"), JsonValue::Text(p.name.wire_name())));
    f.push((String::from_str("type"), JsonValue::Text(p.ty.wire_name())));
    f.push((String::from_str("mtime"), JsonValue::Text(format_mtime(p.mtime))));
    f.push(
        (String::from_str("size"), match p.size {
            Some(z) => JsonValue::UInt(z as u64),
            None => JsonValue::Null,
        }),
    );
    let ghost fs = f@;
    let r = JsonValue::Object(f);
    proof {
        reveal_with_fuel(spec_lookup, 6);
        reveal_strlit("name");
        reveal_strlit("type");
        reveal_strlit("mtime");
        reveal_strlit("size");
        assert("name"@.len() == 4);
        assert("type"@.len() == 4);
        assert("mtime"@.len() == 5);
        assert("size"@.len() == 4);
        assert("name"@[0] != "type"@[0]);
        assert("name"@[0] != "size"@[0]);
        assert("type"@[0] != "size"@[0]);
        lemma_plugin_type_wire_round_trip(p.ty);
        assert(spec_text_entry(fs, "name"@) is Ok);
        let name2 = spec_plugin_name_of(spec_text_entry(fs, "name"@)->Ok_0);
        lemma_plugin_name_wire_of(spec_text_entry(fs, "name"@)->Ok_0);
        assert(spec_plugin_name_wire(name2) == spec_plugin_name_wire(p.name));
        assert(spec_plugin_ty_entry(fs) == Ok::<PluginType, DecodeErrorModel>(p.ty));
        assert(spec_text_entry(fs, "mtime"@) is Ok);
        assert((spec_text_entry(fs, "mtime"@)->Ok_0)@ == spec_format_mtime(p.mtime));
        assert(spec_opt_i32_entry(fs, "size"@) == Ok::<Option<i32>, DecodeErrorModel>(p.size));
    }
    r
}

/// Encodes a whole plugin list as the manifest shape. Provided every entry's
/// timestamp survives its own text round trip, the list decodes back with
/// every entry's name (by wire spelling), type, size and instant preserved.
pub fn plugins_to_json(ps: &Vec<Plugin>) -> (r: JsonValue)
    requires
        forall|i: int| 0 <= i < ps@.len() ==> (#[trigger] ps@[i]).wf(),
    ensures
        (forall|i: int|
            0 <= i < ps@.len() ==> (#[trigger] spec_parse_mtime(
                spec_format_mtime(ps@[i].mtime),
            )) == Some(ps@[i].mtime)) ==> (spec_plugin_list_value(r) matches Ok(qs) && qs.len()
            == ps@.len() && (forall|i: int|
            0 <= i < ps@.len() ==> (#[trigger] qs[i]).ty == ps@[i].ty && qs[i].size == ps@[i].size
                && qs[i].mtime == ps@[i].mtime && spec_plugin_name_wire(qs[i].name)
                == spec_plugin_name_wire(ps@[i].name))),
{
    let n = ps.len();
    let mut items: Vec<JsonValue> = Vec::new();
    let mut i: usize = 0;
    while i < n
        invariant
            0 <= i <= n,
            n == ps@.len(),
            items@.len() == i,
            forall|j: int| 0 <= j < n ==> (#[trigger] ps@[j]).wf(),
            forall|j: int|
                0 <= j < i ==> ((#[trigger] spec_parse_mtime(spec_format_mtime(ps@[j].mtime)))
                    == Some(ps@[j].mtime) ==> (spec_plugin_from_json(items@[j]) matches Ok(q)
                    && q.mtime == ps@[j].mtime && q.ty == ps@[j].ty && q.size == ps@[j].size
                    && spec_plugin_name_wire(q.name) == spec_plugin_name_wire(ps@[j].name))),
        decreases n - i,
    {
        proof {
            assert(ps@[i as int].wf());
        }
        let obj = plugin_to_json(&ps[i]);
        items.push(obj);
        i += 1;
    }
    proof {
        if forall|i2: int|
            0 <= i2 < ps@.len() ==> (#[trigger] spec_parse_mtime(spec_format_mtime(ps@[i2].mtime)))
                == Some(ps@[i2].mtime) {
            assert forall|j: int| 0 <= j < n implies (#[trigger] spec_plugin_fn()(
                items@[j],
            )) is Ok by {
                assert(spec_parse_mtime(spec_format_mtime(ps@[j].mtime)) == Some(ps@[j].mtime));
            }
            lemma_decode_seq_prefix(items@, spec_plugin_fn(), n as int);
            assert(items@.skip(n as int) =~= Seq::<JsonValue>::empty());
            let qs = Seq::new(n as nat, |j: int| spec_plugin_fn()(items@[j])->Ok_0);
            assert(spec_decode_seq(items@, spec_plugin_fn()) == Ok::<Seq<Plugin>, DecodeErrorModel>(
                qs + Seq::<Plugin>::empty(),
            ));
            assert(qs + Seq::<Plugin>::empty() =~= qs);
            assert forall|i2: int|
                0 <= i2 < n implies ((#[trigger] qs[i2]).ty == ps@[i2].ty && qs[i2].size
                == ps@[i2].size && qs[i2].mtime == ps@[i2].mtime && spec_plugin_name_wire(
                qs[i2].name,
            ) == spec_plugin_name_wire(ps@[i2].name)) by {
                assert(spec_parse_mtime(spec_format_mtime(ps@[i2].mtime)) == Some(ps@[i2].mtime));
                assert(qs[i2] == spec_plugin_fn()(items@[i2])->Ok_0);
            }
        }
    }
    JsonValue::Array(items)
}

/// Encodes a whole champion list (the shape of the champions cache file).
/// Decoding the result gives every champion back with its paths
/// re-normalized; on a well-formed list that is the list itself, by
/// `lemma_champion_cache_round_trip`.
pub fn champions_to_json(cs: &Vec<Champion>) -> (r: JsonValue)
    ensures
        spec_champion_list_value(r) == Ok::<Seq<ChampionModel>, DecodeErrorModel>(
            spec_renorm_champions(spec_champion_views(cs@)),
        ),
{
    let n = cs.len();
    let mut items: Vec<JsonValue> = Vec::new();
    let mut i: usize = 0;
    while i < n
        invariant
            0 <= i <= n,
            n == cs@.len(),
            items@.len() == i,
            forall|j: int|
                0 <= j < i ==> (#[trigger] spec_champion_from_json(items@[j])) == Ok::<
                    ChampionModel,
                    DecodeErrorModel,
                >(spec_renorm_champion(cs@[j]@)),
        decreases n - i,
    {
        let obj = champion_to_json(&cs[i]);
        items.push(obj);
        i += 1;
    }
    proof {
        lemma_decode_seq_prefix(items@, spec_champion_fn(), n as int);
        assert(items@.skip(n as int) =~= Seq::<JsonValue>::empty());
        assert(Seq::new(n as nat, |j: int| spec_champion_fn()(items@[j])->Ok_0) + Seq::<
            ChampionModel,
        >::empty() =~= spec_renorm_champions(spec_champion_views(cs@)));
    }
    JsonValue::Array(items)
}

} // verus!
