use vstd::prelude::*;

use crate::assets::AssetMap;
use crate::json::{Json, JsonNumber};
use crate::value::{lemma_entries_model, lemma_items_model, TypedValue, ValueModel};

verus! {

/// The engine value of a JSON number: an integer that fits `i64` is signed, one
/// that fits only `u64` is unsigned, anything else is floating point.
pub open spec fn number_model(n: JsonNumber) -> ValueModel {
    match n {
        JsonNumber::PosInt(u) => if u <= i64::MAX {
            ValueModel::Int(u as i64)
        } else {
            ValueModel::UInt(u)
        },
        JsonNumber::NegInt(i) => ValueModel::Int(i),
        JsonNumber::Float(bits) => ValueModel::Float(bits),
    }
}

/// The engine value of a string: the asset's bytes if the string names an
/// asset, else the string itself.
pub open spec fn string_model(s: Seq<char>, assets: Map<Seq<char>, Seq<u8>>) -> ValueModel {
    if assets.contains_key(s) {
        ValueModel::Bytes(assets[s])
    } else {
        ValueModel::Str(s)
    }
}

/// The engine value of a JSON tree, where a string that names an asset becomes
/// that asset's bytes.
pub open spec fn convert_json(j: Json, assets: Map<Seq<char>, Seq<u8>>) -> ValueModel
    decreases j, 0nat,
{
    match j {
        Json::Null => ValueModel::Absent,
        Json::Bool(b) => ValueModel::Bool(b),
        Json::Number(n) => number_model(n),
        Json::Str(s) => string_model(s@, assets),
        Json::Array(items) => ValueModel::Array(convert_items(items@, items@.len(), assets)),
        Json::Object(members) => ValueModel::Dict(
            convert_members(members@, members@.len(), assets),
        ),
    }
}

/// The engine values of the first `n` items.
pub open spec fn convert_items(s: Seq<Json>, n: nat, assets: Map<Seq<char>, Seq<u8>>) -> Seq<
    ValueModel,
>
    decreases s, n,
{
    if n == 0 || n > s.len() {
        Seq::empty()
    } else {
        convert_items(s, (n - 1) as nat, assets).push(convert_json(s[n - 1], assets))
    }
}

/// The engine entries of the first `n` members, keys kept verbatim.
pub open spec fn convert_members(
    s: Seq<(String, Json)>,
    n: nat,
    assets: Map<Seq<char>, Seq<u8>>,
) -> Seq<(Seq<char>, ValueModel)>
    decreases s, n,
{
    if n == 0 || n > s.len() {
        Seq::empty()
    } else {
        convert_members(s, (n - 1) as nat, assets).push(
            (s[n - 1].0@, convert_json(s[n - 1].1, assets)),
        )
    }
}

pub proof fn lemma_convert_items(s: Seq<Json>, n: nat, assets: Map<Seq<char>, Seq<u8>>)
    requires
        n <= s.len(),
    ensures
        convert_items(s, n, assets).len() == n,
        forall|k: int|
            0 <= k < n ==> #[trigger] convert_items(s, n, assets)[k] == convert_json(s[k], assets),
    decreases n,
{
    if n > 0 {
        lemma_convert_items(s, (n - 1) as nat, assets);
    }
}

pub proof fn lemma_convert_members(
    s: Seq<(String, Json)>,
    n: nat,
    assets: Map<Seq<char>, Seq<u8>>,
)
    requires
        n <= s.len(),
    ensures
        convert_members(s, n, assets).len() == n,
        forall|k: int|
            0 <= k < n ==> #[trigger] convert_members(s, n, assets)[k] == (
                s[k].0@,
                convert_json(s[k].1, assets),
            ),
    decreases n,
{
    if n > 0 {
        lemma_convert_members(s, (n - 1) as nat, assets);
    }
}

/// The key under which a root that is not an object is handed to the engine.
pub open spec fn data_key() -> Seq<char> {
    seq!['d', 'a', 't', 'a']
}

/// Whether `r` is `value` as the engine's root: an object stays as it is,
/// anything else is wrapped in a one-member object under `data`.
pub open spec fn is_root_form(value: Json, r: Json) -> bool {
    if value is Object {
        r == value
    } else {
        &&& r is Object
        &&& r->Object_0@.len() == 1
        &&& r->Object_0@[0].0@ == data_key()
        &&& r->Object_0@[0].1 == value
    }
}

/// The entries of the mapping that the engine receives for `value`.
pub open spec fn root_entries(value: Json, assets: Map<Seq<char>, Seq<u8>>) -> Seq<
    (Seq<char>, ValueModel),
> {
    match value {
        Json::Object(members) => convert_members(members@, members@.len(), assets),
        _ => seq![(data_key(), convert_json(value, assets))],
    }
}

/// Wraps a root that is not an object under the key `data`.
pub fn classify_root(value: Json) -> (r: Json)
    ensures
        is_root_form(value, r),
        r is Object,
{
    if value.is_object() {
        value
    } else {
        let ghost inner = value;
        let key = String::from_str("data");
        proof {
            reveal_strlit("data");
        }
        assert(key@ =~= data_key());
        let mut members: Vec<(String, Json)> = Vec::new();
        members.push((key, value));
        Json::Object(members)
    }
}

/// Converts one JSON number to an engine number.
pub fn convert_number(n: JsonNumber) -> (r: TypedValue)
    ensures
        r@ == number_model(n),
{
    match n {
        JsonNumber::PosInt(u) => if u <= i64::MAX as u64 {
            TypedValue::Int(u as i64)
        } else {
            TypedValue::UInt(u)
        },
        JsonNumber::NegInt(i) => TypedValue::Int(i),
        JsonNumber::Float(bits) => TypedValue::Float(bits),
    }
}

/// Converts one string leaf: an asset's name becomes a copy of its bytes.
pub fn convert_string(s: &String, assets: &AssetMap) -> (r: TypedValue)
    ensures
        r@ == string_model(s@, assets.view()),
{
    match assets.get(s) {
        Some(bytes) => {
            let copy = bytes.clone();
            assert(copy@ =~= bytes@);
            TypedValue::Bytes(copy)
        },
        None => TypedValue::Str(s.clone()),
    }
}

/// Converts a JSON tree to an engine value, substituting asset bytes for every
/// string that names an asset. It cannot fail.
pub fn convert(value: &Json, assets: &AssetMap) -> (r: TypedValue)
    ensures
        r@ == convert_json(*value, assets.view()),
    decreases value,
{
    match value {
        Json::Null => TypedValue::Absent,
        Json::Bool(b) => TypedValue::Bool(*b),
        Json::Number(n) => convert_number(*n),
        Json::Str(s) => convert_string(s, assets),
        Json::Array(items) => {
            let mut out: Vec<TypedValue> = Vec::new();
            let mut i: usize = 0;
            while i < items.len()
                invariant
                    i <= items.len(),
                    out.len() == i,
                    *value == Json::Array(*items),
                    forall|k: int|
                        0 <= k < i ==> (#[trigger] out[k])@ == convert_json(
                            items[k],
                            assets.view(),
                        ),
                decreases items.len() - i,
            {
                proof {
                    vstd::std_specs::vec::axiom_vec_index_decreases(*items, i as int);
                    assert(decreases_to!(*value => (*value)->Array_0));
                    assert(decreases_to!(*items => items[i as int]));
                }
                let item = convert(&items[i], assets);
                out.push(item);
                i = i + 1;
            }
            proof {
                lemma_items_model(out@, out@.len());
                lemma_convert_items(items@, items@.len(), assets.view());
            }
            let r = TypedValue::Array(out);
            assert(r@->Array_0 =~= convert_json(*value, assets.view())->Array_0);
            r
        },
        Json::Object(members) => {
            let mut out: Vec<(String, TypedValue)> = Vec::new();
            let mut i: usize = 0;
            while i < members.len()
                invariant
                    i <= members.len(),
                    out.len() == i,
                    *value == Json::Object(*members),
                    forall|k: int|
                        0 <= k < i ==> (#[trigger] out[k]).0@ == members[k].0@ && out[k].1@
                            == convert_json(members[k].1, assets.view()),
                decreases members.len() - i,
            {
                proof {
                    vstd::std_specs::vec::axiom_vec_index_decreases(*members, i as int);
                    assert(decreases_to!(*value => (*value)->Object_0));
                    assert(decreases_to!(*members => members[i as int]));
                    assert(decreases_to!(members[i as int] => members[i as int].1));
                }
                let key = members[i].0.clone();
                let item = convert(&members[i].1, assets);
                out.push((key, item));
                i = i + 1;
            }
            proof {
                lemma_entries_model(out@, out@.len());
                lemma_convert_members(members@, members@.len(), assets.view());
            }
            let r = TypedValue::Dict(out);
            assert(r@->Dict_0 =~= convert_json(*value, assets.view())->Dict_0);
            r
        },
    }
}

/// Converts a request's data to the mapping that the engine receives: the root
/// is wrapped under `data` unless it is an object, then converted.
pub fn convert_root(value: Json, assets: &AssetMap) -> (r: TypedValue)
    ensures
        r@ == ValueModel::Dict(root_entries(value, assets.view())),
{
    let ghost original = value;
    let root = classify_root(value);
    let r = convert(&root, assets);
    proof {
        if !(original is Object) {
            lemma_convert_members(root->Object_0@, 1, assets.view());
            assert(convert_members(root->Object_0@, 1, assets.view()) =~= root_entries(
                original,
                assets.view(),
            ));
        }
    }
    r
}

} // verus!
