use vstd::prelude::*;

use crate::convert::{
    convert_json, data_key, is_root_form, lemma_convert_members, root_entries,
};
use crate::json::{Json, JsonNumber};
use crate::value::ValueModel;

verus! {

/// The integer that a JSON integer stands for.
pub open spec fn integer_value(n: JsonNumber) -> int {
    match n {
        JsonNumber::PosInt(u) => u as int,
        JsonNumber::NegInt(i) => i as int,
        JsonNumber::Float(_) => 0,
    }
}

/// Conversion is a function of its input: two conversions of one JSON value
/// with no assets give the same engine value.
pub proof fn conversion_is_deterministic(v: Json, first: ValueModel, second: ValueModel)
    requires
        first == convert_json(v, Map::empty()),
        second == convert_json(v, Map::empty()),
    ensures
        first == second,
{
}

/// A root that is not an object is wrapped exactly once under `data`, and the
/// converted wrapper is a one-entry mapping whose value is the converted root.
pub proof fn non_object_root_is_wrapped(
    v: Json,
    wrapped: Json,
    assets: Map<Seq<char>, Seq<u8>>,
)
    requires
        !(v is Object),
        is_root_form(v, wrapped),
    ensures
        wrapped is Object,
        wrapped->Object_0@.len() == 1,
        convert_json(wrapped, assets) == ValueModel::Dict(
            seq![(data_key(), convert_json(v, assets))],
        ),
        root_entries(v, assets) == seq![(data_key(), convert_json(v, assets))],
{
    let members = wrapped->Object_0@;
    lemma_convert_members(members, 1, assets);
    assert(convert_json(wrapped, assets)->Dict_0 =~= seq![(data_key(), convert_json(v, assets))]);
}

/// A string that names an asset becomes exactly that asset's bytes; any other
/// string stays the same string.
pub proof fn strings_name_assets(s: String, assets: Map<Seq<char>, Seq<u8>>)
    ensures
        assets.contains_key(s@) ==> convert_json(Json::Str(s), assets) == ValueModel::Bytes(
            assets[s@],
        ),
        !assets.contains_key(s@) ==> convert_json(Json::Str(s), assets) == ValueModel::Str(s@),
{
}

/// An integer within the signed 64-bit range becomes a signed integer of the
/// same value, never a float; a negative integer is never unsigned.
pub proof fn integers_keep_their_value(n: JsonNumber, assets: Map<Seq<char>, Seq<u8>>)
    requires
        !(n is Float),
        i64::MIN <= integer_value(n) <= i64::MAX,
    ensures
        convert_json(Json::Number(n), assets) == ValueModel::Int(integer_value(n) as i64),
        n is NegInt ==> !(convert_json(Json::Number(n), assets) is UInt),
{
}

} // verus!
