use typst_gateway::assets::AssetMap;
use typst_gateway::convert::{classify_root, convert, convert_number, convert_root};
use typst_gateway::json::{Json, JsonNumber};
use typst_gateway::value::TypedValue;

fn text(s: &str) -> Json {
    Json::Str(s.to_string())
}

fn object(members: Vec<(&str, Json)>) -> Json {
    Json::Object(members.into_iter().map(|(k, v)| (k.to_string(), v)).collect())
}

fn sample() -> Json {
    object(vec![
        ("name", text("Ada")),
        ("age", Json::Number(JsonNumber::PosInt(36))),
        ("tags", Json::Array(vec![text("a"), Json::Null, Json::Bool(true)])),
    ])
}

fn same(a: &TypedValue, b: &TypedValue) -> bool {
    match (a, b) {
        (TypedValue::Absent, TypedValue::Absent) => true,
        (TypedValue::Bool(x), TypedValue::Bool(y)) => x == y,
        (TypedValue::Int(x), TypedValue::Int(y)) => x == y,
        (TypedValue::UInt(x), TypedValue::UInt(y)) => x == y,
        (TypedValue::Float(x), TypedValue::Float(y)) => x == y,
        (TypedValue::Str(x), TypedValue::Str(y)) => x == y,
        (TypedValue::Bytes(x), TypedValue::Bytes(y)) => x == y,
        (TypedValue::Array(x), TypedValue::Array(y)) => {
            x.len() == y.len() && x.iter().zip(y.iter()).all(|(p, q)| same(p, q))
        }
        (TypedValue::Dict(x), TypedValue::Dict(y)) => {
            x.len() == y.len()
                && x.iter().zip(y.iter()).all(|(p, q)| p.0 == q.0 && same(&p.1, &q.1))
        }
        _ => false,
    }
}

#[test]
fn conversion_without_assets_is_deterministic() {
    let assets = AssetMap::new();
    let first = convert(&sample(), &assets);
    let second = convert(&sample(), &assets);
    assert!(same(&first, &second));
    match first {
        TypedValue::Dict(entries) => {
            assert_eq!(entries.len(), 3);
            assert_eq!(entries[0].0, "name");
            assert!(matches!(&entries[0].1, TypedValue::Str(s) if s == "Ada"));
            assert!(matches!(entries[1].1, TypedValue::Int(36)));
            match &entries[2].1 {
                TypedValue::Array(items) => {
                    assert_eq!(items.len(), 3);
                    assert!(matches!(&items[0], TypedValue::Str(s) if s == "a"));
                    assert!(matches!(items[1], TypedValue::Absent));
                    assert!(matches!(items[2], TypedValue::Bool(true)));
                }
                _ => panic!("expected an array"),
            }
        }
        _ => panic!("expected a mapping"),
    }
}

#[test]
fn non_object_root_is_wrapped_under_data() {
    let assets = AssetMap::new();
    let wrapped = classify_root(Json::Number(JsonNumber::PosInt(7)));
    match &wrapped {
        Json::Object(members) => {
            assert_eq!(members.len(), 1);
            assert_eq!(members[0].0, "data");
            assert!(matches!(members[0].1, Json::Number(JsonNumber::PosInt(7))));
        }
        _ => panic!("expected an object"),
    }
    let root = convert_root(text("hello"), &assets);
    let alone = convert(&text("hello"), &assets);
    match root {
        TypedValue::Dict(entries) => {
            assert_eq!(entries.len(), 1);
            assert_eq!(entries[0].0, "data");
            assert!(same(&entries[0].1, &alone));
        }
        _ => panic!("expected a mapping"),
    }
}

#[test]
fn object_root_is_not_wrapped() {
    let assets = AssetMap::new();
    let root = convert_root(object(vec![("data", Json::Bool(false))]), &assets);
    match root {
        TypedValue::Dict(entries) => {
            assert_eq!(entries.len(), 1);
            assert_eq!(entries[0].0, "data");
            assert!(matches!(entries[0].1, TypedValue::Bool(false)));
        }
        _ => panic!("expected a mapping"),
    }
}

#[test]
fn empty_object_gives_empty_mapping() {
    let root = convert_root(object(vec![]), &AssetMap::new());
    assert!(matches!(root, TypedValue::Dict(entries) if entries.is_empty()));
}

#[test]
fn asset_names_become_bytes_and_other_strings_stay() {
    let mut assets = AssetMap::new();
    assets.insert("logo".to_string(), vec![1, 2, 3]);
    assert!(matches!(convert(&text("logo"), &assets), TypedValue::Bytes(b) if b == vec![1, 2, 3]));
    assert!(matches!(convert(&text("logos"), &assets), TypedValue::Str(s) if s == "logos"));
    assert!(matches!(convert(&text(""), &assets), TypedValue::Str(s) if s.is_empty()));
}

#[test]
fn later_asset_under_same_name_wins() {
    let mut assets = AssetMap::new();
    assets.insert("logo".to_string(), vec![1]);
    assets.insert("icon".to_string(), vec![2]);
    assets.insert("logo".to_string(), vec![3, 4]);
    assert_eq!(assets.get(&"logo".to_string()), Some(&vec![3, 4]));
    assert_eq!(assets.get(&"icon".to_string()), Some(&vec![2]));
    assert_eq!(assets.get(&"other".to_string()), None);
}

#[test]
fn signed_range_integers_stay_signed() {
    assert!(matches!(convert_number(JsonNumber::PosInt(0)), TypedValue::Int(0)));
    assert!(matches!(
        convert_number(JsonNumber::PosInt(i64::MAX as u64)),
        TypedValue::Int(i64::MAX)
    ));
    assert!(matches!(convert_number(JsonNumber::NegInt(-5)), TypedValue::Int(-5)));
    assert!(matches!(convert_number(JsonNumber::NegInt(i64::MIN)), TypedValue::Int(i64::MIN)));
}

#[test]
fn integers_past_signed_range_are_unsigned() {
    let big = i64::MAX as u64 + 1;
    assert!(matches!(convert_number(JsonNumber::PosInt(big)), TypedValue::UInt(u) if u == big));
    assert!(matches!(
        convert_number(JsonNumber::PosInt(u64::MAX)),
        TypedValue::UInt(u64::MAX)
    ));
}

#[test]
fn fractions_are_floats() {
    let bits = 2.5f64.to_bits();
    assert!(matches!(convert_number(JsonNumber::Float(bits)), TypedValue::Float(b) if b == bits));
}

#[test]
fn nested_values_convert_recursively() {
    let mut assets = AssetMap::new();
    assets.insert("pic".to_string(), vec![9]);
    let value = Json::Array(vec![object(vec![("inner", Json::Array(vec![text("pic")]))])]);
    match convert(&value, &assets) {
        TypedValue::Array(items) => match &items[0] {
            TypedValue::Dict(entries) => {
                assert_eq!(entries[0].0, "inner");
                match &entries[0].1 {
                    TypedValue::Array(inner) => {
                        assert!(matches!(&inner[0], TypedValue::Bytes(b) if *b == vec![9]))
                    }
                    _ => panic!("expected an array"),
                }
            }
            _ => panic!("expected a mapping"),
        },
        _ => panic!("expected an array"),
    }
}
