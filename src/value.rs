use vstd::prelude::*;

verus! {

/// The engine's typed value model, as plain data.
#[derive(Debug)]
pub enum TypedValue {
    /// The engine's "absent" value.
    Absent,
    Bool(bool),
    Int(i64),
    UInt(u64),
    /// A floating-point number, held as its IEEE 754 bit pattern.
    Float(u64),
    Str(String),
    Bytes(Vec<u8>),
    Array(Vec<TypedValue>),
    Dict(Vec<(String, TypedValue)>),
}

/// The mathematical model of a `TypedValue`.
pub enum ValueModel {
    Absent,
    Bool(bool),
    Int(i64),
    UInt(u64),
    Float(u64),
    Str(Seq<char>),
    Bytes(Seq<u8>),
    Array(Seq<ValueModel>),
    Dict(Seq<(Seq<char>, ValueModel)>),
}

pub open spec fn value_model(v: TypedValue) -> ValueModel
    decreases v, 0nat,
{
    match v {
        TypedValue::Absent => ValueModel::Absent,
        TypedValue::Bool(b) => ValueModel::Bool(b),
        TypedValue::Int(i) => ValueModel::Int(i),
        TypedValue::UInt(u) => ValueModel::UInt(u),
        TypedValue::Float(f) => ValueModel::Float(f),
        TypedValue::Str(s) => ValueModel::Str(s@),
        TypedValue::Bytes(b) => ValueModel::Bytes(b@),
        TypedValue::Array(items) => ValueModel::Array(items_model(items@, items@.len())),
        TypedValue::Dict(entries) => ValueModel::Dict(entries_model(entries@, entries@.len())),
    }
}

/// The models of the first `n` items.
pub open spec fn items_model(s: Seq<TypedValue>, n: nat) -> Seq<ValueModel>
    decreases s, n,
{
    if n == 0 || n > s.len() {
        Seq::empty()
    } else {
        items_model(s, (n - 1) as nat).push(value_model(s[n - 1]))
    }
}

/// The models of the first `n` entries.
pub open spec fn entries_model(s: Seq<(String, TypedValue)>, n: nat) -> Seq<
    (Seq<char>, ValueModel),
>
    decreases s, n,
{
    if n == 0 || n > s.len() {
        Seq::empty()
    } else {
        entries_model(s, (n - 1) as nat).push((s[n - 1].0@, value_model(s[n - 1].1)))
    }
}

pub proof fn lemma_items_model(s: Seq<TypedValue>, n: nat)
    requires
        n <= s.len(),
    ensures
        items_model(s, n).len() == n,
        forall|k: int| 0 <= k < n ==> #[trigger] items_model(s, n)[k] == value_model(s[k]),
    decreases n,
{
    if n > 0 {
        lemma_items_model(s, (n - 1) as nat);
    }
}

pub proof fn lemma_entries_model(s: Seq<(String, TypedValue)>, n: nat)
    requires
        n <= s.len(),
    ensures
        entries_model(s, n).len() == n,
        forall|k: int|
            0 <= k < n ==> #[trigger] entries_model(s, n)[k] == (s[k].0@, value_model(s[k].1)),
    decreases n,
{
    if n > 0 {
        lemma_entries_model(s, (n - 1) as nat);
    }
}

impl View for TypedValue {
    type V = ValueModel;

    open spec fn view(&self) -> ValueModel {
        value_model(*self)
    }
}

} // verus!
