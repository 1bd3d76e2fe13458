//! The schema descriptor and the value container, with their mathematical
//! models.

use vstd::prelude::*;

verus! {

/// The shape of a value, without any data.
#[derive(Debug, PartialEq, Eq)]
pub enum MojomType {
    Bool,
    Int32,
    Str,
    /// Field names and field shapes, in declared order.
    Struct { fields: Vec<(String, MojomType)> },
}

/// A tagged value carrying data.
#[derive(Debug, PartialEq, Eq)]
pub enum MojomValue {
    Bool(bool),
    Int(i32),
    Str(String),
    /// Field names and field values, in declared order.
    Struct(Vec<(String, MojomValue)>),
}

/// Mathematical model of a `MojomType`.
pub ghost enum TypeView {
    Bool,
    Int32,
    Str,
    Struct(Seq<(Seq<char>, TypeView)>),
}

/// Mathematical model of a `MojomValue`.
pub ghost enum ValueView {
    Bool(bool),
    Int(i32),
    Str(Seq<char>),
    Struct(Seq<(Seq<char>, ValueView)>),
}

/// The model of a shape: names become character sequences, entries keep
/// their order.
pub open spec fn type_model(t: MojomType) -> TypeView
    decreases t,
{
    match t {
        MojomType::Bool => TypeView::Bool,
        MojomType::Int32 => TypeView::Int32,
        MojomType::Str => TypeView::Str,
        MojomType::Struct { fields } => TypeView::Struct(
            Seq::new(
                fields.len() as nat,
                |i: int|
                    if 0 <= i < fields.len() {
                        (fields[i].0@, type_model(fields[i].1))
                    } else {
                        (Seq::empty(), TypeView::Bool)
                    },
            ),
        ),
    }
}

/// The model of a value: strings become character sequences, entries keep
/// their order.
pub open spec fn value_model(v: MojomValue) -> ValueView
    decreases v,
{
    match v {
        MojomValue::Bool(b) => ValueView::Bool(b),
        MojomValue::Int(n) => ValueView::Int(n),
        MojomValue::Str(s) => ValueView::Str(s@),
        MojomValue::Struct(entries) => ValueView::Struct(
            Seq::new(
                entries.len() as nat,
                |i: int|
                    if 0 <= i < entries.len() {
                        (entries[i].0@, value_model(entries[i].1))
                    } else {
                        (Seq::empty(), ValueView::Bool(false))
                    },
            ),
        ),
    }
}

impl View for MojomType {
    type V = TypeView;

    open spec fn view(&self) -> TypeView {
        type_model(*self)
    }
}

impl View for MojomValue {
    type V = ValueView;

    open spec fn view(&self) -> ValueView {
        value_model(*self)
    }
}

/// The models of the entries of a struct shape, in order.
pub open spec fn type_entries_view(entries: Seq<(String, MojomType)>) -> Seq<(Seq<char>, TypeView)> {
    Seq::new(entries.len(), |i: int| (entries[i].0@, entries[i].1@))
}

/// The models of the entries of a struct value, in order.
pub open spec fn value_entries_view(entries: Seq<(String, MojomValue)>) -> Seq<
    (Seq<char>, ValueView),
> {
    Seq::new(entries.len(), |i: int| (entries[i].0@, entries[i].1@))
}

/// The model of a struct shape is the struct of its entries' models.
pub proof fn lemma_struct_type_view(fields: Vec<(String, MojomType)>)
    ensures
        (MojomType::Struct { fields })@ == TypeView::Struct(type_entries_view(fields@)),
{
    reveal_with_fuel(type_model, 2);
    assert((MojomType::Struct { fields })@->Struct_0 =~= type_entries_view(fields@));
}

/// The model of a struct value is the struct of its entries' models.
pub proof fn lemma_struct_value_view(entries: Vec<(String, MojomValue)>)
    ensures
        MojomValue::Struct(entries)@ == ValueView::Struct(value_entries_view(entries@)),
{
    reveal_with_fuel(value_model, 2);
    assert(MojomValue::Struct(entries)@->Struct_0 =~= value_entries_view(entries@));
}

/// The field values of a struct value's entries, names dropped, order kept.
pub open spec fn field_values(entries: Seq<(Seq<char>, ValueView)>) -> Seq<ValueView> {
    Seq::new(entries.len(), |i: int| entries[i].1)
}

/// The models of a sequence of values, in order.
pub open spec fn values_view(values: Seq<MojomValue>) -> Seq<ValueView> {
    Seq::new(values.len(), |i: int| values[i]@)
}

} // verus!
