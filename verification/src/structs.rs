//! Struct types: from the declared field list of a type to its schema, its
//! forward conversion and its reverse conversion.

use crate::error::{result_view, ErrorKind, ErrorView, MojomError};
use crate::parse::MojomParse;
use crate::value::{
    field_values, lemma_struct_type_view, lemma_struct_value_view, type_entries_view,
    value_entries_view, values_view, MojomType, MojomValue, TypeView, ValueView,
};
use vstd::prelude::*;

verus! {

/// The declared field list of a struct type: how many fields it has, what
/// each is called and shaped like, and how the fields of an instance are
/// taken apart and put together again, in declared order.
pub trait MojomStruct: View + Sized {
    /// The name under which the type appears in errors.
    spec fn declared_name_spec() -> Seq<char>;

    /// The number of declared fields.
    spec fn arity() -> nat;

    /// Name and shape of each field, in declared order.
    spec fn fields_spec() -> Seq<(Seq<char>, TypeView)>;

    /// Name and value of each field of an instance, in declared order.
    spec fn encode_fields(s: Self::V) -> Seq<(Seq<char>, ValueView)>;

    /// The error with which the field at position `i` refuses `v`, if it does.
    spec fn field_error(i: int, v: ValueView) -> Option<ErrorView>;

    /// The instance with the given field values, by position.
    spec fn decode_fields(values: Seq<ValueView>) -> Result<Self::V, ErrorView>;

    /// The name under which the type appears in errors.
    fn declared_name() -> (name: String)
        ensures
            name@ == Self::declared_name_spec(),
    ;

    /// The number of declared fields.
    fn field_count() -> (n: usize)
        ensures
            n == Self::arity(),
    ;

    /// Name and shape of each field, in declared order.
    fn field_schemas() -> (fields: Vec<(String, MojomType)>)
        ensures
            type_entries_view(fields@) == Self::fields_spec(),
    ;

    /// Name and value of each field of the instance, in declared order.
    fn into_fields(self) -> (entries: Vec<(String, MojomValue)>)
        ensures
            value_entries_view(entries@) == Self::encode_fields(self@),
    ;

    /// The instance whose fields are converted from the given values, by
    /// position and in declared order; the first field that refuses its value
    /// ends the conversion with its error.
    fn from_fields(values: Vec<MojomValue>) -> (r: Result<Self, MojomError>)
        requires
            values@.len() == Self::arity(),
        ensures
            result_view(r) == Self::decode_fields(values_view(values@)),
    ;

    /// The schema and every instance have one entry per declared field.
    proof fn declared_arity()
        ensures
            Self::fields_spec().len() == Self::arity(),
            forall|s: Self::V| #[trigger] Self::encode_fields(s).len() == Self::arity(),
    ;

    /// The entries of an instance are called as the schema calls them.
    proof fn declared_names(s: Self::V, i: int)
        requires
            0 <= i < Self::arity(),
        ensures
            Self::encode_fields(s)[i].0 == Self::fields_spec()[i].0,
    ;

    /// The field values of an instance give the instance again.
    proof fn fields_round_trip(s: Self::V)
        ensures
            Self::decode_fields(field_values(Self::encode_fields(s))) == Ok::<Self::V, ErrorView>(
                s,
            ),
    ;

    /// The first field that refuses its value decides the error.
    proof fn first_failure_wins(values: Seq<ValueView>, i: int)
        requires
            values.len() == Self::arity(),
            0 <= i < Self::arity(),
            Self::field_error(i, values[i]) is Some,
            forall|j: int| 0 <= j < i ==> Self::field_error(j, values[j]) is None,
        ensures
            Self::decode_fields(values) == Err::<Self::V, ErrorView>(
                Self::field_error(i, values[i])->Some_0,
            ),
    ;

    /// Where no field refuses its value, an instance is built.
    proof fn no_failure_succeeds(values: Seq<ValueView>)
        requires
            values.len() == Self::arity(),
            forall|j: int| 0 <= j < Self::arity() ==> Self::field_error(j, values[j]) is None,
        ensures
            Self::decode_fields(values) is Ok,
    ;
}

/// The error for a value that is no struct.
pub open spec fn variant_mismatch(expected: Seq<char>, v: ValueView) -> ErrorView {
    ErrorView { kind: ErrorKind::VariantMismatch, expected, value: v }
}

/// The error for a struct value with the wrong number of entries.
pub open spec fn arity_mismatch(expected: Seq<char>, v: ValueView) -> ErrorView {
    ErrorView { kind: ErrorKind::ArityMismatch, expected, value: v }
}

/// The values of a struct value with `n` entries, by position: the value
/// must be a struct and have exactly `n` entries; their names play no part.
pub open spec fn positional_values(v: ValueView, n: nat, expected: Seq<char>) -> Result<
    Seq<ValueView>,
    ErrorView,
> {
    match v {
        ValueView::Struct(entries) => if entries.len() == n {
            Ok(field_values(entries))
        } else {
            Err(arity_mismatch(expected, v))
        },
        _ => Err(variant_mismatch(expected, v)),
    }
}

/// The model of the outcome of taking a struct value apart.
pub open spec fn values_result_view(r: Result<Vec<MojomValue>, MojomError>) -> Result<
    Seq<ValueView>,
    ErrorView,
> {
    match r {
        Ok(values) => Ok(values_view(values@)),
        Err(e) => Err(e@),
    }
}

/// The schema of a struct type.
pub open spec fn struct_schema_spec<T: MojomStruct>() -> TypeView {
    TypeView::Struct(T::fields_spec())
}

/// The value that stands for an instance of a struct type.
pub open spec fn encode_struct<T: MojomStruct>(s: T::V) -> ValueView {
    ValueView::Struct(T::encode_fields(s))
}

/// The reverse conversion of a struct type: the value must be a struct, its
/// names are dropped, it must have one entry per declared field, and the
/// field values are then taken by position.
pub open spec fn decode_struct<T: MojomStruct>(v: ValueView) -> Result<T::V, ErrorView> {
    match positional_values(v, T::arity(), T::declared_name_spec()) {
        Ok(values) => T::decode_fields(values),
        Err(e) => Err(e),
    }
}

/// Drops the names of a struct value's entries and keeps the values, in order.
pub fn strip_names(entries: Vec<(String, MojomValue)>) -> (values: Vec<MojomValue>)
    ensures
        values@.len() == entries@.len(),
        forall|i: int| 0 <= i < entries@.len() ==> values@[i] == entries@[i].1,
{
    let ghost all = entries@;
    let mut rest = entries;
    let mut reversed: Vec<MojomValue> = Vec::new();
    while rest.len() > 0
        invariant
            rest@.len() + reversed@.len() == all.len(),
            forall|j: int| 0 <= j < rest@.len() ==> rest@[j] == all[j],
            forall|j: int| 0 <= j < reversed@.len() ==> reversed@[j] == all[all.len() - 1 - j].1,
        decreases rest@.len(),
    {
        match rest.pop() {
            Some(entry) => {
                reversed.push(entry.1);
            },
            None => {},
        }
    }
    let mut values: Vec<MojomValue> = Vec::new();
    while reversed.len() > 0
        invariant
            values@.len() + reversed@.len() == all.len(),
            forall|j: int| 0 <= j < reversed@.len() ==> reversed@[j] == all[all.len() - 1 - j].1,
            forall|j: int| 0 <= j < values@.len() ==> values@[j] == all[j].1,
        decreases reversed@.len(),
    {
        match reversed.pop() {
            Some(value) => {
                values.push(value);
            },
            None => {},
        }
    }
    values
}

/// The schema of a struct type: one entry per declared field, in declared
/// order.
pub fn struct_schema<T: MojomStruct>() -> (t: MojomType)
    ensures
        t@ == struct_schema_spec::<T>(),
        t@ is Struct,
        t@->Struct_0.len() == T::arity(),
{
    let fields = T::field_schemas();
    proof {
        lemma_struct_type_view(fields);
        T::declared_arity();
    }
    MojomType::Struct { fields }
}

/// Forward conversion of a struct type: one entry per declared field, in
/// declared order.
pub fn struct_to_value<T: MojomStruct>(s: T) -> (v: MojomValue)
    ensures
        v@ == encode_struct::<T>(s@),
        v@ is Struct,
        v@->Struct_0.len() == T::arity(),
{
    let entries = s.into_fields();
    proof {
        lemma_struct_value_view(entries);
        T::declared_arity();
    }
    MojomValue::Struct(entries)
}

/// Takes a struct value apart for a type with `n` fields that is called
/// `expected`: refuses a value that is no struct as a variant mismatch and a
/// struct with another number of entries than `n` as an arity mismatch, each
/// time handing the value back in the error; else gives the values of the
/// entries in order, names dropped.
pub fn struct_values(value: MojomValue, n: usize, expected: &str) -> (r: Result<
    Vec<MojomValue>,
    MojomError,
>)
    ensures
        values_result_view(r) == positional_values(value@, n as nat, expected@),
        r is Ok ==> r->Ok_0@.len() == n,
{
    match value {
        MojomValue::Struct(entries) => {
            proof {
                lemma_struct_value_view(entries);
            }
            if entries.len() == n {
                let ghost named = value_entries_view(entries@);
                let values = strip_names(entries);
                assert(values_view(values@) =~= field_values(named));
                Ok(values)
            } else {
                Err(
                    MojomError {
                        kind: ErrorKind::ArityMismatch,
                        expected: expected.to_owned(),
                        value: MojomValue::Struct(entries),
                    },
                )
            }
        },
        other => Err(
            MojomError {
                kind: ErrorKind::VariantMismatch,
                expected: expected.to_owned(),
                value: other,
            },
        ),
    }
}

/// Reverse conversion of a struct type.
pub fn struct_from_value<T: MojomStruct>(value: MojomValue) -> (r: Result<T, MojomError>)
    ensures
        result_view(r) == decode_struct::<T>(value@),
        !(value@ is Struct) ==> r is Err && r->Err_0@ == variant_mismatch(
            T::declared_name_spec(),
            value@,
        ),
        value@ is Struct && value@->Struct_0.len() != T::arity() ==> r is Err && r->Err_0@
            == arity_mismatch(T::declared_name_spec(), value@),
{
    let name = T::declared_name();
    match struct_values(value, T::field_count(), name.as_str()) {
        Ok(values) => T::from_fields(values),
        Err(e) => Err(e),
    }
}

/// Converting an instance of a struct type into a value and back succeeds and
/// gives the instance again.
pub proof fn lemma_struct_round_trip<T: MojomStruct>(s: T::V)
    ensures
        decode_struct::<T>(encode_struct::<T>(s)) == Ok::<T::V, ErrorView>(s),
{
    T::declared_arity();
    T::fields_round_trip(s);
}

/// A struct type whose capability is built on its field list: its schema,
/// its forward conversion and its reverse conversion are those that the
/// field list gives.
pub trait StructParse: MojomParse + MojomStruct {
    proof fn built_on_fields()
        ensures
            Self::name_spec() == Self::declared_name_spec(),
            Self::schema_spec() == struct_schema_spec::<Self>(),
            forall|s: Self::V| #[trigger] Self::encode(s) == encode_struct::<Self>(s),
            forall|v: ValueView| #[trigger] Self::decode(v) == decode_struct::<Self>(v),
    ;
}

/// The schema of a struct type is a struct descriptor with one entry per
/// declared field.
pub proof fn lemma_schema_arity<T: StructParse>()
    ensures
        T::schema_spec() is Struct,
        T::schema_spec()->Struct_0.len() == T::arity(),
        T::schema_spec()->Struct_0 == T::fields_spec(),
{
    T::built_on_fields();
    T::declared_arity();
}

/// The value of an instance is a struct value with one entry per declared
/// field, each called as the schema calls the field at that position.
pub proof fn lemma_value_mirrors_schema<T: StructParse>(s: T::V, i: int)
    requires
        0 <= i < T::arity(),
    ensures
        T::encode(s) is Struct,
        T::encode(s)->Struct_0.len() == T::arity(),
        T::encode(s)->Struct_0[i].0 == T::schema_spec()->Struct_0[i].0,
{
    T::built_on_fields();
    T::declared_arity();
    T::declared_names(s, i);
}

/// A struct value with another number of entries than the type has fields is
/// refused as an arity mismatch that names the type and holds the value,
/// whatever the entries are.
pub proof fn lemma_arity_mismatch<T: StructParse>(entries: Seq<(Seq<char>, ValueView)>)
    requires
        entries.len() != T::arity(),
    ensures
        T::decode(ValueView::Struct(entries)) == Err::<T::V, ErrorView>(
            arity_mismatch(T::name_spec(), ValueView::Struct(entries)),
        ),
{
    T::built_on_fields();
}

/// A value that is no struct is refused as a variant mismatch that names the
/// type and holds the value.
pub proof fn lemma_variant_mismatch<T: StructParse>(v: ValueView)
    requires
        !(v is Struct),
    ensures
        T::decode(v) == Err::<T::V, ErrorView>(variant_mismatch(T::name_spec(), v)),
{
    T::built_on_fields();
}

/// Only the position of an entry governs: two struct values of the right
/// length with the same values at the same positions convert alike, whatever
/// their entries are called.
pub proof fn lemma_names_ignored<T: StructParse>(
    a: Seq<(Seq<char>, ValueView)>,
    b: Seq<(Seq<char>, ValueView)>,
)
    requires
        a.len() == T::arity(),
        b.len() == T::arity(),
        forall|i: int| 0 <= i < T::arity() ==> a[i].1 == b[i].1,
    ensures
        T::decode(ValueView::Struct(a)) == T::decode(ValueView::Struct(b)),
{
    T::built_on_fields();
    assert(field_values(a) =~= field_values(b));
}

/// Where the field at position `i` refuses its value and every field before
/// it accepts its own, the conversion fails with that field's error, whatever
/// the entries after it hold.
pub proof fn lemma_first_failure_wins<T: StructParse>(entries: Seq<(Seq<char>, ValueView)>, i: int)
    requires
        entries.len() == T::arity(),
        0 <= i < T::arity(),
        T::field_error(i, entries[i].1) is Some,
        forall|j: int| 0 <= j < i ==> T::field_error(j, entries[j].1) is None,
    ensures
        T::decode(ValueView::Struct(entries)) == Err::<T::V, ErrorView>(
            T::field_error(i, entries[i].1)->Some_0,
        ),
{
    T::built_on_fields();
    T::first_failure_wins(field_values(entries), i);
}

/// A struct value of the right length is converted exactly when no field
/// refuses the value at its position.
pub proof fn lemma_success_condition<T: StructParse>(entries: Seq<(Seq<char>, ValueView)>)
    requires
        entries.len() == T::arity(),
    ensures
        T::decode(ValueView::Struct(entries)) is Ok <==> forall|j: int|
            0 <= j < T::arity() ==> T::field_error(j, entries[j].1) is None,
{
    T::built_on_fields();
    let values = field_values(entries);
    if forall|j: int| 0 <= j < T::arity() ==> T::field_error(j, entries[j].1) is None {
        assert forall|j: int| 0 <= j < T::arity() implies T::field_error(j, values[j]) is None by {
            assert(values[j] == entries[j].1);
        }
        T::no_failure_succeeds(values);
    } else {
        let i = first_refusal::<T>(entries, T::arity() as int);
        T::first_failure_wins(values, i);
    }
}

/// The first position below `n` whose field refuses its value.
proof fn first_refusal<T: StructParse>(entries: Seq<(Seq<char>, ValueView)>, n: int) -> (i: int)
    requires
        0 <= n <= entries.len(),
        exists|j: int| 0 <= j < n && T::field_error(j, entries[j].1) is Some,
    ensures
        0 <= i < n,
        T::field_error(i, entries[i].1) is Some,
        forall|j: int| 0 <= j < i ==> T::field_error(j, entries[j].1) is None,
    decreases n,
{
    if exists|j: int| 0 <= j < n - 1 && T::field_error(j, entries[j].1) is Some {
        first_refusal::<T>(entries, n - 1)
    } else {
        n - 1
    }
}

} // verus!
