//! Two struct types with the conversion capability: a flat one and one that
//! nests the other.

use crate::error::{ErrorView, MojomError};
use crate::parse::{refusal, MojomParse};
use crate::structs::{
    decode_struct, encode_struct, lemma_first_failure_wins, lemma_struct_round_trip,
    struct_from_value, struct_schema, struct_schema_spec, struct_to_value, MojomStruct,
    StructParse,
};
use crate::value::{
    type_entries_view, value_entries_view, MojomType, MojomValue, TypeView, ValueView,
};
use vstd::prelude::*;

verus! {

/// A point in the plane.
#[derive(Debug, Clone, Copy, PartialEq, Eq)]
pub struct Point {
    pub x: i32,
    pub y: i32,
}

impl View for Point {
    type V = Point;

    open spec fn view(&self) -> Point {
        *self
    }
}

impl MojomStruct for Point {
    open spec fn declared_name_spec() -> Seq<char> {
        "Point"@
    }

    open spec fn arity() -> nat {
        2
    }

    open spec fn fields_spec() -> Seq<(Seq<char>, TypeView)> {
        seq![("x"@, i32::schema_spec()), ("y"@, i32::schema_spec())]
    }

    open spec fn encode_fields(s: Point) -> Seq<(Seq<char>, ValueView)> {
        seq![("x"@, i32::encode(s.x)), ("y"@, i32::encode(s.y))]
    }

    open spec fn field_error(i: int, v: ValueView) -> Option<ErrorView> {
        if i == 0 || i == 1 {
            refusal::<i32>(v)
        } else {
            None
        }
    }

    open spec fn decode_fields(values: Seq<ValueView>) -> Result<Point, ErrorView> {
        match i32::decode(values[0]) {
            Err(e) => Err(e),
            Ok(x) => match i32::decode(values[1]) {
                Err(e) => Err(e),
                Ok(y) => Ok(Point { x, y }),
            },
        }
    }

    fn declared_name() -> (name: String) {
        "Point".to_owned()
    }

    fn field_count() -> (n: usize) {
        2
    }

    fn field_schemas() -> (fields: Vec<(String, MojomType)>) {
        let mut fields: Vec<(String, MojomType)> = Vec::new();
        fields.push(("x".to_owned(), i32::schema()));
        fields.push(("y".to_owned(), i32::schema()));
        assert(type_entries_view(fields@) =~= Self::fields_spec());
        fields
    }

    fn into_fields(self) -> (entries: Vec<(String, MojomValue)>) {
        let mut entries: Vec<(String, MojomValue)> = Vec::new();
        entries.push(("x".to_owned(), self.x.to_value()));
        entries.push(("y".to_owned(), self.y.to_value()));
        assert(value_entries_view(entries@) =~= Self::encode_fields(self@));
        entries
    }

    fn from_fields(values: Vec<MojomValue>) -> (r: Result<Point, MojomError>) {
        let mut rest = values;
        let y = rest.pop().unwrap();
        let x = rest.pop().unwrap();
        let x = match i32::from_value(x) {
            Ok(x) => x,
            Err(e) => {
                return Err(e);
            },
        };
        let y = match i32::from_value(y) {
            Ok(y) => y,
            Err(e) => {
                return Err(e);
            },
        };
        Ok(Point { x, y })
    }

    proof fn declared_arity() {
    }

    proof fn declared_names(s: Point, i: int) {
    }

    proof fn fields_round_trip(s: Point) {
        i32::round_trip(s.x);
        i32::round_trip(s.y);
    }

    proof fn first_failure_wins(values: Seq<ValueView>, i: int) {
        if i == 1 {
            assert(Self::field_error(0, values[0]) is None);
        }
    }

    proof fn no_failure_succeeds(values: Seq<ValueView>) {
        assert(Self::field_error(0, values[0]) is None);
        assert(Self::field_error(1, values[1]) is None);
    }
}

impl MojomParse for Point {
    open spec fn name_spec() -> Seq<char> {
        Self::declared_name_spec()
    }

    open spec fn schema_spec() -> TypeView {
        struct_schema_spec::<Point>()
    }

    open spec fn encode(s: Point) -> ValueView {
        encode_struct::<Point>(s)
    }

    open spec fn decode(v: ValueView) -> Result<Point, ErrorView> {
        decode_struct::<Point>(v)
    }

    fn name_of_type() -> (name: String) {
        Self::declared_name()
    }

    fn schema() -> (t: MojomType) {
        struct_schema::<Point>()
    }

    fn to_value(self) -> (v: MojomValue) {
        struct_to_value::<Point>(self)
    }

    fn from_value(value: MojomValue) -> (r: Result<Point, MojomError>) {
        struct_from_value::<Point>(value)
    }

    proof fn round_trip(s: Point) {
        lemma_struct_round_trip::<Point>(s);
    }
}

impl StructParse for Point {
    proof fn built_on_fields() {
    }
}

/// A labelled point that can be hidden.
#[derive(Debug, PartialEq, Eq)]
pub struct Marker {
    pub label: String,
    pub visible: bool,
    pub at: Point,
}

/// Mathematical model of a `Marker`.
pub ghost struct MarkerView {
    pub label: Seq<char>,
    pub visible: bool,
    pub at: Point,
}

impl View for Marker {
    type V = MarkerView;

    open spec fn view(&self) -> MarkerView {
        MarkerView { label: self.label@, visible: self.visible, at: self.at }
    }
}

impl MojomStruct for Marker {
    open spec fn declared_name_spec() -> Seq<char> {
        "Marker"@
    }

    open spec fn arity() -> nat {
        3
    }

    open spec fn fields_spec() -> Seq<(Seq<char>, TypeView)> {
        seq![
            ("label"@, String::schema_spec()),
            ("visible"@, bool::schema_spec()),
            ("at"@, Point::schema_spec()),
        ]
    }

    open spec fn encode_fields(s: MarkerView) -> Seq<(Seq<char>, ValueView)> {
        seq![
            ("label"@, String::encode(s.label)),
            ("visible"@, bool::encode(s.visible)),
            ("at"@, Point::encode(s.at)),
        ]
    }

    open spec fn field_error(i: int, v: ValueView) -> Option<ErrorView> {
        if i == 0 {
            refusal::<String>(v)
        } else if i == 1 {
            refusal::<bool>(v)
        } else if i == 2 {
            refusal::<Point>(v)
        } else {
            None
        }
    }

    open spec fn decode_fields(values: Seq<ValueView>) -> Result<MarkerView, ErrorView> {
        match String::decode(values[0]) {
            Err(e) => Err(e),
            Ok(label) => match bool::decode(values[1]) {
                Err(e) => Err(e),
                Ok(visible) => match Point::decode(values[2]) {
                    Err(e) => Err(e),
                    Ok(at) => Ok(MarkerView { label, visible, at }),
                },
            },
        }
    }

    fn declared_name() -> (name: String) {
        "Marker".to_owned()
    }

    fn field_count() -> (n: usize) {
        3
    }

    fn field_schemas() -> (fields: Vec<(String, MojomType)>) {
        let mut fields: Vec<(String, MojomType)> = Vec::new();
        fields.push(("label".to_owned(), String::schema()));
        fields.push(("visible".to_owned(), bool::schema()));
        fields.push(("at".to_owned(), Point::schema()));
        assert(type_entries_view(fields@) =~= Self::fields_spec());
        fields
    }

    fn into_fields(self) -> (entries: Vec<(String, MojomValue)>) {
        let mut entries: Vec<(String, MojomValue)> = Vec::new();
        entries.push(("label".to_owned(), self.label.to_value()));
        entries.push(("visible".to_owned(), self.visible.to_value()));
        entries.push(("at".to_owned(), self.at.to_value()));
        assert(value_entries_view(entries@) =~= Self::encode_fields(self@));
        entries
    }

    fn from_fields(values: Vec<MojomValue>) -> (r: Result<Marker, MojomError>) {
        let mut rest = values;
        let at = rest.pop().unwrap();
        let visible = rest.pop().unwrap();
        let label = rest.pop().unwrap();
        let label = match String::from_value(label) {
            Ok(label) => label,
            Err(e) => {
                return Err(e);
            },
        };
        let visible = match bool::from_value(visible) {
            Ok(visible) => visible,
            Err(e) => {
                return Err(e);
            },
        };
        let at = match Point::from_value(at) {
            Ok(at) => at,
            Err(e) => {
                return Err(e);
            },
        };
        Ok(Marker { label, visible, at })
    }

    proof fn declared_arity() {
    }

    proof fn declared_names(s: MarkerView, i: int) {
    }

    proof fn fields_round_trip(s: MarkerView) {
        String::round_trip(s.label);
        bool::round_trip(s.visible);
        Point::round_trip(s.at);
    }

    proof fn first_failure_wins(values: Seq<ValueView>, i: int) {
        if i >= 1 {
            assert(Self::field_error(0, values[0]) is None);
        }
        if i >= 2 {
            assert(Self::field_error(1, values[1]) is None);
        }
    }

    proof fn no_failure_succeeds(values: Seq<ValueView>) {
        assert(Self::field_error(0, values[0]) is None);
        assert(Self::field_error(1, values[1]) is None);
        assert(Self::field_error(2, values[2]) is None);
    }
}

impl MojomParse for Marker {
    open spec fn name_spec() -> Seq<char> {
        Self::declared_name_spec()
    }

    open spec fn schema_spec() -> TypeView {
        struct_schema_spec::<Marker>()
    }

    open spec fn encode(s: MarkerView) -> ValueView {
        encode_struct::<Marker>(s)
    }

    open spec fn decode(v: ValueView) -> Result<MarkerView, ErrorView> {
        decode_struct::<Marker>(v)
    }

    fn name_of_type() -> (name: String) {
        Self::declared_name()
    }

    fn schema() -> (t: MojomType) {
        struct_schema::<Marker>()
    }

    fn to_value(self) -> (v: MojomValue) {
        struct_to_value::<Marker>(self)
    }

    fn from_value(value: MojomValue) -> (r: Result<Marker, MojomError>) {
        struct_from_value::<Marker>(value)
    }

    proof fn round_trip(s: MarkerView) {
        lemma_struct_round_trip::<Marker>(s);
    }
}

impl StructParse for Marker {
    proof fn built_on_fields() {
    }
}

/// A marker value whose label and visibility are accepted and whose point is
/// refused is refused with the point's own error, whatever that is.
pub proof fn lemma_marker_hands_on_point_error(entries: Seq<(Seq<char>, ValueView)>)
    requires
        entries.len() == 3,
        String::decode(entries[0].1) is Ok,
        bool::decode(entries[1].1) is Ok,
        Point::decode(entries[2].1) is Err,
    ensures
        Marker::decode(ValueView::Struct(entries)) == Err::<MarkerView, ErrorView>(
            Point::decode(entries[2].1)->Err_0,
        ),
{
    lemma_first_failure_wins::<Marker>(entries, 2);
}

/// A marker value whose label is refused is refused with the label's own
/// error, whatever the entries after it hold.
pub proof fn lemma_marker_stops_at_label(entries: Seq<(Seq<char>, ValueView)>)
    requires
        entries.len() == 3,
        String::decode(entries[0].1) is Err,
    ensures
        Marker::decode(ValueView::Struct(entries)) == Err::<MarkerView, ErrorView>(
            String::decode(entries[0].1)->Err_0,
        ),
{
    lemma_first_failure_wins::<Marker>(entries, 0);
}

} // verus!
