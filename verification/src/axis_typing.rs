//! Axis classification and per-type serialization dispatch.
//!
//! Every host type that can feed an axis carries two capabilities, resolved
//! at compile time: an axis kind (the `AxisType` associated type, one of the
//! three marker structs) and a serialization strategy (the `Serialization`
//! associated type). The set of classified types is open: a new host type
//! joins by implementing `AxisKindMarker`, never by editing a central
//! switch. Regression and clustering operations are gated on
//! `ValueAxisCapable`, which only value-classified types can implement.

use vstd::prelude::*;
use crate::json::{Json, JsonV, check_number_lit, int_text, is_number_lit, write_i128_dec};

verus! {

/// The closed set of axis kinds a host type can classify to.
#[derive(Clone, Copy, Debug, PartialEq, Eq, Structural)]
pub enum AxisKind {
    Value,
    Category,
    Time,
}

/// What a marker struct says about the axis kind it stands for.
pub trait AxisInfo {
    /// The kind this marker denotes; a constant of the type alone.
    spec fn spec_axis_kind() -> AxisKind;

    fn axis_kind() -> (k: AxisKind)
        ensures
            k == Self::spec_axis_kind(),
    ;
}

/// Marker for numeric axes.
pub struct ValueAxis;

/// Marker for discrete-label axes.
pub struct CategoryAxis;

/// Marker for temporal axes.
pub struct TimeAxis;

impl AxisInfo for ValueAxis {
    open spec fn spec_axis_kind() -> AxisKind {
        AxisKind::Value
    }

    fn axis_kind() -> AxisKind {
        AxisKind::Value
    }
}

impl AxisInfo for CategoryAxis {
    open spec fn spec_axis_kind() -> AxisKind {
        AxisKind::Category
    }

    fn axis_kind() -> AxisKind {
        AxisKind::Category
    }
}

impl AxisInfo for TimeAxis {
    open spec fn spec_axis_kind() -> AxisKind {
        AxisKind::Time
    }

    fn axis_kind() -> AxisKind {
        AxisKind::Time
    }
}

/// A serialization strategy: how a host value of type `T` appears in the
/// wire document.
pub trait SerializeFormat<T> {
    /// The wire value a host value maps to.
    spec fn spec_format(value: &T) -> JsonV;

    fn format(value: &T) -> (j: Json)
        ensures
            j@ == Self::spec_format(value),
    ;
}

/// A host type with a natural primitive wire form: numbers pass through as
/// numbers, strings as strings.
pub trait NaturalWire where Self: Sized {
    spec fn spec_natural_wire(&self) -> JsonV;

    fn natural_wire(&self) -> (j: Json)
        ensures
            j@ == self.spec_natural_wire(),
    ;
}

/// The generic default strategy: a type's own natural wire form, unchanged.
pub struct DefaultSerialisation;

impl<T: NaturalWire> SerializeFormat<T> for DefaultSerialisation {
    open spec fn spec_format(value: &T) -> JsonV {
        value.spec_natural_wire()
    }

    fn format(value: &T) -> Json {
        value.natural_wire()
    }
}

/// A host type usable on an axis: its axis kind and its serialization
/// strategy, both chosen per concrete type.
pub trait AxisKindMarker where Self: Sized {
    type AxisType: AxisInfo;

    type Serialization: SerializeFormat<Self>;
}

/// The wire value of one classified host value.
pub open spec fn wire_of<T: AxisKindMarker>(value: &T) -> JsonV {
    T::Serialization::spec_format(value)
}

/// The axis kind of a classified host type.
pub open spec fn kind_of<T: AxisKindMarker>() -> AxisKind {
    T::AxisType::spec_axis_kind()
}

/// Carries one host value together with its serialization strategy, so a
/// data collection can be turned into wire values element by element.
#[derive(Debug)]
pub struct ValueSerializeWrapper<T: AxisKindMarker>(pub T);

impl<T: AxisKindMarker> ValueSerializeWrapper<T> {
    pub fn to_wire(&self) -> (j: Json)
        ensures
            j@ == wire_of(&self.0),
    {
        T::Serialization::format(&self.0)
    }
}

/// Capability of value-classified host types; regression and clustering
/// operations require it of both axes. Implementing it obliges the type to
/// prove that it classifies to `AxisKind::Value`, so the capability cannot
/// be claimed by category- or time-classified types.
pub trait ValueAxisCapable: AxisKindMarker {
    proof fn value_classified()
        ensures
            Self::AxisType::spec_axis_kind() == AxisKind::Value,
    ;
}

/// Classification is total: every classified host type has exactly one of
/// the three axis kinds, and the kind is a function of the type alone.
pub proof fn classification_total<T: AxisKindMarker>()
    ensures
        kind_of::<T>() == AxisKind::Value || kind_of::<T>() == AxisKind::Category || kind_of::<
            T,
        >() == AxisKind::Time,
{
}

/// Gating: a type holding the value-axis capability is value-classified, so
/// the regression operations, which demand the capability of both axes, are
/// reachable only for value/value axis pairs.
pub proof fn value_capable_is_value_classified<T: ValueAxisCapable>()
    ensures
        kind_of::<T>() == AxisKind::Value,
{
    T::value_classified();
}

impl NaturalWire for u8 {
    open spec fn spec_natural_wire(&self) -> JsonV {
        JsonV::Int(*self as int)
    }

    fn natural_wire(&self) -> Json {
        Json::Int(*self as i128)
    }
}

impl AxisKindMarker for u8 {
    type AxisType = ValueAxis;

    type Serialization = DefaultSerialisation;
}

impl ValueAxisCapable for u8 {
    proof fn value_classified() {
    }
}

impl NaturalWire for u16 {
    open spec fn spec_natural_wire(&self) -> JsonV {
        JsonV::Int(*self as int)
    }

    fn natural_wire(&self) -> Json {
        Json::Int(*self as i128)
    }
}

impl AxisKindMarker for u16 {
    type AxisType = ValueAxis;

    type Serialization = DefaultSerialisation;
}

impl ValueAxisCapable for u16 {
    proof fn value_classified() {
    }
}

impl NaturalWire for u32 {
    open spec fn spec_natural_wire(&self) -> JsonV {
        JsonV::Int(*self as int)
    }

    fn natural_wire(&self) -> Json {
        Json::Int(*self as i128)
    }
}

impl AxisKindMarker for u32 {
    type AxisType = ValueAxis;

    type Serialization = DefaultSerialisation;
}

impl ValueAxisCapable for u32 {
    proof fn value_classified() {
    }
}

impl NaturalWire for u64 {
    open spec fn spec_natural_wire(&self) -> JsonV {
        JsonV::Int(*self as int)
    }

    fn natural_wire(&self) -> Json {
        Json::Int(*self as i128)
    }
}

impl AxisKindMarker for u64 {
    type AxisType = ValueAxis;

    type Serialization = DefaultSerialisation;
}

impl ValueAxisCapable for u64 {
    proof fn value_classified() {
    }
}

impl NaturalWire for u128 {
    open spec fn spec_natural_wire(&self) -> JsonV {
        JsonV::Int(*self as int)
    }

    fn natural_wire(&self) -> Json {
        Json::UInt(*self)
    }
}

impl AxisKindMarker for u128 {
    type AxisType = ValueAxis;

    type Serialization = DefaultSerialisation;
}

impl ValueAxisCapable for u128 {
    proof fn value_classified() {
    }
}

impl NaturalWire for usize {
    open spec fn spec_natural_wire(&self) -> JsonV {
        JsonV::Int(*self as int)
    }

    fn natural_wire(&self) -> Json {
        Json::Int(*self as i128)
    }
}

impl AxisKindMarker for usize {
    type AxisType = ValueAxis;

    type Serialization = DefaultSerialisation;
}

impl ValueAxisCapable for usize {
    proof fn value_classified() {
    }
}

impl NaturalWire for i8 {
    open spec fn spec_natural_wire(&self) -> JsonV {
        JsonV::Int(*self as int)
    }

    fn natural_wire(&self) -> Json {
        Json::Int(*self as i128)
    }
}

impl AxisKindMarker for i8 {
    type AxisType = ValueAxis;

    type Serialization = DefaultSerialisation;
}

impl ValueAxisCapable for i8 {
    proof fn value_classified() {
    }
}

impl NaturalWire for i16 {
    open spec fn spec_natural_wire(&self) -> JsonV {
        JsonV::Int(*self as int)
    }

    fn natural_wire(&self) -> Json {
        Json::Int(*self as i128)
    }
}

impl AxisKindMarker for i16 {
    type AxisType = ValueAxis;

    type Serialization = DefaultSerialisation;
}

impl ValueAxisCapable for i16 {
    proof fn value_classified() {
    }
}

impl NaturalWire for i32 {
    open spec fn spec_natural_wire(&self) -> JsonV {
        JsonV::Int(*self as int)
    }

    fn natural_wire(&self) -> Json {
        Json::Int(*self as i128)
    }
}

impl AxisKindMarker for i32 {
    type AxisType = ValueAxis;

    type Serialization = DefaultSerialisation;
}

impl ValueAxisCapable for i32 {
    proof fn value_classified() {
    }
}

impl NaturalWire for i64 {
    open spec fn spec_natural_wire(&self) -> JsonV {
        JsonV::Int(*self as int)
    }

    fn natural_wire(&self) -> Json {
        Json::Int(*self as i128)
    }
}

impl AxisKindMarker for i64 {
    type AxisType = ValueAxis;

    type Serialization = DefaultSerialisation;
}

impl ValueAxisCapable for i64 {
    proof fn value_classified() {
    }
}

impl NaturalWire for i128 {
    open spec fn spec_natural_wire(&self) -> JsonV {
        JsonV::Int(*self as int)
    }

    fn natural_wire(&self) -> Json {
        Json::Int(*self)
    }
}

impl AxisKindMarker for i128 {
    type AxisType = ValueAxis;

    type Serialization = DefaultSerialisation;
}

impl ValueAxisCapable for i128 {
    proof fn value_classified() {
    }
}

impl NaturalWire for isize {
    open spec fn spec_natural_wire(&self) -> JsonV {
        JsonV::Int(*self as int)
    }

    fn natural_wire(&self) -> Json {
        Json::Int(*self as i128)
    }
}

impl AxisKindMarker for isize {
    type AxisType = ValueAxis;

    type Serialization = DefaultSerialisation;
}

impl ValueAxisCapable for isize {
    proof fn value_classified() {
    }
}

impl NaturalWire for String {
    open spec fn spec_natural_wire(&self) -> JsonV {
        JsonV::Str(self@)
    }

    fn natural_wire(&self) -> Json {
        Json::Str(self.clone())
    }
}

impl AxisKindMarker for String {
    type AxisType = CategoryAxis;

    type Serialization = DefaultSerialisation;
}

/// A numeric wire literal: carries, as text, the number that will stand
/// verbatim in the document. It is the value-axis host type for numbers
/// that have no integer representation, such as renderings of
/// floating-point values.
#[derive(Debug, Clone)]
pub struct JsonNumber {
    pub text: String,
}

impl JsonNumber {
    /// A literal from its text; the caller supplies a numeric literal.
    /// The text is not checked: `new` is the checked constructor.
    pub fn from_text(text: String) -> (r: Self)
        ensures
            r.text == text,
    {
        JsonNumber { text }
    }

    /// A literal from its text, accepted exactly when the text is a JSON
    /// number literal.
    pub fn new(text: String) -> (r: Option<Self>)
        ensures
            is_number_lit(text@) <==> r is Some,
            r is Some ==> r->0.text == text,
    {
        if check_number_lit(text.as_str()) {
            Some(JsonNumber { text })
        } else {
            None
        }
    }

    /// The literal of an integer.
    pub fn from_int(i: i64) -> (r: Self)
        ensures
            r.text@ == int_text(i as int),
    {
        let mut text = String::new();
        write_i128_dec(&mut text, i as i128);
        JsonNumber { text }
    }
}

impl NaturalWire for JsonNumber {
    open spec fn spec_natural_wire(&self) -> JsonV {
        JsonV::Num(self.text@)
    }

    fn natural_wire(&self) -> Json {
        Json::Num(self.text.clone())
    }
}

impl AxisKindMarker for JsonNumber {
    type AxisType = ValueAxis;

    type Serialization = DefaultSerialisation;
}

impl ValueAxisCapable for JsonNumber {
    proof fn value_classified() {
    }
}

} // verus!
