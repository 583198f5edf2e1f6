//! Plain-value description of a type declaration, as the deriver reads it.

use vstd::prelude::*;

verus! {

/// One declared field of a record: its name and the source text of its
/// declared type. Two declared types count as the same exactly when their
/// texts are equal.
#[derive(Debug)]
pub struct FieldDesc {
    pub name: String,
    pub ty: String,
}

/// The shape of a type declaration.
#[derive(Debug)]
pub enum RecordShape {
    /// A struct with named fields, in declaration order.
    Named(Vec<FieldDesc>),
    /// A struct with positional (tuple) fields.
    Tuple,
    /// A unit struct, without a field list.
    Unit,
    /// An enum declaration.
    Enum,
    /// A union declaration.
    Union,
}

/// A type declaration: its name and its shape.
#[derive(Debug)]
pub struct RecordDesc {
    pub name: String,
    pub shape: RecordShape,
}

/// Why a declaration was rejected.
#[derive(Debug, Clone, Copy, PartialEq, Eq, Structural)]
pub enum DeriveError {
    /// The declaration is not a struct with named fields.
    UnsupportedShape,
    /// The declaration is a named-field struct with no fields at all.
    EmptyRecord,
    /// Some field's declared type differs from the reference type.
    HeterogeneousFieldTypes,
}

/// The names of the fields, in declaration order.
pub open spec fn field_names(fields: Seq<FieldDesc>) -> Seq<Seq<char>> {
    fields.map_values(|f: FieldDesc| f.name@)
}

/// The reference type: the declared type of the last field.
pub open spec fn reference_type(fields: Seq<FieldDesc>) -> Seq<char>
    recommends
        fields.len() >= 1,
{
    fields.last().ty@
}

/// Every field's declared type equals the reference type.
pub open spec fn types_uniform(fields: Seq<FieldDesc>) -> bool {
    forall|i: int| 0 <= i < fields.len() ==> (#[trigger] fields[i]).ty@ == reference_type(fields)
}

/// The field list of a named-field declaration; empty for any other shape.
pub open spec fn record_fields(d: RecordDesc) -> Seq<FieldDesc> {
    match d.shape {
        RecordShape::Named(fields) => fields@,
        _ => Seq::empty(),
    }
}

/// A declaration the deriver accepts: a struct with named fields, at least
/// one of them, all of one declared type.
pub open spec fn record_accepted(d: RecordDesc) -> bool {
    match d.shape {
        RecordShape::Named(fields) => fields@.len() >= 1 && types_uniform(fields@),
        _ => false,
    }
}

} // verus!
