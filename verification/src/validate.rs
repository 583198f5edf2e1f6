//! The validation step: decide whether a declaration is accepted, and if
//! not, say exactly why, with the diagnostic text naming the record.

use crate::descriptor::{
    record_accepted, record_fields, reference_type, types_uniform, DeriveError, RecordDesc,
    RecordShape,
};
use vstd::prelude::*;
use vstd::string::StringExecFns;

verus! {

/// The error reported for a rejected declaration: a shape other than a
/// named-field struct is unsupported; a named-field struct is rejected for
/// emptiness before its field types are ever compared.
pub open spec fn rejection(d: RecordDesc) -> DeriveError {
    match d.shape {
        RecordShape::Named(fields) => if fields@.len() == 0 {
            DeriveError::EmptyRecord
        } else {
            DeriveError::HeterogeneousFieldTypes
        },
        _ => DeriveError::UnsupportedShape,
    }
}

/// Check that the declaration is a named-field struct with at least one
/// field and that every field's declared type equals the reference (last)
/// field's type.
pub fn validate(d: &RecordDesc) -> (r: Result<(), DeriveError>)
    ensures
        record_accepted(*d) ==> r == Ok::<(), DeriveError>(()),
        !record_accepted(*d) ==> r == Err::<(), DeriveError>(rejection(*d)),
{
    match &d.shape {
        RecordShape::Named(fields) => {
            let n = fields.len();
            if n == 0 {
                return Err(DeriveError::EmptyRecord);
            }
            let reference = &fields[n - 1].ty;
            let mut i: usize = 0;
            while i < n - 1
                invariant
                    d.shape is Named,
                    record_fields(*d) == fields@,
                    n == fields@.len(),
                    n >= 1,
                    i <= n - 1,
                    reference@ == fields@[n - 1].ty@,
                    forall|j: int| 0 <= j < i ==> (#[trigger] fields@[j]).ty@ == fields@[n - 1].ty@,
                decreases n - 1 - i,
            {
                if !(fields[i].ty == *reference) {
                    proof {
                        assert(fields@[i as int].ty@ != reference_type(fields@));
                        assert(!types_uniform(fields@));
                    }
                    return Err(DeriveError::HeterogeneousFieldTypes);
                }
                i += 1;
            }
            Ok(())
        },
        _ => Err(DeriveError::UnsupportedShape),
    }
}

/// The wording used for each shape in the unsupported-shape diagnostic.
pub open spec fn shape_text(shape: RecordShape) -> Seq<char> {
    match shape {
        RecordShape::Named(_) => "a struct with named fields"@,
        RecordShape::Tuple => "a tuple struct"@,
        RecordShape::Unit => "a unit struct"@,
        RecordShape::Enum => "an enum"@,
        RecordShape::Union => "a union"@,
    }
}

/// The diagnostic text for a rejected declaration. It names the record, and
/// for an unsupported shape it names the shape found.
pub open spec fn diagnostic_text(d: RecordDesc, e: DeriveError) -> Seq<char> {
    match e {
        DeriveError::UnsupportedShape => "AsArray can only be derived for a struct with named fields, but "@
            + d.name@ + " is "@ + shape_text(d.shape),
        DeriveError::EmptyRecord => "Struct "@ + d.name@ + " have no any fields"@,
        DeriveError::HeterogeneousFieldTypes => "Fields in struct "@ + d.name@
            + " have not same types"@,
    }
}

fn shape_str(shape: &RecordShape) -> (r: &'static str)
    ensures
        r@ == shape_text(*shape),
{
    match shape {
        RecordShape::Named(_) => "a struct with named fields",
        RecordShape::Tuple => "a tuple struct",
        RecordShape::Unit => "a unit struct",
        RecordShape::Enum => "an enum",
        RecordShape::Union => "a union",
    }
}

/// Render the diagnostic for a rejected declaration.
pub fn diagnostic(d: &RecordDesc, e: &DeriveError) -> (r: String)
    ensures
        r@ == diagnostic_text(*d, *e),
{
    let mut out = String::new();
    match e {
        DeriveError::UnsupportedShape => {
            out.append("AsArray can only be derived for a struct with named fields, but ");
            out.append(d.name.as_str());
            out.append(" is ");
            out.append(shape_str(&d.shape));
        },
        DeriveError::EmptyRecord => {
            out.append("Struct ");
            out.append(d.name.as_str());
            out.append(" have no any fields");
        },
        DeriveError::HeterogeneousFieldTypes => {
            out.append("Fields in struct ");
            out.append(d.name.as_str());
            out.append(" have not same types");
        },
    }
    out
}

} // verus!
