//! Synthesis of the emitted syntax fragment as source text.

use crate::descriptor::{
    field_names, record_accepted, record_fields, reference_type, DeriveError, FieldDesc,
    RecordDesc, RecordShape,
};
use crate::validate::{rejection, validate};
use vstd::prelude::*;
use vstd::string::StringExecFns;

verus! {

/// The character for one decimal digit.
pub open spec fn digit_char(d: nat) -> char
    recommends
        d < 10,
{
    if d == 0 {
        '0'
    } else if d == 1 {
        '1'
    } else if d == 2 {
        '2'
    } else if d == 3 {
        '3'
    } else if d == 4 {
        '4'
    } else if d == 5 {
        '5'
    } else if d == 6 {
        '6'
    } else if d == 7 {
        '7'
    } else if d == 8 {
        '8'
    } else {
        '9'
    }
}

/// The decimal representation of a number, without leading zeros (a single
/// zero for the number zero).
pub open spec fn dec_str(n: nat) -> Seq<char>
    decreases n,
{
    if n < 10 {
        seq![digit_char(n)]
    } else {
        dec_str(n / 10) + seq![digit_char(n % 10)]
    }
}

fn digit_str(d: usize) -> (r: &'static str)
    requires
        d < 10,
    ensures
        r@ == seq![digit_char(d as nat)],
{
    proof {
        reveal_strlit("0");
        reveal_strlit("1");
        reveal_strlit("2");
        reveal_strlit("3");
        reveal_strlit("4");
        reveal_strlit("5");
        reveal_strlit("6");
        reveal_strlit("7");
        reveal_strlit("8");
        reveal_strlit("9");
    }
    if d == 0 {
        "0"
    } else if d == 1 {
        "1"
    } else if d == 2 {
        "2"
    } else if d == 3 {
        "3"
    } else if d == 4 {
        "4"
    } else if d == 5 {
        "5"
    } else if d == 6 {
        "6"
    } else if d == 7 {
        "7"
    } else if d == 8 {
        "8"
    } else {
        "9"
    }
}

/// Append the decimal representation of `n`.
fn push_dec(out: &mut String, n: usize)
    ensures
        final(out)@ == old(out)@ + dec_str(n as nat),
    decreases n,
{
    if n >= 10 {
        push_dec(out, n / 10);
    }
    out.append(digit_str(n % 10));
    proof {
        if n < 10 {
            assert(n % 10 == n);
            assert(old(out)@ + seq![digit_char((n % 10) as nat)] == old(out)@ + dec_str(
                n as nat,
            ));
        } else {
            assert((old(out)@ + dec_str((n / 10) as nat)) + seq![digit_char((n % 10) as nat)]
                =~= old(out)@ + dec_str(n as nat));
        }
    }
}

/// The rendering of one field as a borrow of itself: `&self.f`.
pub open spec fn ref_item(name: Seq<char>) -> Seq<char> {
    "&self."@ + name
}

/// `&self.f1, &self.f2, ...` over the field names, in declaration order.
pub open spec fn ref_list(names: Seq<Seq<char>>) -> Seq<char>
    decreases names.len(),
{
    if names.len() == 0 {
        Seq::empty()
    } else if names.len() == 1 {
        ref_item(names[0])
    } else {
        ref_list(names.drop_last()) + ", "@ + ref_item(names.last())
    }
}

/// `f1, f2, ...` over the field names, in declaration order.
pub open spec fn name_list(names: Seq<Seq<char>>) -> Seq<char>
    decreases names.len(),
{
    if names.len() == 0 {
        Seq::empty()
    } else if names.len() == 1 {
        names[0]
    } else {
        name_list(names.drop_last()) + ", "@ + names.last()
    }
}

/// Append `&self.f1, &self.f2, ...` for the fields, in declaration order.
fn push_ref_list(out: &mut String, fields: &Vec<FieldDesc>)
    ensures
        final(out)@ == old(out)@ + ref_list(field_names(fields@)),
{
    let ghost names = field_names(fields@);
    proof {
        assert(out@ =~= old(out)@ + ref_list(names.take(0)));
    }
    let mut i: usize = 0;
    while i < fields.len()
        invariant
            i <= fields@.len(),
            names == field_names(fields@),
            out@ == old(out)@ + ref_list(names.take(i as int)),
        decreases fields@.len() - i,
    {
        if i > 0 {
            out.append(", ");
        }
        out.append("&self.");
        out.append(fields[i].name.as_str());
        proof {
            assert(names[i as int] == fields@[i as int].name@);
            assert(names.take(i as int + 1).last() == names[i as int]);
            if i > 0 {
                assert(names.take(i as int + 1).drop_last() =~= names.take(i as int));
            }
            assert(out@ =~= old(out)@ + ref_list(names.take(i as int + 1)));
        }
        i += 1;
    }
    proof {
        assert(names.take(fields@.len() as int) =~= names);
    }
}

/// Append `f1, f2, ...` for the fields, in declaration order.
fn push_name_list(out: &mut String, fields: &Vec<FieldDesc>)
    ensures
        final(out)@ == old(out)@ + name_list(field_names(fields@)),
{
    let ghost names = field_names(fields@);
    proof {
        assert(out@ =~= old(out)@ + name_list(names.take(0)));
    }
    let mut i: usize = 0;
    while i < fields.len()
        invariant
            i <= fields@.len(),
            names == field_names(fields@),
            out@ == old(out)@ + name_list(names.take(i as int)),
        decreases fields@.len() - i,
    {
        if i > 0 {
            out.append(", ");
        }
        out.append(fields[i].name.as_str());
        proof {
            assert(names[i as int] == fields@[i as int].name@);
            assert(names.take(i as int + 1).last() == names[i as int]);
            if i > 0 {
                assert(names.take(i as int + 1).drop_last() =~= names.take(i as int));
            }
            assert(out@ =~= old(out)@ + name_list(names.take(i as int + 1)));
        }
        i += 1;
    }
    proof {
        assert(names.take(fields@.len() as int) =~= names);
    }
}

/// The exact source text of the emitted fragment for an accepted record:
/// one `impl` block on the record, holding the borrowing `as_array` method
/// and the consuming `to_array` method, each with its documentation string,
/// both returning a fixed-size array whose length is the field count and
/// whose elements stand in declaration order.
pub open spec fn emitted_impl(name: Seq<char>, names: Seq<Seq<char>>, ty: Seq<char>) -> Seq<char> {
    "impl "@ + name + " { #[doc = \"Represent "@ + name
        + " as array.\"] fn as_array(&self) -> [&"@ + ty + "; "@ + dec_str(names.len())
        + "] { ["@ + ref_list(names) + "] } #[doc = \"Convert "@ + name
        + " to array.\"] fn to_array(self) -> ["@ + ty + "; "@ + dec_str(names.len())
        + "] { let "@ + name + " { "@ + name_list(names) + " } = self; ["@ + name_list(names)
        + "] } }"@
}

/// The whole transformation: validate the declaration, and either emit the
/// impl fragment as source text, or report exactly why it was rejected.
pub fn expand(d: &RecordDesc) -> (r: Result<String, DeriveError>)
    ensures
        record_accepted(*d) ==> (r matches Ok(s) && s@ == emitted_impl(
            d.name@,
            field_names(record_fields(*d)),
            reference_type(record_fields(*d)),
        )),
        !record_accepted(*d) ==> r == Err::<String, DeriveError>(rejection(*d)),
{
    match validate(d) {
        Err(e) => Err(e),
        Ok(()) => match &d.shape {
            RecordShape::Named(fields) => {
                let ghost names = field_names(fields@);
                let n = fields.len();
                let name = d.name.as_str();
                let ty = fields[n - 1].ty.as_str();
                let mut out = String::new();
                out.append("impl ");
                out.append(name);
                out.append(" { #[doc = \"Represent ");
                out.append(name);
                out.append(" as array.\"] fn as_array(&self) -> [&");
                out.append(ty);
                out.append("; ");
                push_dec(&mut out, n);
                out.append("] { [");
                push_ref_list(&mut out, fields);
                out.append("] } #[doc = \"Convert ");
                out.append(name);
                out.append(" to array.\"] fn to_array(self) -> [");
                out.append(ty);
                out.append("; ");
                push_dec(&mut out, n);
                out.append("] { let ");
                out.append(name);
                out.append(" { ");
                push_name_list(&mut out, fields);
                out.append(" } = self; [");
                push_name_list(&mut out, fields);
                out.append("] } }");
                proof {
                    assert(names.len() == fields@.len());
                    assert(ty@ == reference_type(record_fields(*d)));
                    assert(out@ =~= emitted_impl(d.name@, names, ty@));
                }
                Ok(out)
            },
            _ => Err(DeriveError::UnsupportedShape),
        },
    }
}

} // verus!
