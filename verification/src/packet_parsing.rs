//! The parse orchestrators: run a block that reads (and optionally
//! validates) one field or a whole group of fields, and wrap any failure
//! escaping the block with the field or group name.

use crate::error::ErrorCause;
use crate::error::PacketParseError;
use vstd::prelude::*;

verus! {

/// Run `block` for one logical field. On success the block's value is
/// returned unchanged; any failure is wrapped as a leaf failure tagged
/// `field_name`, whatever happened inside the block.
pub fn try_parse_field<T, F: FnOnce() -> Result<T, ErrorCause>>(field_name: &str, block: F) -> (r:
    Result<T, PacketParseError>)
    requires
        call_requires(block, ()),
    ensures
        match r {
            Ok(v) => call_ensures(block, (), Ok(v)),
            Err(e) => {
                &&& e matches PacketParseError::Field { field_name: n, error: c }
                &&& n@ == field_name@
                &&& call_ensures(block, (), Err(c))
            },
        },
{
    match block() {
        Ok(v) => Ok(v),
        Err(e) => Err(PacketParseError::Field { field_name: field_name.to_owned(), error: e }),
    }
}

/// Run `block` for a group of fields. On success the block's value is
/// returned unchanged; a failure, already tagged with its own field or group
/// name, is wrapped as a group failure tagged `group_name` with the inner
/// error kept whole.
pub fn try_parse_field_group<T, F: FnOnce() -> Result<T, PacketParseError>>(
    group_name: &str,
    block: F,
) -> (r: Result<T, PacketParseError>)
    requires
        call_requires(block, ()),
    ensures
        match r {
            Ok(v) => call_ensures(block, (), Ok(v)),
            Err(e) => {
                &&& e matches PacketParseError::FieldGroup { field_group_name: n, error: inner }
                &&& n@ == group_name@
                &&& call_ensures(block, (), Err(*inner))
            },
        },
{
    match block() {
        Ok(v) => Ok(v),
        Err(e) => Err(
            PacketParseError::FieldGroup {
                field_group_name: group_name.to_owned(),
                error: Box::new(e),
            },
        ),
    }
}

/// Wrapping an error in a group keeps the failing field's name: the leaf of
/// the chain is the leaf of the inner error.
pub proof fn lemma_group_keeps_leaf(e: PacketParseError)
    requires
        e matches PacketParseError::FieldGroup { .. },
    ensures
        e matches PacketParseError::FieldGroup { field_group_name, error } ==> {
            &&& e.spec_leaf_name() == error.spec_leaf_name()
            &&& e.spec_leaf_error() == error.spec_leaf_error()
            &&& e.path_names() == seq![field_group_name@] + error.path_names()
        },
{
}

/// Nesting law: a field failure wrapped by two groups reports the path
/// outer group, inner group, field, in that order and nothing else, and
/// keeps the field's own name and cause as the leaf.
pub proof fn lemma_nested_group_path(
    outer: PacketParseError,
    mid: PacketParseError,
    inner: PacketParseError,
    g: Seq<char>,
    h: Seq<char>,
    f: Seq<char>,
    c: ErrorCause,
)
    requires
        outer matches PacketParseError::FieldGroup { field_group_name: gn, error: e1 } && gn@ == g
            && *e1 == mid,
        mid matches PacketParseError::FieldGroup { field_group_name: hn, error: e2 } && hn@ == h
            && *e2 == inner,
        inner matches PacketParseError::Field { field_name: fname, error: cause } && fname@ == f
            && cause == c,
    ensures
        outer.path_names() =~= seq![g, h, f],
        outer.spec_leaf_name() == f,
        outer.spec_leaf_error() == c,
{
    assert(inner.path_names() =~= seq![f]);
    assert(mid.path_names() =~= seq![h, f]);
    assert(inner.spec_leaf_name() == f);
    assert(inner.spec_leaf_error() == c);
    assert(mid.spec_leaf_name() == f);
    assert(mid.spec_leaf_error() == c);
}

} // verus!
