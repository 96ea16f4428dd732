//! What this crate takes from `tera::Context`.
//!
//! Each function here calls one function of `tera` and states, unproved, what
//! that function does, as its source shows it.

use crate::codegen::ValueView;
use tera::Context;
use vstd::prelude::*;

verus! {

/// `tera::Context`: the values that a template sees, each under its name.
#[verifier::external_type_specification]
#[verifier::external_body]
pub struct ExContext(Context);

/// What a context holds: the value under each name. A context keeps its
/// values in a map from names to values, so a name has one value.
pub uninterp spec fn context_map(c: Context) -> Map<Seq<char>, ValueView>;

/// The map of a context that holds nothing.
pub open spec fn nothing_bound() -> Map<Seq<char>, ValueView> {
    Map::empty()
}

/// [`Context::new`]: a context that holds nothing.
#[verifier::external_body]
pub(crate) fn new() -> (r: Context)
    ensures
        context_map(r) == nothing_bound(),
{
    Context::new()
}

/// [`Context::insert`] with a `bool`: `key` holds the flag from now on,
/// whatever it held, and the other names are left as they were.
#[verifier::external_body]
pub(crate) fn insert_flag(c: &mut Context, key: &str, v: bool)
    ensures
        context_map(*final(c)) == context_map(*old(c)).insert(key@, ValueView::Flag(v)),
{
    c.insert(key, &v)
}

/// [`Context::insert`] with a `u8`: `key` holds the number from now on,
/// whatever it held, and the other names are left as they were.
#[verifier::external_body]
pub(crate) fn insert_number(c: &mut Context, key: &str, n: u8)
    ensures
        context_map(*final(c)) == context_map(*old(c)).insert(key@, ValueView::Number(n as int)),
{
    c.insert(key, &n)
}

/// [`Context::insert`] with a `str`: `key` holds the text from now on,
/// whatever it held, and the other names are left as they were.
#[verifier::external_body]
pub(crate) fn insert_text(c: &mut Context, key: &str, v: &str)
    ensures
        context_map(*final(c)) == context_map(*old(c)).insert(key@, ValueView::Text(v@)),
{
    c.insert(key, v)
}

} // verus!
