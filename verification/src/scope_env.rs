//! The chain of declared names that references are resolved against.
//!
//! The chain is an `im_rc::Vector`, a persistent vector. Verus cannot
//! see inside it: its entries are given a name, and the items below state
//! without proof what the vector's own methods do.
use crate::span::Span;
use im_rc::Vector;
use vstd::prelude::*;

verus! {

#[verifier::external_type_specification]
#[verifier::external_body]
#[verifier::reject_recursive_types(A)]
pub struct ExVector<A>(Vector<A>);

/// The entries of a scope chain, oldest first: each a declared name and the
/// span of its declaration.
pub uninterp spec fn env_entries(env: Vector<(String, Span)>) -> Seq<(Seq<char>, Span)>;

/// `Vector::new`: a chain without entries.
#[verifier::external_body]
pub(crate) fn env_new() -> (env: Vector<(String, Span)>)
    ensures
        env_entries(env) == Seq::<(Seq<char>, Span)>::empty(),
{
    Vector::new()
}

/// `Vector::push_back`: the chain gains one entry at its end.
#[verifier::external_body]
pub(crate) fn env_push(env: &mut Vector<(String, Span)>, name: String, span: Span)
    ensures
        env_entries(*final(env)) == env_entries(*old(env)).push((name@, span)),
{
    env.push_back((name, span))
}

/// `Vector::len`: the number of entries.
#[verifier::external_body]
pub(crate) fn env_len(env: &Vector<(String, Span)>) -> (len: usize)
    ensures
        len == env_entries(*env).len(),
{
    env.len()
}

/// Indexing a `Vector`, copied out: the entry at `index`, which must exist.
#[verifier::external_body]
pub(crate) fn env_get(env: &Vector<(String, Span)>, index: usize) -> (entry: (String, Span))
    requires
        index < env_entries(*env).len(),
    ensures
        (entry.0@, entry.1) == env_entries(*env)[index as int],
{
    let entry = &env[index];
    (entry.0.clone(), entry.1)
}

} // verus!
