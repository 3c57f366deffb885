//! The laws of the value chain, stated and proved over the spec-level
//! chain model that the executable contracts use.

use vstd::prelude::*;
use crate::context::Context;
use crate::context::lemma_lookup_step;
use crate::context::lookup;
use crate::value::TypeKey;
use crate::value::Value;

verus! {

/// Shadowing by recency: attach `v1` to any parent, then attach `v2`
/// of the same runtime type to the result; a lookup for that type on
/// the final node returns `v2`, never `v1`.  The two chain equalities
/// are exactly what `with_value` ensures for the two attachments.
pub proof fn lemma_shadowing_by_recency(parent: Context, a: Context, b: Context, v1: Value, v2: Value)
    requires
        v1.key_of() == v2.key_of(),
        a.chain() == seq![v1] + parent.chain(),
        b.chain() == seq![v2] + a.chain(),
    ensures
        lookup(b.chain(), v2.key_of()) == Some(v2),
{
    lemma_lookup_step(v2, a.chain(), v2.key_of());
}

/// Type discrimination: attaching values of two different runtime
/// types preserves both; a lookup for either type on the final node
/// returns that type's value, whichever of the two was attached first.
pub proof fn lemma_type_discrimination(parent: Context, a: Context, b: Context, v1: Value, v2: Value)
    requires
        v1.key_of() != v2.key_of(),
        a.chain() == seq![v1] + parent.chain(),
        b.chain() == seq![v2] + a.chain(),
    ensures
        lookup(b.chain(), v1.key_of()) == lookup(a.chain(), v1.key_of()),
        lookup(a.chain(), v1.key_of()) == Some(v1),
        lookup(b.chain(), v2.key_of()) == Some(v2),
{
    lemma_lookup_step(v2, a.chain(), v1.key_of());
    lemma_lookup_step(v2, a.chain(), v2.key_of());
    lemma_lookup_step(v1, parent.chain(), v1.key_of());
}

/// Distinct wrapper types with identical payload are not confused:
/// wrappers with different tags are different runtime types, so a
/// lookup for the first wrapper's type returns the first wrapper's
/// value and never the second's, even when the payloads coincide.
pub proof fn lemma_wrappers_not_confused(
    parent: Context,
    a: Context,
    b: Context,
    tag_a: u64,
    tag_b: u64,
    payload_a: i64,
    payload_b: i64,
)
    requires
        tag_a != tag_b,
        a.chain() == seq![Value::Custom(tag_a, payload_a)] + parent.chain(),
        b.chain() == seq![Value::Custom(tag_b, payload_b)] + a.chain(),
    ensures
        lookup(b.chain(), TypeKey::Custom(tag_a)) == lookup(a.chain(), TypeKey::Custom(tag_a)),
        lookup(a.chain(), TypeKey::Custom(tag_a)) == Some(Value::Custom(tag_a, payload_a)),
{
    lemma_type_discrimination(
        parent,
        a,
        b,
        Value::Custom(tag_a, payload_a),
        Value::Custom(tag_b, payload_b),
    );
}

/// Absence on the empty chain: a lookup for any type directly on the
/// background context returns `None`.
pub proof fn lemma_background_resolves_nothing(key: TypeKey)
    ensures
        lookup(Context::Background.chain(), key) is None,
{
}

/// Duplication preserves resolution: `clone` ensures the duplicate
/// equals the original, so any typed lookup yields equal results on
/// both.
pub proof fn lemma_duplicate_resolves_alike(original: Context, duplicate: Context, key: TypeKey)
    requires
        duplicate == original,
    ensures
        lookup(duplicate.chain(), key) == lookup(original.chain(), key),
{
}

impl Context {
    /// Holds when `self` is a strict ancestor of `descendant`: the
    /// parent of `descendant`, or an ancestor of that parent.
    pub open spec fn is_ancestor_of(self, descendant: Context) -> bool
        decreases descendant,
    {
        match descendant {
            Context::Background => false,
            Context::Node(node) => *node.parent == self || self.is_ancestor_of(*node.parent),
        }
    }
}

/// Every strict ancestor's chain is strictly shorter than its
/// descendant's: each attachment wraps an already-existing parent and
/// lengthens the chain by one.
pub proof fn lemma_ancestor_chain_shorter(ancestor: &Context, descendant: &Context)
    ensures
        ancestor.is_ancestor_of(*descendant) ==> ancestor.chain().len()
            < descendant.chain().len(),
    decreases *descendant,
{
    match descendant {
        Context::Background => {
        },
        Context::Node(node) => {
            lemma_ancestor_chain_shorter(ancestor, &*node.parent);
        },
    }
}

/// Acyclicity: no context is its own ancestor, so no sequence of
/// attachments can close the chain into a cycle.
pub proof fn lemma_no_cycles(context: &Context)
    ensures
        !context.is_ancestor_of(*context),
{
    lemma_ancestor_chain_shorter(context, context);
}

} // verus!
