//! The context chain: a background root, value-bearing nodes, and the
//! typed lookup that walks from the leaf toward the root.

use std::sync::Arc;
use vstd::prelude::*;
use crate::value::TypeKey;
use crate::value::Value;

verus! {

/// A point in time, in nanoseconds from an arbitrary origin.  The
/// value chain never produces one: its nodes carry no deadline, and
/// the type exists only so that the deadline accessor has a result
/// type that a deadline-bearing collaborator could share.
#[derive(Clone, Copy, PartialEq, Eq, Structural, Debug)]
pub struct Timestamp {
    /// Nanoseconds from the origin.
    pub nanos: u64,
}

/// A context: the terminal background context, or a node that attaches
/// one value to a shared parent context.
pub enum Context {
    /// The root of every chain; holds no value and no deadline.
    Background,
    /// A value-bearing node.
    Node(WithValue),
}

/// One value-bearing chain node: a shared handle on the parent context
/// and the one value this node attaches.  Both are fixed at
/// construction; clones of the node share the same parent.
pub struct WithValue {
    /// The parent context, shared with clones and with concurrent
    /// lookups.
    pub parent: Arc<Context>,
    /// The value this node attaches.
    pub val: Value,
}

/// The first value in the chain whose runtime type is `key`, walking
/// the chain leaf-first, or `None` when no value of that type is
/// stored.
pub open spec fn lookup(chain: Seq<Value>, key: TypeKey) -> Option<Value>
    decreases chain.len(),
{
    if chain.len() == 0 {
        None
    } else if chain[0].key_of() == key {
        Some(chain[0])
    } else {
        lookup(chain.drop_first(), key)
    }
}

impl Context {
    /// The values stored along this chain, leaf-first: index 0 is the
    /// value of the newest node, the last index the value nearest the
    /// root.
    pub open spec fn chain(self) -> Seq<Value>
        decreases self,
    {
        match self {
            Context::Background => Seq::empty(),
            Context::Node(node) => seq![node.val] + (*node.parent).chain(),
        }
    }

    /// Returns an independent copy of the nearest value of type `key`,
    /// walking from this node toward the root, or `None` when no node
    /// of the chain stores a value of that type.
    pub fn value(&self, key: TypeKey) -> (r: Option<Value>)
        ensures
            r == lookup(self.chain(), key),
        decreases *self,
    {
        match self {
            Context::Background => None,
            Context::Node(node) => {
                let parent: &Context = &*node.parent;
                proof {
                    lemma_lookup_step(node.val, parent.chain(), key);
                }
                if node.val.type_key() == key {
                    Some(node.val.clone())
                } else {
                    parent.value(key)
                }
            },
        }
    }

    /// The value chain carries no deadline: always `None`.
    pub fn deadline(&self) -> (r: Option<Timestamp>)
        ensures
            r is None,
    {
        None
    }
}

/// One unfolding of `lookup` on a chain with `front` before `rest`:
/// the front value answers a lookup for its own type, and every other
/// lookup is delegated to the rest of the chain.
pub proof fn lemma_lookup_step(front: Value, rest: Seq<Value>, key: TypeKey)
    ensures
        lookup(seq![front] + rest, key) == if front.key_of() == key {
            Some(front)
        } else {
            lookup(rest, key)
        },
{
    let whole = seq![front] + rest;
    assert(whole[0] == front);
    assert(whole.drop_first() =~= rest);
}

/// Returns a fresh terminal context: no value, no parent, no deadline.
/// Every chain ends in one, and it answers every lookup with `None`.
pub fn background() -> (r: Context)
    ensures
        r == Context::Background,
        r.chain() == Seq::<Value>::empty(),
{
    Context::Background
}

/// Returns a new context that shares `parent` and associates `val`
/// with it.  The new node shadows any value of the same type stored
/// deeper in the chain; values of other types stay visible.
/// Construction never fails.
pub fn with_value(parent: Context, val: Value) -> (r: Context)
    ensures
        r.chain() == seq![val] + parent.chain(),
        r matches Context::Node(node) && node.val == val && *node.parent == parent,
{
    Context::Node(WithValue { parent: Arc::new(parent), val })
}

impl WithValue {
    /// The values stored along this node's chain, leaf-first: its own
    /// value, then the parent's chain.
    pub open spec fn chain(self) -> Seq<Value> {
        seq![self.val] + (*self.parent).chain()
    }

    /// Returns an independent copy of the nearest value of type `key`:
    /// this node's own value when the type matches, else the nearest
    /// match in the parent chain.
    pub fn value(&self, key: TypeKey) -> (r: Option<Value>)
        ensures
            r == lookup(self.chain(), key),
    {
        let parent: &Context = &*self.parent;
        proof {
            lemma_lookup_step(self.val, parent.chain(), key);
        }
        if self.val.type_key() == key {
            Some(self.val.clone())
        } else {
            parent.value(key)
        }
    }

    /// A value-bearing node carries no deadline: always `None`.
    pub fn deadline(&self) -> (r: Option<Timestamp>)
        ensures
            r is None,
    {
        None
    }
}

/// Relies on std's `Arc::clone`: the returned handle refers to the
/// same parent context as the old one, so as a value the two handles
/// are equal; the chain behind them is shared, not copied.
#[verifier::external_body]
fn share_parent(parent: &Arc<Context>) -> (r: Arc<Context>)
    ensures
        r == *parent,
{
    Arc::clone(parent)
}

impl Clone for WithValue {
    /// A duplicate node, equal to the original: it shares the same
    /// parent chain and stores an equal value, so every lookup against
    /// the duplicate yields what it yields against the original.
    fn clone(&self) -> (res: Self)
        ensures
            res == *self,
    {
        WithValue { parent: share_parent(&self.parent), val: self.val.clone() }
    }
}

impl Clone for Context {
    /// A duplicate context, equal to the original: the background
    /// duplicates to the background, and a node to an equal node that
    /// shares the original's parent chain.
    fn clone(&self) -> (res: Self)
        ensures
            res == *self,
    {
        match self {
            Context::Background => Context::Background,
            Context::Node(node) => Context::Node(node.clone()),
        }
    }
}

} // verus!
