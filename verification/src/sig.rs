//! Node identity and parameter binding.
//!
//! Every node of a signal graph carries a `Tag`: a unique, stable identifier
//! handed out by an `IdGen` counter.  A parameter binding (`In`) is either a
//! fixed constant or a reference to another node's most recent output by
//! tag; it is resolved afresh against the graph's cached outputs every
//! sample.

use vstd::prelude::*;

verus! {

/// Stable unique identifier of a graph node.
pub type Tag = u64;

/// Hands out unique node tags: a monotonic counter.
pub struct IdGen {
    pub next: u64,
}

impl IdGen {
    /// A fresh allocator, starting at zero.
    pub fn new() -> (r: IdGen)
        ensures
            r.next == 0,
    {
        IdGen { next: 0 }
    }

    /// The next unused tag; each call returns a larger tag than the one before.
    pub fn id(&mut self) -> (t: Tag)
        requires
            old(self).next < u64::MAX,
        ensures
            t == old(self).next,
            final(self).next == old(self).next + 1,
    {
        let t = self.next;
        self.next = self.next + 1;
        t
    }
}

/// A parameter binding: a fixed constant, or the cached output of the node
/// with the given tag.
#[derive(Clone, Copy, PartialEq, Eq, Structural, Debug)]
pub enum In {
    Fix(i64),
    Cv(Tag),
}

/// True when no tag occurs twice.
pub open spec fn distinct_tags(tags: Seq<u64>) -> bool {
    forall|i: int, j: int| 0 <= i < j < tags.len() ==> tags[i] != tags[j]
}

/// True when some node carries tag `t`.
pub open spec fn has_tag(tags: Seq<u64>, t: u64) -> bool {
    exists|i: int| 0 <= i < tags.len() && tags[i] == t
}

/// The cached output of the node tagged `t`, or zero when no node carries
/// that tag.
pub open spec fn spec_lookup(tags: Seq<u64>, outs: Seq<i64>, t: u64) -> int
    recommends
        tags.len() == outs.len(),
{
    if has_tag(tags, t) {
        outs[choose|i: int| 0 <= i < tags.len() && tags[i] == t] as int
    } else {
        0
    }
}

/// What a binding stands for, against the given tags and cached outputs.
pub open spec fn spec_resolve(tags: Seq<u64>, outs: Seq<i64>, inp: In) -> int
    recommends
        tags.len() == outs.len(),
{
    match inp {
        In::Fix(v) => v as int,
        In::Cv(t) => spec_lookup(tags, outs, t),
    }
}

/// Find the position of tag `t`, scanning from the front.
pub fn find_tag(tags: &Vec<u64>, t: u64) -> (r: Option<usize>)
    ensures
        match r {
            Some(i) => i < tags@.len() && tags@[i as int] == t,
            None => !has_tag(tags@, t),
        },
{
    let n = tags.len();
    let mut i: usize = 0;
    while i < n
        invariant
            n == tags@.len(),
            i <= n,
            forall|j: int| 0 <= j < i ==> tags@[j] != t,
        decreases n - i,
    {
        if tags[i] == t {
            return Some(i);
        }
        i = i + 1;
    }
    None
}

/// Read the cached output of the node tagged `t`, or zero when no node
/// carries that tag.
pub fn lookup_out(tags: &Vec<u64>, outs: &Vec<i64>, t: u64) -> (r: i64)
    requires
        tags@.len() == outs@.len(),
        distinct_tags(tags@),
    ensures
        r as int == spec_lookup(tags@, outs@, t),
{
    match find_tag(tags, t) {
        Some(i) => {
            proof {
                let c = choose|k: int| 0 <= k < tags@.len() && tags@[k] == t;
                assert(tags@[c] == t);
                assert(c == i);
            }
            outs[i]
        },
        None => 0,
    }
}

/// Resolve a binding against the graph's tags and cached outputs.
pub fn resolve(tags: &Vec<u64>, outs: &Vec<i64>, inp: In) -> (r: i64)
    requires
        tags@.len() == outs@.len(),
        distinct_tags(tags@),
    ensures
        r as int == spec_resolve(tags@, outs@, inp),
{
    match inp {
        In::Fix(v) => v,
        In::Cv(t) => match find_tag(tags, t) {
            Some(i) => {
                proof {
                    let c = choose|k: int| 0 <= k < tags@.len() && tags@[k] == t;
                    assert(tags@[c] == t);
                    assert(c == i);
                }
                outs[i]
            },
            None => 0,
        },
    }
}

} // verus!
