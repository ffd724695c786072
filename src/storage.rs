use vstd::prelude::*;

use crate::address::Address;
use crate::key::{parse_path, token_of, Key, KeyKind, KeySeg};

verus! {

/// Whether path `k` is among `ks`.
pub open spec fn has_path(ks: Seq<Key>, k: Seq<KeySeg>) -> bool {
    exists|j: int| 0 <= j < ks.len() && ks[j]@ == k
}

/// Whether `ks` records any creator for the collection at `c`.
pub open spec fn has_creator(c: Address, ks: Seq<Key>) -> bool {
    exists|j: int| 0 <= j < ks.len() && parse_path(c, ks[j]@) is Creator
}

/// Whether `ks` holds any path of token `id` of the collection at `c`.
pub open spec fn has_token(c: Address, ks: Seq<Key>, id: u64) -> bool {
    exists|j: int| 0 <= j < ks.len() && token_of(parse_path(c, ks[j]@)) == Some(id)
}

/// A read-only view of the ledger around one transaction: the paths that hold a
/// value before the transaction and those that hold one after it.
#[derive(Clone, Debug)]
pub struct Storage {
    pub pre: Vec<Key>,
    pub post: Vec<Key>,
}

/// Whether `k` is among `ks`.
pub fn contains_key(ks: &Vec<Key>, k: &Key) -> (r: bool)
    ensures
        r == has_path(ks@, k@),
{
    let mut i: usize = 0;
    while i < ks.len()
        invariant
            0 <= i <= ks.len(),
            forall|j: int| 0 <= j < i ==> ks@[j]@ != k@,
        decreases ks.len() - i,
    {
        if ks[i].same(k) {
            return true;
        }
        i = i + 1;
    }
    false
}

impl Storage {
    pub fn new(pre: Vec<Key>, post: Vec<Key>) -> (r: Storage)
        ensures
            r.pre@ == pre@,
            r.post@ == post@,
    {
        Storage { pre, post }
    }

    /// Whether `k` held a value before the transaction.
    pub fn has_key_pre(&self, k: &Key) -> (r: bool)
        ensures
            r == has_path(self.pre@, k@),
    {
        contains_key(&self.pre, k)
    }

    /// Whether `k` holds a value after the transaction.
    pub fn has_key_post(&self, k: &Key) -> (r: bool)
        ensures
            r == has_path(self.post@, k@),
    {
        contains_key(&self.post, k)
    }

    /// Whether the collection at `c` had a creator before the transaction.
    pub fn collection_exists_pre(&self, c: Address) -> (r: bool)
        ensures
            r == has_creator(c, self.pre@),
    {
        let mut i: usize = 0;
        while i < self.pre.len()
            invariant
                0 <= i <= self.pre.len(),
                forall|j: int| 0 <= j < i ==> !(parse_path(c, self.pre@[j]@) is Creator),
            decreases self.pre.len() - i,
        {
            if let KeyKind::Creator(_) = self.pre[i].parse(c) {
                return true;
            }
            i = i + 1;
        }
        false
    }

    /// Whether token `id` of the collection at `c` had any path before the transaction.
    pub fn token_exists_pre(&self, c: Address, id: u64) -> (r: bool)
        ensures
            r == has_token(c, self.pre@, id),
    {
        let mut i: usize = 0;
        while i < self.pre.len()
            invariant
                0 <= i <= self.pre.len(),
                forall|j: int| 0 <= j < i ==> token_of(parse_path(c, self.pre@[j]@)) != Some(id),
            decreases self.pre.len() - i,
        {
            match self.pre[i].parse(c) {
                KeyKind::TokenField(t, _) => {
                    if t == id {
                        return true;
                    }
                },
                KeyKind::TokenApproval(t, _) => {
                    if t == id {
                        return true;
                    }
                },
                _ => {},
            }
            i = i + 1;
        }
        false
    }
}

} // verus!
