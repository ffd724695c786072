use vstd::prelude::*;

use crate::address::Address;
use crate::key::{parse_path, Key, KeyKind, KeySeg};
use crate::storage::{has_creator, has_path, has_token, Storage};

verus! {

/// Whether the path of meaning `kind` names a creator that endorsed the transaction.
pub open spec fn creator_grants(kind: KeyKind, vs: Seq<Address>) -> bool {
    match kind {
        KeyKind::Creator(b) => vs.contains(b),
        _ => false,
    }
}

/// Whether a creator of the collection at `c`, as recorded in `pre`, endorsed
/// the transaction.
pub open spec fn creator_signed(c: Address, pre: Seq<Key>, vs: Seq<Address>) -> bool {
    exists|j: int| 0 <= j < pre.len() && creator_grants(parse_path(c, pre[j]@), vs)
}

/// Whether the path of meaning `kind` names an authority, other than `a`
/// itself, that may add `a` to the approvals of token `id`, and that authority
/// endorsed the transaction.
pub open spec fn grants(kind: KeyKind, id: u64, a: Address, vs: Seq<Address>) -> bool {
    match kind {
        KeyKind::Creator(b) => b != a && vs.contains(b),
        KeyKind::TokenApproval(t, b) => t == id && b != a && vs.contains(b),
        _ => false,
    }
}

/// Whether the creator or a current approver of token `id`, other than `a`,
/// endorsed the transaction.
pub open spec fn approval_signed(
    c: Address,
    pre: Seq<Key>,
    id: u64,
    a: Address,
    vs: Seq<Address>,
) -> bool {
    exists|j: int| 0 <= j < pre.len() && grants(parse_path(c, pre[j]@), id, a, vs)
}

/// Whether the change of path `k` is authorized for the collection at `c`.
pub open spec fn key_allowed(
    c: Address,
    k: Seq<KeySeg>,
    pre: Seq<Key>,
    post: Seq<Key>,
    vs: Seq<Address>,
) -> bool {
    match parse_path(c, k) {
        KeyKind::Foreign => true,
        KeyKind::Unrecognized => false,
        KeyKind::Creator(_) => !has_creator(c, pre),
        KeyKind::TokenField(id, _) => !has_token(c, pre, id) && has_path(post, k)
            && creator_signed(c, pre, vs),
        KeyKind::TokenApproval(id, a) => !has_path(pre, k) && has_path(post, k) && if has_token(
            c,
            pre,
            id,
        ) {
            approval_signed(c, pre, id, a, vs)
        } else {
            creator_signed(c, pre, vs)
        },
    }
}

/// Whether every change in `keys` is authorized for the collection at `c`.
pub open spec fn tx_allowed(
    c: Address,
    keys: Seq<Key>,
    pre: Seq<Key>,
    post: Seq<Key>,
    vs: Seq<Address>,
) -> bool {
    forall|i: int| 0 <= i < keys.len() ==> key_allowed(c, keys[i]@, pre, post, vs)
}

/// Whether `a` endorsed the transaction.
pub fn is_verifier(vs: &Vec<Address>, a: Address) -> (r: bool)
    ensures
        r == vs@.contains(a),
{
    let mut i: usize = 0;
    while i < vs.len()
        invariant
            0 <= i <= vs.len(),
            forall|j: int| 0 <= j < i ==> vs@[j] != a,
        decreases vs.len() - i,
    {
        if vs[i] == a {
            return true;
        }
        i = i + 1;
    }
    false
}

/// Whether a creator of the collection at `c` endorsed the transaction.
pub fn creator_endorsed(storage: &Storage, c: Address, vs: &Vec<Address>) -> (r: bool)
    ensures
        r == creator_signed(c, storage.pre@, vs@),
{
    let mut i: usize = 0;
    while i < storage.pre.len()
        invariant
            0 <= i <= storage.pre.len(),
            forall|j: int| 0 <= j < i ==> !creator_grants(parse_path(c, storage.pre@[j]@), vs@),
        decreases storage.pre.len() - i,
    {
        if let KeyKind::Creator(b) = storage.pre[i].parse(c) {
            if is_verifier(vs, b) {
                return true;
            }
        }
        i = i + 1;
    }
    false
}

/// Whether the creator or a current approver of token `id`, other than `a`,
/// endorsed the transaction.
pub fn approval_endorsed(storage: &Storage, c: Address, id: u64, a: Address, vs: &Vec<Address>) -> (r:
    bool)
    ensures
        r == approval_signed(c, storage.pre@, id, a, vs@),
{
    let mut i: usize = 0;
    while i < storage.pre.len()
        invariant
            0 <= i <= storage.pre.len(),
            forall|j: int| 0 <= j < i ==> !grants(parse_path(c, storage.pre@[j]@), id, a, vs@),
        decreases storage.pre.len() - i,
    {
        match storage.pre[i].parse(c) {
            KeyKind::Creator(b) => {
                if b != a && is_verifier(vs, b) {
                    return true;
                }
            },
            KeyKind::TokenApproval(t, b) => {
                if t == id && b != a && is_verifier(vs, b) {
                    return true;
                }
            },
            _ => {},
        }
        i = i + 1;
    }
    false
}

/// Whether the change of path `k` is authorized for the collection at `c`.
pub fn check_key(storage: &Storage, c: Address, k: &Key, vs: &Vec<Address>) -> (r: bool)
    ensures
        r == key_allowed(c, k@, storage.pre@, storage.post@, vs@),
{
    match k.parse(c) {
        KeyKind::Foreign => true,
        KeyKind::Unrecognized => false,
        KeyKind::Creator(_) => !storage.collection_exists_pre(c),
        KeyKind::TokenField(id, _) => {
            !storage.token_exists_pre(c, id) && storage.has_key_post(k) && creator_endorsed(
                storage,
                c,
                vs,
            )
        },
        KeyKind::TokenApproval(id, a) => {
            if storage.has_key_pre(k) || !storage.has_key_post(k) {
                false
            } else if storage.token_exists_pre(c, id) {
                approval_endorsed(storage, c, id, a, vs)
            } else {
                creator_endorsed(storage, c, vs)
            }
        },
    }
}

/// Decides whether the changes that a transaction made under the collection at
/// `addr` are authorized. The payload is not interpreted. Paths outside the
/// collection's namespace are left to their own predicates. The result depends
/// on the arguments alone.
pub fn validate_tx(
    tx_data: &Vec<u8>,
    addr: Address,
    keys_changed: &Vec<Key>,
    verifiers: &Vec<Address>,
    storage: &Storage,
) -> (r: bool)
    ensures
        r == tx_allowed(addr, keys_changed@, storage.pre@, storage.post@, verifiers@),
{
    if keys_changed.len() == 0 {
        return true;
    }
    let mut i: usize = 0;
    while i < keys_changed.len()
        invariant
            0 <= i <= keys_changed.len(),
            forall|j: int|
                0 <= j < i ==> key_allowed(
                    addr,
                    keys_changed@[j]@,
                    storage.pre@,
                    storage.post@,
                    verifiers@,
                ),
        decreases keys_changed.len() - i,
    {
        if !check_key(storage, addr, &keys_changed[i], verifiers) {
            return false;
        }
        i = i + 1;
    }
    true
}

} // verus!
