use vstd::prelude::*;

use crate::address::Address;
use crate::key::{
    creator_path, is_token_field, parse_path, token_approval_path, token_field_path, token_of, Key,
    KeyKind, KeySeg, Name,
};
use crate::policy::{
    approval_signed, creator_grants, creator_signed, grants, key_allowed, tx_allowed,
};
use crate::storage::{has_creator, has_path, has_token};

verus! {

/// Each path that the key scheme builds parses back to the meaning it was built
/// from, so the three shapes never collide.
pub proof fn parse_inverts_paths(c: Address, creator: Address, id: u64, field: Name, a: Address)
    ensures
        parse_path(c, creator_path(c, creator)) == KeyKind::Creator(creator),
        is_token_field(field) ==> parse_path(c, token_field_path(c, id, field))
            == KeyKind::TokenField(id, field),
        parse_path(c, token_approval_path(c, id, a)) == KeyKind::TokenApproval(id, a),
{
}

/// A path that belongs to token `id` and holds a value before the transaction
/// means that the token existed before it.
proof fn present_token_path_exists(c: Address, pre: Seq<Key>, k: Seq<KeySeg>, id: u64)
    requires
        has_path(pre, k),
        token_of(parse_path(c, k)) == Some(id),
    ensures
        has_token(c, pre, id),
{
    let j = choose|j: int| 0 <= j < pre.len() && pre[j]@ == k;
    assert(token_of(parse_path(c, pre[j]@)) == Some(id));
}

/// The decision is a function of the collection's address, the storage and the
/// changed paths and verifiers taken as sets: listing either in another order,
/// or with repetitions, gives the same answer.
pub proof fn decision_depends_on_sets_alone(
    c: Address,
    keys1: Seq<Key>,
    keys2: Seq<Key>,
    pre: Seq<Key>,
    post: Seq<Key>,
    vs1: Seq<Address>,
    vs2: Seq<Address>,
)
    requires
        forall|p: Seq<KeySeg>| has_path(keys1, p) == has_path(keys2, p),
        forall|a: Address| vs1.contains(a) == vs2.contains(a),
    ensures
        tx_allowed(c, keys1, pre, post, vs1) == tx_allowed(c, keys2, pre, post, vs2),
{
    assert forall|k: Seq<KeySeg>| key_allowed(c, k, pre, post, vs1) == key_allowed(
        c,
        k,
        pre,
        post,
        vs2,
    ) by {
        assert forall|j: int| 0 <= j < pre.len() implies creator_grants(
            parse_path(c, pre[j]@),
            vs1,
        ) == creator_grants(parse_path(c, pre[j]@), vs2) by {}
        assert forall|j: int, id: u64, a: Address| 0 <= j < pre.len() implies grants(
            parse_path(c, pre[j]@),
            id,
            a,
            vs1,
        ) == grants(parse_path(c, pre[j]@), id, a, vs2) by {}
    }
    if tx_allowed(c, keys1, pre, post, vs1) {
        assert forall|i: int| 0 <= i < keys2.len() implies key_allowed(
            c,
            keys2[i]@,
            pre,
            post,
            vs2,
        ) by {
            assert(has_path(keys2, keys2[i]@));
            let j = choose|j: int| 0 <= j < keys1.len() && keys1[j]@ == keys2[i]@;
            assert(key_allowed(c, keys1[j]@, pre, post, vs1));
        }
    }
    if tx_allowed(c, keys2, pre, post, vs2) {
        assert forall|i: int| 0 <= i < keys1.len() implies key_allowed(
            c,
            keys1[i]@,
            pre,
            post,
            vs1,
        ) by {
            assert(has_path(keys1, keys1[i]@));
            let j = choose|j: int| 0 <= j < keys2.len() && keys2[j]@ == keys1[i]@;
            assert(key_allowed(c, keys2[j]@, pre, post, vs2));
        }
    }
}

/// A transaction that changes no path is accepted, whatever the address,
/// storage and verifiers.
pub proof fn empty_diff_accepted(
    c: Address,
    keys: Seq<Key>,
    pre: Seq<Key>,
    post: Seq<Key>,
    vs: Seq<Address>,
)
    requires
        keys.len() == 0,
    ensures
        tx_allowed(c, keys, pre, post, vs),
{
}

/// Once the collection at `c` has a creator path holding a value, a
/// transaction that changes a creator path of it is rejected, whoever endorsed
/// it: the same creator path or one naming another creator.
pub proof fn creator_is_write_once(
    c: Address,
    creator: Address,
    other: Address,
    keys: Seq<Key>,
    pre: Seq<Key>,
    post: Seq<Key>,
    vs: Seq<Address>,
)
    requires
        has_path(pre, creator_path(c, creator)),
        has_path(keys, creator_path(c, other)),
    ensures
        !tx_allowed(c, keys, pre, post, vs),
{
    parse_inverts_paths(c, creator, 0, Name::Metadata, creator);
    parse_inverts_paths(c, other, 0, Name::Metadata, other);
    let j = choose|j: int| 0 <= j < pre.len() && pre[j]@ == creator_path(c, creator);
    assert(parse_path(c, pre[j]@) is Creator);
    assert(has_creator(c, pre));
    let i = choose|i: int| 0 <= i < keys.len() && keys[i]@ == creator_path(c, other);
    assert(!key_allowed(c, keys[i]@, pre, post, vs));
}

/// A transaction that only mints tokens, every changed path belonging to a
/// token that had no path before and holding a value after, into a collection
/// whose only recorded creator is `creator`, is accepted exactly when
/// `creator` endorsed it; endorsement by anyone else, such as the new tokens'
/// owner, does not suffice.
pub proof fn mint_needs_creator(
    c: Address,
    creator: Address,
    keys: Seq<Key>,
    pre: Seq<Key>,
    post: Seq<Key>,
    vs: Seq<Address>,
)
    requires
        keys.len() > 0,
        has_path(pre, creator_path(c, creator)),
        forall|j: int|
            0 <= j < pre.len() && (#[trigger] parse_path(c, pre[j]@)) is Creator ==> parse_path(
                c,
                pre[j]@,
            ) == KeyKind::Creator(creator),
        forall|i: int|
            0 <= i < keys.len() ==> {
                &&& token_of(#[trigger] parse_path(c, keys[i]@)) is Some
                &&& !has_token(c, pre, token_of(parse_path(c, keys[i]@))->0)
                &&& has_path(post, keys[i]@)
            },
    ensures
        tx_allowed(c, keys, pre, post, vs) == vs.contains(creator),
{
    parse_inverts_paths(c, creator, 0, Name::Metadata, creator);
    let w = choose|j: int| 0 <= j < pre.len() && pre[j]@ == creator_path(c, creator);
    assert(creator_signed(c, pre, vs) == vs.contains(creator)) by {
        if vs.contains(creator) {
            assert(creator_grants(parse_path(c, pre[w]@), vs));
        }
        if creator_signed(c, pre, vs) {
            let j = choose|j: int| 0 <= j < pre.len() && creator_grants(parse_path(c, pre[j]@), vs);
            assert(parse_path(c, pre[j]@) is Creator);
        }
    }
    assert forall|i: int| 0 <= i < keys.len() implies key_allowed(c, keys[i]@, pre, post, vs)
        == vs.contains(creator) by {
        let id = token_of(parse_path(c, keys[i]@))->0;
        if has_path(pre, keys[i]@) {
            present_token_path_exists(c, pre, keys[i]@, id);
        }
    }
    if !vs.contains(creator) {
        assert(!key_allowed(c, keys[0]@, pre, post, vs));
    }
}

/// Adding `b` to the approvals of token `id`, of which `a` is a current
/// approver, is accepted when `a` endorsed the transaction, and rejected when
/// `b` alone endorsed it: no address approves itself.
pub proof fn approval_delegation(
    c: Address,
    id: u64,
    a: Address,
    b: Address,
    keys: Seq<Key>,
    pre: Seq<Key>,
    post: Seq<Key>,
    vs: Seq<Address>,
)
    requires
        has_path(pre, token_approval_path(c, id, a)),
        !has_path(pre, token_approval_path(c, id, b)),
        has_path(post, token_approval_path(c, id, b)),
        keys.len() == 1,
        keys[0]@ == token_approval_path(c, id, b),
    ensures
        vs.contains(a) ==> tx_allowed(c, keys, pre, post, vs),
        vs == seq![b] ==> !tx_allowed(c, keys, pre, post, vs),
{
    parse_inverts_paths(c, a, id, Name::Metadata, a);
    parse_inverts_paths(c, b, id, Name::Metadata, b);
    present_token_path_exists(c, pre, token_approval_path(c, id, a), id);
    assert(a != b);
    let w = choose|j: int| 0 <= j < pre.len() && pre[j]@ == token_approval_path(c, id, a);
    if vs.contains(a) {
        assert(grants(parse_path(c, pre[w]@), id, b, vs));
        assert(approval_signed(c, pre, id, b, vs));
        assert(key_allowed(c, keys[0]@, pre, post, vs));
    }
    if vs == seq![b] {
        assert forall|j: int| 0 <= j < pre.len() implies !grants(
            parse_path(c, pre[j]@),
            id,
            b,
            vs,
        ) by {
            match parse_path(c, pre[j]@) {
                KeyKind::Creator(x) => {
                    if x != b {
                        assert(!vs.contains(x)) by {
                            if vs.contains(x) {
                                let k = choose|k: int| 0 <= k < vs.len() && vs[k] == x;
                            }
                        }
                    }
                },
                KeyKind::TokenApproval(_, x) => {
                    if x != b {
                        assert(!vs.contains(x)) by {
                            if vs.contains(x) {
                                let k = choose|k: int| 0 <= k < vs.len() && vs[k] == x;
                            }
                        }
                    }
                },
                _ => {},
            }
        }
        assert(!key_allowed(c, keys[0]@, pre, post, vs));
    }
}

} // verus!
