use vstd::prelude::*;

use crate::address::Address;

verus! {

/// The words that name fields inside a collection's storage namespace.
#[derive(Clone, Copy, Debug, PartialEq, Eq, Hash, Structural)]
pub enum Name {
    Creator,
    Ids,
    Metadata,
    CurrentOwner,
    Approvals,
    Burnt,
    PastOwners,
    Tag,
}

/// One segment of a storage path.
#[derive(Clone, Copy, Debug, PartialEq, Eq, Hash, Structural)]
pub enum KeySeg {
    Addr(Address),
    Id(u64),
    Field(Name),
}

/// A storage path: a sequence of segments, the first of which is normally the
/// address that owns the namespace.
#[derive(Clone, Debug, PartialEq, Eq, Hash)]
pub struct Key {
    pub segs: Vec<KeySeg>,
}

impl View for Key {
    type V = Seq<KeySeg>;

    open spec fn view(&self) -> Seq<KeySeg> {
        self.segs@
    }
}

/// What a path means to the collection at a given address.
#[derive(Clone, Copy, Debug, PartialEq, Eq, Structural)]
pub enum KeyKind {
    /// The path records `creator` as the collection's creator.
    Creator(Address),
    /// A per-token field other than the approvals (metadata, owner, ...).
    TokenField(u64, Name),
    /// The path records `approver` in the approval set of token `id`.
    TokenApproval(u64, Address),
    /// The path lies outside the collection's namespace.
    Foreign,
    /// The path lies inside the namespace but has no known shape.
    Unrecognized,
}

/// Token fields that are stored directly under a token's id.
pub open spec fn is_token_field(n: Name) -> bool {
    n == Name::Metadata || n == Name::CurrentOwner || n == Name::Burnt || n == Name::PastOwners
}

pub open spec fn creator_path(c: Address, creator: Address) -> Seq<KeySeg> {
    seq![KeySeg::Addr(c), KeySeg::Field(Name::Creator), KeySeg::Addr(creator)]
}

pub open spec fn token_field_path(c: Address, id: u64, field: Name) -> Seq<KeySeg> {
    seq![KeySeg::Addr(c), KeySeg::Field(Name::Ids), KeySeg::Id(id), KeySeg::Field(field)]
}

pub open spec fn token_approval_path(c: Address, id: u64, approver: Address) -> Seq<KeySeg> {
    seq![
        KeySeg::Addr(c),
        KeySeg::Field(Name::Ids),
        KeySeg::Id(id),
        KeySeg::Field(Name::Approvals),
        KeySeg::Addr(approver),
    ]
}

/// The meaning of path `k` for the collection at `c`.
pub open spec fn parse_path(c: Address, k: Seq<KeySeg>) -> KeyKind {
    if k.len() == 0 || k[0] != KeySeg::Addr(c) {
        KeyKind::Foreign
    } else if k.len() == 3 && k[1] == KeySeg::Field(Name::Creator) && k[2] is Addr {
        KeyKind::Creator(k[2]->Addr_0)
    } else if k.len() == 4 && k[1] == KeySeg::Field(Name::Ids) && k[2] is Id && k[3] is Field
        && is_token_field(k[3]->Field_0) {
        KeyKind::TokenField(k[2]->Id_0, k[3]->Field_0)
    } else if k.len() == 5 && k[1] == KeySeg::Field(Name::Ids) && k[2] is Id && k[3]
        == KeySeg::Field(Name::Approvals) && k[4] is Addr {
        KeyKind::TokenApproval(k[2]->Id_0, k[4]->Addr_0)
    } else {
        KeyKind::Unrecognized
    }
}

/// The token that a path belongs to, if any.
pub open spec fn token_of(kind: KeyKind) -> Option<u64> {
    match kind {
        KeyKind::TokenField(id, _) => Some(id),
        KeyKind::TokenApproval(id, _) => Some(id),
        _ => None,
    }
}

impl Key {
    /// The path that records `creator` as the creator of collection `c`.
    pub fn creator_key(c: Address, creator: Address) -> (r: Key)
        ensures
            r@ == creator_path(c, creator),
    {
        let r = Key { segs: vec![KeySeg::Addr(c), KeySeg::Field(Name::Creator), KeySeg::Addr(creator)] };
        assert(r@ =~= creator_path(c, creator));
        r
    }

    /// The path of field `field` of token `id` in collection `c`.
    pub fn token_key(c: Address, id: u64, field: Name) -> (r: Key)
        ensures
            r@ == token_field_path(c, id, field),
    {
        let r = Key {
            segs: vec![KeySeg::Addr(c), KeySeg::Field(Name::Ids), KeySeg::Id(id), KeySeg::Field(field)],
        };
        assert(r@ =~= token_field_path(c, id, field));
        r
    }

    /// The path that records `approver` as an approval of token `id` in collection `c`.
    pub fn token_approval_key(c: Address, id: u64, approver: Address) -> (r: Key)
        ensures
            r@ == token_approval_path(c, id, approver),
    {
        let r = Key {
            segs: vec![
                KeySeg::Addr(c),
                KeySeg::Field(Name::Ids),
                KeySeg::Id(id),
                KeySeg::Field(Name::Approvals),
                KeySeg::Addr(approver),
            ],
        };
        assert(r@ =~= token_approval_path(c, id, approver));
        r
    }

    /// Whether two paths are the same, segment by segment.
    pub fn same(&self, other: &Key) -> (r: bool)
        ensures
            r == (self@ == other@),
    {
        if self.segs.len() != other.segs.len() {
            return false;
        }
        let mut i: usize = 0;
        while i < self.segs.len()
            invariant
                self.segs.len() == other.segs.len(),
                0 <= i <= self.segs.len(),
                forall|j: int| 0 <= j < i ==> self@[j] == other@[j],
            decreases self.segs.len() - i,
        {
            if self.segs[i] != other.segs[i] {
                return false;
            }
            i = i + 1;
        }
        assert(self@ =~= other@);
        true
    }

    /// What this path means to the collection at `c`; never fails.
    pub fn parse(&self, c: Address) -> (r: KeyKind)
        ensures
            r == parse_path(c, self@),
    {
        let n = self.segs.len();
        if n == 0 || self.segs[0] != KeySeg::Addr(c) {
            return KeyKind::Foreign;
        }
        if n == 3 && self.segs[1] == KeySeg::Field(Name::Creator) {
            if let KeySeg::Addr(a) = self.segs[2] {
                return KeyKind::Creator(a);
            }
        }
        if n == 4 && self.segs[1] == KeySeg::Field(Name::Ids) {
            if let KeySeg::Id(id) = self.segs[2] {
                if let KeySeg::Field(f) = self.segs[3] {
                    if f == Name::Metadata || f == Name::CurrentOwner || f == Name::Burnt || f
                        == Name::PastOwners {
                        return KeyKind::TokenField(id, f);
                    }
                }
            }
        }
        if n == 5 && self.segs[1] == KeySeg::Field(Name::Ids) && self.segs[3] == KeySeg::Field(
            Name::Approvals,
        ) {
            if let KeySeg::Id(id) = self.segs[2] {
                if let KeySeg::Addr(a) = self.segs[4] {
                    return KeyKind::TokenApproval(id, a);
                }
            }
        }
        KeyKind::Unrecognized
    }
}

} // verus!
