use vp_nft::address::Address;
use vp_nft::key::{Key, KeyKind, KeySeg, Name};
use vp_nft::policy::validate_tx;
use vp_nft::storage::Storage;

fn nft_owner() -> Address {
    Address::new(2)
}

fn token_owner() -> Address {
    Address::new(1)
}

fn approval_1() -> Address {
    Address::new(3)
}

fn approval_2() -> Address {
    Address::new(4)
}

fn nft_address() -> Address {
    Address::new(1000)
}

/// The paths that a freshly created collection without tokens holds.
fn created() -> Vec<Key> {
    vec![Key::creator_key(nft_address(), nft_owner())]
}

/// The paths that minting token `id` for `owner` with `approvals` writes.
fn mint_paths(id: u64, approvals: &[Address]) -> Vec<Key> {
    let c = nft_address();
    let mut ks = vec![
        Key::token_key(c, id, Name::Metadata),
        Key::token_key(c, id, Name::CurrentOwner),
        Key::token_key(c, id, Name::Burnt),
    ];
    for a in approvals {
        ks.push(Key::token_approval_key(c, id, *a));
    }
    ks
}

fn after(pre: &[Key], written: &[Key]) -> Vec<Key> {
    let mut post = pre.to_vec();
    post.extend_from_slice(written);
    post
}

fn run(pre: Vec<Key>, written: Vec<Key>, verifiers: Vec<Address>) -> bool {
    let post = after(&pre, &written);
    let storage = Storage::new(pre, post);
    let tx_data: Vec<u8> = vec![];
    validate_tx(&tx_data, nft_address(), &written, &verifiers, &storage)
}

/// The collection with token 1 minted, with `approval_1` as its approver.
fn minted_with_approval() -> Vec<Key> {
    after(&created(), &mint_paths(1, &[approval_1()]))
}

#[test]
fn test_no_op_transaction() {
    assert!(run(created(), vec![], vec![]));
}

#[test]
fn test_mint_no_tokens() {
    assert!(run(created(), vec![], vec![nft_owner()]));
}

#[test]
fn test_mint_tokens() {
    assert!(run(created(), mint_paths(1, &[]), vec![nft_owner()]));
}

#[test]
fn test_mint_tokens_wrong_owner() {
    assert!(!run(created(), mint_paths(1, &[]), vec![token_owner()]));
}

#[test]
fn test_mint_tokens_with_approvals_authorized() {
    let written = vec![Key::token_approval_key(nft_address(), 1, approval_2())];
    assert!(run(minted_with_approval(), written, vec![approval_1()]));
}

#[test]
fn test_mint_tokens_with_approvals_not_authorized() {
    let written = vec![Key::token_approval_key(nft_address(), 1, approval_2())];
    assert!(!run(minted_with_approval(), written, vec![approval_2()]));
}

#[test]
fn test_cant_change_owner() {
    let written = vec![Key::creator_key(nft_address(), token_owner())];
    assert!(!run(created(), written, vec![]));
}

#[test]
fn same_creator_path_rewritten_is_rejected_even_with_creator_signing() {
    let written = vec![Key::creator_key(nft_address(), nft_owner())];
    assert!(!run(created(), written.clone(), vec![]));
    assert!(!run(created(), written, vec![nft_owner()]));
}

#[test]
fn creating_a_collection_is_accepted() {
    let written = vec![Key::creator_key(nft_address(), nft_owner())];
    assert!(run(vec![], written, vec![]));
}

#[test]
fn empty_diff_is_accepted_whatever_the_verifiers() {
    assert!(run(vec![], vec![], vec![]));
    assert!(run(minted_with_approval(), vec![], vec![token_owner(), approval_2()]));
}

#[test]
fn repeated_calls_agree() {
    let pre = created();
    let written = mint_paths(1, &[]);
    let post = after(&pre, &written);
    let storage = Storage::new(pre, post);
    let vs = vec![nft_owner()];
    let tx_data: Vec<u8> = vec![];
    let first = validate_tx(&tx_data, nft_address(), &written, &vs, &storage);
    let second = validate_tx(&tx_data, nft_address(), &written, &vs, &storage);
    assert_eq!(first, second);
    assert!(first);
}

#[test]
fn minting_several_tokens_with_approvals_needs_the_creator() {
    let mut written = mint_paths(1, &[approval_1()]);
    written.extend(mint_paths(2, &[]));
    assert!(run(created(), written.clone(), vec![nft_owner()]));
    assert!(!run(created(), written.clone(), vec![approval_1()]));
    assert!(!run(created(), written, vec![]));
}

#[test]
fn minting_without_a_recorded_creator_is_rejected() {
    assert!(!run(vec![], mint_paths(1, &[]), vec![nft_owner()]));
}

#[test]
fn rewriting_an_existing_token_field_is_rejected() {
    let written = vec![Key::token_key(nft_address(), 1, Name::CurrentOwner)];
    assert!(!run(minted_with_approval(), written, vec![nft_owner()]));
}

#[test]
fn creator_may_add_an_approval() {
    let written = vec![Key::token_approval_key(nft_address(), 1, approval_2())];
    assert!(run(minted_with_approval(), written, vec![nft_owner()]));
}

#[test]
fn creator_may_not_approve_itself() {
    let written = vec![Key::token_approval_key(nft_address(), 1, nft_owner())];
    assert!(!run(minted_with_approval(), written, vec![nft_owner()]));
}

#[test]
fn approver_of_another_token_cannot_add_an_approval() {
    let mut pre = minted_with_approval();
    pre.extend(mint_paths(2, &[approval_2()]));
    let written = vec![Key::token_approval_key(nft_address(), 1, token_owner())];
    assert!(!run(pre, written, vec![approval_2()]));
}

#[test]
fn removing_an_approval_is_rejected() {
    let pre = minted_with_approval();
    let removed = Key::token_approval_key(nft_address(), 1, approval_1());
    let post: Vec<Key> = pre.iter().filter(|k| !k.same(&removed)).cloned().collect();
    let storage = Storage::new(pre, post);
    let tx_data: Vec<u8> = vec![];
    let written = vec![removed];
    assert!(!validate_tx(&tx_data, nft_address(), &written, &vec![approval_1(), nft_owner()], &storage));
}

#[test]
fn unrecognized_path_is_rejected() {
    let c = nft_address();
    let odd = Key { segs: vec![KeySeg::Addr(c), KeySeg::Field(Name::Tag)] };
    assert_eq!(odd.parse(c), KeyKind::Unrecognized);
    assert!(!run(created(), vec![odd], vec![nft_owner()]));
    let approvals_as_field = Key {
        segs: vec![KeySeg::Addr(c), KeySeg::Field(Name::Ids), KeySeg::Id(1), KeySeg::Field(Name::Approvals)],
    };
    assert_eq!(approvals_as_field.parse(c), KeyKind::Unrecognized);
    assert!(!run(created(), vec![approvals_as_field], vec![nft_owner()]));
}

#[test]
fn foreign_path_is_ignored() {
    let other = Key::token_key(Address::new(7), 1, Name::Metadata);
    assert_eq!(other.parse(nft_address()), KeyKind::Foreign);
    assert_eq!(Key { segs: vec![] }.parse(nft_address()), KeyKind::Foreign);
    assert!(run(created(), vec![other], vec![]));
}

#[test]
fn paths_parse_to_their_meaning() {
    let c = nft_address();
    assert_eq!(Key::creator_key(c, nft_owner()).parse(c), KeyKind::Creator(nft_owner()));
    assert_eq!(Key::token_key(c, 5, Name::Metadata).parse(c), KeyKind::TokenField(5, Name::Metadata));
    assert_eq!(
        Key::token_approval_key(c, 5, approval_1()).parse(c),
        KeyKind::TokenApproval(5, approval_1())
    );
    assert_eq!(Key::token_key(c, 5, Name::Creator).parse(c), KeyKind::Unrecognized);
}

#[test]
fn paths_compare_by_segments() {
    let c = nft_address();
    assert!(Key::creator_key(c, nft_owner()).same(&Key::creator_key(c, nft_owner())));
    assert!(!Key::creator_key(c, nft_owner()).same(&Key::creator_key(c, token_owner())));
    assert!(!Key::creator_key(c, nft_owner()).same(&Key::token_key(c, 1, Name::Metadata)));
}

#[test]
fn order_and_repetition_of_inputs_do_not_matter() {
    let pre = created();
    let mut written = mint_paths(1, &[approval_1()]);
    let post = after(&pre, &written);
    let storage = Storage::new(pre, post);
    let tx_data: Vec<u8> = vec![];
    let forward = validate_tx(&tx_data, nft_address(), &written, &vec![token_owner(), nft_owner()], &storage);
    written.reverse();
    let first = written[0].clone();
    written.push(first);
    let backward = validate_tx(
        &tx_data,
        nft_address(),
        &written,
        &vec![nft_owner(), token_owner(), nft_owner()],
        &storage,
    );
    assert!(forward);
    assert_eq!(forward, backward);
}

#[test]
fn storage_answers_before_and_after() {
    let pre = created();
    let written = mint_paths(1, &[]);
    let post = after(&pre, &written);
    let storage = Storage::new(pre, post);
    let c = nft_address();
    let metadata = Key::token_key(c, 1, Name::Metadata);
    assert!(!storage.has_key_pre(&metadata));
    assert!(storage.has_key_post(&metadata));
    assert!(storage.has_key_pre(&Key::creator_key(c, nft_owner())));
    assert!(storage.collection_exists_pre(c));
    assert!(!storage.collection_exists_pre(Address::new(7)));
    assert!(!storage.token_exists_pre(c, 1));
    let later = Storage::new(storage.post.clone(), storage.post.clone());
    assert!(later.token_exists_pre(c, 1));
    assert!(!later.token_exists_pre(c, 2));
}

#[test]
fn verifier_membership() {
    let vs = vec![approval_1(), nft_owner()];
    assert!(vp_nft::policy::is_verifier(&vs, nft_owner()));
    assert!(!vp_nft::policy::is_verifier(&vs, token_owner()));
    assert!(!vp_nft::policy::is_verifier(&vec![], token_owner()));
}
