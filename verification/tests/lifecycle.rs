use pooled_die::{
    AccountId, ClaimDice, CreateDice, DiceStore, EnlargePool, Error, GlobalState, Initialize,
    SettleDice, SourceCandidate, VrfAccountList,
};

fn id(v: u64) -> AccountId {
    AccountId { value: v }
}

const LIST_KEY: u64 = 100;

/// A registry whose pool holds sources 11, 12, ... up to `n` entries.
fn registry_with_pool(n: u64) -> (GlobalState, VrfAccountList) {
    let (mut gs, mut pool) = pooled_die::initialize(&Initialize { admin: id(7) }, 0);
    let mut cands = Vec::new();
    for k in 0..n {
        cands.push(SourceCandidate { key: id(11 + k), authority: id(LIST_KEY) });
    }
    let ctx = EnlargePool { admin: id(7), list_key: id(LIST_KEY), new_sources: cands };
    assert_eq!(pooled_die::enlarge_pool(&ctx, &mut gs, &mut pool), Ok(()));
    (gs, pool)
}

fn create_for(
    player: u64,
    gs: &mut GlobalState,
    pool: &VrfAccountList,
    store: &mut DiceStore,
) -> Result<pooled_die::RandomnessRequest, Error> {
    let ctx = CreateDice {
        player: id(player),
        list_key: id(LIST_KEY),
        source_authority: id(LIST_KEY),
    };
    pooled_die::create_dice(&ctx, 255, gs, pool, store)
}

fn payload_with_first(b: u8) -> Vec<u8> {
    let mut p = vec![0u8; 32];
    p[0] = b;
    p
}

#[test]
fn create_binds_source_and_advances_cursor() {
    let (mut gs, pool) = registry_with_pool(2);
    let mut store = DiceStore::new();
    let req = create_for(1, &mut gs, &pool, &mut store).unwrap();
    assert_eq!(req.source, id(11));
    assert_eq!(req.record_key, id(1));
    assert_eq!(req.permission_bump, 255);
    assert_eq!(gs.vrf_account_pointer, 1);
    assert_eq!(store.records.len(), 1);
    assert_eq!(store.records[0].owner, id(1));
    assert_eq!(store.records[0].face, 0);
    assert_eq!(store.records[0].bound_source, id(11));
}

#[test]
fn round_robin_visits_every_source_once() {
    let (mut gs, pool) = registry_with_pool(3);
    let mut store = DiceStore::new();
    let mut visited = Vec::new();
    for player in 1..=3u64 {
        let req = create_for(player, &mut gs, &pool, &mut store).unwrap();
        visited.push(req.source);
    }
    assert_eq!(visited, vec![id(11), id(12), id(13)]);
    // after exactly n calls the cursor is back at its starting value
    assert_eq!(gs.vrf_account_pointer, 0);
}

#[test]
fn create_on_empty_pool_fails() {
    let (mut gs, pool) = pooled_die::initialize(&Initialize { admin: id(7) }, 0);
    let mut store = DiceStore::new();
    assert_eq!(create_for(1, &mut gs, &pool, &mut store), Err(Error::EmptyPool));
    assert_eq!(store.records.len(), 0);
}

#[test]
fn create_authority_failure_is_atomic() {
    let (mut gs, pool) = registry_with_pool(3);
    let mut store = DiceStore::new();
    let ctx = CreateDice {
        player: id(1),
        list_key: id(LIST_KEY),
        source_authority: id(999),
    };
    assert_eq!(
        pooled_die::create_dice(&ctx, 255, &mut gs, &pool, &mut store),
        Err(Error::SourceAuthorityMismatch)
    );
    // the cursor is unchanged and no record was created
    assert_eq!(gs.vrf_account_pointer, 0);
    assert_eq!(store.records.len(), 0);
}

#[test]
fn duplicate_request_rejected_without_cursor_move() {
    let (mut gs, pool) = registry_with_pool(3);
    let mut store = DiceStore::new();
    assert!(create_for(1, &mut gs, &pool, &mut store).is_ok());
    assert_eq!(gs.vrf_account_pointer, 1);
    assert_eq!(
        create_for(1, &mut gs, &pool, &mut store),
        Err(Error::DuplicatePendingRequest)
    );
    assert_eq!(gs.vrf_account_pointer, 1);
    assert_eq!(store.records.len(), 1);
}

#[test]
fn settle_derives_face_from_first_byte() {
    let (mut gs, pool) = registry_with_pool(1);
    let mut store = DiceStore::new();
    create_for(1, &mut gs, &pool, &mut store).unwrap();
    let ctx = SettleDice {
        callback_source: id(11),
        callback_record_key: id(1),
        payload: payload_with_first(0x0D),
    };
    assert_eq!(pooled_die::settle_dice(&ctx, &mut store), Ok(()));
    // 13 mod 6 + 1 == 2
    assert_eq!(store.records[0].face, 2);
}

#[test]
fn settle_face_formula_edges() {
    for (byte, face) in [(5u8, 6u8), (6, 1), (255, 4), (1, 2)] {
        let (mut gs, pool) = registry_with_pool(1);
        let mut store = DiceStore::new();
        create_for(1, &mut gs, &pool, &mut store).unwrap();
        let ctx = SettleDice {
            callback_source: id(11),
            callback_record_key: id(1),
            payload: payload_with_first(byte),
        };
        assert_eq!(pooled_die::settle_dice(&ctx, &mut store), Ok(()));
        assert_eq!(store.records[0].face, face);
    }
}

#[test]
fn settle_all_zero_payload_is_a_no_op_success() {
    let (mut gs, pool) = registry_with_pool(1);
    let mut store = DiceStore::new();
    create_for(1, &mut gs, &pool, &mut store).unwrap();
    let ctx = SettleDice {
        callback_source: id(11),
        callback_record_key: id(1),
        payload: vec![0u8; 32],
    };
    assert_eq!(pooled_die::settle_dice(&ctx, &mut store), Ok(()));
    assert_eq!(store.records[0].face, 0);
}

#[test]
fn settle_twice_fails_the_second_time() {
    let (mut gs, pool) = registry_with_pool(1);
    let mut store = DiceStore::new();
    create_for(1, &mut gs, &pool, &mut store).unwrap();
    let ctx = SettleDice {
        callback_source: id(11),
        callback_record_key: id(1),
        payload: payload_with_first(0x0D),
    };
    assert_eq!(pooled_die::settle_dice(&ctx, &mut store), Ok(()));
    let ctx2 = SettleDice {
        callback_source: id(11),
        callback_record_key: id(1),
        payload: payload_with_first(0x0D),
    };
    assert_eq!(pooled_die::settle_dice(&ctx2, &mut store), Err(Error::AlreadySettled));
    assert_eq!(store.records[0].face, 2);
}

#[test]
fn settle_from_spoofed_source_rejected() {
    let (mut gs, pool) = registry_with_pool(2);
    let mut store = DiceStore::new();
    create_for(1, &mut gs, &pool, &mut store).unwrap();
    // bound to source 11; source 12 may not settle it, whatever the payload
    let spoofed = SettleDice {
        callback_source: id(12),
        callback_record_key: id(1),
        payload: payload_with_first(0x0D),
    };
    assert_eq!(pooled_die::settle_dice(&spoofed, &mut store), Err(Error::SourceMismatch));
    let spoofed_zero = SettleDice {
        callback_source: id(12),
        callback_record_key: id(1),
        payload: vec![0u8; 32],
    };
    assert_eq!(pooled_die::settle_dice(&spoofed_zero, &mut store), Err(Error::SourceMismatch));
    assert_eq!(store.records[0].face, 0);
}

#[test]
fn settle_unknown_record_fails() {
    let mut store = DiceStore::new();
    let ctx = SettleDice {
        callback_source: id(11),
        callback_record_key: id(1),
        payload: payload_with_first(0x0D),
    };
    assert_eq!(pooled_die::settle_dice(&ctx, &mut store), Err(Error::RecordNotFound));
}

#[test]
fn claim_pending_record_fails() {
    let (mut gs, pool) = registry_with_pool(1);
    let mut store = DiceStore::new();
    create_for(1, &mut gs, &pool, &mut store).unwrap();
    let ctx = ClaimDice { player: id(1) };
    assert_eq!(pooled_die::claim_dice(&ctx, &mut store), Err(Error::NotYetSettled));
    assert_eq!(store.records.len(), 1);
}

#[test]
fn claim_exactly_once() {
    let (mut gs, pool) = registry_with_pool(1);
    let mut store = DiceStore::new();
    create_for(1, &mut gs, &pool, &mut store).unwrap();
    let settle = SettleDice {
        callback_source: id(11),
        callback_record_key: id(1),
        payload: payload_with_first(0x0D),
    };
    assert_eq!(pooled_die::settle_dice(&settle, &mut store), Ok(()));
    let ctx = ClaimDice { player: id(1) };
    assert_eq!(pooled_die::claim_dice(&ctx, &mut store), Ok(2));
    assert_eq!(store.records.len(), 0);
    // the record is gone: further claims and settlements find nothing
    assert_eq!(pooled_die::claim_dice(&ctx, &mut store), Err(Error::RecordNotFound));
    let resettle = SettleDice {
        callback_source: id(11),
        callback_record_key: id(1),
        payload: payload_with_first(0x0D),
    };
    assert_eq!(pooled_die::settle_dice(&resettle, &mut store), Err(Error::RecordNotFound));
}

#[test]
fn claim_frees_the_key_for_a_new_request() {
    let (mut gs, pool) = registry_with_pool(2);
    let mut store = DiceStore::new();
    create_for(1, &mut gs, &pool, &mut store).unwrap();
    let settle = SettleDice {
        callback_source: id(11),
        callback_record_key: id(1),
        payload: payload_with_first(3),
    };
    assert_eq!(pooled_die::settle_dice(&settle, &mut store), Ok(()));
    assert_eq!(pooled_die::claim_dice(&ClaimDice { player: id(1) }, &mut store), Ok(4));
    // the same owner may request again, now bound to the next source
    let req = create_for(1, &mut gs, &pool, &mut store).unwrap();
    assert_eq!(req.source, id(12));
}
