use lobby_registry::contract::{handle, init, query, query_list, try_refresh};
use lobby_registry::msg::{Env, Error, HandleMsg, InitMsg, QueryMsg};
use lobby_registry::state::{Contract, State};

const SELF_HASH: &str = "self-hash";

fn env(sender: &str, time: u64) -> Env {
    Env {
        message_sender: sender.to_string(),
        block_time: time,
        contract_address: "lobby-addr".to_string(),
        contract_code_hash: SELF_HASH.to_string(),
    }
}

fn init_msg() -> InitMsg {
    InitMsg {
        stamp_addr: "stamp-addr".to_string(),
        stamp_hash: "stamp-hash".to_string(),
        game_code_id: 42,
        game_hash: "game-hash".to_string(),
        jackpot_addr: "jackpot-addr".to_string(),
        jackpot_hash: "jackpot-hash".to_string(),
    }
}

fn fresh_state() -> State {
    init("admin".to_string(), init_msg())
}

fn register(state: &mut State, sender: &str, time: u64, address: &str, referrer: &str) -> Result<(), Error> {
    let msg = HandleMsg::RegisteredCallback {
        address: address.to_string(),
        private: false,
        label: format!("table-{}", address),
        referrer: referrer.to_string(),
    };
    handle(state, &env(sender, time), msg).map(|_| ())
}

#[test]
fn init_sets_defaults() {
    let state = fresh_state();
    assert_eq!(state.admin, "admin");
    assert_eq!(state.remove_after, 7200);
    assert!(state.contracts.is_empty());
    assert_eq!(state.stamp_addr, "stamp-addr");
    assert_eq!(state.stamp_hash, "stamp-hash");
    assert_eq!(state.game_code_id, 42);
    assert_eq!(state.game_hash, "game-hash");
    assert_eq!(state.jackpot_addr, "jackpot-addr");
    assert_eq!(state.jackpot_hash, "jackpot-hash");
}

#[test]
fn register_with_matching_referrer_appends_entry() {
    let mut state = fresh_state();
    let r = register(&mut state, "someone", 1000, "table-a", SELF_HASH);
    assert!(r.is_ok());
    assert_eq!(state.contracts.len(), 1);
    let entry = &state.contracts[0];
    assert_eq!(entry.address, "table-a");
    assert_eq!(entry.label, "table-table-a");
    assert!(!entry.private);
    assert_eq!(entry.created_at, 1000);
}

#[test]
fn register_with_wrong_referrer_is_unauthenticated() {
    // Registering with referrer "wrong-hash" while the dispatcher's own
    // hash is "self-hash" fails and leaves the registry length unchanged.
    let mut state = fresh_state();
    register(&mut state, "someone", 1000, "table-a", SELF_HASH).unwrap();
    let before = state.contracts.len();
    let r = register(&mut state, "someone", 1001, "table-b", "wrong-hash");
    assert_eq!(r, Err(Error::Unauthenticated));
    assert_eq!(state.contracts.len(), before);
    assert_eq!(state.contracts[0].address, "table-a");
}

#[test]
fn register_prunes_expired_entries() {
    let mut state = fresh_state();
    register(&mut state, "someone", 1000, "table-a", SELF_HASH).unwrap();
    // 1000 + 7200 = 8200 <= 9000, so the old entry expires when the next
    // registration runs its follow-on sweep.
    register(&mut state, "someone", 9000, "table-b", SELF_HASH).unwrap();
    assert_eq!(state.contracts.len(), 1);
    assert_eq!(state.contracts[0].address, "table-b");
}

#[test]
fn refresh_removes_expired_entry() {
    // remove_after = 7200, one entry created at 1000: refreshing at 9000
    // (1000 + 7200 = 8200 < 9000) leaves an empty registry.
    let mut state = fresh_state();
    register(&mut state, "someone", 1000, "table-a", SELF_HASH).unwrap();
    let r = handle(&mut state, &env("anyone", 9000), HandleMsg::Refresh {});
    assert!(r.is_ok());
    assert!(state.contracts.is_empty());
}

#[test]
fn refresh_keeps_live_entry() {
    // Refreshing at 8000 (8200 > 8000) leaves the entry intact.
    let mut state = fresh_state();
    register(&mut state, "someone", 1000, "table-a", SELF_HASH).unwrap();
    let r = handle(&mut state, &env("anyone", 8000), HandleMsg::Refresh {});
    assert!(r.is_ok());
    assert_eq!(state.contracts.len(), 1);
    assert_eq!(state.contracts[0].address, "table-a");
}

#[test]
fn refresh_removes_entry_at_exact_expiry() {
    // Liveness is strict: at now = 8200, created_at + remove_after = 8200
    // is not greater than now, so the entry is pruned.
    let mut state = fresh_state();
    register(&mut state, "someone", 1000, "table-a", SELF_HASH).unwrap();
    try_refresh(&mut state, &env("anyone", 8200)).unwrap();
    assert!(state.contracts.is_empty());
}

#[test]
fn refresh_keeps_insertion_order() {
    let mut state = fresh_state();
    register(&mut state, "someone", 1000, "table-a", SELF_HASH).unwrap();
    register(&mut state, "someone", 5000, "table-b", SELF_HASH).unwrap();
    register(&mut state, "someone", 7000, "table-c", SELF_HASH).unwrap();
    // At 8500 the first entry (expiring at 8200) goes; the others stay in
    // registration order.
    try_refresh(&mut state, &env("anyone", 8500)).unwrap();
    let addrs: Vec<&str> = state.contracts.iter().map(|c| c.address.as_str()).collect();
    assert_eq!(addrs, vec!["table-b", "table-c"]);
}

#[test]
fn non_admin_cannot_update_timeout() {
    // Non-admin calls UpdateRemoveTimeout { new_timeout: 500 }: the result
    // is Unauthorized and remove_after keeps its prior value.
    let mut state = fresh_state();
    let r = handle(
        &mut state,
        &env("mallory", 100),
        HandleMsg::UpdateRemoveTimeout { new_timeout: 500 },
    );
    assert_eq!(r, Err(Error::Unauthorized));
    assert_eq!(state.remove_after, 7200);
}

#[test]
fn admin_updates_timeout() {
    let mut state = fresh_state();
    let r = handle(
        &mut state,
        &env("admin", 100),
        HandleMsg::UpdateRemoveTimeout { new_timeout: 500 },
    );
    assert!(r.is_ok());
    assert_eq!(state.remove_after, 500);
}

#[test]
fn non_admin_privileged_operations_leave_state_unchanged() {
    let mut state = fresh_state();
    register(&mut state, "someone", 1000, "table-a", SELF_HASH).unwrap();
    let snapshot = query_list(&state);
    let e = env("mallory", 2000);
    let attempts = vec![
        HandleMsg::UpdateRemoveTimeout { new_timeout: 1 },
        HandleMsg::UpdateValidCodeId { new_code_id: 7, new_hash: "h".to_string() },
        HandleMsg::UpdateStamper {
            new_stamp_addr: "a".to_string(),
            new_stamp_hash: "h".to_string(),
        },
        HandleMsg::UpdateJackpot {
            new_jackpot_addr: "a".to_string(),
            new_jackpot_hash: "h".to_string(),
        },
        HandleMsg::PassTheHatOn { new_admin: "mallory".to_string() },
    ];
    for msg in attempts {
        let r = handle(&mut state, &e, msg);
        assert_eq!(r, Err(Error::Unauthorized));
    }
    assert_eq!(state.admin, "admin");
    assert_eq!(state.remove_after, 7200);
    assert_eq!(state.stamp_addr, "stamp-addr");
    assert_eq!(state.stamp_hash, "stamp-hash");
    assert_eq!(state.game_code_id, 42);
    assert_eq!(state.game_hash, "game-hash");
    assert_eq!(state.jackpot_addr, "jackpot-addr");
    assert_eq!(state.jackpot_hash, "jackpot-hash");
    assert_eq!(query_list(&state), snapshot);
}

#[test]
fn update_code_id_clears_registry() {
    let mut state = fresh_state();
    register(&mut state, "someone", 1000, "table-a", SELF_HASH).unwrap();
    let r = handle(
        &mut state,
        &env("admin", 1100),
        HandleMsg::UpdateValidCodeId { new_code_id: 99, new_hash: "new-game-hash".to_string() },
    );
    assert!(r.is_ok());
    assert_eq!(state.game_code_id, 99);
    assert_eq!(state.game_hash, "new-game-hash");
    assert!(state.contracts.is_empty());
}

#[test]
fn update_stamper_clears_registry() {
    let mut state = fresh_state();
    register(&mut state, "someone", 1000, "table-a", SELF_HASH).unwrap();
    let r = handle(
        &mut state,
        &env("admin", 1100),
        HandleMsg::UpdateStamper {
            new_stamp_addr: "new-stamp-addr".to_string(),
            new_stamp_hash: "new-stamp-hash".to_string(),
        },
    );
    assert!(r.is_ok());
    assert_eq!(state.stamp_addr, "new-stamp-addr");
    assert_eq!(state.stamp_hash, "new-stamp-hash");
    assert_eq!(state.game_hash, "game-hash");
    assert!(state.contracts.is_empty());
}

#[test]
fn update_jackpot_clears_registry() {
    let mut state = fresh_state();
    register(&mut state, "someone", 1000, "table-a", SELF_HASH).unwrap();
    let r = handle(
        &mut state,
        &env("admin", 1100),
        HandleMsg::UpdateJackpot {
            new_jackpot_addr: "new-jackpot-addr".to_string(),
            new_jackpot_hash: "new-jackpot-hash".to_string(),
        },
    );
    assert!(r.is_ok());
    assert_eq!(state.jackpot_addr, "new-jackpot-addr");
    assert_eq!(state.jackpot_hash, "new-jackpot-hash");
    assert!(state.contracts.is_empty());
}

#[test]
fn admin_transfer_keeps_registry_and_moves_authority() {
    let mut state = fresh_state();
    register(&mut state, "someone", 1000, "table-a", SELF_HASH).unwrap();
    let r = handle(
        &mut state,
        &env("admin", 1100),
        HandleMsg::PassTheHatOn { new_admin: "successor".to_string() },
    );
    assert!(r.is_ok());
    assert_eq!(state.admin, "successor");
    assert_eq!(state.contracts.len(), 1);
    // The old admin has lost the capability; the new one holds it.
    let r = handle(
        &mut state,
        &env("admin", 1200),
        HandleMsg::UpdateRemoveTimeout { new_timeout: 10 },
    );
    assert_eq!(r, Err(Error::Unauthorized));
    let r = handle(
        &mut state,
        &env("successor", 1300),
        HandleMsg::UpdateRemoveTimeout { new_timeout: 10 },
    );
    assert!(r.is_ok());
    assert_eq!(state.remove_after, 10);
}

#[test]
fn create_new_table_builds_spawn_request() {
    let mut state = fresh_state();
    let r = handle(
        &mut state,
        &env("player", 1000),
        HandleMsg::CreateNewTable {
            label: "my-table".to_string(),
            password: Some("hunter2".to_string()),
            min_buy: 5,
            max_buy: 100,
        },
    )
    .unwrap();
    assert_eq!(r.messages.len(), 1);
    let req = &r.messages[0];
    assert_eq!(req.code_id, 42);
    assert_eq!(req.code_hash, "game-hash");
    assert_eq!(req.label, "my-table");
    let m = &req.init_msg;
    assert_eq!(m.bg, 0);
    assert_eq!(m.password, Some("hunter2".to_string()));
    assert_eq!(m.label, "my-table");
    assert_eq!(m.stamp_addr, "stamp-addr");
    assert_eq!(m.stamp_hash, "stamp-hash");
    assert_eq!(m.callback_addr, "lobby-addr");
    assert_eq!(m.callback_hash, SELF_HASH);
    assert_eq!(m.min_buy, 5);
    assert_eq!(m.max_buy, 100);
    assert_eq!(m.jackpot_addr, "jackpot-addr");
    assert_eq!(m.jackpot_hash, "jackpot-hash");
    // The factory touches neither the registry nor the configuration.
    assert!(state.contracts.is_empty());
    assert_eq!(state.game_code_id, 42);
}

#[test]
fn query_returns_snapshot_in_order_and_is_idempotent() {
    let mut state = fresh_state();
    register(&mut state, "someone", 1000, "table-a", SELF_HASH).unwrap();
    register(&mut state, "someone", 1001, "table-b", SELF_HASH).unwrap();
    let first = query(&state, QueryMsg::GetList {});
    let second = query(&state, QueryMsg::GetList {});
    assert_eq!(first, second);
    assert_eq!(first.contracts.len(), 2);
    assert_eq!(first.contracts[0].address, "table-a");
    assert_eq!(first.contracts[1].address, "table-b");
    // Querying does not prune, even when entries have expired.
    let mut expired = fresh_state();
    register(&mut expired, "someone", 1000, "table-a", SELF_HASH).unwrap();
    let e = Contract {
        address: "table-a".to_string(),
        label: "table-table-a".to_string(),
        private: false,
        created_at: 1000,
    };
    assert_eq!(query_list(&expired).contracts, vec![e]);
    assert_eq!(expired.contracts.len(), 1);
}
