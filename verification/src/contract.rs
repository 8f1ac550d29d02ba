use vstd::prelude::*;
use crate::msg::{
    Env, Error, GameContractInitMsg, HandleMsg, HandleResponse, InitMsg, ListResponse, QueryMsg,
    SpawnRequest,
};
use crate::state::{pruned, same_config, Contract, State};

verus! {

broadcast use vstd::seq_lib::group_filter_ensures, Seq::lemma_filter_push;

/// Builds the initial state: the creator becomes admin, the registry starts
/// empty, the retention window defaults to two hours, and the trust pin is
/// taken from the initialization message.
pub fn init(sender: String, msg: InitMsg) -> (state: State)
    ensures
        state.admin == sender,
        state.contracts@.len() == 0,
        state.remove_after == 7200,
        state.stamp_addr == msg.stamp_addr,
        state.stamp_hash == msg.stamp_hash,
        state.game_code_id == msg.game_code_id,
        state.game_hash == msg.game_hash,
        state.jackpot_addr == msg.jackpot_addr,
        state.jackpot_hash == msg.jackpot_hash,
        sender@.len() > 0 ==> state.wf(),
{
    State {
        admin: sender,
        contracts: Vec::new(),
        remove_after: 2 * 60 * 60,
        stamp_addr: msg.stamp_addr,
        stamp_hash: msg.stamp_hash,
        game_code_id: msg.game_code_id,
        game_hash: msg.game_hash,
        jackpot_addr: msg.jackpot_addr,
        jackpot_hash: msg.jackpot_hash,
    }
}

/// Admin guard: succeeds exactly when the caller is the stored admin;
/// every privileged operation runs it before touching the state.
pub fn require_admin(env: &Env, state: &State) -> (r: Result<bool, Error>)
    ensures
        r is Ok <==> env.message_sender@ == state.admin@,
        r is Err ==> r == Err::<bool, Error>(Error::Unauthorized),
        r matches Ok(b) ==> b,
{
    if env.message_sender != state.admin {
        return Err(Error::Unauthorized);
    }
    Ok(true)
}

/// The pruning sweep: retains exactly the entries that are still live at
/// the current block time, in registration order.
pub fn clean_old_contracts(state: &mut State, env: &Env)
    ensures
        final(state).contracts@ == pruned(
            old(state).contracts@,
            old(state).remove_after,
            env.block_time,
        ),
        same_config(*old(state), *final(state)),
{
    let mut kept: Vec<Contract> = Vec::new();
    let mut i: usize = 0;
    proof {
        assert(state.contracts@.take(0) =~= Seq::<Contract>::empty());
    }
    while i < state.contracts.len()
        invariant
            *state == *old(state),
            i <= state.contracts.len(),
            kept@ == pruned(
                old(state).contracts@.take(i as int),
                old(state).remove_after,
                env.block_time,
            ),
        decreases state.contracts.len() - i,
    {
        let c = &state.contracts[i];
        if (c.created_at as u128) + (state.remove_after as u128) > (env.block_time as u128) {
            kept.push(c.clone());
        }
        proof {
            let s = old(state).contracts@;
            assert(s.take(i + 1) =~= s.take(i as int).push(s[i as int]));
        }
        i = i + 1;
    }
    proof {
        assert(old(state).contracts@.take(old(state).contracts@.len() as int)
            =~= old(state).contracts@);
    }
    state.contracts = kept;
}

/// The relation `Refresh` establishes between the state before and after:
/// the registry is pruned and nothing else changes.
pub open spec fn refresh_rel(
    pre: State,
    post: State,
    now: u64,
    r: Result<HandleResponse, Error>,
) -> bool {
    &&& r matches Ok(resp) && resp.messages@.len() == 0
    &&& post.contracts@ == pruned(pre.contracts@, pre.remove_after, now)
    &&& same_config(pre, post)
}

/// `Refresh`: runs the pruning sweep. It needs no authorization because it
/// only removes entries that have already expired.
pub fn try_refresh(state: &mut State, env: &Env) -> (r: Result<HandleResponse, Error>)
    ensures
        refresh_rel(*old(state), *final(state), env.block_time, r),
{
    clean_old_contracts(state, env);
    Ok(HandleResponse { messages: Vec::new() })
}

/// The spawn request the factory builds: the child's initialization message
/// under the current trust pin, addressed back to the dispatcher.
pub open spec fn spec_spawn_request(
    s: State,
    env: Env,
    label: String,
    password: Option<String>,
    min_buy: u64,
    max_buy: u64,
) -> SpawnRequest {
    SpawnRequest {
        init_msg: GameContractInitMsg {
            bg: 0,
            password: password,
            label: label,
            stamp_addr: s.stamp_addr,
            stamp_hash: s.stamp_hash,
            callback_addr: env.contract_address,
            callback_hash: env.contract_code_hash,
            min_buy: min_buy,
            max_buy: max_buy,
            jackpot_addr: s.jackpot_addr,
            jackpot_hash: s.jackpot_hash,
        },
        code_id: s.game_code_id,
        code_hash: s.game_hash,
        label: label,
    }
}

/// What `CreateNewTable` returns: exactly one outbound spawn request,
/// built from the given state and inputs.
pub open spec fn create_table_rel(
    pre: State,
    env: Env,
    label: String,
    password: Option<String>,
    min_buy: u64,
    max_buy: u64,
    r: Result<HandleResponse, Error>,
) -> bool {
    r matches Ok(resp) && resp.messages@ =~= seq![
        spec_spawn_request(pre, env, label, password, min_buy, max_buy),
    ]
}

/// `CreateNewTable` (the factory): pure construction of the outbound spawn
/// request carrying the pinned trust parameters and the dispatcher's own
/// address and hash. Touches no state; by design it does not validate the
/// buy-in bounds.
pub fn try_create_new_table(
    state: &State,
    env: &Env,
    label: String,
    password: Option<String>,
    min_buy: u64,
    max_buy: u64,
) -> (r: Result<HandleResponse, Error>)
    ensures
        create_table_rel(*state, *env, label, password, min_buy, max_buy, r),
{
    let init_msg = GameContractInitMsg {
        bg: 0,
        password,
        label: label.clone(),
        stamp_addr: state.stamp_addr.clone(),
        stamp_hash: state.stamp_hash.clone(),
        callback_addr: env.contract_address.clone(),
        callback_hash: env.contract_code_hash.clone(),
        min_buy,
        max_buy,
        jackpot_addr: state.jackpot_addr.clone(),
        jackpot_hash: state.jackpot_hash.clone(),
    };
    let req = SpawnRequest {
        init_msg,
        code_id: state.game_code_id,
        code_hash: state.game_hash.clone(),
        label,
    };
    let mut messages: Vec<SpawnRequest> = Vec::new();
    messages.push(req);
    Ok(HandleResponse { messages })
}

/// What `UpdateRemoveTimeout` does: gated on the admin; on success only the
/// retention window changes.
pub open spec fn update_timeout_rel(
    pre: State,
    post: State,
    sender: String,
    new_timeout: u64,
    r: Result<HandleResponse, Error>,
) -> bool {
    if sender@ != pre.admin@ {
        r == Err::<HandleResponse, Error>(Error::Unauthorized) && post == pre
    } else {
        &&& r matches Ok(resp) && resp.messages@.len() == 0
        &&& post.remove_after == new_timeout
        &&& post.contracts == pre.contracts
        &&& post.admin == pre.admin
        &&& post.stamp_addr == pre.stamp_addr
        &&& post.stamp_hash == pre.stamp_hash
        &&& post.game_code_id == pre.game_code_id
        &&& post.game_hash == pre.game_hash
        &&& post.jackpot_addr == pre.jackpot_addr
        &&& post.jackpot_hash == pre.jackpot_hash
    }
}

/// `UpdateRemoveTimeout`: admin-gated change of the retention window.
pub fn try_update_removal_timeout(state: &mut State, env: &Env, new_timeout: u64) -> (r:
    Result<HandleResponse, Error>)
    ensures
        update_timeout_rel(*old(state), *final(state), env.message_sender, new_timeout, r),
{
    if let Err(e) = require_admin(env, state) {
        return Err(e);
    }
    state.remove_after = new_timeout;
    Ok(HandleResponse { messages: Vec::new() })
}

/// What `UpdateValidCodeId` does: gated on the admin; on success the code
/// pin changes and the registry is cleared, because the existing entries
/// were authenticated against the old pin.
pub open spec fn update_code_rel(
    pre: State,
    post: State,
    sender: String,
    new_code_id: u64,
    new_hash: String,
    r: Result<HandleResponse, Error>,
) -> bool {
    if sender@ != pre.admin@ {
        r == Err::<HandleResponse, Error>(Error::Unauthorized) && post == pre
    } else {
        &&& r matches Ok(resp) && resp.messages@.len() == 0
        &&& post.game_code_id == new_code_id
        &&& post.game_hash == new_hash
        &&& post.contracts@.len() == 0
        &&& post.remove_after == pre.remove_after
        &&& post.admin == pre.admin
        &&& post.stamp_addr == pre.stamp_addr
        &&& post.stamp_hash == pre.stamp_hash
        &&& post.jackpot_addr == pre.jackpot_addr
        &&& post.jackpot_hash == pre.jackpot_hash
    }
}

/// `UpdateValidCodeId`: admin-gated change of the trusted code pin; clears
/// the registry as a side effect.
pub fn try_update_valid_code_id(
    state: &mut State,
    env: &Env,
    new_code_id: u64,
    new_hash: String,
) -> (r: Result<HandleResponse, Error>)
    ensures
        update_code_rel(*old(state), *final(state), env.message_sender, new_code_id, new_hash, r),
{
    if let Err(e) = require_admin(env, state) {
        return Err(e);
    }
    state.game_code_id = new_code_id;
    state.game_hash = new_hash;
    state.contracts.clear();
    Ok(HandleResponse { messages: Vec::new() })
}

/// What `UpdateStamper` does: gated on the admin; on success the stamp
/// service reference changes and the registry is cleared, because the
/// existing children were configured against the old reference.
pub open spec fn update_stamper_rel(
    pre: State,
    post: State,
    sender: String,
    new_stamp_addr: String,
    new_stamp_hash: String,
    r: Result<HandleResponse, Error>,
) -> bool {
    if sender@ != pre.admin@ {
        r == Err::<HandleResponse, Error>(Error::Unauthorized) && post == pre
    } else {
        &&& r matches Ok(resp) && resp.messages@.len() == 0
        &&& post.stamp_addr == new_stamp_addr
        &&& post.stamp_hash == new_stamp_hash
        &&& post.contracts@.len() == 0
        &&& post.remove_after == pre.remove_after
        &&& post.admin == pre.admin
        &&& post.game_code_id == pre.game_code_id
        &&& post.game_hash == pre.game_hash
        &&& post.jackpot_addr == pre.jackpot_addr
        &&& post.jackpot_hash == pre.jackpot_hash
    }
}

/// `UpdateStamper`: admin-gated change of the stamp service reference;
/// clears the registry as a side effect.
pub fn try_update_stamper(
    state: &mut State,
    env: &Env,
    new_stamp_addr: String,
    new_stamp_hash: String,
) -> (r: Result<HandleResponse, Error>)
    ensures
        update_stamper_rel(
            *old(state),
            *final(state),
            env.message_sender,
            new_stamp_addr,
            new_stamp_hash,
            r,
        ),
{
    if let Err(e) = require_admin(env, state) {
        return Err(e);
    }
    state.stamp_addr = new_stamp_addr;
    state.stamp_hash = new_stamp_hash;
    state.contracts.clear();
    Ok(HandleResponse { messages: Vec::new() })
}

/// What `UpdateJackpot` does: gated on the admin; on success the jackpot
/// service reference changes and the registry is cleared, because the
/// existing children were configured against the old reference.
pub open spec fn update_jackpot_rel(
    pre: State,
    post: State,
    sender: String,
    new_jackpot_addr: String,
    new_jackpot_hash: String,
    r: Result<HandleResponse, Error>,
) -> bool {
    if sender@ != pre.admin@ {
        r == Err::<HandleResponse, Error>(Error::Unauthorized) && post == pre
    } else {
        &&& r matches Ok(resp) && resp.messages@.len() == 0
        &&& post.jackpot_addr == new_jackpot_addr
        &&& post.jackpot_hash == new_jackpot_hash
        &&& post.contracts@.len() == 0
        &&& post.remove_after == pre.remove_after
        &&& post.admin == pre.admin
        &&& post.stamp_addr == pre.stamp_addr
        &&& post.stamp_hash == pre.stamp_hash
        &&& post.game_code_id == pre.game_code_id
        &&& post.game_hash == pre.game_hash
    }
}

/// `UpdateJackpot`: admin-gated change of the jackpot service reference;
/// clears the registry as a side effect.
pub fn try_update_jackpot(
    state: &mut State,
    env: &Env,
    new_jackpot_addr: String,
    new_jackpot_hash: String,
) -> (r: Result<HandleResponse, Error>)
    ensures
        update_jackpot_rel(
            *old(state),
            *final(state),
            env.message_sender,
            new_jackpot_addr,
            new_jackpot_hash,
            r,
        ),
{
    if let Err(e) = require_admin(env, state) {
        return Err(e);
    }
    state.jackpot_addr = new_jackpot_addr;
    state.jackpot_hash = new_jackpot_hash;
    state.contracts.clear();
    Ok(HandleResponse { messages: Vec::new() })
}

/// What `PassTheHatOn` does: gated on the admin; on success only the admin
/// identity changes. The registry is kept: the admin identity is orthogonal
/// to child authenticity.
pub open spec fn transfer_admin_rel(
    pre: State,
    post: State,
    sender: String,
    new_admin: String,
    r: Result<HandleResponse, Error>,
) -> bool {
    if sender@ != pre.admin@ {
        r == Err::<HandleResponse, Error>(Error::Unauthorized) && post == pre
    } else {
        &&& r matches Ok(resp) && resp.messages@.len() == 0
        &&& post.admin == new_admin
        &&& post.contracts == pre.contracts
        &&& post.remove_after == pre.remove_after
        &&& post.stamp_addr == pre.stamp_addr
        &&& post.stamp_hash == pre.stamp_hash
        &&& post.game_code_id == pre.game_code_id
        &&& post.game_hash == pre.game_hash
        &&& post.jackpot_addr == pre.jackpot_addr
        &&& post.jackpot_hash == pre.jackpot_hash
    }
}

/// `PassTheHatOn`: admin-gated transfer of the admin role.
pub fn try_passing_the_admin_hat(state: &mut State, env: &Env, new_hat: String) -> (r: Result<
    HandleResponse,
    Error,
>)
    ensures
        transfer_admin_rel(*old(state), *final(state), env.message_sender, new_hat, r),
{
    if let Err(e) = require_admin(env, state) {
        return Err(e);
    }
    state.admin = new_hat;
    Ok(HandleResponse { messages: Vec::new() })
}

/// What `RegisteredCallback` does: the referrer must equal the dispatcher's
/// own code hash; otherwise nothing changes. On success the new entry is
/// appended, stamped with the current block time, and the pruning sweep
/// runs over the result.
pub open spec fn register_rel(
    pre: State,
    post: State,
    env: Env,
    address: String,
    private: bool,
    label: String,
    referrer: String,
    r: Result<HandleResponse, Error>,
) -> bool {
    if referrer@ != env.contract_code_hash@ {
        r == Err::<HandleResponse, Error>(Error::Unauthenticated) && post == pre
    } else {
        &&& r matches Ok(resp) && resp.messages@.len() == 0
        &&& post.contracts@ == pruned(
            pre.contracts@.push(
                (Contract { address, label, private, created_at: env.block_time }),
            ),
            pre.remove_after,
            env.block_time,
        )
        &&& same_config(pre, post)
    }
}

/// `RegisteredCallback`: self-registration of a spawned child. The referrer
/// is the only proof of legitimate origin; an entry is admitted exactly
/// when it matches the dispatcher's own code hash.
pub fn try_register_callback(
    state: &mut State,
    env: &Env,
    address: String,
    private: bool,
    label: String,
    referrer: String,
) -> (r: Result<HandleResponse, Error>)
    ensures
        register_rel(*old(state), *final(state), *env, address, private, label, referrer, r),
{
    if referrer != env.contract_code_hash {
        return Err(Error::Unauthenticated);
    }
    state.contracts.push(Contract { address, private, created_at: env.block_time, label });
    clean_old_contracts(state, env);
    Ok(HandleResponse { messages: Vec::new() })
}

/// The one relation the dispatcher establishes between the state before and
/// after an operation, its result, and its outbound requests: the union of
/// the per-operation relations, one per tag.
pub open spec fn handle_rel(
    pre: State,
    post: State,
    env: Env,
    msg: HandleMsg,
    r: Result<HandleResponse, Error>,
) -> bool {
    match msg {
        HandleMsg::Refresh {  } => refresh_rel(pre, post, env.block_time, r),
        HandleMsg::CreateNewTable { label, password, min_buy, max_buy } => post == pre
            && create_table_rel(pre, env, label, password, min_buy, max_buy, r),
        HandleMsg::UpdateRemoveTimeout { new_timeout } => update_timeout_rel(
            pre,
            post,
            env.message_sender,
            new_timeout,
            r,
        ),
        HandleMsg::UpdateJackpot { new_jackpot_addr, new_jackpot_hash } => update_jackpot_rel(
            pre,
            post,
            env.message_sender,
            new_jackpot_addr,
            new_jackpot_hash,
            r,
        ),
        HandleMsg::UpdateStamper { new_stamp_addr, new_stamp_hash } => update_stamper_rel(
            pre,
            post,
            env.message_sender,
            new_stamp_addr,
            new_stamp_hash,
            r,
        ),
        HandleMsg::UpdateValidCodeId { new_code_id, new_hash } => update_code_rel(
            pre,
            post,
            env.message_sender,
            new_code_id,
            new_hash,
            r,
        ),
        HandleMsg::PassTheHatOn { new_admin } => transfer_admin_rel(
            pre,
            post,
            env.message_sender,
            new_admin,
            r,
        ),
        HandleMsg::RegisteredCallback { address, private, label, referrer } => register_rel(
            pre,
            post,
            env,
            address,
            private,
            label,
            referrer,
            r,
        ),
    }
}

/// The entry dispatcher: routes each operation to exactly one handler, with
/// no default case, and propagates the handler's outcome unchanged. The
/// well-formedness of the state (a non-empty admin) is preserved whenever a
/// transferred admin identity is itself non-empty.
pub fn handle(state: &mut State, env: &Env, msg: HandleMsg) -> (r: Result<HandleResponse, Error>)
    ensures
        handle_rel(*old(state), *final(state), *env, msg, r),
        old(state).wf() && (msg matches HandleMsg::PassTheHatOn { new_admin } ==> new_admin@.len()
            > 0) ==> final(state).wf(),
{
    match msg {
        HandleMsg::Refresh {  } => try_refresh(state, env),
        HandleMsg::CreateNewTable { label, password, min_buy, max_buy } => try_create_new_table(
            state,
            env,
            label,
            password,
            min_buy,
            max_buy,
        ),
        HandleMsg::UpdateRemoveTimeout { new_timeout } => try_update_removal_timeout(
            state,
            env,
            new_timeout,
        ),
        HandleMsg::UpdateValidCodeId { new_code_id, new_hash } => try_update_valid_code_id(
            state,
            env,
            new_code_id,
            new_hash,
        ),
        HandleMsg::UpdateStamper { new_stamp_addr, new_stamp_hash } => try_update_stamper(
            state,
            env,
            new_stamp_addr,
            new_stamp_hash,
        ),
        HandleMsg::UpdateJackpot { new_jackpot_addr, new_jackpot_hash } => try_update_jackpot(
            state,
            env,
            new_jackpot_addr,
            new_jackpot_hash,
        ),
        HandleMsg::PassTheHatOn { new_admin } => try_passing_the_admin_hat(state, env, new_admin),
        HandleMsg::RegisteredCallback { address, private, label, referrer } => {
            try_register_callback(state, env, address, private, label, referrer)
        },
    }
}

/// The query dispatcher: read-only, no pruning side effect.
pub fn query(state: &State, msg: QueryMsg) -> (r: ListResponse)
    ensures
        r.contracts@ == state.contracts@,
{
    match msg {
        QueryMsg::GetList {  } => query_list(state),
    }
}

/// `GetList`: a snapshot of the registry, in insertion order.
pub fn query_list(state: &State) -> (r: ListResponse)
    ensures
        r.contracts@ == state.contracts@,
{
    let contracts = state.contracts.clone();
    proof {
        assert forall|i: int| 0 <= i < contracts@.len() implies contracts@[i]
            == state.contracts@[i] by {
            assert(cloned(state.contracts@[i], contracts@[i]));
        }
        assert(contracts@ =~= state.contracts@);
    }
    ListResponse { contracts }
}

} // verus!

