use vstd::prelude::*;
use crate::contract::{handle_rel, refresh_rel};
use crate::msg::{Env, Error, HandleMsg, HandleResponse, ListResponse};
use crate::state::{live, pruned, Contract, State};

verus! {

broadcast use vstd::seq_lib::group_filter_ensures, Seq::lemma_filter_push;

/// `t` can be obtained from `s` by deleting entries while keeping the order
/// of the rest.
pub open spec fn is_subsequence(t: Seq<Contract>, s: Seq<Contract>) -> bool
    decreases s.len(),
{
    if t.len() == 0 {
        true
    } else if s.len() == 0 {
        false
    } else {
        (t.last() == s.last() && is_subsequence(t.drop_last(), s.drop_last())) || is_subsequence(
            t,
            s.drop_last(),
        )
    }
}

/// Every entry of `t` is still live at `now`.
pub open spec fn all_live(t: Seq<Contract>, remove_after: u64, now: u64) -> bool {
    forall|i: int| 0 <= i < t.len() ==> live(#[trigger] t[i], remove_after, now)
}

/// Pruning correctness, first half: the pruned registry is an
/// order-preserving subsequence of the input and every retained entry is
/// still live, so expired entries are strictly absent.
pub proof fn lemma_pruned_is_live_subsequence(s: Seq<Contract>, remove_after: u64, now: u64)
    ensures
        is_subsequence(pruned(s, remove_after, now), s),
        all_live(pruned(s, remove_after, now), remove_after, now),
    decreases s.len(),
{
    let p = pruned(s, remove_after, now);
    if s.len() == 0 {
        assert(p.len() == 0);
    } else {
        lemma_pruned_is_live_subsequence(s.drop_last(), remove_after, now);
        let q = pruned(s.drop_last(), remove_after, now);
        assert(s =~= s.drop_last().push(s.last()));
        if live(s.last(), remove_after, now) {
            assert(p == q.push(s.last()));
            assert(q.push(s.last()).drop_last() =~= q);
            assert(is_subsequence(p, s));
        } else {
            assert(p == q);
            assert(is_subsequence(p, s));
        }
    }
}

/// Pruning correctness, second half: among the order-preserving
/// subsequences of the input whose entries are all still live, the pruned
/// registry is a largest one.
pub proof fn lemma_pruned_is_largest(
    t: Seq<Contract>,
    s: Seq<Contract>,
    remove_after: u64,
    now: u64,
)
    requires
        is_subsequence(t, s),
        all_live(t, remove_after, now),
    ensures
        t.len() <= pruned(s, remove_after, now).len(),
    decreases s.len(),
{
    if t.len() == 0 {
    } else {
        assert(s.len() > 0);
        assert(s =~= s.drop_last().push(s.last()));
        let q = pruned(s.drop_last(), remove_after, now);
        if t.last() == s.last() && is_subsequence(t.drop_last(), s.drop_last()) {
            assert forall|i: int| 0 <= i < t.drop_last().len() implies live(
                #[trigger] t.drop_last()[i],
                remove_after,
                now,
            ) by {
                assert(t.drop_last()[i] == t[i]);
            }
            lemma_pruned_is_largest(t.drop_last(), s.drop_last(), remove_after, now);
            assert(live(t[t.len() - 1], remove_after, now));
            assert(live(s.last(), remove_after, now));
            assert(pruned(s, remove_after, now) == q.push(s.last()));
        } else {
            assert(is_subsequence(t, s.drop_last()));
            lemma_pruned_is_largest(t, s.drop_last(), remove_after, now);
            assert(pruned(s, remove_after, now).len() >= q.len());
        }
    }
}

/// Pruning correctness at the operation level: after a `Refresh`, the
/// registry is an order-preserving subsequence of the prior registry whose
/// entries are all still live, and no such subsequence is longer.
pub proof fn lemma_refresh_prunes_correctly(
    pre: State,
    post: State,
    now: u64,
    r: Result<HandleResponse, Error>,
)
    requires
        refresh_rel(pre, post, now, r),
    ensures
        is_subsequence(post.contracts@, pre.contracts@),
        all_live(post.contracts@, pre.remove_after, now),
        forall|t: Seq<Contract>|
            is_subsequence(t, pre.contracts@) && #[trigger] all_live(t, pre.remove_after, now)
                ==> t.len() <= post.contracts@.len(),
{
    lemma_pruned_is_live_subsequence(pre.contracts@, pre.remove_after, now);
    assert forall|t: Seq<Contract>|
        is_subsequence(t, pre.contracts@) && #[trigger] all_live(
            t,
            pre.remove_after,
            now,
        ) implies t.len() <= post.contracts@.len() by {
        lemma_pruned_is_largest(t, pre.contracts@, pre.remove_after, now);
    }
}

/// The operations that require the caller to be the stored admin.
pub open spec fn is_privileged(msg: HandleMsg) -> bool {
    ||| msg matches HandleMsg::UpdateRemoveTimeout { .. }
    ||| msg matches HandleMsg::UpdateJackpot { .. }
    ||| msg matches HandleMsg::UpdateStamper { .. }
    ||| msg matches HandleMsg::UpdateValidCodeId { .. }
    ||| msg matches HandleMsg::PassTheHatOn { .. }
}

/// Admin gating: every privileged operation invoked by a caller other than
/// the stored admin results in `Unauthorized`, and no field of the state
/// changes.
pub proof fn lemma_admin_gating(
    pre: State,
    post: State,
    env: Env,
    msg: HandleMsg,
    r: Result<HandleResponse, Error>,
)
    requires
        handle_rel(pre, post, env, msg, r),
        is_privileged(msg),
        env.message_sender@ != pre.admin@,
    ensures
        r == Err::<HandleResponse, Error>(Error::Unauthorized),
        post == pre,
{
}

/// Authenticity: a registration whose referrer differs from the
/// dispatcher's own code hash results in `Unauthenticated`, and the
/// registry (indeed the whole state) is unchanged.
pub proof fn lemma_authenticity(
    pre: State,
    post: State,
    env: Env,
    msg: HandleMsg,
    r: Result<HandleResponse, Error>,
)
    requires
        handle_rel(pre, post, env, msg, r),
        msg matches HandleMsg::RegisteredCallback { referrer, .. } && referrer@
            != env.contract_code_hash@,
    ensures
        r == Err::<HandleResponse, Error>(Error::Unauthenticated),
        post == pre,
{
}

/// Trust-pin invalidation: any successful change of the trusted code pin
/// or of a service reference leaves the registry empty, regardless of its
/// prior contents or their individual expiry status.
pub proof fn lemma_trust_pin_invalidation(
    pre: State,
    post: State,
    env: Env,
    msg: HandleMsg,
    r: Result<HandleResponse, Error>,
)
    requires
        handle_rel(pre, post, env, msg, r),
        ({
            ||| msg matches HandleMsg::UpdateValidCodeId { .. }
            ||| msg matches HandleMsg::UpdateStamper { .. }
            ||| msg matches HandleMsg::UpdateJackpot { .. }
        }),
        r is Ok,
    ensures
        post.contracts@.len() == 0,
{
}

/// Idempotent query: the query contract pins the result to the state's
/// registry alone, so two results read from the same state, with no
/// mutating operation in between, are identical.
pub proof fn lemma_query_deterministic(s: State, r1: ListResponse, r2: ListResponse)
    requires
        r1.contracts@ == s.contracts@,
        r2.contracts@ == s.contracts@,
    ensures
        r1.contracts@ == r2.contracts@,
{
}

} // verus!
