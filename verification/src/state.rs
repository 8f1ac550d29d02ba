use vstd::prelude::*;

verus! {

/// One registered child game instance. Entries are immutable once created:
/// they are appended by a successful registration and removed only by the
/// pruning sweep or by a wholesale clear when the trust pin changes.
#[derive(Debug, PartialEq, Eq)]
pub struct Contract {
    pub address: String,
    pub label: String,
    pub private: bool,
    pub created_at: u64,
}

impl Clone for Contract {
    fn clone(&self) -> (r: Self)
        ensures
            r == *self,
    {
        Contract {
            address: self.address.clone(),
            label: self.label.clone(),
            private: self.private,
            created_at: self.created_at,
        }
    }
}

/// The one persisted state record: the admin capability, the registry of
/// child instances, the retention window, and the trust pin (game code
/// identity plus the stamp and jackpot service references) used when
/// spawning new children.
#[derive(Debug, PartialEq, Eq)]
pub struct State {
    pub remove_after: u64,
    pub admin: String,
    pub contracts: Vec<Contract>,
    pub stamp_addr: String,
    pub stamp_hash: String,
    pub game_code_id: u64,
    pub game_hash: String,
    pub jackpot_addr: String,
    pub jackpot_hash: String,
}

impl State {
    /// Well-formedness: the admin identity is always set (never the empty
    /// address) once the state has been initialized with a real sender.
    pub open spec fn wf(&self) -> bool {
        self.admin@.len() > 0
    }
}

/// An entry is still live at time `now` when its age has not yet reached the
/// retention window (arithmetic over unbounded integers, so no overflow).
pub open spec fn live(c: Contract, remove_after: u64, now: u64) -> bool {
    c.created_at + remove_after > now
}

/// The registry after a pruning sweep: exactly the live entries, in
/// registration order.
pub open spec fn pruned(s: Seq<Contract>, remove_after: u64, now: u64) -> Seq<Contract> {
    s.filter(|c: Contract| live(c, remove_after, now))
}

/// Every field of the state except the registry is the same in `a` and `b`.
pub open spec fn same_config(a: State, b: State) -> bool {
    &&& a.remove_after == b.remove_after
    &&& a.admin == b.admin
    &&& a.stamp_addr == b.stamp_addr
    &&& a.stamp_hash == b.stamp_hash
    &&& a.game_code_id == b.game_code_id
    &&& a.game_hash == b.game_hash
    &&& a.jackpot_addr == b.jackpot_addr
    &&& a.jackpot_hash == b.jackpot_hash
}

} // verus!
