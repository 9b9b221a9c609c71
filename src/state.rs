use vstd::prelude::*;
use crate::asset::{AssetKind, is_valid_schedule, valid_schedule};

verus! {

/// When the fee schedule is charged: with the creation of a position, or with
/// its execution. Fixed for a deployment.
#[derive(Clone, Copy, Debug, PartialEq, Eq, Structural)]
pub enum FeeTiming {
    OnCreate,
    OnExecute,
}

#[derive(Clone, Copy, Debug, PartialEq, Eq, Structural)]
pub enum Status {
    Active,
    Executed,
}

/// The deployment's configuration, fixed at instantiation.
#[derive(Debug)]
pub struct Config {
    pub owner: String,
    pub fee: Vec<AssetKind>,
    pub fee_collector: String,
    pub fee_timing: FeeTiming,
}

/// One trade proposal and its lifecycle record.
#[derive(Debug)]
pub struct Position {
    pub id: u64,
    pub creator: String,
    pub executor: Option<String>,
    pub offer: Vec<AssetKind>,
    pub ask: Vec<AssetKind>,
    pub status: Status,
}

/// The contract's persistent state: its configuration and every position
/// ever created, the one with id `k` at index `k - 1`.
#[derive(Debug)]
pub struct State {
    pub config: Config,
    pub positions: Vec<Position>,
}

/// The position with identifier `id`, if one was created.
pub open spec fn position_at(s: State, id: u64) -> Option<Position> {
    if 1 <= id <= s.positions@.len() {
        Some(s.positions@[id - 1])
    } else {
        None
    }
}

impl State {
    /// The fee schedule is valid and identifiers run from 1 without gaps.
    pub open spec fn well_formed(self) -> bool {
        &&& valid_schedule(self.config.fee@)
        &&& forall|i: int| 0 <= i < self.positions@.len() ==> (#[trigger] self.positions@[i]).id == i + 1
    }

    /// The identifier that the next position will get.
    pub open spec fn next_id(self) -> int {
        self.positions@.len() + 1int
    }

    /// Whether the state is well formed; a state read back from storage is
    /// checked with this before it is used.
    pub fn is_well_formed(&self) -> (r: bool)
        ensures
            r == self.well_formed(),
    {
        if !is_valid_schedule(&self.config.fee) {
            return false;
        }
        let n = self.positions.len();
        let mut i: usize = 0;
        while i < n
            invariant
                n == self.positions@.len(),
                i <= n,
                forall|k: int| 0 <= k < i ==> (#[trigger] self.positions@[k]).id == k + 1,
            decreases n - i,
        {
            if self.positions[i].id as u128 != i as u128 + 1 {
                return false;
            }
            i += 1;
        }
        true
    }

    /// Looks up a position by identifier, whatever its status.
    pub fn position(&self, id: u64) -> (r: Option<&Position>)
        ensures
            match position_at(*self, id) {
                Some(p) => r is Some && *r.unwrap() == p,
                None => r is None,
            },
    {
        if 1 <= id && id <= self.positions.len() as u64 {
            Some(&self.positions[(id - 1) as usize])
        } else {
            None
        }
    }
}

} // verus!
