use vstd::prelude::*;
use crate::asset::{
    AssetKind, Transfer, concat, is_valid_bundle, is_valid_schedule, push_transfers,
    transfers_to, valid_bundle, valid_schedule,
};
use crate::funds::{check_funds, funds_match};
use crate::state::{Config, FeeTiming, Position, State, Status, position_at};

verus! {

#[derive(Clone, Copy, Debug, PartialEq, Eq, Structural)]
pub enum ContractError {
    /// A bundle is empty, holds an item with a zero amount, or names an asset twice.
    InvalidBundle,
    /// The attached funds differ from what the operation requires.
    FundsMismatch,
    PositionNotFound,
    /// The position was already executed.
    PositionNotActive,
    /// The position names an executor and the caller is someone else.
    Unauthorized,
    /// Every `u64` identifier is taken.
    IdsExhausted,
    /// A token contract refused a transfer; reported by the host that carries
    /// out the transfers, never by the engine itself.
    AssetTransferFailed,
}

pub struct InstantiateMsg {
    pub owner: String,
    pub fee: Vec<AssetKind>,
    pub fee_collector: String,
    pub fee_timing: FeeTiming,
}

pub enum ExecuteMsg {
    CreateOtc { executor: Option<String>, offer: Vec<AssetKind>, ask: Vec<AssetKind> },
    ExecuteOtc { id: u64 },
}

pub enum QueryMsg {
    Position { id: u64 },
}

/// Who sends a request and what it brings: native coins, and the token
/// amounts and units already received into custody for it.
pub struct MessageInfo {
    pub sender: String,
    pub funds: Vec<AssetKind>,
}

/// The acknowledgement of an operation: the position it concerns and the
/// transfers that must be carried out with it, as one unit.
#[derive(Debug)]
pub struct Response {
    pub position_id: u64,
    pub transfers: Vec<Transfer>,
}

/// What a creation must bring: the offer, and the fee if it is charged then.
pub open spec fn required_for_create(cfg: Config, offer: Seq<AssetKind>) -> Seq<AssetKind> {
    if cfg.fee_timing == FeeTiming::OnCreate {
        offer + cfg.fee@
    } else {
        offer
    }
}

/// What an execution must bring: the ask, and the fee if it is charged then.
pub open spec fn required_for_execute(cfg: Config, ask: Seq<AssetKind>) -> Seq<AssetKind> {
    if cfg.fee_timing == FeeTiming::OnExecute {
        ask + cfg.fee@
    } else {
        ask
    }
}

/// The transfers of the fee to its collector, when it is charged at `timing`.
pub open spec fn fee_transfers(cfg: Config, timing: FeeTiming) -> Seq<Transfer> {
    if cfg.fee_timing == timing {
        transfers_to(cfg.fee@, cfg.fee_collector)
    } else {
        Seq::empty()
    }
}

/// Why a creation is refused, if it is.
pub open spec fn create_error(
    s: State,
    info: MessageInfo,
    offer: Seq<AssetKind>,
    ask: Seq<AssetKind>,
) -> Option<ContractError> {
    if !valid_bundle(offer) || !valid_bundle(ask) {
        Some(ContractError::InvalidBundle)
    } else if !funds_match(info.funds@, required_for_create(s.config, offer)) {
        Some(ContractError::FundsMismatch)
    } else if s.positions@.len() >= u64::MAX {
        Some(ContractError::IdsExhausted)
    } else {
        None
    }
}

/// Why an execution is refused, if it is.
pub open spec fn execute_error(s: State, info: MessageInfo, id: u64) -> Option<ContractError> {
    match position_at(s, id) {
        None => Some(ContractError::PositionNotFound),
        Some(p) => if p.status != Status::Active {
            Some(ContractError::PositionNotActive)
        } else if p.executor is Some && p.executor->0@ != info.sender@ {
            Some(ContractError::Unauthorized)
        } else if !funds_match(info.funds@, required_for_execute(s.config, p.ask@)) {
            Some(ContractError::FundsMismatch)
        } else {
            None
        },
    }
}

/// `post` and `r` are the outcome of a creation on `pre`: a refused request
/// changes nothing; an accepted one appends an active position with the next
/// identifier and forwards the fee if it is charged now.
pub open spec fn create_post(
    pre: State,
    post: State,
    info: MessageInfo,
    executor: Option<String>,
    offer: Vec<AssetKind>,
    ask: Vec<AssetKind>,
    r: Result<Response, ContractError>,
) -> bool {
    match create_error(pre, info, offer@, ask@) {
        Some(e) => r == Err::<Response, ContractError>(e) && post == pre,
        None => {
            let id = pre.next_id() as u64;
            &&& r is Ok
            &&& r->Ok_0.position_id == id
            &&& r->Ok_0.transfers@ == fee_transfers(pre.config, FeeTiming::OnCreate)
            &&& post.config == pre.config
            &&& post.positions@ == pre.positions@.push(
                Position {
                    id,
                    creator: info.sender,
                    executor,
                    offer,
                    ask,
                    status: Status::Active,
                },
            )
        },
    }
}

/// `post` and `r` are the outcome of an execution on `pre`: a refused request
/// changes nothing; an accepted one marks the position executed and releases
/// the offer to the caller, the ask to the creator, and the fee if it is
/// charged now.
pub open spec fn execute_post(
    pre: State,
    post: State,
    info: MessageInfo,
    id: u64,
    r: Result<Response, ContractError>,
) -> bool {
    match execute_error(pre, info, id) {
        Some(e) => r == Err::<Response, ContractError>(e) && post == pre,
        None => {
            let p = pre.positions@[id - 1];
            &&& r is Ok
            &&& r->Ok_0.position_id == id
            &&& r->Ok_0.transfers@ == transfers_to(p.offer@, info.sender) + transfers_to(
                p.ask@,
                p.creator,
            ) + fee_transfers(pre.config, FeeTiming::OnExecute)
            &&& post.config == pre.config
            &&& post.positions@ == pre.positions@.update(
                id - 1,
                Position { status: Status::Executed, ..p },
            )
        },
    }
}

/// Sets up a deployment with no positions. The fee schedule may be empty;
/// a zero amount or an asset named twice is refused.
pub fn instantiate(msg: InstantiateMsg) -> (r: Result<State, ContractError>)
    ensures
        valid_schedule(msg.fee@) <==> r is Ok,
        !valid_schedule(msg.fee@) ==> r == Err::<State, ContractError>(ContractError::InvalidBundle),
        r matches Ok(s) ==> {
            &&& s.well_formed()
            &&& s.config == (Config {
                owner: msg.owner,
                fee: msg.fee,
                fee_collector: msg.fee_collector,
                fee_timing: msg.fee_timing,
            })
            &&& s.positions@.len() == 0
        },
{
    if !is_valid_schedule(&msg.fee) {
        return Err(ContractError::InvalidBundle);
    }
    let config = Config {
        owner: msg.owner,
        fee: msg.fee,
        fee_collector: msg.fee_collector,
        fee_timing: msg.fee_timing,
    };
    Ok(State { config, positions: Vec::new() })
}

impl State {
    /// Opens a position that escrows `offer` and asks for `ask`, optionally
    /// reserved for `executor`.
    pub fn create_otc(
        &mut self,
        info: &MessageInfo,
        executor: Option<String>,
        offer: Vec<AssetKind>,
        ask: Vec<AssetKind>,
    ) -> (r: Result<Response, ContractError>)
        requires
            old(self).well_formed(),
        ensures
            final(self).well_formed(),
            create_post(*old(self), *final(self), *info, executor, offer, ask, r),
    {
        if !is_valid_bundle(&offer) || !is_valid_bundle(&ask) {
            return Err(ContractError::InvalidBundle);
        }
        let on_create = self.config.fee_timing == FeeTiming::OnCreate;
        let matched = if on_create {
            let required = concat(&offer, &self.config.fee);
            check_funds(&info.funds, &required)
        } else {
            check_funds(&info.funds, &offer)
        };
        if !matched {
            return Err(ContractError::FundsMismatch);
        }
        if self.positions.len() as u64 >= u64::MAX {
            return Err(ContractError::IdsExhausted);
        }
        let id = self.positions.len() as u64 + 1;
        let mut transfers: Vec<Transfer> = Vec::new();
        if on_create {
            push_transfers(&mut transfers, &self.config.fee, &self.config.fee_collector);
        }
        assert(transfers@ =~= fee_transfers(self.config, FeeTiming::OnCreate));
        let position = Position {
            id,
            creator: info.sender.clone(),
            executor,
            offer,
            ask,
            status: Status::Active,
        };
        self.positions.push(position);
        Ok(Response { position_id: id, transfers })
    }

    /// Settles position `id`: the caller supplies the ask (and the fee, if it
    /// is charged now) and receives the offer.
    pub fn execute_otc(&mut self, info: &MessageInfo, id: u64) -> (r: Result<
        Response,
        ContractError,
    >)
        requires
            old(self).well_formed(),
        ensures
            final(self).well_formed(),
            execute_post(*old(self), *final(self), *info, id, r),
    {
        if id == 0 || id > self.positions.len() as u64 {
            return Err(ContractError::PositionNotFound);
        }
        let i = (id - 1) as usize;
        if self.positions[i].status != Status::Active {
            return Err(ContractError::PositionNotActive);
        }
        match &self.positions[i].executor {
            Some(x) => {
                if *x != info.sender {
                    return Err(ContractError::Unauthorized);
                }
            },
            None => {},
        }
        let on_execute = self.config.fee_timing == FeeTiming::OnExecute;
        let matched = if on_execute {
            let required = concat(&self.positions[i].ask, &self.config.fee);
            check_funds(&info.funds, &required)
        } else {
            check_funds(&info.funds, &self.positions[i].ask)
        };
        if !matched {
            return Err(ContractError::FundsMismatch);
        }
        let mut transfers: Vec<Transfer> = Vec::new();
        push_transfers(&mut transfers, &self.positions[i].offer, &info.sender);
        push_transfers(&mut transfers, &self.positions[i].ask, &self.positions[i].creator);
        if on_execute {
            push_transfers(&mut transfers, &self.config.fee, &self.config.fee_collector);
        }
        assert(transfers@ =~= transfers_to(self.positions@[i as int].offer@, info.sender)
            + transfers_to(self.positions@[i as int].ask@, self.positions@[i as int].creator)
            + fee_transfers(self.config, FeeTiming::OnExecute));
        self.positions[i].status = Status::Executed;
        Ok(Response { position_id: id, transfers })
    }
}

/// Handles a request: creation or execution of a position.
pub fn execute(state: &mut State, info: &MessageInfo, msg: ExecuteMsg) -> (r: Result<
    Response,
    ContractError,
>)
    requires
        old(state).well_formed(),
    ensures
        final(state).well_formed(),
        match msg {
            ExecuteMsg::CreateOtc { executor, offer, ask } => create_post(
                *old(state),
                *final(state),
                *info,
                executor,
                offer,
                ask,
                r,
            ),
            ExecuteMsg::ExecuteOtc { id } => execute_post(*old(state), *final(state), *info, id, r),
        },
{
    match msg {
        ExecuteMsg::CreateOtc { executor, offer, ask } => state.create_otc(
            info,
            executor,
            offer,
            ask,
        ),
        ExecuteMsg::ExecuteOtc { id } => state.execute_otc(info, id),
    }
}

/// Answers a query: the position with the given identifier, whatever its
/// status.
pub fn query(state: &State, msg: QueryMsg) -> (r: Result<&Position, ContractError>)
    ensures
        match msg {
            QueryMsg::Position { id } => match position_at(*state, id) {
                Some(p) => r is Ok && *r.unwrap() == p,
                None => r == Err::<&Position, ContractError>(ContractError::PositionNotFound),
            },
        },
{
    match msg {
        QueryMsg::Position { id } => match state.position(id) {
            Some(p) => Ok(p),
            None => Err(ContractError::PositionNotFound),
        },
    }
}

} // verus!
