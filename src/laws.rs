use vstd::prelude::*;
use crate::asset::{AssetKind, transfers_to, valid_bundle};
use crate::engine::{
    ContractError, MessageInfo, Response, create_post, execute_post, required_for_create,
    required_for_execute,
};
use crate::funds::{funds_match, lemma_total_concat, lemma_total_nonneg, total};
use crate::state::{FeeTiming, Position, State, Status, position_at};

verus! {

/// A creation with valid bundles and exactly the required funds succeeds, and
/// looking up the identifier it returns gives an active position holding the
/// submitted offer and ask.
pub proof fn lemma_create_then_query(
    pre: State,
    post: State,
    info: MessageInfo,
    executor: Option<String>,
    offer: Vec<AssetKind>,
    ask: Vec<AssetKind>,
    r: Result<Response, ContractError>,
)
    requires
        pre.well_formed(),
        valid_bundle(offer@),
        valid_bundle(ask@),
        funds_match(info.funds@, required_for_create(pre.config, offer@)),
        pre.positions@.len() < u64::MAX,
        create_post(pre, post, info, executor, offer, ask, r),
    ensures
        r is Ok,
        position_at(post, r->Ok_0.position_id) == Some(
            Position {
                id: r->Ok_0.position_id,
                creator: info.sender,
                executor,
                offer,
                ask,
                status: Status::Active,
            },
        ),
{
}

/// A position is executed at most once: after a successful execution, a
/// second one of the same identifier fails with `PositionNotActive`, whoever
/// sends it and whatever it brings, and changes nothing.
pub proof fn lemma_execute_once(
    s0: State,
    s1: State,
    s2: State,
    first: MessageInfo,
    second: MessageInfo,
    id: u64,
    r1: Result<Response, ContractError>,
    r2: Result<Response, ContractError>,
)
    requires
        s0.well_formed(),
        execute_post(s0, s1, first, id, r1),
        r1 is Ok,
        execute_post(s1, s2, second, id, r2),
    ensures
        r2 == Err::<Response, ContractError>(ContractError::PositionNotActive),
        s2 == s1,
{
}

/// A position reserved for `x` is refused to every other caller with
/// `Unauthorized`, state unchanged, and executed for `x` when the funds match.
pub proof fn lemma_executor_restriction(
    pre: State,
    post: State,
    info: MessageInfo,
    id: u64,
    x: String,
    r: Result<Response, ContractError>,
)
    requires
        pre.well_formed(),
        position_at(pre, id) is Some,
        position_at(pre, id)->0.status == Status::Active,
        position_at(pre, id)->0.executor == Some(x),
        execute_post(pre, post, info, id, r),
    ensures
        info.sender@ != x@ ==> r == Err::<Response, ContractError>(ContractError::Unauthorized)
            && post == pre,
        info.sender@ == x@ && funds_match(
            info.funds@,
            required_for_execute(pre.config, position_at(pre, id)->0.ask@),
        ) ==> r is Ok,
{
}

/// A valid creation whose funds differ from what it requires fails with
/// `FundsMismatch` and leaves the state as it was.
pub proof fn lemma_create_funds_mismatch(
    pre: State,
    post: State,
    info: MessageInfo,
    executor: Option<String>,
    offer: Vec<AssetKind>,
    ask: Vec<AssetKind>,
    r: Result<Response, ContractError>,
)
    requires
        valid_bundle(offer@),
        valid_bundle(ask@),
        !funds_match(info.funds@, required_for_create(pre.config, offer@)),
        create_post(pre, post, info, executor, offer, ask, r),
    ensures
        r == Err::<Response, ContractError>(ContractError::FundsMismatch),
        post == pre,
{
}

/// An execution that the caller may make, of an active position, whose funds
/// differ from what it requires fails with `FundsMismatch` and leaves the
/// state as it was.
pub proof fn lemma_execute_funds_mismatch(
    pre: State,
    post: State,
    info: MessageInfo,
    id: u64,
    r: Result<Response, ContractError>,
)
    requires
        position_at(pre, id) is Some,
        position_at(pre, id)->0.status == Status::Active,
        position_at(pre, id)->0.executor matches Some(x) ==> x@ == info.sender@,
        !funds_match(info.funds@, required_for_execute(pre.config, position_at(pre, id)->0.ask@)),
        execute_post(pre, post, info, id, r),
    ensures
        r == Err::<Response, ContractError>(ContractError::FundsMismatch),
        post == pre,
{
}

/// Funds that match stop matching when one more item of positive amount is
/// attached: a single extra unit is a mismatch.
pub proof fn lemma_extra_unit_mismatch(
    attached: Seq<AssetKind>,
    required: Seq<AssetKind>,
    extra: AssetKind,
)
    requires
        funds_match(attached, required),
        extra.well_formed(),
    ensures
        !funds_match(attached.push(extra), required),
{
    assert(attached.push(extra).drop_last() =~= attached);
    assert(total(attached.push(extra), extra) == total(attached, extra) + extra.units());
    assert(total(attached, extra) == total(required, extra));
}

/// Funds that match stop matching when one item is taken away: a single
/// missing item is a mismatch.
pub proof fn lemma_missing_item_mismatch(attached: Seq<AssetKind>, required: Seq<AssetKind>)
    requires
        funds_match(attached, required),
        attached.len() > 0,
        attached.last().well_formed(),
    ensures
        !funds_match(attached.drop_last(), required),
{
    let a = attached.last();
    lemma_total_nonneg(attached.drop_last(), a);
    assert(total(attached, a) == total(attached.drop_last(), a) + a.units());
    assert(total(attached, a) == total(required, a));
}

/// What a creation escrows is what the matching execution releases: the
/// executor receives exactly the submitted offer and the creator exactly the
/// submitted ask, item for item; and of every asset, the creation brought
/// what the offer holds plus the fee charged then, and the execution what
/// the ask holds plus the fee charged then.
pub proof fn lemma_escrow_round_trip(
    s0: State,
    s1: State,
    s2: State,
    creation: MessageInfo,
    settlement: MessageInfo,
    executor: Option<String>,
    offer: Vec<AssetKind>,
    ask: Vec<AssetKind>,
    r1: Result<Response, ContractError>,
    r2: Result<Response, ContractError>,
)
    requires
        s0.well_formed(),
        create_post(s0, s1, creation, executor, offer, ask, r1),
        r1 is Ok,
        execute_post(s1, s2, settlement, r1->Ok_0.position_id, r2),
        r2 is Ok,
    ensures
        r2->Ok_0.transfers@.take(offer@.len() as int) == transfers_to(offer@, settlement.sender),
        r2->Ok_0.transfers@.subrange(offer@.len() as int, (offer@.len() + ask@.len()) as int)
            == transfers_to(ask@, creation.sender),
        position_at(s2, r1->Ok_0.position_id)->0.status == Status::Executed,
        forall|a: AssetKind| #[trigger] total(creation.funds@, a) == total(offer@, a) + if s0.config.fee_timing == FeeTiming::OnCreate {
            total(s0.config.fee@, a)
        } else {
            0
        },
        forall|a: AssetKind| #[trigger] total(settlement.funds@, a) == total(ask@, a) + if s0.config.fee_timing == FeeTiming::OnExecute {
            total(s0.config.fee@, a)
        } else {
            0
        },
{
    assert forall|a: AssetKind| #[trigger] total(creation.funds@, a) == total(offer@, a) + if s0.config.fee_timing == FeeTiming::OnCreate {
        total(s0.config.fee@, a)
    } else {
        0
    } by {
        lemma_total_concat(offer@, s0.config.fee@, a);
        assert(total(creation.funds@, a) == total(required_for_create(s0.config, offer@), a));
    }
    assert forall|a: AssetKind| #[trigger] total(settlement.funds@, a) == total(ask@, a) + if s0.config.fee_timing == FeeTiming::OnExecute {
        total(s0.config.fee@, a)
    } else {
        0
    } by {
        lemma_total_concat(ask@, s0.config.fee@, a);
        assert(total(settlement.funds@, a) == total(required_for_execute(s1.config, s1.positions@[r1->Ok_0.position_id - 1].ask@), a));
    }
    let t = r2->Ok_0.transfers@;
    let id = r1->Ok_0.position_id;
    assert(s1.positions@[id - 1].offer == offer);
    assert(s1.positions@[id - 1].ask == ask);
    assert(t.take(offer@.len() as int) =~= transfers_to(offer@, settlement.sender));
    assert(t.subrange(offer@.len() as int, (offer@.len() + ask@.len()) as int) =~= transfers_to(
        ask@,
        creation.sender,
    ));
}

} // verus!
