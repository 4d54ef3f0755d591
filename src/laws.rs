//! Properties that hold across calls, proved over the spec functions that
//! the operations' contracts use.
use vstd::prelude::*;

use crate::dao::{lemma_proposal_remove, proposal_position, TokenWeigtedDao};
use crate::decimal::units;
use crate::error::DaoError;
use crate::governance::{execute_error, proposal_closed};
use crate::ledger::{Bucket, ComponentAddress};
use crate::proposal::{vote_error, vote_weight, TokenWeightProposal};
use crate::treasury::{request_position, ApprovalResponse};
use crate::withdrawals::{may_answer, settles};
use crate::zerocouponbond::{purchase_error, purchased, ZeroCouponBond};

verus! {

/// An address votes at most once on a proposal: once its vote is counted,
/// every further vote from it (with the governance token) is refused as a
/// duplicate, and the voters stay free of repetitions.
pub proof fn lemma_vote_counted_once(
    before: TokenWeightProposal,
    after: TokenWeightProposal,
    token: Bucket,
    against: bool,
    voter: ComponentAddress,
    next_token: Bucket,
    next_against: bool,
)
    requires
        before.wf(),
        vote_error(before, token, against, voter) is None,
        TokenWeightProposal::voted(
            before,
            after,
            vote_weight(before.terms.voting_type, token.amount@),
            against,
            voter,
        ),
        next_token.resource == after.terms.voter_badge_address,
    ensures
        after.wf(),
        vote_error(after, next_token, next_against, voter) == Some(DaoError::DuplicateVote),
{
    let s = before.vote_caster_addresses@;
    let t = after.vote_caster_addresses@;
    assert(t[s.len() as int] == voter);
    assert(t.contains(voter));
    assert forall|i: int, j: int| 0 <= i < t.len() && 0 <= j < t.len() && i != j implies t[i]
        != t[j] by {
        if i == s.len() {
            assert(s[j] == t[j]);
            assert(s.contains(s[j]));
        } else if j == s.len() {
            assert(s[i] == t[i]);
            assert(s.contains(s[i]));
        }
    }
}

/// The same, through the organization: after `voter`'s vote on proposal
/// `id` was counted (the proposal at its position replaced by the voted
/// one), the proposal is still found under `id`, and any further vote of
/// `voter` on it with the governance token is refused as a duplicate.
pub proof fn lemma_dao_vote_counted_once(
    before: TokenWeigtedDao,
    after: TokenWeigtedDao,
    id: usize,
    token: Bucket,
    against: bool,
    voter: ComponentAddress,
    next_token: Bucket,
    next_against: bool,
)
    requires
        before.wf(),
        proposal_position(before.current_praposals@, id) is Some,
        vote_error(
            before.current_praposals@[proposal_position(before.current_praposals@, id).unwrap()],
            token,
            against,
            voter,
        ) is None,
        after.current_praposals@ == before.current_praposals@.update(
            proposal_position(before.current_praposals@, id).unwrap(),
            after.current_praposals@[proposal_position(before.current_praposals@, id).unwrap()],
        ),
        TokenWeightProposal::voted(
            before.current_praposals@[proposal_position(before.current_praposals@, id).unwrap()],
            after.current_praposals@[proposal_position(before.current_praposals@, id).unwrap()],
            vote_weight(
                before.current_praposals@[proposal_position(
                    before.current_praposals@,
                    id,
                ).unwrap()].terms.voting_type,
                token.amount@,
            ),
            against,
            voter,
        ),
        after.dao_token_address == before.dao_token_address,
        next_token.resource == after.dao_token_address,
    ensures
        proposal_position(after.current_praposals@, id) == proposal_position(
            before.current_praposals@,
            id,
        ),
        vote_error(
            after.current_praposals@[proposal_position(after.current_praposals@, id).unwrap()],
            next_token,
            next_against,
            voter,
        ) == Some(DaoError::DuplicateVote),
{
    let s = before.current_praposals@;
    let t = after.current_praposals@;
    let i = proposal_position(s, id).unwrap();
    let c = choose|k: int| 0 <= k < s.len() && s[k].id == id;
    assert(c == i);
    assert(t[i].id == id);
    let d = choose|k: int| 0 <= k < t.len() && t[k].id == id;
    assert(d == i) by {
        if d != i {
            assert(t[d] == s[d]);
            if d < i {
                assert(s[d].id < s[i].id);
            } else {
                assert(s[i].id < s[d].id);
            }
        }
    }
    lemma_vote_counted_once(s[i], t[i], token, against, voter, next_token, next_against);
}

/// Every pending withdrawal request has fewer than three answers.
pub proof fn lemma_pending_requests_unsettled(dao: TokenWeigtedDao, k: int)
    requires
        dao.wf(),
        0 <= k < dao.withdraw_requests@.len(),
    ensures
        dao.withdraw_requests@[k].approval_details.responses() < 3,
{
}

/// The third answer settles a request once: the request is deleted with it,
/// so any later answer to it, even by an entitled executive, finds no such
/// request.
pub proof fn lemma_settled_request_is_unknown(
    before: TokenWeigtedDao,
    after: TokenWeigtedDao,
    id: u64,
    caller_badge: Bucket,
    approver: ComponentAddress,
    response: ApprovalResponse,
    later_badge: Bucket,
    later_approver: ComponentAddress,
    later_response: ApprovalResponse,
)
    requires
        before.wf(),
        before.respond_error(caller_badge, approver, id, response) is None,
        settles(
            before.withdraw_requests@[request_position(
                before.withdraw_requests@,
                id,
            ).unwrap()].approval_details,
            response,
        ),
        after.withdraw_requests@ == before.withdraw_requests@.remove(
            request_position(before.withdraw_requests@, id).unwrap(),
        ),
        may_answer(after, later_badge),
        after.executives@.contains(later_approver),
    ensures
        after.respond_error(later_badge, later_approver, id, later_response) == Some(
            DaoError::UnknownRequest,
        ),
{
    let s = before.withdraw_requests@;
    let i = request_position(s, id).unwrap();
    let c = choose|k: int| 0 <= k < s.len() && s[k].request_id == id;
    assert(c == i);
    let t = s.remove(i);
    assert forall|k: int| 0 <= k < t.len() implies t[k].request_id != id by {
        let k0 = if k < i { k } else { k + 1 };
        assert(t[k] == s[k0]);
        if k0 < i {
            assert(s[k0].request_id < s[i].request_id);
        } else {
            assert(s[i].request_id < s[k0].request_id);
        }
    }
}

/// A proposal is executed at most once: once closed by an execution, any
/// later attempt to execute it, at whatever time, finds no such proposal.
pub proof fn lemma_executed_proposal_is_gone(
    before: TokenWeigtedDao,
    after: TokenWeigtedDao,
    id: usize,
    later: i64,
)
    requires
        before.wf(),
        proposal_position(before.current_praposals@, id) is Some,
        proposal_closed(before, after, proposal_position(before.current_praposals@, id).unwrap()),
    ensures
        execute_error(after, id, later) == Some(DaoError::ReferenceNotFound),
{
    let s = before.current_praposals@;
    let i = proposal_position(s, id).unwrap();
    lemma_proposal_remove(s, i, before.next_proposal_id, before.dao_token_address);
}

/// After `k` of the sales in `states`, `k` prices are in the proceeds and
/// `k` units fewer remain.
proof fn lemma_sales_so_far(states: Seq<ZeroCouponBond>, q: nat, k: nat)
    requires
        states.len() == q + 1,
        k <= q,
        forall|j: int| 0 <= j < q ==> purchased(#[trigger] states[j], states[j + 1]),
    ensures
        states[k as int].price == states[0].price,
        states[k as int].collected_xrd.amount@ == states[0].collected_xrd.amount@ + k * units(
            states[0].price as int,
        ),
        states[k as int].bonds.amount@ == states[0].bonds.amount@ - k * units(1),
    decreases k,
{
    if k > 0 {
        lemma_sales_so_far(states, q, (k - 1) as nat);
        assert(purchased(states[k - 1], states[k as int]));
        assert(k * units(states[0].price as int) == (k - 1) * units(states[0].price as int)
            + units(states[0].price as int)) by (nonlinear_arith);
        assert(k * units(1) == (k - 1) * units(1) + units(1)) by (nonlinear_arith);
    }
}

/// Selling out a bond: issued with `q` units and empty proceeds, after `q`
/// sales (`states[k + 1]` is `states[k]` after one) the proceeds hold
/// exactly `q` prices, no unit remains, and one more sale is refused
/// whatever the payment.
pub proof fn lemma_bond_sell_out(states: Seq<ZeroCouponBond>, q: nat)
    requires
        states.len() == q + 1,
        states[0].bonds.amount@ == units(q as int),
        states[0].collected_xrd.amount@ == 0,
        forall|j: int| 0 <= j < q ==> purchased(#[trigger] states[j], states[j + 1]),
    ensures
        states[q as int].collected_xrd.amount@ == q * units(states[0].price as int),
        states[q as int].bonds.amount@ == 0,
        forall|payment: Bucket| #[trigger] purchase_error(states[q as int], payment) is Some,
{
    lemma_sales_so_far(states, q, q);
    assert(q * units(1) == units(q as int)) by (nonlinear_arith);
}

} // verus!
