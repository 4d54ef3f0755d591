//! Withdrawals from the treasury: an investor asks for at most 40 % of what
//! it invested, and three executives settle the request.
use vstd::prelude::*;

use crate::dao::{emit, emitted, TokenWeigtedDao, ResponseOutcome};
use crate::decimal::{units, Decimal};
use crate::error::DaoError;
use crate::events::{
    DaoEvent, DaoType, EventType, FundsNotWithdrawn, FundsWithdrawn, PandaoEvent,
    WithdrawalRequestApproved, WithdrawalRequestDenied, WithdrawalRequested,
};
use crate::ledger::{Bucket, ComponentAddress, ResourceAddress};
use crate::treasury::{
    compute_withdrawal_cap, request_position, withdrawal_cap, ApprovalDetails, ApprovalResponse,
    WithdrawalRequest, RESPONSES_TO_SETTLE,
};

verus! {

/// Approvals on the request once `response` is recorded.
pub open spec fn approvals_after(d: ApprovalDetails, response: ApprovalResponse) -> int {
    d.approvals + if response == ApprovalResponse::Approve {
        1int
    } else {
        0int
    }
}

/// Denials on the request once `response` is recorded.
pub open spec fn denials_after(d: ApprovalDetails, response: ApprovalResponse) -> int {
    d.denials + if response == ApprovalResponse::Deny {
        1int
    } else {
        0int
    }
}

/// Whether recording `response` brings the request to its third answer.
pub open spec fn settles(d: ApprovalDetails, response: ApprovalResponse) -> bool {
    approvals_after(d, response) + denials_after(d, response) == RESPONSES_TO_SETTLE
}

/// Whether a request settled by `response` is paid out.
pub open spec fn paid_out(d: ApprovalDetails, response: ApprovalResponse) -> bool {
    settles(d, response) && approvals_after(d, response) > denials_after(d, response)
}

/// Whether `proof` shows an executive badge or the owner badge.
pub open spec fn may_answer(dao: TokenWeigtedDao, proof: Bucket) -> bool {
    &&& (proof.resource == dao.executive_badge_address || proof.resource
        == dao.owner_token_addresss)
    &&& proof.amount@ >= units(1)
}

/// Whether `s` holds `a`.
fn contains_address(s: &Vec<ComponentAddress>, a: ComponentAddress) -> (r: bool)
    ensures
        r == s@.contains(a),
{
    let mut i: usize = 0;
    while i < s.len()
        invariant
            i <= s@.len(),
            forall|j: int| 0 <= j < i ==> s@[j] != a,
        decreases s@.len() - i,
    {
        if s[i] == a {
            return true;
        }
        i = i + 1;
    }
    false
}

proof fn lemma_push_keeps_apart(s: Seq<ComponentAddress>, o: Seq<ComponentAddress>, x: ComponentAddress)
    requires
        s.no_duplicates(),
        s.disjoint(o),
        !s.contains(x),
        !o.contains(x),
    ensures
        s.push(x).no_duplicates(),
        s.push(x).disjoint(o),
        o.disjoint(s.push(x)),
{
    let t = s.push(x);
    assert forall|i: int, j: int| 0 <= i < t.len() && 0 <= j < t.len() && i != j implies t[i]
        != t[j] by {
        if i == s.len() {
            assert(s[j] == t[j]);
        } else if j == s.len() {
            assert(s[i] == t[i]);
        }
    }
    assert forall|i: int, j: int| 0 <= i < t.len() && 0 <= j < o.len() implies t[i] != o[j] by {
        if i == s.len() {
            assert(o.contains(o[j]));
        }
    }
}

impl TokenWeigtedDao {
    /// The treasury, the token supply and the books, which only token sales,
    /// contributions, buy-backs and withdrawals change.
    pub open spec fn same_treasury(&self, o: &Self) -> bool {
        &&& self.shares == o.shares
        &&& self.dao_token == o.dao_token
        &&& self.investment_record == o.investment_record
        &&& self.contributors == o.contributors
    }

    /// Why the answer `response` of `approver` to request `id` is refused, if it is.
    pub open spec fn respond_error(
        &self,
        caller_badge: Bucket,
        approver: ComponentAddress,
        id: u64,
        response: ApprovalResponse,
    ) -> Option<DaoError> {
        if !may_answer(*self, caller_badge) {
            Some(DaoError::Authorization)
        } else if !self.executives@.contains(approver) {
            Some(DaoError::NotExecutive)
        } else {
            match request_position(self.withdraw_requests@, id) {
                None => Some(DaoError::UnknownRequest),
                Some(i) => {
                    let req = self.withdraw_requests@[i];
                    if req.approval_details.has_answered(approver) {
                        Some(DaoError::DuplicateResponse)
                    } else if paid_out(req.approval_details, response) && self.shares.amount@
                        < req.requested_amount@ {
                        Some(DaoError::InsufficientFunds)
                    } else {
                        None
                    }
                },
            }
        }
    }

    fn request_index(&self, id: u64) -> (p: Option<usize>)
        requires
            self.wf(),
        ensures
            p matches Some(i) ==> request_position(self.withdraw_requests@, id) == Some(i as int),
            p is None ==> request_position(self.withdraw_requests@, id) is None,
    {
        let mut i: usize = 0;
        while i < self.withdraw_requests.len()
            invariant
                i <= self.withdraw_requests@.len(),
                self.wf(),
                forall|j: int| 0 <= j < i ==> self.withdraw_requests@[j].request_id != id,
            decreases self.withdraw_requests@.len() - i,
        {
            if self.withdraw_requests[i].request_id == id {
                proof {
                    let s = self.withdraw_requests@;
                    let c = choose|k: int| 0 <= k < s.len() && s[k].request_id == id;
                    assert(c == i as int) by {
                        if c > i as int {
                            assert(s[i as int].request_id < s[c].request_id);
                        } else if c < i as int {
                            assert(s[c].request_id < s[i as int].request_id);
                        }
                    }
                }
                return Some(i);
            }
            i = i + 1;
        }
        None
    }

    /// Files a request of `requester_address` to withdraw `requested_amount`
    /// XRD, which may not exceed 40 % of what it invested. An over-cap
    /// request is refused with a failure event and is not stored.
    pub fn request_withdrawal(
        &mut self,
        requester_address: ComponentAddress,
        requested_amount: Decimal,
    ) -> (r: Result<u64, DaoError>)
        requires
            old(self).wf(),
        ensures
            final(self).wf(),
            final(self).same_config(old(self)),
            final(self).same_treasury(old(self)),
            final(self).same_governance(old(self)),
            final(self).same_bonds(old(self)),
            final(self).executives == old(self).executives,
            match old(self).investment_record.total(requester_address) {
                None => r == Err::<u64, DaoError>(DaoError::NoInvestmentRecord) && *final(self)
                    == *old(self),
                Some(invested) => if requested_amount@ > withdrawal_cap(invested) {
                    &&& r == Err::<u64, DaoError>(DaoError::ExceedsCap)
                    &&& final(self).same_withdrawals(old(self))
                    &&& emitted(
                        old(self).events@,
                        final(self).events@,
                        EventType::WITHDRAWAL_REQUEST_FAILED,
                    )
                    &&& (final(self).events@.last().meta_data matches DaoEvent::WithdrawalRequestFailed(m)
                        && m.requester_address == requester_address
                        && m.requested_amount == requested_amount
                        && m.max_withdrawal_amount@ == withdrawal_cap(invested)
                        && !m.withdrawal_request_occured
                        && m.requester_id is None)
                } else if old(self).next_request_id == u64::MAX {
                    r == Err::<u64, DaoError>(DaoError::Overflow) && *final(self) == *old(self)
                } else {
                    let id = old(self).next_request_id;
                    let n = old(self).withdraw_requests@.len();
                    &&& r == Ok::<u64, DaoError>(id)
                    &&& final(self).next_request_id == id + 1
                    &&& final(self).withdraw_requests@.len() == n + 1
                    &&& final(self).withdraw_requests@.subrange(0, n as int) == old(self).withdraw_requests@
                    &&& final(self).withdraw_requests@[n as int].request_id == id
                    &&& final(self).withdraw_requests@[n as int].requester_address
                        == requester_address
                    &&& final(self).withdraw_requests@[n as int].requested_amount
                        == requested_amount
                    &&& final(self).withdraw_requests@[n as int].approval_details.responses() == 0
                    &&& request_position(final(self).withdraw_requests@, id) == Some(n as int)
                    &&& emitted(
                        old(self).events@,
                        final(self).events@,
                        EventType::WITHDRAWAL_REQUESTED_SUCCESSFULLY,
                    )
                    &&& (final(self).events@.last().meta_data matches DaoEvent::WithdrawalRequested(m)
                        && m.requester_address == requester_address
                        && m.requested_amount == requested_amount
                        && m.max_withdrawal_amount@ == withdrawal_cap(invested)
                        && m.withdrawal_request_occured
                        && m.requester_id == Some(id))
                },
            },
    {
        let invested_amount = match self.investment_record.get(requester_address) {
            Some(a) => a,
            None => {
                return Err(DaoError::NoInvestmentRecord);
            },
        };
        let max_withdrawal_amount = compute_withdrawal_cap(invested_amount);
        if max_withdrawal_amount.lt(&requested_amount) {
            let event_metadata = WithdrawalRequested {
                requester_address,
                requested_amount,
                max_withdrawal_amount,
                withdrawal_request_occured: false,
                requester_id: None,
            };
            emit(
                &mut self.events,
                PandaoEvent {
                    event_type: EventType::WITHDRAWAL_REQUEST_FAILED,
                    dao_type: DaoType::Investment,
                    component_address: self.component_address,
                    meta_data: DaoEvent::WithdrawalRequestFailed(event_metadata),
                },
            );
            return Err(DaoError::ExceedsCap);
        }
        if self.next_request_id == u64::MAX {
            return Err(DaoError::Overflow);
        }
        let id = self.next_request_id;
        self.next_request_id = id + 1;
        let ghost before = self.withdraw_requests@;
        self.withdraw_requests.push(
            WithdrawalRequest {
                request_id: id,
                requester_address,
                requested_amount,
                approval_details: ApprovalDetails::new(),
            },
        );
        proof {
            let s = self.withdraw_requests@;
            let n = before.len() as int;
            assert(s.subrange(0, n) =~= before);
            assert(s[n].request_id == id);
            let c = choose|k: int| 0 <= k < s.len() && s[k].request_id == id;
            assert(c == n) by {
                if c < n {
                    assert(before[c].request_id < id);
                }
            }
        }
        let event_metadata = WithdrawalRequested {
            requester_address,
            requested_amount,
            max_withdrawal_amount,
            withdrawal_request_occured: true,
            requester_id: Some(id),
        };
        emit(
            &mut self.events,
            PandaoEvent {
                event_type: EventType::WITHDRAWAL_REQUESTED_SUCCESSFULLY,
                dao_type: DaoType::Investment,
                component_address: self.component_address,
                meta_data: DaoEvent::WithdrawalRequested(event_metadata),
            },
        );
        Ok(id)
    }

    /// Records the answer of executive `approver` to request `request_id`
    /// on behalf of `user_address`. The caller shows an executive badge or
    /// the owner badge. The third answer settles the request: with more
    /// approvals than denials the requested XRD leaves the treasury, to be
    /// deposited to `user_address`; either way the request is then deleted.
    pub fn approve_or_deny_withdrawal_request(
        &mut self,
        caller_badge: &Bucket,
        approver_address: ComponentAddress,
        user_address: ComponentAddress,
        request_id: u64,
        response: ApprovalResponse,
    ) -> (r: Result<ResponseOutcome, DaoError>)
        requires
            old(self).wf(),
        ensures
            final(self).wf(),
            final(self).same_config(old(self)),
            final(self).same_governance(old(self)),
            final(self).same_bonds(old(self)),
            final(self).executives == old(self).executives,
            final(self).next_request_id == old(self).next_request_id,
            match old(self).respond_error(*caller_badge, approver_address, request_id, response) {
                Some(e) => r == Err::<ResponseOutcome, DaoError>(e) && *final(self) == *old(self),
                None => {
                    let i = request_position(old(self).withdraw_requests@, request_id)->0;
                    let req = old(self).withdraw_requests@[i];
                    let d = req.approval_details;
                    &&& final(self).dao_token == old(self).dao_token
                    &&& final(self).investment_record == old(self).investment_record
                    &&& final(self).contributors == old(self).contributors
                    &&& if settles(d, response) {
                        &&& final(self).withdraw_requests@ == old(self).withdraw_requests@.remove(i)
                        &&& final(self).events@.len() == old(self).events@.len() + 2
                        &&& if paid_out(d, response) {
                            &&& r matches Ok(ResponseOutcome::FundsWithdrawn(b))
                            &&& b.resource == ResourceAddress::Xrd
                            &&& b.amount == req.requested_amount
                            &&& final(self).shares.amount@ == old(self).shares.amount@
                                - req.requested_amount@
                            &&& final(self).events@.last().event_type == EventType::FUNDS_WITHDRAWN
                            &&& (final(self).events@.last().meta_data matches DaoEvent::FundsWithdrawn(m)
                                && m.user_address == user_address
                                && m.requested_amount == req.requested_amount
                                && m.request_id == request_id)
                        } else {
                            &&& r matches Ok(ResponseOutcome::FundsNotWithdrawn)
                            &&& final(self).shares == old(self).shares
                            &&& final(self).events@.last().event_type
                                == EventType::FUNDS_NOT_WITHDRAWN
                            &&& (final(self).events@.last().meta_data matches DaoEvent::FundsNotWithdrawn(m)
                                && m.user_address == user_address
                                && m.requested_amount == req.requested_amount
                                && m.request_id == request_id)
                        }
                    } else {
                        let nd = final(self).withdraw_requests@[i].approval_details;
                        &&& r matches Ok(ResponseOutcome::Recorded)
                        &&& final(self).shares == old(self).shares
                        &&& final(self).withdraw_requests@.len() == old(self).withdraw_requests@.len()
                        &&& forall|k: int|
                            0 <= k < old(self).withdraw_requests@.len() && k != i ==> final(self).withdraw_requests@[k] == old(self).withdraw_requests@[k]
                        &&& final(self).withdraw_requests@[i].request_id == req.request_id
                        &&& final(self).withdraw_requests@[i].requester_address
                            == req.requester_address
                        &&& final(self).withdraw_requests@[i].requested_amount
                            == req.requested_amount
                        &&& nd.approvals == approvals_after(d, response)
                        &&& nd.denials == denials_after(d, response)
                        &&& nd.approval_giver_addresses@ == if response
                            == ApprovalResponse::Approve {
                            d.approval_giver_addresses@.push(approver_address)
                        } else {
                            d.approval_giver_addresses@
                        }
                        &&& nd.denial_giver_addresses@ == if response == ApprovalResponse::Deny {
                            d.denial_giver_addresses@.push(approver_address)
                        } else {
                            d.denial_giver_addresses@
                        }
                        &&& final(self).events@.len() == old(self).events@.len() + 1
                    }
                    &&& final(self).events@[old(self).events@.len() as int].event_type == if response
                        == ApprovalResponse::Approve {
                        EventType::WITHDRAWAL_REQUEST_APPROVED
                    } else {
                        EventType::WITHDRAWAL_REQUEST_DENIED
                    }
                    &&& final(self).events@.subrange(0, old(self).events@.len() as int) == old(self).events@
                    &&& if response == ApprovalResponse::Approve {
                        final(self).events@[old(self).events@.len() as int].meta_data matches
                            DaoEvent::WithdrawalRequestApproved(m) && m.approver_address == approver_address
                            && m.user_address == user_address && m.is_approved && m.request_id == request_id
                    } else {
                        final(self).events@[old(self).events@.len() as int].meta_data matches
                            DaoEvent::WithdrawalRequestDenied(m) && m.disapprover_address == approver_address
                            && m.user_address == user_address && !m.is_approved && m.request_id == request_id
                    }
                },
            },
    {
        if !((caller_badge.resource == self.executive_badge_address || caller_badge.resource
            == self.owner_token_addresss) && Decimal::one().le(&caller_badge.amount)) {
            return Err(DaoError::Authorization);
        }
        if !self.is_executive(approver_address) {
            return Err(DaoError::NotExecutive);
        }
        let i = match self.request_index(request_id) {
            Some(i) => i,
            None => {
                return Err(DaoError::UnknownRequest);
            },
        };
        if contains_address(
            &self.withdraw_requests[i].approval_details.approval_giver_addresses,
            approver_address,
        ) || contains_address(
            &self.withdraw_requests[i].approval_details.denial_giver_addresses,
            approver_address,
        ) {
            return Err(DaoError::DuplicateResponse);
        }
        let approving = response == ApprovalResponse::Approve;
        let approvals = if approving {
            self.withdraw_requests[i].approval_details.approvals + 1
        } else {
            self.withdraw_requests[i].approval_details.approvals
        };
        let denials = if approving {
            self.withdraw_requests[i].approval_details.denials
        } else {
            self.withdraw_requests[i].approval_details.denials + 1
        };
        let demanded_xrds = self.withdraw_requests[i].requested_amount;
        let settled = approvals + denials == RESPONSES_TO_SETTLE;
        if settled && approvals > denials && self.shares.amount.lt(&demanded_xrds) {
            return Err(DaoError::InsufficientFunds);
        }
        let ghost old_requests = self.withdraw_requests@;
        let ghost old_events = self.events@;
        let mut req = self.withdraw_requests.remove(i);
        proof {
            let d = req.approval_details;
            if approving {
                lemma_push_keeps_apart(
                    d.approval_giver_addresses@,
                    d.denial_giver_addresses@,
                    approver_address,
                );
            } else {
                lemma_push_keeps_apart(
                    d.denial_giver_addresses@,
                    d.approval_giver_addresses@,
                    approver_address,
                );
            }
        }
        if approving {
            req.approval_details.approvals = approvals;
            req.approval_details.approval_giver_addresses.push(approver_address);
            let event_metadata = WithdrawalRequestApproved {
                approver_address,
                user_address,
                is_approved: true,
                request_id,
            };
            emit(
                &mut self.events,
                PandaoEvent {
                    event_type: EventType::WITHDRAWAL_REQUEST_APPROVED,
                    dao_type: DaoType::Investment,
                    component_address: self.component_address,
                    meta_data: DaoEvent::WithdrawalRequestApproved(event_metadata),
                },
            );
        } else {
            req.approval_details.denials = denials;
            req.approval_details.denial_giver_addresses.push(approver_address);
            let event_metadata = WithdrawalRequestDenied {
                disapprover_address: approver_address,
                user_address,
                is_approved: false,
                request_id,
            };
            emit(
                &mut self.events,
                PandaoEvent {
                    event_type: EventType::WITHDRAWAL_REQUEST_DENIED,
                    dao_type: DaoType::Investment,
                    component_address: self.component_address,
                    meta_data: DaoEvent::WithdrawalRequestDenied(event_metadata),
                },
            );
        }
        proof {
            let s = self.withdraw_requests@;
            assert forall|a: int, b: int| 0 <= a < b < s.len() implies s[a].request_id
                < s[b].request_id by {
                let a0 = if a < i { a } else { a + 1 };
                let b0 = if b < i { b } else { b + 1 };
                assert(s[a] == old_requests[a0]);
                assert(s[b] == old_requests[b0]);
            }
        }
        if settled {
            if approvals > denials {
                let bucket = match self.shares.take(demanded_xrds) {
                    Ok(b) => b,
                    Err(e) => {
                        return Err(e);
                    },
                };
                let event_metadata = FundsWithdrawn {
                    user_address,
                    requested_amount: demanded_xrds,
                    request_id,
                };
                emit(
                    &mut self.events,
                    PandaoEvent {
                        event_type: EventType::FUNDS_WITHDRAWN,
                        dao_type: DaoType::Investment,
                        component_address: self.component_address,
                        meta_data: DaoEvent::FundsWithdrawn(event_metadata),
                    },
                );
                proof {
                    assert(self.events@.subrange(0, old_events.len() as int) =~= old_events);
                }
                Ok(ResponseOutcome::FundsWithdrawn(bucket))
            } else {
                let event_metadata = FundsNotWithdrawn {
                    user_address,
                    requested_amount: demanded_xrds,
                    request_id,
                };
                emit(
                    &mut self.events,
                    PandaoEvent {
                        event_type: EventType::FUNDS_NOT_WITHDRAWN,
                        dao_type: DaoType::Investment,
                        component_address: self.component_address,
                        meta_data: DaoEvent::FundsNotWithdrawn(event_metadata),
                    },
                );
                proof {
                    assert(self.events@.subrange(0, old_events.len() as int) =~= old_events);
                }
                Ok(ResponseOutcome::FundsNotWithdrawn)
            }
        } else {
            self.withdraw_requests.insert(i, req);
            proof {
                let s = self.withdraw_requests@;
                assert forall|k: int| 0 <= k < s.len() && k != i implies s[k] == old_requests[k] by {}
                assert forall|a: int, b: int| 0 <= a < b < s.len() implies s[a].request_id
                    < s[b].request_id by {
                    assert(s[a].request_id == old_requests[a].request_id);
                    assert(s[b].request_id == old_requests[b].request_id);
                }
            }
            proof {
                assert(self.events@.subrange(0, old_events.len() as int) =~= old_events);
            }
            Ok(ResponseOutcome::Recorded)
        }
    }
}

} // verus!
