use pandao::bonds::ClaimOutcome;
use pandao::dao::{ResponseOutcome, TokenWeigtedDao};
use pandao::decimal::{Decimal, ATTOS_PER_UNIT};
use pandao::error::DaoError;
use pandao::events::{DaoEvent, EventType, ProposalCreationRight, VotingType};
use pandao::governance::ExecutionOutcome;
use pandao::ledger::{Bucket, ComponentAddress, ResourceAddress};
use pandao::treasury::{compute_withdrawal_cap, ApprovalResponse};

const DAO: ComponentAddress = ComponentAddress(1);
const ALICE: ComponentAddress = ComponentAddress(10);
const BOB: ComponentAddress = ComponentAddress(11);
const CAROL: ComponentAddress = ComponentAddress(12);
const ISSUER: ComponentAddress = ComponentAddress(20);
const EXEC1: ComponentAddress = ComponentAddress(31);
const EXEC2: ComponentAddress = ComponentAddress(32);
const EXEC3: ComponentAddress = ComponentAddress(33);
const NFT: ResourceAddress = ResourceAddress::External(99);

fn units(n: u64) -> Decimal {
    Decimal::from_u64(n)
}

fn xrd(n: u64) -> Bucket {
    Bucket::new(ResourceAddress::Xrd, units(n))
}

fn new_dao(right: ProposalCreationRight) -> (TokenWeigtedDao, Bucket) {
    TokenWeigtedDao::initiate(
        DAO,
        "Panjab Investment DAO".to_string(),
        100,
        0,
        units(5),
        units(2),
        "https://example.org/logo.png".to_string(),
        "https://example.org/token.png".to_string(),
        "A DAO for managing community projects".to_string(),
        vec!["investment".to_string()],
        "community projects".to_string(),
        right,
        "PANDA".to_string(),
    )
    .unwrap()
}

fn buy_tokens(dao: &mut TokenWeigtedDao, who: ComponentAddress, amount: u64) -> Bucket {
    let mut payment = xrd(5 * amount);
    dao.obtain_community_token(&mut payment, units(amount), who).unwrap()
}

fn issue_bond(dao: &mut TokenWeigtedDao, price: u64, rate: Decimal, quantity: u64, maturity: u64) -> ResourceAddress {
    let mut collateral = Bucket::new(NFT, units(1));
    let res = dao
        .create_zero_coupon_bond(
            "PAM".to_string(),
            "issuer".to_string(),
            "CONTRACT1234".to_string(),
            rate,
            "XRD".to_string(),
            1_000,
            maturity,
            units(100),
            5,
            "long".to_string(),
            price,
            units(quantity),
            ISSUER,
            &mut collateral,
        )
        .unwrap();
    assert_eq!(collateral.amount, Decimal::zero());
    res
}

fn appoint_executives(dao: &mut TokenWeigtedDao, owner: &Bucket) -> Bucket {
    for (n, who) in [EXEC1, EXEC2, EXEC3].into_iter().enumerate() {
        let badge = dao.mint_executive_badge(owner, format!("executive {}", n)).unwrap();
        dao.make_an_executive(owner, who, badge, n as u64).unwrap();
    }
    Bucket::new(dao.executive_badge_address, units(1))
}

fn last_event_type(dao: &TokenWeigtedDao) -> EventType {
    dao.events.last().unwrap().event_type
}

#[test]
fn obtain_community_token_scenario() {
    let (mut dao, _owner) = new_dao(ProposalCreationRight::EVERYONE);
    let mut payment = xrd(500);
    let tokens = dao.obtain_community_token(&mut payment, units(100), ALICE).unwrap();
    assert_eq!(tokens.amount, units(100));
    assert_eq!(tokens.resource, dao.dao_token_address);
    assert_eq!(payment.amount, Decimal::zero());
    assert_eq!(dao.shares.amount, units(500));
    assert_eq!(dao.dao_token.amount, Decimal::zero());
    assert_eq!(dao.get_investment_details(ALICE), Ok(units(500)));
    assert_eq!(last_event_type(&dao), EventType::TOKEN_BOUGHT);
}

#[test]
fn obtain_community_token_keeps_change() {
    let (mut dao, _owner) = new_dao(ProposalCreationRight::EVERYONE);
    let mut payment = xrd(12);
    let tokens = dao.obtain_community_token(&mut payment, units(2), ALICE).unwrap();
    assert_eq!(tokens.amount, units(2));
    assert_eq!(payment.amount, units(2));
    assert_eq!(dao.shares.amount, units(10));
}

#[test]
fn obtain_community_token_refuses_short_payment() {
    let (mut dao, _owner) = new_dao(ProposalCreationRight::EVERYONE);
    let mut payment = xrd(9);
    let r = dao.obtain_community_token(&mut payment, units(2), ALICE);
    assert_eq!(r.unwrap_err(), DaoError::InsufficientPayment);
    assert_eq!(payment.amount, units(9));
    assert_eq!(dao.shares.amount, Decimal::zero());
    assert_eq!(dao.get_investment_details(ALICE), Err(DaoError::NoInvestmentRecord));
}

#[test]
fn obtain_community_token_refuses_other_currency() {
    let (mut dao, _owner) = new_dao(ProposalCreationRight::EVERYONE);
    let mut payment = Bucket::new(ResourceAddress::External(3), units(50));
    let r = dao.obtain_community_token(&mut payment, units(2), ALICE);
    assert_eq!(r.unwrap_err(), DaoError::InvalidAsset);
}

#[test]
fn obtain_community_token_refuses_more_than_supply() {
    let (mut dao, _owner) = new_dao(ProposalCreationRight::EVERYONE);
    let mut payment = xrd(1000);
    let r = dao.obtain_community_token(&mut payment, units(101), ALICE);
    assert_eq!(r.unwrap_err(), DaoError::InsufficientBalance);
}

#[test]
fn initiate_refuses_negative_supply() {
    let r = TokenWeigtedDao::initiate(
        DAO,
        "x".to_string(),
        -1,
        0,
        units(1),
        units(1),
        String::new(),
        String::new(),
        String::new(),
        Vec::new(),
        String::new(),
        ProposalCreationRight::ADMIN,
        String::new(),
    );
    assert_eq!(r.unwrap_err(), DaoError::InvalidAmount);
}

#[test]
fn initiate_sets_up_supply_and_badge() {
    let (dao, owner) = new_dao(ProposalCreationRight::ADMIN);
    assert_eq!(dao.dao_token.amount, units(100));
    assert_eq!(owner.resource, dao.owner_token_addresss);
    assert_eq!(owner.amount, units(1));
    assert_eq!(dao.events.len(), 1);
    assert_eq!(dao.events[0].event_type, EventType::DEPLOYMENT);
}

#[test]
fn decimal_products_truncate() {
    let a = Decimal::from_attos(ATTOS_PER_UNIT + ATTOS_PER_UNIT / 2);
    let b = Decimal::from_attos(2 * ATTOS_PER_UNIT + ATTOS_PER_UNIT / 2);
    assert_eq!(a.checked_mul(&b), Some(Decimal::from_attos(3 * ATTOS_PER_UNIT + 3 * ATTOS_PER_UNIT / 4)));
    assert_eq!(units(5).checked_mul(&units(100)), Some(units(500)));
    let tiny = Decimal::from_attos(1);
    assert_eq!(tiny.checked_mul(&tiny), Some(Decimal::zero()));
    assert_eq!(Decimal::from_attos(u128::MAX).checked_mul(&units(2)), None);
    assert_eq!(units(7).div_int(2), Decimal::from_attos(3 * ATTOS_PER_UNIT + ATTOS_PER_UNIT / 2));
}

#[test]
fn withdrawal_cap_is_forty_percent() {
    assert_eq!(compute_withdrawal_cap(units(500)), units(200));
    assert_eq!(compute_withdrawal_cap(Decimal::from_attos(1)), Decimal::zero());
    assert_eq!(compute_withdrawal_cap(Decimal::from_attos(5)), Decimal::from_attos(2));
    assert_eq!(
        compute_withdrawal_cap(Decimal::from_attos(u128::MAX)),
        Decimal::from_attos(u128::MAX / 5 * 2 + (u128::MAX % 5) * 2 / 5)
    );
}

#[test]
fn withdrawal_boundary() {
    let (mut dao, _owner) = new_dao(ProposalCreationRight::EVERYONE);
    buy_tokens(&mut dao, ALICE, 100);
    let cap = units(200);
    let over = Decimal::from_attos(cap.attos + 1);
    let events = dao.events.len();
    assert_eq!(dao.request_withdrawal(ALICE, over), Err(DaoError::ExceedsCap));
    assert_eq!(dao.events.len(), events + 1);
    assert_eq!(last_event_type(&dao), EventType::WITHDRAWAL_REQUEST_FAILED);
    match &dao.events.last().unwrap().meta_data {
        DaoEvent::WithdrawalRequestFailed(e) => {
            assert!(!e.withdrawal_request_occured);
            assert_eq!(e.requester_id, None);
            assert_eq!(e.max_withdrawal_amount, cap);
            assert_eq!(e.requested_amount, over);
        }
        other => panic!("unexpected event {:?}", other),
    }
    assert!(dao.withdraw_requests.is_empty());
    let id = dao.request_withdrawal(ALICE, cap).unwrap();
    assert_eq!(dao.withdraw_requests.len(), 1);
    assert_eq!(dao.withdraw_requests[0].request_id, id);
    assert_eq!(last_event_type(&dao), EventType::WITHDRAWAL_REQUESTED_SUCCESSFULLY);
    match &dao.events.last().unwrap().meta_data {
        DaoEvent::WithdrawalRequested(e) => {
            assert!(e.withdrawal_request_occured);
            assert_eq!(e.requester_id, Some(id));
        }
        other => panic!("unexpected event {:?}", other),
    }
}

#[test]
fn withdrawal_needs_investment() {
    let (mut dao, _owner) = new_dao(ProposalCreationRight::EVERYONE);
    assert_eq!(dao.request_withdrawal(BOB, units(1)), Err(DaoError::NoInvestmentRecord));
}

#[test]
fn withdrawal_two_approvals_one_denial() {
    let (mut dao, owner) = new_dao(ProposalCreationRight::EVERYONE);
    buy_tokens(&mut dao, ALICE, 100);
    let badge = appoint_executives(&mut dao, &owner);
    let id = dao.request_withdrawal(ALICE, units(100)).unwrap();
    let r1 = dao.approve_or_deny_withdrawal_request(&badge, EXEC1, ALICE, id, ApprovalResponse::Approve);
    assert!(matches!(r1, Ok(ResponseOutcome::Recorded)));
    let r2 = dao.approve_or_deny_withdrawal_request(&badge, EXEC2, ALICE, id, ApprovalResponse::Deny);
    assert!(matches!(r2, Ok(ResponseOutcome::Recorded)));
    assert_eq!(dao.withdraw_requests[0].approval_details.approvals, 1);
    assert_eq!(dao.withdraw_requests[0].approval_details.denials, 1);
    let r3 = dao.approve_or_deny_withdrawal_request(&badge, EXEC3, ALICE, id, ApprovalResponse::Approve);
    match r3 {
        Ok(ResponseOutcome::FundsWithdrawn(b)) => {
            assert_eq!(b.resource, ResourceAddress::Xrd);
            assert_eq!(b.amount, units(100));
        }
        other => panic!("unexpected outcome {:?}", other),
    }
    assert_eq!(dao.shares.amount, units(400));
    assert!(dao.withdraw_requests.is_empty());
    assert_eq!(last_event_type(&dao), EventType::FUNDS_WITHDRAWN);
    match &dao.events.last().unwrap().meta_data {
        DaoEvent::FundsWithdrawn(e) => {
            assert_eq!(e.requested_amount, units(100));
            assert_eq!(e.request_id, id);
            assert_eq!(e.user_address, ALICE);
        }
        other => panic!("unexpected event {:?}", other),
    }
    let r4 = dao.approve_or_deny_withdrawal_request(&badge, EXEC1, ALICE, id, ApprovalResponse::Approve);
    assert_eq!(r4.unwrap_err(), DaoError::UnknownRequest);
}

#[test]
fn withdrawal_majority_denial_pays_nothing() {
    let (mut dao, owner) = new_dao(ProposalCreationRight::EVERYONE);
    buy_tokens(&mut dao, ALICE, 100);
    let badge = appoint_executives(&mut dao, &owner);
    let id = dao.request_withdrawal(ALICE, units(50)).unwrap();
    dao.approve_or_deny_withdrawal_request(&badge, EXEC1, ALICE, id, ApprovalResponse::Deny).unwrap();
    dao.approve_or_deny_withdrawal_request(&badge, EXEC2, ALICE, id, ApprovalResponse::Approve).unwrap();
    let r = dao.approve_or_deny_withdrawal_request(&badge, EXEC3, ALICE, id, ApprovalResponse::Deny);
    assert!(matches!(r, Ok(ResponseOutcome::FundsNotWithdrawn)));
    assert_eq!(dao.shares.amount, units(500));
    assert!(dao.withdraw_requests.is_empty());
    assert_eq!(last_event_type(&dao), EventType::FUNDS_NOT_WITHDRAWN);
    match &dao.events.last().unwrap().meta_data {
        DaoEvent::FundsNotWithdrawn(e) => {
            assert_eq!(e.requested_amount, units(50));
            assert_eq!(e.request_id, id);
        }
        other => panic!("unexpected event {:?}", other),
    }
}

#[test]
fn withdrawal_answer_refusals() {
    let (mut dao, owner) = new_dao(ProposalCreationRight::EVERYONE);
    buy_tokens(&mut dao, ALICE, 100);
    let badge = appoint_executives(&mut dao, &owner);
    let id = dao.request_withdrawal(ALICE, units(10)).unwrap();
    let stranger = Bucket::new(ResourceAddress::External(5), units(1));
    let r = dao.approve_or_deny_withdrawal_request(&stranger, EXEC1, ALICE, id, ApprovalResponse::Approve);
    assert_eq!(r.unwrap_err(), DaoError::Authorization);
    let r = dao.approve_or_deny_withdrawal_request(&badge, BOB, ALICE, id, ApprovalResponse::Approve);
    assert_eq!(r.unwrap_err(), DaoError::NotExecutive);
    let r = dao.approve_or_deny_withdrawal_request(&badge, EXEC1, ALICE, id + 7, ApprovalResponse::Approve);
    assert_eq!(r.unwrap_err(), DaoError::UnknownRequest);
    dao.approve_or_deny_withdrawal_request(&badge, EXEC1, ALICE, id, ApprovalResponse::Approve).unwrap();
    let r = dao.approve_or_deny_withdrawal_request(&badge, EXEC1, ALICE, id, ApprovalResponse::Deny);
    assert_eq!(r.unwrap_err(), DaoError::DuplicateResponse);
    let r = dao.approve_or_deny_withdrawal_request(&owner, EXEC2, ALICE, id, ApprovalResponse::Approve);
    assert!(matches!(r, Ok(ResponseOutcome::Recorded)));
}

#[test]
fn executive_badges_need_the_owner_badge() {
    let (mut dao, owner) = new_dao(ProposalCreationRight::EVERYONE);
    let fake = Bucket::new(ResourceAddress::External(1), units(1));
    assert_eq!(dao.mint_executive_badge(&fake, "x".to_string()).unwrap_err(), DaoError::Authorization);
    let badge = dao.mint_executive_badge(&owner, "x".to_string()).unwrap();
    assert_eq!(badge.resource, dao.executive_badge_address);
    let returned = dao.make_an_executive(&owner, EXEC1, badge, 0).unwrap();
    assert_eq!(returned.amount, units(1));
    assert_eq!(dao.get_executives(), vec![EXEC1]);
    let again = dao.mint_executive_badge(&owner, "y".to_string()).unwrap();
    dao.make_an_executive(&owner, EXEC1, again, 1).unwrap();
    assert_eq!(dao.get_executives(), vec![EXEC1]);
}

#[test]
fn treasury_contributions_accumulate() {
    let (mut dao, _owner) = new_dao(ProposalCreationRight::EVERYONE);
    let mut first = xrd(30);
    dao.send_money_to_dao_treasury(&mut first, BOB, 7).unwrap();
    let mut second = xrd(12);
    dao.send_money_to_dao_treasury(&mut second, BOB, 8).unwrap();
    assert_eq!(first.amount, Decimal::zero());
    assert_eq!(dao.shares.amount, units(42));
    assert_eq!(dao.get_all_contributors(), vec![(BOB, units(42))]);
    match &dao.events.last().unwrap().meta_data {
        DaoEvent::TreasuryContribution(c) => {
            assert_eq!(c.amount, units(12));
            assert_eq!(c.timestamp, 8);
        }
        other => panic!("unexpected event {:?}", other),
    }
    let mut wrong = Bucket::new(dao.dao_token_address, units(1));
    assert_eq!(dao.send_money_to_dao_treasury(&mut wrong, BOB, 9), Err(DaoError::InvalidAsset));
}

#[test]
fn proposal_creation_rights() {
    let (mut dao, owner) = new_dao(ProposalCreationRight::TOKEN_HOLDER_THRESHOLD(units(10)));
    let few = buy_tokens(&mut dao, ALICE, 5);
    let many = buy_tokens(&mut dao, BOB, 10);
    let r = dao.create_praposal("t".to_string(), "d".to_string(), 1, 0, 100, None, None, Some(ALICE), &few, VotingType::ResourceHold);
    assert_eq!(r.unwrap_err(), DaoError::Authorization);
    let r = dao.create_praposal("t".to_string(), "d".to_string(), 1, 0, 100, None, None, Some(BOB), &owner, VotingType::ResourceHold);
    assert_eq!(r.unwrap_err(), DaoError::Authorization);
    let r = dao.create_praposal("t".to_string(), "d".to_string(), 1, 0, 100, None, None, None, &many, VotingType::ResourceHold);
    assert_eq!(r.unwrap_err(), DaoError::MissingField);
    let r = dao.create_praposal("t".to_string(), "d".to_string(), 1, 0, 100, Some(ISSUER), Some(units(10)), Some(BOB), &many, VotingType::ResourceHold);
    assert_eq!(r.unwrap_err(), DaoError::ReferenceNotFound);
    let id = dao.create_praposal("t".to_string(), "d".to_string(), 1, 0, 100, None, None, Some(BOB), &many, VotingType::ResourceHold).unwrap().0;
    assert_eq!(id, 0);
    let (second, message) = dao
        .create_praposal("t".to_string(), "d".to_string(), 1, 0, 100, None, None, Some(BOB), &many, VotingType::ResourceHold)
        .unwrap();
    assert_eq!(second, 1);
    assert_eq!(message, "Proposal created with id : 1");
    assert_eq!(many.amount, units(10));
    assert_eq!(last_event_type(&dao), EventType::PROPOSAL_TO_PURCHASE_BOND);

    let (mut admin_dao, admin) = new_dao(ProposalCreationRight::ADMIN);
    let tokens = buy_tokens(&mut admin_dao, ALICE, 50);
    let r = admin_dao.create_praposal("t".to_string(), "d".to_string(), 1, 0, 100, None, None, Some(ALICE), &tokens, VotingType::Equality);
    assert_eq!(r.unwrap_err(), DaoError::Authorization);
    assert!(admin_dao.create_praposal("t".to_string(), "d".to_string(), 1, 0, 100, None, None, Some(ALICE), &admin, VotingType::Equality).is_ok());
}

#[test]
fn vote_twice_is_refused() {
    let (mut dao, _owner) = new_dao(ProposalCreationRight::EVERYONE);
    let tokens = buy_tokens(&mut dao, ALICE, 7);
    let id = dao.create_praposal("t".to_string(), "d".to_string(), 1, 0, 100, None, None, Some(ALICE), &tokens, VotingType::ResourceHold).unwrap().0;
    dao.vote(&tokens, false, ALICE, id).unwrap();
    assert_eq!(dao.current_praposals[0].voted_for, units(7));
    assert_eq!(tokens.amount, units(7));
    let r = dao.vote(&tokens, true, ALICE, id);
    assert_eq!(r.unwrap_err(), DaoError::DuplicateVote);
    assert_eq!(dao.current_praposals[0].voted_for, units(7));
    assert_eq!(dao.current_praposals[0].voted_against, Decimal::zero());
    assert_eq!(dao.current_praposals[0].vote_caster_addresses, vec![ALICE]);
    assert_eq!(dao.vote(&tokens, true, BOB, id + 1).unwrap_err(), DaoError::ReferenceNotFound);
    let xrd_proof = xrd(3);
    assert_eq!(dao.vote(&xrd_proof, true, BOB, id).unwrap_err(), DaoError::Authorization);
}

#[test]
fn equality_votes_weigh_one() {
    let (mut dao, _owner) = new_dao(ProposalCreationRight::EVERYONE);
    let alice = buy_tokens(&mut dao, ALICE, 30);
    let bob = buy_tokens(&mut dao, BOB, 2);
    let id = dao.create_praposal("t".to_string(), "d".to_string(), 2, 0, 100, None, None, Some(ALICE), &alice, VotingType::Equality).unwrap().0;
    dao.vote(&alice, true, ALICE, id).unwrap();
    dao.vote(&bob, false, BOB, id).unwrap();
    assert_eq!(dao.current_praposals[0].voted_against, units(1));
    assert_eq!(dao.current_praposals[0].voted_for, units(1));
}

#[test]
fn execute_twice_is_refused() {
    let (mut dao, _owner) = new_dao(ProposalCreationRight::EVERYONE);
    let tokens = buy_tokens(&mut dao, ALICE, 5);
    let id = dao.create_praposal("t".to_string(), "d".to_string(), 1, 0, 100, None, None, Some(ALICE), &tokens, VotingType::ResourceHold).unwrap().0;
    assert_eq!(dao.execute_proposal(id, 100), Err(DaoError::TooEarly));
    dao.vote(&tokens, false, ALICE, id).unwrap();
    assert_eq!(dao.execute_proposal(id, 101), Ok(ExecutionOutcome::QuorumMet));
    assert!(dao.current_praposals.is_empty());
    assert_eq!(last_event_type(&dao), EventType::EXECUTE_PROPOSAL);
    assert_eq!(dao.execute_proposal(id, 500), Err(DaoError::ReferenceNotFound));
}

#[test]
fn price_change_below_quorum_still_applies() {
    let (mut dao, _owner) = new_dao(ProposalCreationRight::EVERYONE);
    let tokens = buy_tokens(&mut dao, ALICE, 5);
    let id = dao
        .create_proposal_to_change_token_price("p".to_string(), "d".to_string(), 3, 0, 10, Some(ALICE), &tokens, VotingType::ResourceHold, Some(units(8)), Some(units(4)))
        .unwrap().0;
    let events = dao.events.len();
    assert_eq!(dao.execute_proposal_to_change_token_price(id, 11), Ok(ExecutionOutcome::QuorumNotMetButExecuted));
    assert_eq!(dao.token_price, units(8));
    assert_eq!(dao.buy_back_price, units(4));
    assert_eq!(dao.events.len(), events + 2);
    assert_eq!(dao.events[events].event_type, EventType::PRICE_CHANGE_QUORUM_NOT_MET_AND_FAILED);
    assert_eq!(last_event_type(&dao), EventType::PRICE_CHANGE_QUORUM_MET_AND_SUCCESS);
    assert_eq!(dao.execute_proposal_to_change_token_price(id, 12), Err(DaoError::ReferenceNotFound));
}

#[test]
fn price_change_needs_both_prices() {
    let (mut dao, _owner) = new_dao(ProposalCreationRight::EVERYONE);
    let tokens = buy_tokens(&mut dao, ALICE, 5);
    let id = dao
        .create_proposal_to_change_token_price("p".to_string(), "d".to_string(), 0, 0, 10, Some(ALICE), &tokens, VotingType::ResourceHold, Some(units(8)), None)
        .unwrap().0;
    assert_eq!(dao.execute_proposal(id, 11), Err(DaoError::MissingField));
    assert_eq!(dao.token_price, units(5));
    assert_eq!(dao.current_praposals.len(), 1);
}

#[test]
fn mint_proposal_adds_supply() {
    let (mut dao, _owner) = new_dao(ProposalCreationRight::EVERYONE);
    let tokens = buy_tokens(&mut dao, ALICE, 5);
    let id = dao
        .create_proposal_to_mint_more_dao_tokens("m".to_string(), "d".to_string(), 0, Some(50), 0, 10, Some(ALICE), &tokens, VotingType::ResourceHold)
        .unwrap().0;
    assert_eq!(dao.execute_proposal(id, 11), Ok(ExecutionOutcome::QuorumMet));
    assert_eq!(dao.dao_token.amount, units(145));
    let id2 = dao
        .create_proposal_to_mint_more_dao_tokens("m".to_string(), "d".to_string(), 0, None, 0, 10, Some(ALICE), &tokens, VotingType::ResourceHold)
        .unwrap().0;
    assert_eq!(dao.execute_proposal_to_mint_more_tokens(id2, 11), Err(DaoError::MissingField));
}

#[test]
fn tokens_cannot_be_sold_back_while_proposals_are_open() {
    let (mut dao, _owner) = new_dao(ProposalCreationRight::EVERYONE);
    let mut tokens = buy_tokens(&mut dao, ALICE, 10);
    let id = dao.create_praposal("t".to_string(), "d".to_string(), 0, 0, 10, None, None, Some(ALICE), &tokens, VotingType::ResourceHold).unwrap().0;
    assert_eq!(dao.withdraw_power(&mut tokens).unwrap_err(), DaoError::ActiveProposals);
    dao.execute_proposal(id, 11).unwrap();
    let paid = dao.withdraw_power(&mut tokens).unwrap();
    assert_eq!(paid.amount, units(20));
    assert_eq!(tokens.amount, Decimal::zero());
    assert_eq!(dao.shares.amount, units(30));
    assert_eq!(dao.dao_token.amount, units(100));
}

#[test]
fn bond_sells_out() {
    let (mut dao, _owner) = new_dao(ProposalCreationRight::EVERYONE);
    let res = issue_bond(&mut dao, 10, units(5), 3, 5_000);
    let mut payment = xrd(100);
    for _ in 0..3 {
        dao.purchase_bond(ISSUER, &mut payment).unwrap();
    }
    assert_eq!(payment.amount, units(70));
    let bond = &dao.zero_coupon_bond[0];
    assert_eq!(bond.collected_xrd.amount, units(30));
    assert_eq!(bond.bonds.amount, Decimal::zero());
    assert_eq!(dao.bonds.balance_of(res), units(3));
    assert_eq!(dao.purchase_bond(ISSUER, &mut payment), Err(DaoError::InsufficientBalance));
    assert_eq!(payment.amount, units(70));
}

#[test]
fn bond_purchase_refusals() {
    let (mut dao, _owner) = new_dao(ProposalCreationRight::EVERYONE);
    issue_bond(&mut dao, 10, units(5), 3, 5_000);
    let mut short = xrd(9);
    assert_eq!(dao.purchase_bond(ISSUER, &mut short), Err(DaoError::InsufficientPayment));
    let mut other = Bucket::new(ResourceAddress::External(4), units(50));
    assert_eq!(dao.purchase_bond(ISSUER, &mut other), Err(DaoError::InvalidAsset));
    let mut enough = xrd(10);
    assert_eq!(dao.purchase_bond(BOB, &mut enough), Err(DaoError::ReferenceNotFound));
}

#[test]
fn bond_issue_refusals() {
    let (mut dao, _owner) = new_dao(ProposalCreationRight::EVERYONE);
    let mut two = Bucket::new(NFT, units(2));
    let r = dao.create_zero_coupon_bond(
        "PAM".to_string(), "issuer".to_string(), "C".to_string(), units(5), "XRD".to_string(), 0, 10, units(1), 0,
        "long".to_string(), 10, units(3), ISSUER, &mut two,
    );
    assert_eq!(r, Err(DaoError::InvalidAsset));
    assert_eq!(two.amount, units(2));
    let mut one = Bucket::new(NFT, units(1));
    let r = dao.create_zero_coupon_bond(
        "PAM".to_string(), "issuer".to_string(), "C".to_string(), units(5), "XRD".to_string(), 0, 10, units(1), 0,
        "long".to_string(), 10, Decimal::from_attos(ATTOS_PER_UNIT / 2), ISSUER, &mut one,
    );
    assert_eq!(r, Err(DaoError::InvalidAmount));
}

#[test]
fn latest_bond_generation_is_addressed() {
    let (mut dao, _owner) = new_dao(ProposalCreationRight::EVERYONE);
    let first = issue_bond(&mut dao, 10, units(5), 3, 5_000);
    let second = issue_bond(&mut dao, 20, units(5), 3, 5_000);
    assert_ne!(first, second);
    let mut payment = xrd(20);
    dao.purchase_bond(ISSUER, &mut payment).unwrap();
    assert_eq!(payment.amount, Decimal::zero());
    assert_eq!(dao.zero_coupon_bond[0].collected_xrd.amount, Decimal::zero());
    assert_eq!(dao.zero_coupon_bond[1].collected_xrd.amount, units(20));
    assert_eq!(dao.get_bond_creator_addresses(), vec![ISSUER]);
}

#[test]
fn bond_maturity_in_days() {
    let (mut dao, _owner) = new_dao(ProposalCreationRight::EVERYONE);
    issue_bond(&mut dao, 10, units(5), 3, 1_000_000);
    assert_eq!(dao.check_bond_maturity(ISSUER, 1_000_000 - 2 * 86_400 - 5), Ok(2));
    assert_eq!(dao.check_bond_maturity(ISSUER, 1_000_000 + 86_401), Ok(-1));
    assert_eq!(dao.check_bond_maturity(ISSUER, 1_000_000 + 86_399), Ok(0));
    assert_eq!(dao.check_bond_maturity(BOB, 0), Err(DaoError::ReferenceNotFound));
    let details = dao.get_bond_details(ISSUER, 1_000_000 - 86_400).unwrap();
    assert_eq!(details.maturity_days_left, 1);
    assert_eq!(details.amount, units(3));
    assert_eq!(details.price, 10);
}

#[test]
fn required_amount_is_price_plus_interest() {
    let (mut dao, _owner) = new_dao(ProposalCreationRight::EVERYONE);
    issue_bond(&mut dao, 105, units(5), 3, 5_000);
    let required = dao.zero_coupon_bond[0].balance_required_by_the_community().unwrap();
    assert_eq!(required, Decimal::from_attos(110 * ATTOS_PER_UNIT + ATTOS_PER_UNIT / 4));
}

#[test]
fn claim_shortfall_liquidates_collateral() {
    let (mut dao, _owner) = new_dao(ProposalCreationRight::EVERYONE);
    issue_bond(&mut dao, 105, units(5), 3, 5_000);
    let mut repayment = xrd(50);
    let collateral = dao.put_in_money_plus_interest_for_the_community_to_redeem(ISSUER, &mut repayment).unwrap();
    assert_eq!(collateral.amount, Decimal::zero());
    assert_eq!(repayment.amount, Decimal::zero());
    assert_eq!(last_event_type(&dao), EventType::PUT_IN_LESS_MONEY_PLUS_INTEREST);
    match &dao.events.last().unwrap().meta_data {
        DaoEvent::PutInMoneyPlusInterest(e) => {
            assert_eq!(e.amount_taken_by_the_community, units(50));
            assert_eq!(e.extra_amount_given_back_to_the_sender, Decimal::zero());
            assert_eq!(e.more_xrd_amount_required_by_the_community, Decimal::from_attos(60 * ATTOS_PER_UNIT + ATTOS_PER_UNIT / 4));
            assert!(!e.collateral_given_back);
        }
        other => panic!("unexpected event {:?}", other),
    }
    assert_eq!(dao.check_the_balance_of_bond_issuer(ISSUER), Ok(units(50)));
    assert_eq!(dao.claim_the_invested_XRDs_plus_interest(ISSUER, 5_000), Err(DaoError::MaturityNotReached));
    let outcome = dao.claim_the_invested_XRDs_plus_interest(ISSUER, 5_001).unwrap();
    assert_eq!(outcome, ClaimOutcome::CollateralLiquidated);
    assert_eq!(last_event_type(&dao), EventType::FAILED_CLAIM_INVESTED_XRDs_PLUS_INTEREST);
    match &dao.events.last().unwrap().meta_data {
        DaoEvent::ClaimInvestedXRDsPlusInterestError(e) => {
            assert!(e.collateral_liquidated);
            assert_eq!(e.balance_of_bond_issuer, units(50));
            assert_eq!(e.required_amount_by_the_community, Decimal::from_attos(110 * ATTOS_PER_UNIT + ATTOS_PER_UNIT / 4));
            assert_eq!(e.liquidated_amount, units(1));
        }
        other => panic!("unexpected event {:?}", other),
    }
    assert_eq!(dao.liquidated_collateral.balance_of(NFT), units(1));
    assert_eq!(dao.zero_coupon_bond[0].collateral.amount, Decimal::zero());
    assert_eq!(dao.shares.amount, Decimal::zero());
}

#[test]
fn claim_paid_in_full() {
    let (mut dao, _owner) = new_dao(ProposalCreationRight::EVERYONE);
    issue_bond(&mut dao, 105, units(5), 3, 5_000);
    let mut repayment = xrd(200);
    let collateral = dao.put_in_money_plus_interest_for_the_community_to_redeem(ISSUER, &mut repayment).unwrap();
    let required = Decimal::from_attos(110 * ATTOS_PER_UNIT + ATTOS_PER_UNIT / 4);
    assert_eq!(collateral.resource, NFT);
    assert_eq!(collateral.amount, units(1));
    assert_eq!(repayment.amount, Decimal::from_attos(200 * ATTOS_PER_UNIT - required.attos));
    assert_eq!(last_event_type(&dao), EventType::PUT_IN_MONEY_PLUS_INTEREST);
    match &dao.events.last().unwrap().meta_data {
        DaoEvent::PutInMoneyPlusInterest(e) => {
            assert_eq!(e.amount_taken_by_the_community, required);
            assert_eq!(e.extra_amount_given_back_to_the_sender, repayment.amount);
            assert_eq!(e.more_xrd_amount_required_by_the_community, Decimal::zero());
            assert!(e.collateral_given_back);
        }
        other => panic!("unexpected event {:?}", other),
    }
    assert_eq!(dao.claim_the_invested_XRDs_plus_interest(ISSUER, 0), Ok(ClaimOutcome::Claimed));
    match &dao.events.last().unwrap().meta_data {
        DaoEvent::ClaimInvestedXRDsPlusInterest(e) => {
            assert_eq!(e.claimed_amount, required);
            assert!(!e.collateral_liquidated);
        }
        other => panic!("unexpected event {:?}", other),
    }
    assert_eq!(dao.shares.amount, required);
    assert!(dao.zero_coupon_bond[0].successful_claim_by_community);
    assert_eq!(dao.zero_coupon_bond[0].collected_xrd.amount, Decimal::zero());
}

#[test]
fn collateral_is_released_even_unclaimed() {
    let (mut dao, _owner) = new_dao(ProposalCreationRight::EVERYONE);
    issue_bond(&mut dao, 10, units(5), 3, 5_000);
    let collateral = dao.get_back_the_collateral(ISSUER).unwrap();
    assert_eq!(collateral.resource, NFT);
    assert_eq!(collateral.amount, units(1));
    assert_eq!(last_event_type(&dao), EventType::FAILED_IN_GETTING_BACK_COLLATERAL);
    match &dao.events.last().unwrap().meta_data {
        DaoEvent::GetBackTheCollateral(e) => assert!(!e.is_given_money_claimed_by_community),
        other => panic!("unexpected event {:?}", other),
    }
    assert_eq!(dao.get_back_the_collateral(ISSUER).unwrap_err(), DaoError::InsufficientBalance);
}

#[test]
fn liquidation_waits_for_maturity() {
    let (mut dao, _owner) = new_dao(ProposalCreationRight::EVERYONE);
    issue_bond(&mut dao, 10, units(5), 3, 5_000);
    let events = dao.events.len();
    assert_eq!(dao.liquidate_collateral(ISSUER, 5_000), Err(DaoError::MaturityNotReached));
    assert_eq!(dao.events.len(), events + 1);
    assert_eq!(last_event_type(&dao), EventType::COLLATERAL_LIQUIDATION_FAILED);
    assert_eq!(dao.zero_coupon_bond[0].collateral.amount, units(1));
    dao.liquidate_collateral(ISSUER, 5_001).unwrap();
    assert_eq!(last_event_type(&dao), EventType::LIQUIDATED_COLLATERAL);
    match &dao.events.last().unwrap().meta_data {
        DaoEvent::LiquidatedCollateral(e) => assert_eq!(e.liquidated_amount, units(1)),
        other => panic!("unexpected event {:?}", other),
    }
    assert_eq!(dao.liquidated_collateral.balance_of(NFT), units(1));
    assert_eq!(dao.liquidate_collateral(ISSUER, 6_000), Err(DaoError::InsufficientBalance));
}

#[test]
fn creator_takes_out_proceeds_twice() {
    let (mut dao, _owner) = new_dao(ProposalCreationRight::EVERYONE);
    issue_bond(&mut dao, 10, units(5), 3, 5_000);
    let mut payment = xrd(20);
    dao.purchase_bond(ISSUER, &mut payment).unwrap();
    dao.purchase_bond(ISSUER, &mut payment).unwrap();
    assert_eq!(dao.take_out_the_invested_XRDs_by_the_community(ISSUER).unwrap().amount, units(10));
    assert!(!dao.zero_coupon_bond[0].money_taken_by_creator);
    assert!(!dao.zero_coupon_bond[0].bond_creator_money_status());
    assert_eq!(dao.take_out_the_invested_XRDs_by_the_community(ISSUER).unwrap().amount, units(10));
    assert_eq!(dao.take_out_the_invested_XRDs_by_the_community(ISSUER).unwrap_err(), DaoError::InsufficientBalance);
}

#[test]
fn force_transfer_sweeps_proceeds() {
    let (mut dao, _owner) = new_dao(ProposalCreationRight::EVERYONE);
    issue_bond(&mut dao, 10, units(5), 3, 5_000);
    let mut payment = xrd(10);
    dao.purchase_bond(ISSUER, &mut payment).unwrap();
    dao.transfer_xrds_to_community_vault(ISSUER).unwrap();
    assert_eq!(dao.shares.amount, units(10));
    assert_eq!(dao.zero_coupon_bond[0].collected_xrd.amount, Decimal::zero());
    assert_eq!(last_event_type(&dao), EventType::FORCE_TRANSFER_OF_FUNDS);
    match &dao.events.last().unwrap().meta_data {
        DaoEvent::ForceTransferFunds(e) => assert_eq!(e.transferred_amount_to_community_vault, units(10)),
        other => panic!("unexpected event {:?}", other),
    }
}

#[test]
fn bond_purchase_proposal_buys_from_treasury() {
    let (mut dao, _owner) = new_dao(ProposalCreationRight::EVERYONE);
    let tokens = buy_tokens(&mut dao, ALICE, 20);
    let res = issue_bond(&mut dao, 30, units(5), 3, 5_000);
    let id = dao
        .create_praposal("buy".to_string(), "d".to_string(), 2, 0, 10, Some(ISSUER), Some(units(50)), Some(ALICE), &tokens, VotingType::ResourceHold)
        .unwrap().0;
    dao.vote(&tokens, false, ALICE, id).unwrap();
    let events = dao.events.len();
    assert_eq!(dao.execute_proposal(id, 11), Ok(ExecutionOutcome::QuorumNotMetButExecuted));
    assert_eq!(dao.events.len(), events + 2);
    assert_eq!(dao.events[events].event_type, EventType::QUORUM_NOT_MET_AND_FAILED);
    assert_eq!(last_event_type(&dao), EventType::QUORUM_MET_AND_SUCCESS);
    assert_eq!(dao.shares.amount, units(70));
    assert_eq!(dao.bonds.balance_of(res), units(1));
    assert_eq!(dao.zero_coupon_bond[0].collected_xrd.amount, units(30));
    assert!(dao.current_praposals.is_empty());

    let mut outside = xrd(60);
    dao.purchase_bond(ISSUER, &mut outside).unwrap();
    dao.purchase_bond(ISSUER, &mut outside).unwrap();
    assert_eq!(dao.bonds.balance_of(res), units(3));
    assert_eq!(dao.sell_bond(BOB), Err(DaoError::ReferenceNotFound));
    assert_eq!(dao.sell_bond(ISSUER), Err(DaoError::InsufficientBalance));
    let mut repay = xrd(100);
    dao.put_in_money_plus_interest_for_the_community_to_redeem(ISSUER, &mut repay).unwrap();
    dao.sell_bond(ISSUER).unwrap();
    assert_eq!(dao.bonds.balance_of(res), units(2));
    assert_eq!(dao.shares.amount, units(175));
    assert_eq!(
        dao.zero_coupon_bond[0].collected_xrd.amount,
        Decimal::from_attos(16 * ATTOS_PER_UNIT + ATTOS_PER_UNIT / 2)
    );
}

#[test]
fn bond_purchase_proposal_needs_funds() {
    let (mut dao, _owner) = new_dao(ProposalCreationRight::EVERYONE);
    let tokens = buy_tokens(&mut dao, ALICE, 2);
    issue_bond(&mut dao, 30, units(5), 3, 5_000);
    let id = dao
        .create_praposal("buy".to_string(), "d".to_string(), 0, 0, 10, Some(ISSUER), Some(units(50)), Some(ALICE), &tokens, VotingType::ResourceHold)
        .unwrap().0;
    assert_eq!(dao.execute_proposal(id, 11), Err(DaoError::InsufficientFunds));
    assert_eq!(dao.current_praposals.len(), 1);
    let id2 = dao
        .create_praposal("buy".to_string(), "d".to_string(), 0, 0, 10, Some(ISSUER), None, Some(ALICE), &tokens, VotingType::ResourceHold)
        .unwrap().0;
    assert_eq!(dao.execute_proposal(id2, 11), Err(DaoError::MissingField));
}

#[test]
fn carol_has_no_record() {
    let (dao, _owner) = new_dao(ProposalCreationRight::EVERYONE);
    assert_eq!(dao.get_investment_details(CAROL), Err(DaoError::NoInvestmentRecord));
}

#[test]
fn repayment_below_requirement_can_still_settle() {
    let (mut dao, _owner) = new_dao(ProposalCreationRight::EVERYONE);
    issue_bond(&mut dao, 30, units(5), 3, 5_000);
    let mut buyer = xrd(30);
    dao.purchase_bond(ISSUER, &mut buyer).unwrap();
    let mut repayment = xrd(10);
    let collateral = dao.put_in_money_plus_interest_for_the_community_to_redeem(ISSUER, &mut repayment).unwrap();
    assert_eq!(collateral.amount, units(1));
    assert_eq!(repayment.amount, Decimal::zero());
    assert_eq!(last_event_type(&dao), EventType::PUT_IN_MONEY_PLUS_INTEREST);
    match &dao.events.last().unwrap().meta_data {
        DaoEvent::PutInMoneyPlusInterest(e) => {
            assert_eq!(e.amount_taken_by_the_community, units(10));
            assert_eq!(e.more_xrd_amount_required_by_the_community, Decimal::zero());
            assert!(e.collateral_given_back);
        }
        other => panic!("unexpected event {:?}", other),
    }
    assert!(!dao.zero_coupon_bond[0].successful_claim_by_community);
}

#[test]
fn first_proposal_message_names_id_zero() {
    let (mut dao, _owner) = new_dao(ProposalCreationRight::EVERYONE);
    let tokens = buy_tokens(&mut dao, ALICE, 5);
    let (id, message) = dao
        .create_proposal_to_mint_more_dao_tokens("m".to_string(), "d".to_string(), 0, Some(1), 0, 10, Some(ALICE), &tokens, VotingType::ResourceHold)
        .unwrap();
    assert_eq!(id, 0);
    assert_eq!(message, "Proposal created with id : 0");
}
