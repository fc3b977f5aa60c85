use liquidity_swap_lock::address::{Address, AddressType};
use liquidity_swap_lock::context::{ContractContext, TransactionHash};
use liquidity_swap_lock::voting::{all_unique, count, initialize, vote, VoteError, VoteState};

fn account(tag: u8) -> Address {
    Address { address_type: AddressType::Account, identifier: [tag; 20] }
}

fn context(sender: Address, block_production_time: i64) -> ContractContext {
    ContractContext {
        contract_address: Address {
            address_type: AddressType::PublicContract,
            identifier: [7; 20],
        },
        sender,
        block_production_time,
        original_transaction: TransactionHash { bytes: [0; 32] },
    }
}

fn new_vote(voters: u8) -> VoteState {
    let voters = (1..=voters).map(account).collect();
    initialize(context(account(0), 0), 17, voters, 1000).unwrap()
}

fn cast(state: VoteState, voter: u8, in_favor: bool) -> VoteState {
    vote(context(account(voter), 999), state, in_favor).unwrap()
}

fn counted(state: VoteState) -> Option<bool> {
    count(context(account(0), 1000), state).unwrap().result
}

#[test]
fn a_vote_starts_without_votes() {
    let state = new_vote(3);
    assert_eq!(state.proposal_id, 17);
    assert_eq!(state.voters, vec![account(1), account(2), account(3)]);
    assert_eq!(state.deadline_utc_millis, 1000);
    assert!(state.votes.is_empty());
    assert_eq!(state.result, None);
}

#[test]
fn a_vote_needs_voters_named_once() {
    assert_eq!(
        initialize(context(account(0), 0), 17, vec![], 1000).err(),
        Some(VoteError::VotersRequired)
    );
    assert_eq!(
        initialize(context(account(0), 0), 17, vec![account(1), account(2), account(1)], 1000)
            .err(),
        Some(VoteError::VotersNotUnique)
    );
    assert!(all_unique(&vec![]));
    assert!(all_unique(&vec![account(1)]));
    assert!(all_unique(&vec![account(1), account(2), account(3)]));
    assert!(!all_unique(&vec![account(1), account(2), account(2)]));
    assert!(!all_unique(&vec![account(2), account(1), account(2)]));
}

#[test]
fn voters_vote_until_the_deadline() {
    let state = cast(new_vote(3), 2, true);
    assert_eq!(state.votes.get(&account(2)), Some(&true));
    assert_eq!(state.votes.get(&account(1)), None);
    let state = cast(state, 2, false);
    assert_eq!(state.votes.get(&account(2)), Some(&false));
    assert_eq!(state.votes.len(), 1);
    assert_eq!(
        vote(context(account(2), 1000), state, true).err(),
        Some(VoteError::DeadlinePassed)
    );
    assert_eq!(
        vote(context(account(4), 0), new_vote(3), true).err(),
        Some(VoteError::NotEligible)
    );
    assert_eq!(
        vote(context(account(4), 1000), new_vote(3), true).err(),
        Some(VoteError::DeadlinePassed)
    );
}

#[test]
fn more_than_half_of_the_voters_carry_the_proposal() {
    assert_eq!(counted(new_vote(3)), Some(false));
    assert_eq!(counted(cast(new_vote(3), 1, true)), Some(false));
    assert_eq!(counted(cast(cast(new_vote(3), 1, true), 3, true)), Some(true));
    assert_eq!(counted(cast(cast(new_vote(4), 1, true), 3, true)), Some(false));
    assert_eq!(counted(cast(cast(cast(new_vote(4), 1, true), 3, true), 4, true)), Some(true));
    assert_eq!(counted(cast(cast(cast(new_vote(3), 1, true), 3, true), 1, false)), Some(false));
    assert_eq!(counted(cast(cast(new_vote(3), 1, false), 2, false)), Some(false));
    assert_eq!(counted(cast(new_vote(1), 1, true)), Some(true));
}

#[test]
fn votes_are_counted_once_after_the_deadline() {
    assert_eq!(
        count(context(account(0), 999), new_vote(3)).err(),
        Some(VoteError::DeadlineNotPassed)
    );
    let state = count(context(account(0), 1000), cast(new_vote(3), 1, true)).unwrap();
    assert_eq!(state.result, Some(false));
    assert_eq!(state.votes.len(), 1);
    assert_eq!(
        count(context(account(0), 2000), state).err(),
        Some(VoteError::AlreadyCounted)
    );
    let state = count(context(account(0), 1000), new_vote(3)).unwrap();
    assert_eq!(
        vote(context(account(1), 0), state, true).err(),
        Some(VoteError::DeadlinePassed)
    );
    let state = count(context(account(0), 1000), new_vote(3)).unwrap();
    assert_eq!(
        count(context(account(0), 0), state).err(),
        Some(VoteError::AlreadyCounted)
    );
}
