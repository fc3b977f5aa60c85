//! A vote on a proposal: eligible voters vote until a deadline, then the votes are
//! counted.

use vstd::prelude::*;
use crate::address::Address;
use crate::context::ContractContext;
use crate::list_map::{distinct_keys, entries_insert, ListMap};
use crate::permission::contains_address;

verus! {

/// Why the vote contract refuses an action.
#[derive(Clone, Copy, Debug, PartialEq, Eq, Structural)]
pub enum VoteError {
    /// A vote needs voters.
    VotersRequired,
    /// A voter was named twice.
    VotersNotUnique,
    /// The deadline has passed, or the votes have been counted.
    DeadlinePassed,
    /// The sender is not among the voters.
    NotEligible,
    /// The votes have been counted before.
    AlreadyCounted,
    /// The deadline has not yet passed.
    DeadlineNotPassed,
}

/// How many of the votes are for the proposal.
pub open spec fn approving(votes: Seq<(Address, bool)>) -> nat
    decreases votes.len(),
{
    if votes.len() == 0 {
        0
    } else {
        approving(votes.drop_last()) + if votes.last().1 {
            1nat
        } else {
            0nat
        }
    }
}

/// What the state of a vote holds.
pub struct VoteStateView {
    /// Identification of the proposal being voted on.
    pub proposal_id: u64,
    /// The eligible voters.
    pub voters: Seq<Address>,
    /// The deadline of the vote, in milliseconds since the start of 1970 in UTC.
    pub deadline_utc_millis: i64,
    /// The votes cast, each with its voter: true is for the proposal, false against.
    pub votes: Seq<(Address, bool)>,
    /// Whether the proposal passed, once the votes have been counted.
    pub result: Option<bool>,
}

impl VoteStateView {
    /// There are voters, none is named twice, and nobody has two votes.
    pub open spec fn wf(self) -> bool {
        &&& self.voters.len() > 0
        &&& self.voters.no_duplicates()
        &&& distinct_keys(self.votes)
    }

    /// The state after `sender` has voted at the time given: the vote takes the place of
    /// one that `sender` cast before. Refused after the deadline, once the votes have been
    /// counted, and for a sender who is no voter.
    pub open spec fn vote(self, sender: Address, block_production_time: i64, in_favor: bool) -> Result<
        Self,
        VoteError,
    > {
        if !(self.result is None && block_production_time < self.deadline_utc_millis) {
            Err(VoteError::DeadlinePassed)
        } else if !self.voters.contains(sender) {
            Err(VoteError::NotEligible)
        } else {
            Ok(VoteStateView { votes: entries_insert(self.votes, sender, in_favor), ..self })
        }
    }

    /// Whether the proposal passes: more than half of the voters have to be for it.
    pub open spec fn passes(self) -> bool {
        approving(self.votes) > self.voters.len() / 2
    }

    /// The state after the votes have been counted at the time given. Refused before the
    /// deadline and where the votes have been counted before.
    pub open spec fn count(self, block_production_time: i64) -> Result<Self, VoteError> {
        if self.result is Some {
            Err(VoteError::AlreadyCounted)
        } else if block_production_time < self.deadline_utc_millis {
            Err(VoteError::DeadlineNotPassed)
        } else {
            Ok(VoteStateView { result: Some(self.passes()), ..self })
        }
    }
}

/// The state of the vote.
#[derive(Debug)]
pub struct VoteState {
    /// Identification of the proposal being voted on.
    pub proposal_id: u64,
    /// The eligible voters.
    pub voters: Vec<Address>,
    /// The deadline of the vote, in milliseconds since the start of 1970 in UTC.
    pub deadline_utc_millis: i64,
    /// The votes cast by the voters: true is for the proposal, false against.
    pub votes: ListMap<Address, bool>,
    /// Nothing until the votes have been counted; then whether the proposal passed.
    pub result: Option<bool>,
}

impl View for VoteState {
    type V = VoteStateView;

    open spec fn view(&self) -> VoteStateView {
        VoteStateView {
            proposal_id: self.proposal_id,
            voters: self.voters@,
            deadline_utc_millis: self.deadline_utc_millis,
            votes: self.votes.entries(),
            result: self.result,
        }
    }
}

impl VoteState {
    /// The state is in order: see [`VoteStateView::wf`].
    pub open spec fn wf(&self) -> bool {
        self@.wf()
    }
}

/// Whether `result` is the state that `expected` describes, in order, or the refusal that
/// it gives.
pub open spec fn is_vote_outcome(
    result: Result<VoteState, VoteError>,
    expected: Result<VoteStateView, VoteError>,
) -> bool {
    match expected {
        Ok(after) => match result {
            Ok(state) => state.wf() && state@ == after,
            Err(_) => false,
        },
        Err(error) => match result {
            Ok(_) => false,
            Err(reason) => reason == error,
        },
    }
}

/// Whether no address stands twice in `addresses`.
pub fn all_unique(addresses: &Vec<Address>) -> (unique: bool)
    ensures
        unique == addresses@.no_duplicates(),
{
    let mut i: usize = 0;
    while i < addresses.len()
        invariant
            i <= addresses.len(),
            forall|j: int, k: int| 0 <= j < k < i ==> addresses@[j] != addresses@[k],
        decreases addresses.len() - i,
    {
        let mut j: usize = 0;
        while j < i
            invariant
                j <= i < addresses.len(),
                forall|k: int| 0 <= k < j ==> addresses@[k] != addresses@[i as int],
            decreases i - j,
        {
            if addresses[j] == addresses[i] {
                return false;
            }
            j += 1;
        }
        i += 1;
    }
    assert forall|j: int, k: int|
        0 <= j < addresses@.len() && 0 <= k < addresses@.len() && j != k implies addresses@[j]
        != addresses@[k] by {
        if j < k {
            assert(addresses@[j] != addresses@[k]);
        } else {
            assert(addresses@[k] != addresses@[j]);
        }
    }
    true
}

/// The vote as it starts: without votes and without a result.
pub open spec fn initial_vote(
    proposal_id: u64,
    voters: Seq<Address>,
    deadline_utc_millis: i64,
) -> Result<VoteStateView, VoteError> {
    if voters.len() == 0 {
        Err(VoteError::VotersRequired)
    } else if !voters.no_duplicates() {
        Err(VoteError::VotersNotUnique)
    } else {
        Ok(
            VoteStateView {
                proposal_id,
                voters,
                deadline_utc_millis,
                votes: Seq::empty(),
                result: None,
            },
        )
    }
}

/// Starts a vote on the proposal with the given id, among the given voters, until the
/// given deadline. Refused without voters and where a voter is named twice.
pub fn initialize(
    _ctx: ContractContext,
    proposal_id: u64,
    voters: Vec<Address>,
    deadline_utc_millis: i64,
) -> (result: Result<VoteState, VoteError>)
    ensures
        is_vote_outcome(result, initial_vote(proposal_id, voters@, deadline_utc_millis)),
{
    if voters.len() == 0 {
        return Err(VoteError::VotersRequired);
    }
    if !all_unique(&voters) {
        return Err(VoteError::VotersNotUnique);
    }
    Ok(VoteState { proposal_id, voters, deadline_utc_millis, votes: ListMap::new(), result: None })
}

/// Casts the sender's vote on the proposal. Voters can vote, and change their vote,
/// until the deadline.
pub fn vote(ctx: ContractContext, state: VoteState, in_favor: bool) -> (result: Result<
    VoteState,
    VoteError,
>)
    requires
        state.wf(),
    ensures
        is_vote_outcome(result, state@.vote(ctx.sender, ctx.block_production_time, in_favor)),
{
    let mut state = state;
    if !(state.result.is_none() && ctx.block_production_time < state.deadline_utc_millis) {
        return Err(VoteError::DeadlinePassed);
    }
    if !contains_address(&state.voters, &ctx.sender) {
        return Err(VoteError::NotEligible);
    }
    state.votes.insert(ctx.sender, in_favor);
    Ok(state)
}

/// Counts the votes that are for the proposal.
fn count_approving(votes: &ListMap<Address, bool>) -> (count: usize)
    ensures
        count == approving(votes.entries()),
{
    let mut count: usize = 0;
    let mut i: usize = 0;
    while i < votes.len()
        invariant
            i <= votes.entries().len(),
            count == approving(votes.entries().take(i as int)),
            count <= i,
        decreases votes.entries().len() - i,
    {
        proof {
            assert(votes.entries().take(i + 1).drop_last() =~= votes.entries().take(i as int));
        }
        if votes.entry_at(i).1 {
            count += 1;
        }
        i += 1;
    }
    assert(votes.entries().take(i as int) =~= votes.entries());
    count
}

/// Counts the votes and settles the result: the proposal passes where more than half of
/// the voters are for it. Refused before the deadline and where the votes have been
/// counted before.
pub fn count(ctx: ContractContext, state: VoteState) -> (result: Result<VoteState, VoteError>)
    requires
        state.wf(),
    ensures
        is_vote_outcome(result, state@.count(ctx.block_production_time)),
{
    let mut state = state;
    if state.result.is_some() {
        return Err(VoteError::AlreadyCounted);
    }
    if ctx.block_production_time < state.deadline_utc_millis {
        return Err(VoteError::DeadlineNotPassed);
    }
    let voters_approving = count_approving(&state.votes);
    let vote_passed = voters_approving > state.voters.len() / 2;
    state.result = Some(vote_passed);
    Ok(state)
}

} // verus!
