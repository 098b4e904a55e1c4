use vstd::prelude::*;

use crate::types::{Address, Bounty, BountyError, BountyStatus, Transfer};

verus! {

/// The registry: the id counter and the records keyed by id, where the record
/// with id `k` sits at position `k - 1`. Records are never removed.
///
/// Operations take the authenticated caller and the current time as plain
/// values. An operation that moves funds returns the `Transfer` to perform;
/// the host performs it before it persists the new state, and drops the new
/// state if the transfer fails.
pub struct BountyBoard {
    counter: Option<u64>,
    bounties: Vec<Bounty>,
    custody: Address,
}

/// The predicate that selects the bounties still open for work at `now`.
pub open spec fn open_at(now: u64) -> spec_fn(Bounty) -> bool {
    |b: Bounty| b.status == BountyStatus::Open && b.deadline > now
}

/// The predicate that selects the bounties created by `user`.
pub open spec fn created_by(user: Seq<char>) -> spec_fn(Bounty) -> bool {
    |b: Bounty| b.creator@ == user
}

impl BountyBoard {
    /// The records, in ascending id order.
    pub closed spec fn records(&self) -> Seq<Bounty> {
        self.bounties@
    }

    /// The counter: the last id assigned, 0 before any.
    pub closed spec fn count(&self) -> nat {
        match self.counter {
            Some(c) => c as nat,
            None => 0,
        }
    }

    /// Whether the counter has been set, by `initialize` or by a creation.
    pub closed spec fn is_initialized(&self) -> bool {
        self.counter is Some
    }

    /// The registry's own account, which holds the escrowed rewards.
    pub closed spec fn custody(&self) -> Address {
        self.custody
    }

    pub open spec fn wf(&self) -> bool {
        &&& self.records().len() == self.count()
        &&& self.count() <= u64::MAX
        &&& (!self.is_initialized() ==> self.count() == 0)
        &&& forall|i: int|
            0 <= i < self.records().len() ==> (#[trigger] self.records()[i]).id == i + 1
                && self.records()[i].wf()
    }

    pub open spec fn has_bounty(&self, id: u64) -> bool {
        1 <= id <= self.records().len()
    }

    pub open spec fn bounty_at(&self, id: u64) -> Bounty {
        self.records()[id - 1]
    }

    /// `post` is `pre` with the record of `id` replaced by `b`.
    pub open spec fn replaced(pre: BountyBoard, post: BountyBoard, id: u64, b: Bounty) -> bool {
        &&& post.records() == pre.records().update(id - 1, b)
        &&& post.count() == pre.count()
        &&& post.is_initialized() == pre.is_initialized()
        &&& post.custody() == pre.custody()
    }

    /// From `pre` to `post` no record was removed, none changed the terms
    /// fixed at its creation, and none left a terminal status or changed in it.
    pub open spec fn keeps_terms(pre: BountyBoard, post: BountyBoard) -> bool {
        &&& pre.records().len() <= post.records().len()
        &&& pre.count() <= post.count()
        &&& post.custody() == pre.custody()
        &&& forall|i: int|
            0 <= i < pre.records().len() ==> (#[trigger] post.records()[i]).same_terms(
                &pre.records()[i],
            ) && (pre.records()[i].status.is_terminal() ==> post.records()[i]
                == pre.records()[i])
    }

    pub open spec fn initialize_post(
        pre: BountyBoard,
        post: BountyBoard,
        r: Result<(), BountyError>,
    ) -> bool {
        if pre.is_initialized() {
            r == Err::<(), BountyError>(BountyError::AlreadyInitialized) && post == pre
        } else {
            &&& r is Ok
            &&& post.is_initialized()
            &&& post.count() == 0
            &&& post.records() == pre.records()
            &&& post.custody() == pre.custody()
        }
    }

    pub open spec fn create_post(
        pre: BountyBoard,
        post: BountyBoard,
        caller: Address,
        creator: Address,
        title: String,
        description: String,
        reward: i128,
        deadline: u64,
        now: u64,
        r: Result<(u64, Transfer), BountyError>,
    ) -> bool {
        if caller@ != creator@ {
            r == Err::<(u64, Transfer), BountyError>(BountyError::Unauthorized) && post == pre
        } else if reward <= 0 || deadline <= now || title@.len() == 0 || description@.len() == 0 {
            r == Err::<(u64, Transfer), BountyError>(BountyError::ValidationError) && post == pre
        } else {
            match r {
                Ok((id, t)) => {
                    let b = post.records().last();
                    &&& id == pre.count() + 1
                    &&& t == (Transfer { from: creator, to: pre.custody(), amount: reward })
                    &&& post.count() == id
                    &&& post.is_initialized()
                    &&& post.custody() == pre.custody()
                    &&& post.records().len() == pre.records().len() + 1
                    &&& post.records().drop_last() == pre.records()
                    &&& b.id == id
                    &&& b.creator == creator
                    &&& b.title == title
                    &&& b.description == description
                    &&& b.reward == reward
                    &&& b.deadline == deadline
                    &&& b.solver is None
                    &&& b.proof_url@.len() == 0
                    &&& b.status == BountyStatus::Open
                    &&& b.created_at == now
                },
                Err(_) => false,
            }
        }
    }

    pub open spec fn submit_post(
        pre: BountyBoard,
        post: BountyBoard,
        id: u64,
        caller: Address,
        solver: Address,
        proof_url: String,
        now: u64,
        r: Result<(), BountyError>,
    ) -> bool {
        let b = pre.bounty_at(id);
        if caller@ != solver@ {
            r == Err::<(), BountyError>(BountyError::Unauthorized) && post == pre
        } else if proof_url@.len() == 0 {
            r == Err::<(), BountyError>(BountyError::ValidationError) && post == pre
        } else if !pre.has_bounty(id) {
            r == Err::<(), BountyError>(BountyError::NotFound) && post == pre
        } else if b.status != BountyStatus::Open {
            r == Err::<(), BountyError>(BountyError::InvalidState) && post == pre
        } else if now > b.deadline {
            &&& r == Err::<(), BountyError>(BountyError::Expired)
            &&& Self::replaced(pre, post, id, Bounty { status: BountyStatus::Expired, ..b })
        } else {
            &&& r is Ok
            &&& Self::replaced(
                pre,
                post,
                id,
                Bounty {
                    solver: Some(solver),
                    proof_url: proof_url,
                    status: BountyStatus::Submitted,
                    ..b
                },
            )
        }
    }

    pub open spec fn approve_post(
        pre: BountyBoard,
        post: BountyBoard,
        id: u64,
        caller: Address,
        r: Result<Transfer, BountyError>,
    ) -> bool {
        let b = pre.bounty_at(id);
        let nb = post.bounty_at(id);
        if !pre.has_bounty(id) {
            r == Err::<Transfer, BountyError>(BountyError::NotFound) && post == pre
        } else if caller@ != b.creator@ {
            r == Err::<Transfer, BountyError>(BountyError::Unauthorized) && post == pre
        } else if b.status != BountyStatus::Submitted {
            r == Err::<Transfer, BountyError>(BountyError::InvalidState) && post == pre
        } else {
            &&& r == Ok::<Transfer, BountyError>(
                Transfer { from: pre.custody(), to: b.solver.unwrap(), amount: b.reward },
            )
            &&& nb.proof_url@.len() == 0
            &&& Self::replaced(
                pre,
                post,
                id,
                Bounty {
                    solver: None,
                    proof_url: nb.proof_url,
                    status: BountyStatus::Completed,
                    ..b
                },
            )
        }
    }

    pub open spec fn reject_post(
        pre: BountyBoard,
        post: BountyBoard,
        id: u64,
        caller: Address,
        r: Result<(), BountyError>,
    ) -> bool {
        let b = pre.bounty_at(id);
        let nb = post.bounty_at(id);
        if !pre.has_bounty(id) {
            r == Err::<(), BountyError>(BountyError::NotFound) && post == pre
        } else if caller@ != b.creator@ {
            r == Err::<(), BountyError>(BountyError::Unauthorized) && post == pre
        } else if b.status != BountyStatus::Submitted {
            r == Err::<(), BountyError>(BountyError::InvalidState) && post == pre
        } else {
            &&& r is Ok
            &&& nb.proof_url@.len() == 0
            &&& Self::replaced(
                pre,
                post,
                id,
                Bounty { solver: None, proof_url: nb.proof_url, status: BountyStatus::Open, ..b },
            )
        }
    }

    pub open spec fn cancel_post(
        pre: BountyBoard,
        post: BountyBoard,
        id: u64,
        caller: Address,
        r: Result<Transfer, BountyError>,
    ) -> bool {
        let b = pre.bounty_at(id);
        if !pre.has_bounty(id) {
            r == Err::<Transfer, BountyError>(BountyError::NotFound) && post == pre
        } else if caller@ != b.creator@ {
            r == Err::<Transfer, BountyError>(BountyError::Unauthorized) && post == pre
        } else if b.status != BountyStatus::Open {
            r == Err::<Transfer, BountyError>(BountyError::InvalidState) && post == pre
        } else {
            &&& r == Ok::<Transfer, BountyError>(
                Transfer { from: pre.custody(), to: b.creator, amount: b.reward },
            )
            &&& Self::replaced(pre, post, id, Bounty { status: BountyStatus::Expired, ..b })
        }
    }

    /// A fresh registry whose escrowed rewards are held by `custody`.
    pub fn new(custody: Address) -> (r: BountyBoard)
        ensures
            r.wf(),
            !r.is_initialized(),
            r.count() == 0,
            r.records().len() == 0,
            r.custody() == custody,
    {
        BountyBoard { counter: None, bounties: Vec::new(), custody }
    }

    /// Sets the counter to zero; refused once the counter is set.
    pub fn initialize(&mut self) -> (r: Result<(), BountyError>)
        requires
            old(self).wf(),
        ensures
            final(self).wf(),
            Self::keeps_terms(*old(self), *final(self)),
            Self::initialize_post(*old(self), *final(self), r),
    {
        if self.counter.is_some() {
            return Err(BountyError::AlreadyInitialized);
        }
        self.counter = Some(0);
        Ok(())
    }

    /// Whether a counter and a sequence of records form a well-formed registry.
    pub open spec fn restorable(counter: Option<u64>, records: Seq<Bounty>) -> bool {
        &&& records.len() == (match counter {
            Some(c) => c as nat,
            None => 0,
        })
        &&& forall|i: int|
            0 <= i < records.len() ==> (#[trigger] records[i]).id == i + 1 && records[i].wf()
    }

    /// Rebuilds a registry from its persisted parts, or `None` when they do
    /// not form a well-formed registry.
    pub fn restore(custody: Address, counter: Option<u64>, bounties: Vec<Bounty>) -> (r: Option<
        BountyBoard,
    >)
        ensures
            match r {
                Some(b) => {
                    &&& Self::restorable(counter, bounties@)
                    &&& b.wf()
                    &&& b.records() == bounties@
                    &&& b.is_initialized() == (counter is Some)
                    &&& b.custody() == custody
                },
                None => !Self::restorable(counter, bounties@),
            },
    {
        let n: u64 = match counter {
            Some(c) => c,
            None => 0,
        };
        if bounties.len() as u64 != n {
            return None;
        }
        let mut i: usize = 0;
        while i < bounties.len()
            invariant
                i <= bounties@.len(),
                bounties@.len() == n,
                forall|k: int| 0 <= k < i ==> (#[trigger] bounties@[k]).id == k + 1 && bounties@[k].wf(),
            decreases bounties@.len() - i,
        {
            if bounties[i].id != i as u64 + 1 || !bounties[i].is_wf() {
                return None;
            }
            i = i + 1;
        }
        Some(BountyBoard { counter, bounties, custody })
    }

    /// The persisted form of the counter: `None` until it has been set.
    pub fn counter(&self) -> (r: Option<u64>)
        requires
            self.wf(),
        ensures
            r == (if self.is_initialized() { Some(self.count() as u64) } else { None::<u64> }),
    {
        self.counter
    }

    /// The position of the record with id `id`, if there is one.
    fn index_of(&self, id: u64) -> (r: Option<usize>)
        requires
            self.wf(),
        ensures
            match r {
                Some(i) => self.has_bounty(id) && i == id - 1,
                None => !self.has_bounty(id),
            },
    {
        if id >= 1 && id <= self.get_bounty_count() {
            let i: u64 = id - 1;
            assert(i < self.bounties.len());
            Some(i as usize)
        } else {
            None
        }
    }

    /// Creates an `Open` bounty with the next id and returns that id with the
    /// escrow transfer of `reward` from `creator` to the registry's custody.
    /// `caller` is the account the host has authenticated.
    pub fn create_bounty(
        &mut self,
        caller: &Address,
        creator: Address,
        title: String,
        description: String,
        reward: i128,
        deadline: u64,
        now: u64,
    ) -> (r: Result<(u64, Transfer), BountyError>)
        requires
            old(self).wf(),
            old(self).count() < u64::MAX,
        ensures
            final(self).wf(),
            Self::keeps_terms(*old(self), *final(self)),
            Self::create_post(
                *old(self),
                *final(self),
                *caller,
                creator,
                title,
                description,
                reward,
                deadline,
                now,
                r,
            ),
    {
        if !caller.same_as(&creator) {
            return Err(BountyError::Unauthorized);
        }
        if reward <= 0 || deadline <= now || title.as_str().is_empty()
            || description.as_str().is_empty() {
            return Err(BountyError::ValidationError);
        }
        let id: u64 = self.get_bounty_count() + 1;
        let escrow = Transfer { from: creator.clone(), to: self.custody.clone(), amount: reward };
        let bounty = Bounty {
            id,
            creator,
            title,
            description,
            reward,
            deadline,
            solver: None,
            proof_url: String::new(),
            status: BountyStatus::Open,
            created_at: now,
        };
        self.bounties.push(bounty);
        self.counter = Some(id);
        proof {
            assert(self.bounties@.drop_last() =~= old(self).bounties@);
        }
        Ok((id, escrow))
    }

    /// Records `solver`'s solution on an `Open` bounty. Past the deadline the
    /// bounty is marked `Expired` instead and `Expired` is returned: the host
    /// persists that change although the call failed.
    pub fn submit_solution(
        &mut self,
        bounty_id: u64,
        caller: &Address,
        solver: Address,
        proof_url: String,
        now: u64,
    ) -> (r: Result<(), BountyError>)
        requires
            old(self).wf(),
        ensures
            final(self).wf(),
            Self::keeps_terms(*old(self), *final(self)),
            Self::submit_post(*old(self), *final(self), bounty_id, *caller, solver, proof_url, now, r),
    {
        if !caller.same_as(&solver) {
            return Err(BountyError::Unauthorized);
        }
        if proof_url.as_str().is_empty() {
            return Err(BountyError::ValidationError);
        }
        let i = match self.index_of(bounty_id) {
            Some(i) => i,
            None => return Err(BountyError::NotFound),
        };
        let mut b = self.bounties[i].clone();
        if b.status != BountyStatus::Open {
            return Err(BountyError::InvalidState);
        }
        if now > b.deadline {
            b.status = BountyStatus::Expired;
            self.bounties.set(i, b);
            return Err(BountyError::Expired);
        }
        b.solver = Some(solver);
        b.proof_url = proof_url;
        b.status = BountyStatus::Submitted;
        self.bounties.set(i, b);
        Ok(())
    }

    /// Completes a `Submitted` bounty on its creator's word and returns the
    /// payout of the reward from custody to the solver.
    pub fn approve_solution(&mut self, bounty_id: u64, caller: &Address) -> (r: Result<
        Transfer,
        BountyError,
    >)
        requires
            old(self).wf(),
        ensures
            final(self).wf(),
            Self::keeps_terms(*old(self), *final(self)),
            Self::approve_post(*old(self), *final(self), bounty_id, *caller, r),
    {
        let i = match self.index_of(bounty_id) {
            Some(i) => i,
            None => return Err(BountyError::NotFound),
        };
        let mut b = self.bounties[i].clone();
        if !caller.same_as(&b.creator) {
            return Err(BountyError::Unauthorized);
        }
        let solver = match b.solver {
            Some(s) => s,
            None => return Err(BountyError::InvalidState),
        };
        if b.status != BountyStatus::Submitted {
            return Err(BountyError::InvalidState);
        }
        let payout = Transfer { from: self.custody.clone(), to: solver, amount: b.reward };
        b.solver = None;
        b.proof_url = String::new();
        b.status = BountyStatus::Completed;
        self.bounties.set(i, b);
        Ok(payout)
    }

    /// Sends a `Submitted` bounty back to `Open` on its creator's word,
    /// clearing the solver and the proof.
    pub fn reject_solution(&mut self, bounty_id: u64, caller: &Address) -> (r: Result<
        (),
        BountyError,
    >)
        requires
            old(self).wf(),
        ensures
            final(self).wf(),
            Self::keeps_terms(*old(self), *final(self)),
            Self::reject_post(*old(self), *final(self), bounty_id, *caller, r),
    {
        let i = match self.index_of(bounty_id) {
            Some(i) => i,
            None => return Err(BountyError::NotFound),
        };
        let mut b = self.bounties[i].clone();
        if !caller.same_as(&b.creator) {
            return Err(BountyError::Unauthorized);
        }
        if b.status != BountyStatus::Submitted {
            return Err(BountyError::InvalidState);
        }
        b.solver = None;
        b.proof_url = String::new();
        b.status = BountyStatus::Open;
        self.bounties.set(i, b);
        Ok(())
    }

    /// Withdraws an `Open` bounty on its creator's word, marking it `Expired`,
    /// and returns the refund of the reward from custody to the creator.
    pub fn cancel_bounty(&mut self, bounty_id: u64, caller: &Address) -> (r: Result<
        Transfer,
        BountyError,
    >)
        requires
            old(self).wf(),
        ensures
            final(self).wf(),
            Self::keeps_terms(*old(self), *final(self)),
            Self::cancel_post(*old(self), *final(self), bounty_id, *caller, r),
    {
        let i = match self.index_of(bounty_id) {
            Some(i) => i,
            None => return Err(BountyError::NotFound),
        };
        let mut b = self.bounties[i].clone();
        if !caller.same_as(&b.creator) {
            return Err(BountyError::Unauthorized);
        }
        if b.status != BountyStatus::Open {
            return Err(BountyError::InvalidState);
        }
        let refund = Transfer { from: self.custody.clone(), to: b.creator.clone(), amount: b.reward };
        b.status = BountyStatus::Expired;
        self.bounties.set(i, b);
        Ok(refund)
    }

    /// The record with id `bounty_id`.
    pub fn get_bounty(&self, bounty_id: u64) -> (r: Result<Bounty, BountyError>)
        requires
            self.wf(),
        ensures
            r == (if self.has_bounty(bounty_id) {
                Ok::<Bounty, BountyError>(self.bounty_at(bounty_id))
            } else {
                Err::<Bounty, BountyError>(BountyError::NotFound)
            }),
    {
        match self.index_of(bounty_id) {
            Some(i) => Ok(self.bounties[i].clone()),
            None => Err(BountyError::NotFound),
        }
    }

    /// Every record, in ascending id order.
    pub fn get_all_bounties(&self) -> (r: Vec<Bounty>)
        ensures
            r@ == self.records(),
    {
        let mut out: Vec<Bounty> = Vec::new();
        let mut i: usize = 0;
        while i < self.bounties.len()
            invariant
                i <= self.bounties@.len(),
                out@ == self.bounties@.take(i as int),
            decreases self.bounties@.len() - i,
        {
            out.push(self.bounties[i].clone());
            i = i + 1;
            proof {
                assert(out@ =~= self.bounties@.take(i as int));
            }
        }
        proof {
            assert(self.bounties@.take(i as int) =~= self.bounties@);
        }
        out
    }

    /// The records that are `Open` with a deadline after `now`, in ascending
    /// id order.
    pub fn get_open_bounties(&self, now: u64) -> (r: Vec<Bounty>)
        ensures
            r@ == self.records().filter(open_at(now)),
            forall|k: int|
                0 <= k < r@.len() ==> (#[trigger] r@[k]).status == BountyStatus::Open
                    && r@[k].deadline > now,
    {
        let mut out: Vec<Bounty> = Vec::new();
        let mut i: usize = 0;
        while i < self.bounties.len()
            invariant
                i <= self.bounties@.len(),
                out@ == self.bounties@.take(i as int).filter(open_at(now)),
            decreases self.bounties@.len() - i,
        {
            let b = &self.bounties[i];
            proof {
                assert(self.bounties@.take(i + 1) =~= self.bounties@.take(i as int).push(*b));
                self.bounties@.take(i as int).lemma_filter_push(*b, open_at(now));
            }
            if b.status == BountyStatus::Open && b.deadline > now {
                out.push(b.clone());
            }
            i = i + 1;
        }
        proof {
            assert(self.bounties@.take(i as int) =~= self.bounties@);
            broadcast use Seq::lemma_filter_pred;
        }
        out
    }

    /// The records created by `user`, in ascending id order.
    pub fn get_user_bounties(&self, user: &Address) -> (r: Vec<Bounty>)
        ensures
            r@ == self.records().filter(created_by(user@)),
    {
        let mut out: Vec<Bounty> = Vec::new();
        let mut i: usize = 0;
        while i < self.bounties.len()
            invariant
                i <= self.bounties@.len(),
                out@ == self.bounties@.take(i as int).filter(created_by(user@)),
            decreases self.bounties@.len() - i,
        {
            let b = &self.bounties[i];
            proof {
                assert(self.bounties@.take(i + 1) =~= self.bounties@.take(i as int).push(*b));
                self.bounties@.take(i as int).lemma_filter_push(*b, created_by(user@));
            }
            if b.creator.same_as(user) {
                out.push(b.clone());
            }
            i = i + 1;
        }
        proof {
            assert(self.bounties@.take(i as int) =~= self.bounties@);
        }
        out
    }

    /// The counter's value, 0 before any bounty is created.
    pub fn get_bounty_count(&self) -> (r: u64)
        ensures
            r == self.count(),
    {
        match self.counter {
            Some(c) => c,
            None => 0,
        }
    }
}

} // verus!
