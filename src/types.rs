use vstd::prelude::*;

verus! {

/// An opaque account reference, held as its textual form.
#[derive(Debug)]
pub struct Address {
    pub key: String,
}

impl View for Address {
    type V = Seq<char>;

    open spec fn view(&self) -> Seq<char> {
        self.key@
    }
}

impl Address {
    pub fn new(key: String) -> (r: Address)
        ensures
            r.key == key,
    {
        Address { key }
    }

    /// Whether both name the same account.
    pub fn same_as(&self, other: &Address) -> (r: bool)
        ensures
            r == (self@ == other@),
    {
        self.key == other.key
    }

    /// The textual form of the account.
    pub fn as_str(&self) -> (r: &str)
        ensures
            r@ == self@,
    {
        self.key.as_str()
    }
}

impl Clone for Address {
    fn clone(&self) -> (r: Self)
        ensures
            r == *self,
    {
        Address { key: self.key.clone() }
    }
}

impl PartialEq for Address {
    fn eq(&self, other: &Address) -> (r: bool) {
        self.key == other.key
    }
}

impl vstd::std_specs::cmp::PartialEqSpecImpl for Address {
    open spec fn obeys_eq_spec() -> bool {
        true
    }

    open spec fn eq_spec(&self, other: &Address) -> bool {
        self@ == other@
    }
}

impl Eq for Address {}

/// The lifecycle state of a bounty. `Expired` is terminal and stands both for a
/// bounty whose deadline passed and for one its creator cancelled.
#[derive(Clone, Copy, Debug, PartialEq, Eq, Structural)]
pub enum BountyStatus {
    Open,
    Submitted,
    Completed,
    Expired,
}

impl BountyStatus {
    /// The numeric encoding of the status (0 to 3, in lifecycle order).
    pub fn code(&self) -> (r: u32)
        ensures
            r == self.spec_code(),
    {
        match self {
            BountyStatus::Open => 0,
            BountyStatus::Submitted => 1,
            BountyStatus::Completed => 2,
            BountyStatus::Expired => 3,
        }
    }

    pub open spec fn spec_code(&self) -> u32 {
        match self {
            BountyStatus::Open => 0,
            BountyStatus::Submitted => 1,
            BountyStatus::Completed => 2,
            BountyStatus::Expired => 3,
        }
    }

    /// A status out of which no lifecycle operation moves.
    pub open spec fn is_terminal(&self) -> bool {
        *self == BountyStatus::Completed || *self == BountyStatus::Expired
    }
}

/// One bounty record.
#[derive(Debug)]
pub struct Bounty {
    pub id: u64,
    pub creator: Address,
    pub title: String,
    pub description: String,
    pub reward: i128,
    pub deadline: u64,
    pub solver: Option<Address>,
    pub proof_url: String,
    pub status: BountyStatus,
    pub created_at: u64,
}

impl Bounty {
    /// The record's well-formedness: a positive reward, a deadline after the
    /// creation time, and a solver and proof present exactly while a solution
    /// is pending.
    pub open spec fn wf(&self) -> bool {
        &&& self.id >= 1
        &&& self.reward > 0
        &&& self.deadline > self.created_at
        &&& self.title@.len() > 0
        &&& self.description@.len() > 0
        &&& (self.solver is Some <==> self.status == BountyStatus::Submitted)
        &&& (self.status != BountyStatus::Submitted ==> self.proof_url@.len() == 0)
    }

    /// Checks `wf`.
    pub fn is_wf(&self) -> (r: bool)
        ensures
            r == self.wf(),
    {
        let pending = match self.status {
            BountyStatus::Submitted => true,
            _ => false,
        };
        self.id >= 1 && self.reward > 0 && self.deadline > self.created_at
            && !self.title.as_str().is_empty() && !self.description.as_str().is_empty()
            && self.solver.is_some() == pending && (pending || self.proof_url.as_str().is_empty())
    }

    /// The fields fixed at creation, which no operation changes.
    pub open spec fn same_terms(&self, other: &Bounty) -> bool {
        &&& self.id == other.id
        &&& self.creator == other.creator
        &&& self.title == other.title
        &&& self.description == other.description
        &&& self.reward == other.reward
        &&& self.deadline == other.deadline
        &&& self.created_at == other.created_at
    }
}

fn clone_solver(s: &Option<Address>) -> (r: Option<Address>)
    ensures
        r == *s,
{
    match s {
        Some(a) => Some(a.clone()),
        None => None,
    }
}

impl Clone for Bounty {
    fn clone(&self) -> (r: Self)
        ensures
            r == *self,
    {
        Bounty {
            id: self.id,
            creator: self.creator.clone(),
            title: self.title.clone(),
            description: self.description.clone(),
            reward: self.reward,
            deadline: self.deadline,
            solver: clone_solver(&self.solver),
            proof_url: self.proof_url.clone(),
            status: self.status,
            created_at: self.created_at,
        }
    }
}

/// The keys under which a host's key-value storage holds the registry.
#[derive(Clone, Copy, Debug, PartialEq, Eq, Structural)]
pub enum DataKey {
    BountyCounter,
    Bounty(u64),
}

/// Why an operation was refused.
#[derive(Clone, Copy, Debug, PartialEq, Eq, Structural)]
pub enum BountyError {
    /// `initialize` after the counter was set.
    AlreadyInitialized,
    /// A non-positive reward, a deadline not after now, or an empty title,
    /// description or proof.
    ValidationError,
    /// No record has the given id.
    NotFound,
    /// The caller is not the account the operation requires.
    Unauthorized,
    /// The bounty's status does not admit the operation.
    InvalidState,
    /// A submission after the deadline; the bounty is marked `Expired`.
    Expired,
    /// The host could not perform a transfer an operation returned; the
    /// operation's new state is then dropped.
    TransferFailed,
}

/// A movement of `amount` units of the escrow asset from one account to another.
#[derive(Debug)]
pub struct Transfer {
    pub from: Address,
    pub to: Address,
    pub amount: i128,
}

} // verus!
