use vstd::prelude::*;

use crate::board::BountyBoard;
use crate::types::{Address, Bounty, BountyError, BountyStatus, Transfer};

verus! {

/// Initialization happens once: after a first `initialize` that succeeds the
/// counter is 0, and a second `initialize` fails with `AlreadyInitialized` and
/// changes nothing.
pub proof fn lemma_initialize_once(
    b0: BountyBoard,
    b1: BountyBoard,
    r1: Result<(), BountyError>,
    b2: BountyBoard,
    r2: Result<(), BountyError>,
)
    requires
        b0.wf(),
        BountyBoard::initialize_post(b0, b1, r1),
        r1 is Ok,
        BountyBoard::initialize_post(b1, b2, r2),
    ensures
        b1.count() == 0,
        r2 == Err::<(), BountyError>(BountyError::AlreadyInitialized),
        b2 == b1,
{
}

/// Every bounty a well-formed registry holds has a positive reward and a
/// deadline after its creation time.
pub proof fn lemma_records_have_valid_terms(b: BountyBoard, id: u64)
    requires
        b.wf(),
        b.has_bounty(id),
    ensures
        b.bounty_at(id).reward > 0,
        b.bounty_at(id).deadline > b.bounty_at(id).created_at,
{
    assert(b.records()[id - 1].wf());
}

/// A creation succeeds only with a positive reward and a deadline after the
/// current time, and the new record carries both.
pub proof fn lemma_create_validates_terms(
    pre: BountyBoard,
    post: BountyBoard,
    caller: Address,
    creator: Address,
    title: String,
    description: String,
    reward: i128,
    deadline: u64,
    now: u64,
    r: Result<(u64, Transfer), BountyError>,
)
    requires
        pre.wf(),
        BountyBoard::create_post(pre, post, caller, creator, title, description, reward, deadline, now, r),
    ensures
        (reward <= 0 || deadline <= now) ==> r is Err && post == pre,
        r is Ok ==> ({
            let b = post.bounty_at(r->Ok_0.0);
            &&& post.has_bounty(r->Ok_0.0)
            &&& b.reward == reward > 0
            &&& b.deadline == deadline
            &&& b.deadline > b.created_at
            &&& b.created_at == now
        }),
{
}

/// Ids are handed out in order: a creation returns the counter's new value,
/// one more than before, so on a fresh registry the first id is 1 and each
/// next creation returns the id after the previous one.
pub proof fn lemma_ids_sequential(
    b0: BountyBoard,
    b1: BountyBoard,
    c1: Address,
    creator1: Address,
    title1: String,
    description1: String,
    reward1: i128,
    deadline1: u64,
    now1: u64,
    r1: Result<(u64, Transfer), BountyError>,
    b2: BountyBoard,
    c2: Address,
    creator2: Address,
    title2: String,
    description2: String,
    reward2: i128,
    deadline2: u64,
    now2: u64,
    r2: Result<(u64, Transfer), BountyError>,
)
    requires
        BountyBoard::create_post(b0, b1, c1, creator1, title1, description1, reward1, deadline1, now1, r1),
        BountyBoard::create_post(b1, b2, c2, creator2, title2, description2, reward2, deadline2, now2, r2),
        r1 is Ok,
        r2 is Ok,
    ensures
        r1->Ok_0.0 == b1.count(),
        r2->Ok_0.0 == b2.count(),
        r2->Ok_0.0 == r1->Ok_0.0 + 1,
        b0.count() == 0 ==> r1->Ok_0.0 == 1,
{
}

/// `keeps_terms` chains: what every operation keeps holds across any run of
/// operations.
pub proof fn lemma_keeps_terms_chains(b0: BountyBoard, b1: BountyBoard, b2: BountyBoard)
    requires
        BountyBoard::keeps_terms(b0, b1),
        BountyBoard::keeps_terms(b1, b2),
    ensures
        BountyBoard::keeps_terms(b0, b2),
{
    assert forall|i: int| 0 <= i < b0.records().len() implies (#[trigger] b2.records()[i]).same_terms(
        &b0.records()[i],
    ) && (b0.records()[i].status.is_terminal() ==> b2.records()[i] == b0.records()[i]) by {
        assert(b1.records()[i].same_terms(&b0.records()[i]));
        assert(b2.records()[i].same_terms(&b1.records()[i]));
    }
}

/// A payout by approval or a refund by cancellation.
pub open spec fn releases(
    pre: BountyBoard,
    post: BountyBoard,
    id: u64,
    caller: Address,
    r: Result<Transfer, BountyError>,
) -> bool {
    BountyBoard::approve_post(pre, post, id, caller, r) || BountyBoard::cancel_post(
        pre,
        post,
        id,
        caller,
        r,
    )
}

/// Escrow is conserved: the reward taken from the creator into custody at
/// creation is what a later approval pays out of custody or a later
/// cancellation refunds, and once it has been released no later approval or
/// cancellation of that bounty releases it again.
pub proof fn lemma_escrow_released_once(
    b0: BountyBoard,
    b1: BountyBoard,
    c1: Address,
    creator: Address,
    title: String,
    description: String,
    reward: i128,
    deadline: u64,
    now: u64,
    r1: Result<(u64, Transfer), BountyError>,
    b2: BountyBoard,
    b3: BountyBoard,
    c3: Address,
    r3: Result<Transfer, BountyError>,
    b4: BountyBoard,
    b5: BountyBoard,
    c5: Address,
    r5: Result<Transfer, BountyError>,
)
    requires
        b0.wf(),
        BountyBoard::create_post(b0, b1, c1, creator, title, description, reward, deadline, now, r1),
        r1 is Ok,
        BountyBoard::keeps_terms(b1, b2),
        releases(b2, b3, r1->Ok_0.0, c3, r3),
        r3 is Ok,
        BountyBoard::keeps_terms(b3, b4),
        releases(b4, b5, r1->Ok_0.0, c5, r5),
    ensures
        r1->Ok_0.1.from == creator,
        r1->Ok_0.1.to == b0.custody(),
        r3->Ok_0.from == b0.custody(),
        r3->Ok_0.amount == r1->Ok_0.1.amount,
        r5 is Err,
        b5 == b4,
{
    let id = r1->Ok_0.0;
    let i = id - 1;
    assert(b1.records()[i] == b1.bounty_at(id));
    assert(b2.records()[i].same_terms(&b1.records()[i]));
    assert(b3.bounty_at(id).status.is_terminal());
    assert(b4.records()[i] == b3.records()[i]);
}

/// A bounty in a terminal state is closed: submitting to it, approving,
/// rejecting or cancelling it all fail and leave the registry unchanged, with
/// `InvalidState` for a properly authorized, well-formed request.
pub proof fn lemma_terminal_closed(
    pre: BountyBoard,
    id: u64,
    submitter: Address,
    solver: Address,
    proof_url: String,
    now: u64,
    post_submit: BountyBoard,
    r_submit: Result<(), BountyError>,
    caller: Address,
    post_approve: BountyBoard,
    r_approve: Result<Transfer, BountyError>,
    post_reject: BountyBoard,
    r_reject: Result<(), BountyError>,
    post_cancel: BountyBoard,
    r_cancel: Result<Transfer, BountyError>,
)
    requires
        pre.wf(),
        pre.has_bounty(id),
        pre.bounty_at(id).status.is_terminal(),
        BountyBoard::submit_post(pre, post_submit, id, submitter, solver, proof_url, now, r_submit),
        BountyBoard::approve_post(pre, post_approve, id, caller, r_approve),
        BountyBoard::reject_post(pre, post_reject, id, caller, r_reject),
        BountyBoard::cancel_post(pre, post_cancel, id, caller, r_cancel),
    ensures
        r_submit is Err && post_submit == pre,
        r_approve is Err && post_approve == pre,
        r_reject is Err && post_reject == pre,
        r_cancel is Err && post_cancel == pre,
        submitter@ == solver@ && proof_url@.len() > 0 ==> r_submit == Err::<(), BountyError>(
            BountyError::InvalidState,
        ),
        caller@ == pre.bounty_at(id).creator@ ==> r_approve == Err::<Transfer, BountyError>(
            BountyError::InvalidState,
        ) && r_reject == Err::<(), BountyError>(BountyError::InvalidState) && r_cancel == Err::<
            Transfer,
            BountyError,
        >(BountyError::InvalidState),
{
}

/// Submitting a solution and then rejecting it gives back the bounty as it
/// was: no solver, an empty proof, status `Open`, the same terms, and every
/// other record untouched.
pub proof fn lemma_submit_reject_round_trip(
    b0: BountyBoard,
    id: u64,
    caller: Address,
    solver: Address,
    proof_url: String,
    now: u64,
    b1: BountyBoard,
    r1: Result<(), BountyError>,
    creator: Address,
    b2: BountyBoard,
    r2: Result<(), BountyError>,
)
    requires
        b0.wf(),
        BountyBoard::submit_post(b0, b1, id, caller, solver, proof_url, now, r1),
        r1 is Ok,
        BountyBoard::reject_post(b1, b2, id, creator, r2),
        r2 is Ok,
    ensures
        b2.bounty_at(id).solver is None,
        b2.bounty_at(id).proof_url@ == b0.bounty_at(id).proof_url@,
        b2.bounty_at(id).status == BountyStatus::Open,
        b2.bounty_at(id) == (Bounty { proof_url: b2.bounty_at(id).proof_url, ..b0.bounty_at(id) }),
        b2.count() == b0.count(),
        b2.records().len() == b0.records().len(),
        forall|k: int|
            0 <= k < b0.records().len() && k != id - 1 ==> #[trigger] b2.records()[k]
                == b0.records()[k],
{
    assert(b0.records()[id - 1].wf());
}

} // verus!
