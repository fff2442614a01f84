//! What holds of minting, proved from its definition.

use crate::mint::{
    after_creator, after_storage, counter_entry, creator_after_fee, credit_entry, data_entry,
    fee_entry, fee_rejection, mint, mint_fatal, minted_token, nft_storage_log, serial_counter,
    serial_entry, token_entry, validate, with_nft_storage,
};
use crate::operations::{MintNFTOpError, MintNFTOpView, MintNFTView, Receipt};
use crate::params::{MIN_NFT_TOKEN_ID, NFT_STORAGE_ACCOUNT_ID, NFT_TOKEN_ID};
use crate::primitives::{AccountId, TokenId, H256};
use crate::state::StateView;
use crate::tokens::NFT;
use crate::update::LogEntry;
use vstd::prelude::*;

verus! {

/// Replaying a log that ends in `entry` is replaying what comes before and
/// then making the change of `entry`.
pub proof fn lemma_replay_push(s: StateView, log: Seq<LogEntry>, entry: LogEntry)
    ensures
        s.apply_updates(log.push(entry)) == s.apply_updates(log).apply_update(entry.0, entry.1),
{
    assert(log.push(entry).drop_last() =~= log);
}

/// Replaying two logs one after the other is replaying their
/// concatenation.
pub proof fn lemma_replay_concat(s: StateView, first: Seq<LogEntry>, second: Seq<LogEntry>)
    ensures
        s.apply_updates(first + second) == s.apply_updates(first).apply_updates(second),
    decreases second.len(),
{
    if second.len() > 0 {
        lemma_replay_concat(s, first, second.drop_last());
        assert((first + second).drop_last() =~= first + second.drop_last());
    }
}

/// An operation that passes the creator's checks raises the creator's
/// nonce by exactly one and leaves the nonce of every other account of the
/// store as it was, whether or not the recipient then accepts the token.
/// Presented again with the same nonce, by the same creator, an operation
/// is rejected with `NonceMismatch`, and the store stays as it is.
pub proof fn lemma_nonce_increments(
    s: StateView,
    op: MintNFTOpView,
    hash: H256,
    again: MintNFTOpView,
    again_hash: H256,
)
    requires
        fee_rejection(s, op) is None,
        !mint_fatal(s, op),
        again.creator_account_id == op.creator_account_id,
        again.tx.nonce == op.tx.nonce,
    ensures
        mint(s, op, hash).0.accounts.contains_key(op.creator_account_id),
        mint(s, op, hash).0.accounts[op.creator_account_id].nonce
            == s.accounts[op.creator_account_id].nonce + 1,
        forall|id: AccountId|
            id != op.creator_account_id && #[trigger] s.accounts.contains_key(id) ==> mint(
                s,
                op,
                hash,
            ).0.accounts.contains_key(id) && mint(s, op, hash).0.accounts[id].nonce
                == s.accounts[id].nonce,
        mint(mint(s, op, hash).0, again, again_hash) == (
            mint(s, op, hash).0,
            Err::<Receipt, MintNFTOpError>(MintNFTOpError::NonceMismatch),
        ),
{
}

/// A request that was applied cannot be applied again: presented a second
/// time, it is still valid, and it is rejected with `NonceMismatch`, with
/// the store left as the first application left it.
pub proof fn lemma_request_applies_once(
    s: StateView,
    tx: MintNFTView,
    hash: H256,
    again_hash: H256,
)
    requires
        validate(s, tx) is Ok,
        fee_rejection(s, validate(s, tx)->Ok_0) is None,
        !mint_fatal(s, validate(s, tx)->Ok_0),
    ensures
        validate(mint(s, validate(s, tx)->Ok_0, hash).0, tx) is Ok,
        mint(
            mint(s, validate(s, tx)->Ok_0, hash).0,
            validate(mint(s, validate(s, tx)->Ok_0, hash).0, tx)->Ok_0,
            again_hash,
        ) == (
            mint(s, validate(s, tx)->Ok_0, hash).0,
            Err::<Receipt, MintNFTOpError>(MintNFTOpError::NonceMismatch),
        ),
{
}

/// No mint takes more than an account holds. A fee above the creator's
/// balance is rejected with `InsufficientBalance`, and the store stays as
/// it is.
pub proof fn lemma_overdraft_rejected(s: StateView, op: MintNFTOpView, hash: H256)
    requires
        s.accounts.contains_key(op.creator_account_id),
        s.accounts[op.creator_account_id].nonce == op.tx.nonce,
        op.tx.fee > s.accounts[op.creator_account_id].balance(op.tx.fee_token),
    ensures
        mint(s, op, hash) == (
            s,
            Err::<Receipt, MintNFTOpError>(MintNFTOpError::InsufficientBalance),
        ),
{
}

/// The only balance that a mint lowers is the creator's balance of the fee
/// token: the fee is taken from it, and it held as much. Every other
/// balance of every account of the store stays or grows.
pub proof fn lemma_only_the_fee_is_taken(s: StateView, op: MintNFTOpView, hash: H256)
    requires
        fee_rejection(s, op) is None,
        !mint_fatal(s, op),
    ensures
        op.tx.fee <= s.accounts[op.creator_account_id].balance(op.tx.fee_token),
        creator_after_fee(s, op).balance(op.tx.fee_token) + op.tx.fee
            == s.accounts[op.creator_account_id].balance(op.tx.fee_token),
        forall|id: AccountId, token: TokenId|
            #![trigger mint(s, op, hash).0.accounts[id].balance(token)]
            s.accounts.contains_key(id) && !(id == op.creator_account_id && token
                == op.tx.fee_token) ==> mint(s, op, hash).0.accounts[id].balance(token)
                >= s.accounts[id].balance(token),
{
}

/// A request that was validated against a well-formed store is never
/// rejected for an account that is missing when it is applied to that
/// store: both accounts are there.
pub proof fn lemma_validated_accounts_exist(s: StateView, tx: MintNFTView, hash: H256)
    requires
        s.wf(),
        validate(s, tx) is Ok,
    ensures
        mint(s, validate(s, tx)->Ok_0, hash).1 != Err::<Receipt, MintNFTOpError>(
            MintNFTOpError::CreatorAccountNotFound,
        ),
        mint(s, validate(s, tx)->Ok_0, hash).1 != Err::<Receipt, MintNFTOpError>(
            MintNFTOpError::RecipientAccountNotFound,
        ),
{
}

/// The storage account is created once: where the store has one, nothing
/// changes and nothing is logged; where it has none, the new account's
/// counter starts at `MIN_NFT_TOKEN_ID`, and asking again changes and logs
/// nothing.
pub proof fn lemma_nft_storage_created_once(s: StateView)
    ensures
        s.accounts.contains_key(NFT_STORAGE_ACCOUNT_ID) ==> with_nft_storage(s) == s
            && nft_storage_log(s) == Seq::<LogEntry>::empty(),
        !s.accounts.contains_key(NFT_STORAGE_ACCOUNT_ID) ==> with_nft_storage(
            s,
        ).accounts[NFT_STORAGE_ACCOUNT_ID].balance(NFT_TOKEN_ID) == MIN_NFT_TOKEN_ID,
        with_nft_storage(s).accounts.contains_key(NFT_STORAGE_ACCOUNT_ID),
        with_nft_storage(with_nft_storage(s)) == with_nft_storage(s),
        nft_storage_log(with_nft_storage(s)) == Seq::<LogEntry>::empty(),
        s.apply_updates(nft_storage_log(s)) == with_nft_storage(s),
{
    if !s.accounts.contains_key(NFT_STORAGE_ACCOUNT_ID) {
        let log = nft_storage_log(s);
        let created = s.apply_update(log[0].0, log[0].1);
        lemma_replay_push(s, Seq::empty(), log[0]);
        lemma_replay_push(s, Seq::empty().push(log[0]), log[1]);
        assert(log =~= Seq::empty().push(log[0]).push(log[1]));
        let replayed = created.apply_update(log[1].0, log[1].1);
        assert(replayed.accounts =~= with_nft_storage(s).accounts);
        assert(replayed.account_id_by_address =~= with_nft_storage(s).account_id_by_address);
    }
}

/// The log of a successful mint is complete: replayed in order on the
/// store as it was before, it gives the store as it is after.
pub proof fn lemma_log_replays(s: StateView, op: MintNFTOpView, hash: H256)
    requires
        !mint_fatal(s, op),
        mint(s, op, hash).1 is Ok,
    ensures
        s.apply_updates(mint(s, op, hash).1->Ok_0.updates) == mint(s, op, hash).0,
{
    let e1 = fee_entry(s, op);
    let e2 = serial_entry(s, op);
    let e3 = counter_entry(s, op);
    let e4 = token_entry(s, op, hash);
    let e5 = data_entry(s, op, hash);
    let e6 = credit_entry(s, op, hash);
    let head = seq![e1, e2];
    let tail = seq![e3, e4, e5, e6];
    let created = nft_storage_log(after_creator(s, op));

    // The creator's two entries give the store after the creator's changes.
    let s2 = s.apply_update(e1.0, e1.1).apply_update(e2.0, e2.1);
    lemma_replay_push(s, Seq::empty(), e1);
    lemma_replay_push(s, Seq::empty().push(e1), e2);
    assert(head =~= Seq::empty().push(e1).push(e2));
    assert(s2.accounts =~= after_creator(s, op).accounts);
    assert(s2.account_id_by_address =~= after_creator(s, op).account_id_by_address);

    // The entries of the storage account's creation give it where it was
    // missing.
    lemma_nft_storage_created_once(after_creator(s, op));
    lemma_replay_concat(s, head, created);
    let s3 = with_nft_storage(after_creator(s, op));

    // The counter, the token and its fingerprint give the store before the
    // recipient gets the token. The counter's entry sets the storage
    // account's nonce to zero, the fingerprint's entry sets it back.
    let s6 = s3.apply_update(e3.0, e3.1).apply_update(e4.0, e4.1).apply_update(e5.0, e5.1);
    lemma_replay_push(s3, Seq::empty(), e3);
    lemma_replay_push(s3, Seq::empty().push(e3), e4);
    lemma_replay_push(s3, Seq::empty().push(e3).push(e4), e5);
    lemma_replay_push(s3, Seq::empty().push(e3).push(e4).push(e5), e6);
    assert(tail =~= Seq::empty().push(e3).push(e4).push(e5).push(e6));
    lemma_replay_concat(s, head + created, tail);
    assert(s6.accounts =~= after_storage(s, op, hash).accounts);
    assert(s6.account_id_by_address =~= after_storage(s, op, hash).account_id_by_address);
}

/// One request of a run, with the hash of the token that it mints.
pub struct MintStep {
    pub tx: MintNFTView,
    pub hash: H256,
}

/// The operation that validating the request of a step gives.
pub open spec fn step_op(s: StateView, step: MintStep) -> MintNFTOpView {
    validate(s, step.tx)->Ok_0
}

/// The request of the step is valid, the ledger is sound for it, and the
/// token is minted and handed over.
pub open spec fn step_succeeds(s: StateView, step: MintStep) -> bool {
    &&& validate(s, step.tx) is Ok
    &&& !mint_fatal(s, step_op(s, step))
    &&& mint(s, step_op(s, step), step.hash).1 is Ok
}

/// The store after a step.
pub open spec fn after_step(s: StateView, step: MintStep) -> StateView {
    mint(s, step_op(s, step), step.hash).0
}

/// The store after the steps of a run, one after the other.
pub open spec fn after_steps(s: StateView, steps: Seq<MintStep>) -> StateView
    decreases steps.len(),
{
    if steps.len() == 0 {
        s
    } else {
        after_step(after_steps(s, steps.drop_last()), steps.last())
    }
}

/// Every step of the run succeeds on the store that the steps before it
/// have left.
pub open spec fn steps_succeed(s: StateView, steps: Seq<MintStep>) -> bool
    decreases steps.len(),
{
    steps.len() == 0 || (steps_succeed(s, steps.drop_last()) && step_succeeds(
        after_steps(s, steps.drop_last()),
        steps.last(),
    ))
}

/// The token that step `i` of a run mints.
pub open spec fn step_token(s: StateView, steps: Seq<MintStep>, i: int) -> NFT {
    let before = after_steps(s, steps.take(i));
    minted_token(before, step_op(before, steps[i]), steps[i].hash)
}

/// How many steps of a run are requests of `creator`.
pub open spec fn mints_by(steps: Seq<MintStep>, creator: AccountId) -> nat
    decreases steps.len(),
{
    if steps.len() == 0 {
        0
    } else {
        mints_by(steps.drop_last(), creator) + if steps.last().tx.creator_id == creator {
            1nat
        } else {
            0nat
        }
    }
}

/// The counter of token identifiers that the next mint on `t` finds.
spec fn next_token_counter(t: StateView) -> nat {
    with_nft_storage(t).accounts[NFT_STORAGE_ACCOUNT_ID].balance(NFT_TOKEN_ID)
}

/// What a run of successful steps keeps true of the store `t` that it has
/// reached from a store without a storage account.
spec fn token_run_invariant(steps: Seq<MintStep>, t: StateView) -> bool {
    &&& with_nft_storage(t).accounts[NFT_STORAGE_ACCOUNT_ID].is_locked()
    &&& next_token_counter(t) == MIN_NFT_TOKEN_ID + steps.len()
}

proof fn lemma_token_step(steps: Seq<MintStep>, t: StateView, step: MintStep)
    requires
        token_run_invariant(steps, t),
        step_succeeds(t, step),
    ensures
        token_run_invariant(steps.push(step), after_step(t, step)),
        minted_token(t, step_op(t, step), step.hash).id == MIN_NFT_TOKEN_ID + steps.len(),
        after_step(t, step).nfts == t.nfts.insert(
            minted_token(t, step_op(t, step), step.hash).id,
            minted_token(t, step_op(t, step), step.hash),
        ),
{
}

proof fn lemma_token_run(s: StateView, steps: Seq<MintStep>)
    requires
        !s.accounts.contains_key(NFT_STORAGE_ACCOUNT_ID),
        steps_succeed(s, steps),
    ensures
        token_run_invariant(steps, after_steps(s, steps)),
        forall|i: int|
            0 <= i < steps.len() ==> {
                &&& (#[trigger] step_token(s, steps, i)).id == MIN_NFT_TOKEN_ID + i
                &&& after_steps(s, steps).nfts.contains_key(step_token(s, steps, i).id)
                &&& after_steps(s, steps).nfts[step_token(s, steps, i).id] == step_token(
                    s,
                    steps,
                    i,
                )
            },
    decreases steps.len(),
{
    if steps.len() > 0 {
        let init = steps.drop_last();
        lemma_token_run(s, init);
        lemma_token_step(init, after_steps(s, init), steps.last());
        assert forall|i: int| 0 <= i < steps.len() implies {
            &&& (#[trigger] step_token(s, steps, i)).id == MIN_NFT_TOKEN_ID + i
            &&& after_steps(s, steps).nfts.contains_key(step_token(s, steps, i).id)
            &&& after_steps(s, steps).nfts[step_token(s, steps, i).id] == step_token(s, steps, i)
        } by {
            if i < init.len() {
                assert(init.take(i) =~= steps.take(i));
                assert(step_token(s, init, i) == step_token(s, steps, i));
            }
        }
    }
}

/// Token identifiers are handed out in order and never twice: in a run of
/// successful mints on a store that has no storage account yet, step `i`
/// (counted from zero) mints the token `MIN_NFT_TOKEN_ID + i`, and after
/// the run the registry holds each step's token under that identifier.
pub proof fn lemma_token_ids_in_order(s: StateView, steps: Seq<MintStep>)
    requires
        !s.accounts.contains_key(NFT_STORAGE_ACCOUNT_ID),
        steps_succeed(s, steps),
    ensures
        forall|i: int|
            0 <= i < steps.len() ==> {
                &&& (#[trigger] step_token(s, steps, i)).id == MIN_NFT_TOKEN_ID + i
                &&& after_steps(s, steps).nfts.contains_key(step_token(s, steps, i).id)
                &&& after_steps(s, steps).nfts[step_token(s, steps, i).id] == step_token(
                    s,
                    steps,
                    i,
                )
            },
        forall|i: int, j: int|
            0 <= i < j < steps.len() ==> (#[trigger] step_token(s, steps, i)).id != (
            #[trigger] step_token(s, steps, j)).id,
{
    lemma_token_run(s, steps);
}

/// What a run of successful steps keeps true of the store `t` that it has
/// reached from the store `s`: every account but the storage account was
/// there from the start, and its counter has grown by the number of its
/// own steps.
spec fn serial_run_invariant(s: StateView, steps: Seq<MintStep>, t: StateView) -> bool {
    &&& next_token_counter(t) >= steps.len()
    &&& forall|id: AccountId|
        id != NFT_STORAGE_ACCOUNT_ID && #[trigger] t.accounts.contains_key(id) ==> {
            &&& s.accounts.contains_key(id)
            &&& t.accounts[id].balance(NFT_TOKEN_ID) == s.accounts[id].balance(NFT_TOKEN_ID)
                + mints_by(steps, id)
        }
}

proof fn lemma_mints_by_bounded(steps: Seq<MintStep>, creator: AccountId)
    ensures
        mints_by(steps, creator) <= steps.len(),
    decreases steps.len(),
{
    if steps.len() > 0 {
        lemma_mints_by_bounded(steps.drop_last(), creator);
    }
}

proof fn lemma_serial_step(s: StateView, steps: Seq<MintStep>, t: StateView, step: MintStep)
    requires
        serial_run_invariant(s, steps, t),
        step_succeeds(t, step),
    ensures
        serial_run_invariant(s, steps.push(step), after_step(t, step)),
        steps.len() <= u32::MAX,
        step.tx.creator_id != NFT_STORAGE_ACCOUNT_ID ==> serial_counter(t, step_op(t, step))
            == s.accounts[step.tx.creator_id].balance(NFT_TOKEN_ID) + mints_by(
            steps,
            step.tx.creator_id,
        ),
{
    let next = steps.push(step);
    let u = after_step(t, step);
    assert(next.drop_last() =~= steps);
    assert forall|id: AccountId|
        id != NFT_STORAGE_ACCOUNT_ID && #[trigger] u.accounts.contains_key(id) implies {
        &&& s.accounts.contains_key(id)
        &&& u.accounts[id].balance(NFT_TOKEN_ID) == s.accounts[id].balance(NFT_TOKEN_ID)
            + mints_by(next, id)
    } by {
    }
}

proof fn lemma_serial_run(s: StateView, steps: Seq<MintStep>)
    requires
        steps_succeed(s, steps),
    ensures
        serial_run_invariant(s, steps, after_steps(s, steps)),
        forall|i: int|
            0 <= i < steps.len() && steps[i].tx.creator_id != NFT_STORAGE_ACCOUNT_ID
                && s.accounts[steps[i].tx.creator_id].balance(NFT_TOKEN_ID) == 0 ==> (
            #[trigger] step_token(s, steps, i)).serial_id == mints_by(
                steps.take(i),
                steps[i].tx.creator_id,
            ),
    decreases steps.len(),
{
    if steps.len() > 0 {
        let init = steps.drop_last();
        lemma_serial_run(s, init);
        lemma_serial_step(s, init, after_steps(s, init), steps.last());
        assert forall|i: int|
            0 <= i < steps.len() && steps[i].tx.creator_id != NFT_STORAGE_ACCOUNT_ID
                && s.accounts[steps[i].tx.creator_id].balance(NFT_TOKEN_ID) == 0 implies (
        #[trigger] step_token(s, steps, i)).serial_id == mints_by(
            steps.take(i),
            steps[i].tx.creator_id,
        ) by {
            if i < init.len() {
                assert(init.take(i) =~= steps.take(i));
                assert(step_token(s, init, i) == step_token(s, steps, i));
            } else {
                lemma_mints_by_bounded(init, steps[i].tx.creator_id);
            }
        }
    }
}

/// Serial numbers count a creator's own mints: in a run of successful
/// mints, the token of a step whose creator had minted nothing before the
/// run gets as its serial number the number of earlier steps by the same
/// creator, whatever other creators minted in between. The storage
/// account is no such creator: its counter is the counter of token
/// identifiers.
pub proof fn lemma_serial_ids_count(s: StateView, steps: Seq<MintStep>)
    requires
        steps_succeed(s, steps),
    ensures
        forall|i: int|
            0 <= i < steps.len() && steps[i].tx.creator_id != NFT_STORAGE_ACCOUNT_ID
                && s.accounts[steps[i].tx.creator_id].balance(NFT_TOKEN_ID) == 0 ==> (
            #[trigger] step_token(s, steps, i)).serial_id == mints_by(
                steps.take(i),
                steps[i].tx.creator_id,
            ),
{
    lemma_serial_run(s, steps);
}

} // verus!
