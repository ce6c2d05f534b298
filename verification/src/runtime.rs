//! The runtime: one instance of each module composed under a two-level
//! dispatcher, and the block executor that sequences extrinsics, tracks
//! per-account nonces, and separates block-level from operation-level
//! failure.

use crate::balances;
use crate::proof_of_existence;
use crate::support::{Block, BlockError, DispatchResult, Extrinsic};
use crate::system;
use vstd::prelude::*;

verus! {

/// The outer call type: a closed union of every module operation an
/// extrinsic may dispatch. The system module contributes no variants — it
/// is driven solely by the executor.
pub enum RuntimeCall {
    /// An operation of the balances module.
    Balances(balances::Call),
    /// An operation of the proof-of-existence module.
    ProofOfExistence(proof_of_existence::Call),
}

impl Clone for RuntimeCall {
    /// An exact copy: the clone dispatches as the original would.
    fn clone(&self) -> (c: Self)
        ensures
            c == *self,
    {
        match self {
            RuntimeCall::Balances(c) => RuntimeCall::Balances(c.clone()),
            RuntimeCall::ProofOfExistence(c) => RuntimeCall::ProofOfExistence(c.clone()),
        }
    }
}

/// The whole runtime state as mathematical maps: the current block number,
/// the ledger, the claim registry, and the per-account nonces. Absent
/// ledger and nonce entries read as zero.
pub struct RuntimeView {
    /// The current block number.
    pub block_number: u32,
    /// The stored ledger entries of the balances module.
    pub ledger: Map<Seq<char>, u128>,
    /// The claim registry of the proof-of-existence module.
    pub claims: Map<Seq<char>, Seq<char>>,
    /// The stored nonce entries of the system module.
    pub nonces: Map<Seq<char>, u32>,
}

/// The ledger, claim registry and dispatch result after routing one call:
/// a balances call touches only the ledger, a proof-of-existence call only
/// the registry.
pub open spec fn spec_dispatch(
    ledger: Map<Seq<char>, u128>,
    claims: Map<Seq<char>, Seq<char>>,
    caller: Seq<char>,
    call: RuntimeCall,
) -> (Map<Seq<char>, u128>, Map<Seq<char>, Seq<char>>, DispatchResult) {
    match call {
        RuntimeCall::Balances(c) => match c {
            balances::Call::Transfer { to, amount } => {
                let (ledger2, r) = balances::spec_transfer(ledger, caller, to@, amount);
                (ledger2, claims, r)
            },
        },
        RuntimeCall::ProofOfExistence(c) => match c {
            proof_of_existence::Call::CreateClaim { claim } => {
                let (claims2, r) = proof_of_existence::spec_create_claim(claims, caller, claim@);
                (ledger, claims2, r)
            },
            proof_of_existence::Call::RevokeClaim { claim } => {
                let (claims2, r) = proof_of_existence::spec_revoke_claim(claims, caller, claim@);
                (ledger, claims2, r)
            },
        },
    }
}

/// The state after applying one extrinsic: the caller's nonce is bumped
/// whatever the outcome, and the dispatched call updates the ledger or the
/// registry only when it succeeds.
pub open spec fn spec_apply_extrinsic(s: RuntimeView, e: Extrinsic) -> RuntimeView {
    let bumped = s.nonces.insert(
        e.caller@,
        (system::spec_nonce_of(s.nonces, e.caller@) + 1) as u32,
    );
    let (ledger2, claims2, r) = spec_dispatch(s.ledger, s.claims, e.caller@, e.call);
    RuntimeView { block_number: s.block_number, ledger: ledger2, claims: claims2, nonces: bumped }
}

/// The state after applying a sequence of extrinsics strictly in order.
/// A failing extrinsic changes nothing but its caller's nonce and never
/// stops the ones after it.
pub open spec fn spec_apply_extrinsics(s: RuntimeView, es: Seq<Extrinsic>) -> RuntimeView
    decreases es.len(),
{
    if es.len() == 0 {
        s
    } else {
        spec_apply_extrinsics(spec_apply_extrinsic(s, es[0]), es.drop_first())
    }
}

/// How many extrinsics in `es` are authored by `account`.
pub open spec fn count_authored(es: Seq<Extrinsic>, account: Seq<char>) -> nat
    decreases es.len(),
{
    if es.len() == 0 {
        0
    } else {
        (if es[0].caller@ == account {
            1nat
        } else {
            0nat
        }) + count_authored(es.drop_first(), account)
    }
}

/// No account authors more extrinsics than a block holds. A caller can use
/// this to discharge the executor's nonce-overflow precondition from the
/// block length alone.
pub proof fn lemma_count_authored_le_len(es: Seq<Extrinsic>, account: Seq<char>)
    ensures
        count_authored(es, account) <= es.len(),
    decreases es.len(),
{
    if es.len() > 0 {
        lemma_count_authored_le_len(es.drop_first(), account);
    }
}

proof fn lemma_count_authored_push(es: Seq<Extrinsic>, e: Extrinsic, account: Seq<char>)
    ensures
        count_authored(es.push(e), account) == count_authored(es, account) + (
        if e.caller@ == account {
            1nat
        } else {
            0nat
        }),
    decreases es.len(),
{
    if es.len() == 0 {
        assert(es.push(e)[0] == e);
        assert(es.push(e).drop_first() =~= Seq::<Extrinsic>::empty());
        assert(count_authored(Seq::<Extrinsic>::empty(), account) == 0);
    } else {
        assert(es.push(e)[0] == es[0]);
        assert(es.push(e).drop_first() =~= es.drop_first().push(e));
        lemma_count_authored_push(es.drop_first(), e, account);
    }
}

proof fn lemma_count_authored_take_le(es: Seq<Extrinsic>, i: int, account: Seq<char>)
    requires
        0 <= i <= es.len(),
    ensures
        count_authored(es.take(i), account) <= count_authored(es, account),
    decreases es.len() - i,
{
    if i == es.len() {
        assert(es.take(i) =~= es);
    } else {
        assert(es.take(i + 1) =~= es.take(i).push(es[i]));
        lemma_count_authored_push(es.take(i), es[i], account);
        lemma_count_authored_take_le(es, i + 1, account);
    }
}

proof fn lemma_apply_extrinsics_push(s: RuntimeView, es: Seq<Extrinsic>, e: Extrinsic)
    ensures
        spec_apply_extrinsics(s, es.push(e)) == spec_apply_extrinsic(
            spec_apply_extrinsics(s, es),
            e,
        ),
    decreases es.len(),
{
    if es.len() == 0 {
        assert(es.push(e)[0] == e);
        assert(es.push(e).drop_first() =~= Seq::<Extrinsic>::empty());
        assert(spec_apply_extrinsics(spec_apply_extrinsic(s, e), Seq::<Extrinsic>::empty())
            == spec_apply_extrinsic(s, e));
    } else {
        assert(es.push(e)[0] == es[0]);
        assert(es.push(e).drop_first() =~= es.drop_first().push(e));
        lemma_apply_extrinsics_push(spec_apply_extrinsic(s, es[0]), es.drop_first(), e);
    }
}

/// The exclusive owner of one instance of each module. Each module's state
/// is private to that module and mutated only through its own methods; the
/// runtime forwards values, never internal maps.
pub struct Runtime {
    /// Block number and nonces.
    pub system: system::Pallet,
    /// The account ledger.
    pub balances: balances::Pallet,
    /// The claim registry.
    pub proof_of_existence: proof_of_existence::Pallet,
}

impl View for Runtime {
    type V = RuntimeView;

    open spec fn view(&self) -> RuntimeView {
        RuntimeView {
            block_number: self.system.spec_block_number(),
            ledger: self.balances.ledger(),
            claims: self.proof_of_existence.registry(),
            nonces: self.system.nonces(),
        }
    }
}

impl Runtime {
    /// The nonce of `account`: the stored entry, or zero.
    pub open spec fn nonce_of(&self, account: Seq<char>) -> u32 {
        system::spec_nonce_of(self@.nonces, account)
    }

    /// The balance of `account`: the stored entry, or zero.
    pub open spec fn balance_of(&self, account: Seq<char>) -> u128 {
        balances::spec_balance_of(self@.ledger, account)
    }

    /// Creates a runtime in its pre-genesis state: block number zero, an
    /// empty ledger, an empty claim registry, and every nonce zero.
    pub fn new() -> (r: Runtime)
        ensures
            r@.block_number == 0,
            r@.ledger == Map::<Seq<char>, u128>::empty(),
            r@.claims == Map::<Seq<char>, Seq<char>>::empty(),
            r@.nonces == Map::<Seq<char>, u32>::empty(),
    {
        Runtime {
            system: system::Pallet::new(),
            balances: balances::Pallet::new(),
            proof_of_existence: proof_of_existence::Pallet::new(),
        }
    }

    /// Routes `call` on behalf of `caller` to the owning module. Only that
    /// module's state can change; the block number and nonces never do —
    /// nonce tracking belongs to the executor, not to dispatch.
    pub fn dispatch(&mut self, caller: String, call: RuntimeCall) -> (r: DispatchResult)
        ensures
            ({
                let (ledger2, claims2, r2) = spec_dispatch(
                    old(self)@.ledger,
                    old(self)@.claims,
                    caller@,
                    call,
                );
                final(self)@ == (RuntimeView {
                    block_number: old(self)@.block_number,
                    ledger: ledger2,
                    claims: claims2,
                    nonces: old(self)@.nonces,
                }) && r == r2
            }),
    {
        match call {
            RuntimeCall::Balances(c) => self.balances.dispatch(caller, c),
            RuntimeCall::ProofOfExistence(c) => self.proof_of_existence.dispatch(caller, c),
        }
    }

    /// Executes one block. The block number advances by exactly one on
    /// every call, even when the block is rejected. A header that does not
    /// carry the expected next block number rejects the whole block before
    /// any extrinsic is applied. Otherwise every extrinsic is attempted in
    /// order: each bumps its caller's nonce whatever its outcome, and a
    /// failing extrinsic never aborts the block nor disturbs the ones
    /// before or after it.
    pub fn execute_block(&mut self, block: Block) -> (r: Result<(), BlockError>)
        requires
            old(self)@.block_number < u32::MAX,
            block.header.block_number == old(self)@.block_number + 1 ==> forall|a: Seq<char>|
                old(self).nonce_of(a) + #[trigger] count_authored(block.extrinsics@, a)
                    <= u32::MAX,
        ensures
            final(self)@.block_number == old(self)@.block_number + 1,
            r is Ok <==> block.header.block_number == old(self)@.block_number + 1,
            r is Err ==> r == Err::<(), BlockError>(BlockError::BlockNumberMismatch)
                && final(self)@.ledger == old(self)@.ledger
                && final(self)@.claims == old(self)@.claims
                && final(self)@.nonces == old(self)@.nonces,
            r is Ok ==> final(self)@ == spec_apply_extrinsics(
                (RuntimeView {
                    block_number: (old(self)@.block_number + 1) as u32,
                    ledger: old(self)@.ledger,
                    claims: old(self)@.claims,
                    nonces: old(self)@.nonces,
                }),
                block.extrinsics@,
            ),
            r is Ok ==> forall|a: Seq<char>|
                final(self).nonce_of(a) == old(self).nonce_of(a) + count_authored(
                    block.extrinsics@,
                    a,
                ),
    {
        self.system.inc_block_number();

        if block.header.block_number != self.system.block_number() {
            return Err(BlockError::BlockNumberMismatch);
        }

        let ghost start: RuntimeView = self@;

        proof {
            assert(start.nonces == old(self)@.nonces);
            assert forall|a: Seq<char>|
                system::spec_nonce_of(start.nonces, a) + #[trigger] count_authored(
                    block.extrinsics@,
                    a,
                ) <= u32::MAX by {
                assert(old(self).nonce_of(a) + count_authored(block.extrinsics@, a) <= u32::MAX);
            }
            assert(block.extrinsics@.take(0) =~= Seq::<Extrinsic>::empty());
        }

        let n: usize = block.extrinsics.len();
        let mut i: usize = 0;

        while i < n
            invariant
                n == block.extrinsics@.len(),
                i <= n,
                forall|a: Seq<char>|
                    system::spec_nonce_of(start.nonces, a) + #[trigger] count_authored(
                        block.extrinsics@,
                        a,
                    ) <= u32::MAX,
                self@.block_number == start.block_number,
                self@ == spec_apply_extrinsics(start, block.extrinsics@.take(i as int)),
                forall|a: Seq<char>|
                    self.nonce_of(a) == system::spec_nonce_of(start.nonces, a)
                        + #[trigger] count_authored(block.extrinsics@.take(i as int), a),
            decreases n - i,
        {
            let e = &block.extrinsics[i];
            let caller = e.caller.clone();

            proof {
                assert(block.extrinsics@.take(i + 1) =~= block.extrinsics@.take(i as int).push(
                    block.extrinsics@[i as int],
                ));
                lemma_count_authored_push(
                    block.extrinsics@.take(i as int),
                    block.extrinsics@[i as int],
                    caller@,
                );
                lemma_count_authored_take_le(block.extrinsics@, i + 1, caller@);
            }

            self.system.inc_nonce(&caller);
            // A failing extrinsic is non-fatal: its error is already
            // reflected in the unchanged module state, so execution simply
            // proceeds with the next extrinsic.
            let _res = self.dispatch(caller, e.call.clone());

            proof {
                lemma_apply_extrinsics_push(
                    start,
                    block.extrinsics@.take(i as int),
                    block.extrinsics@[i as int],
                );
                assert forall|a: Seq<char>|
                    self.nonce_of(a) == system::spec_nonce_of(start.nonces, a) + count_authored(
                        block.extrinsics@.take(i + 1),
                        a,
                    ) by {
                    lemma_count_authored_push(
                        block.extrinsics@.take(i as int),
                        block.extrinsics@[i as int],
                        a,
                    );
                }
            }

            i = i + 1;
        }

        proof {
            assert(block.extrinsics@.take(n as int) =~= block.extrinsics@);
        }

        Ok(())
    }
}

} // verus!
