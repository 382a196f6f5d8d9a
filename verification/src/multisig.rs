//! The guard before every administrative change: `min_signatures` of the
//! signers must sign the same instruction with the same parameters.

use crate::error::PerpetualsError;
use crate::keys::{find_key, first_position, key_position};
use vstd::prelude::*;

verus! {

/// Most signers that a guard can hold.
pub const MAX_SIGNERS: usize = 6;

#[derive(Copy, Clone, PartialEq, Eq, Debug, Structural)]
pub enum AdminInstruction {
    AddPool,
    RemovePool,
    AddCustody,
    RemoveCustody,
    SetAdminSigners,
    SetCustodyConfig,
    SetPermissions,
    SetBorrowRate,
    WithdrawFees,
    WithdrawSolFees,
    SetCustomOraclePrice,
    SetTestTime,
    UpgradeCustody,
}

/// What the signatures collected so far were given for.
#[derive(Copy, Clone, PartialEq, Eq, Debug, Structural)]
pub struct PendingInstruction {
    pub instruction: AdminInstruction,
    /// Hash of the instruction's parameters in their canonical encoding.
    pub params_hash: u64,
}

#[derive(Clone, PartialEq, Debug)]
pub struct Multisig {
    pub min_signatures: u8,
    pub signers: Vec<[u8; 32]>,
    pub pending: Option<PendingInstruction>,
    /// For each signer, whether it has signed the pending instruction.
    pub signed: Vec<bool>,
}

/// The guard as a state machine: idle without a pending instruction,
/// collecting with one.
pub struct GuardState {
    pub min_signatures: u8,
    pub pending: Option<PendingInstruction>,
    pub signed: Seq<bool>,
}

/// Number of signers that have signed.
pub open spec fn count_signed(signed: Seq<bool>) -> nat
    decreases signed.len(),
{
    if signed.len() == 0 {
        0
    } else {
        count_signed(signed.drop_last()) + if signed.last() {
            1nat
        } else {
            0nat
        }
    }
}

/// Nobody has signed.
pub open spec fn none_signed(n: nat) -> Seq<bool> {
    Seq::new(n, |i: int| false)
}

impl GuardState {
    pub open spec fn wf(self) -> bool {
        self.pending is None ==> self.signed == none_signed(self.signed.len())
    }

    /// The signatures that count for `request`: those collected, if they
    /// were given for it; none otherwise.
    pub open spec fn collected_for(self, request: PendingInstruction) -> Seq<bool> {
        if self.pending == Some(request) {
            self.signed
        } else {
            none_signed(self.signed.len())
        }
    }

    /// Signatures still missing once `signed` have been given.
    pub open spec fn missing(self, signed: Seq<bool>) -> int {
        if count_signed(signed) >= self.min_signatures {
            0
        } else {
            self.min_signatures - count_signed(signed)
        }
    }

    /// The state after signer number `signer` signs `request`, and the
    /// signatures still missing. When none is missing the guard is idle
    /// again.
    pub open spec fn sign(self, signer: int, request: PendingInstruction) -> (GuardState, int) {
        let signed = self.collected_for(request).update(signer, true);
        let left = self.missing(signed);
        if left == 0 {
            (
                GuardState {
                    min_signatures: self.min_signatures,
                    pending: None,
                    signed: none_signed(self.signed.len()),
                },
                0,
            )
        } else {
            (
                GuardState {
                    min_signatures: self.min_signatures,
                    pending: Some(request),
                    signed,
                },
                left,
            )
        }
    }

    /// The state after the signers numbered in `signers` sign `request` one
    /// after the other, and what the last of them is told is missing.
    pub open spec fn sign_each(self, signers: Seq<int>, request: PendingInstruction) -> (
        GuardState,
        int,
    )
        decreases signers.len(),
    {
        if signers.len() == 0 {
            (self, self.missing(self.collected_for(request)))
        } else {
            self.sign_each(signers.drop_last(), request).0.sign(signers.last(), request)
        }
    }
}

/// Nobody is counted where nobody has signed.
pub proof fn lemma_count_none(n: nat)
    ensures
        count_signed(none_signed(n)) == 0,
    decreases n,
{
    if n > 0 {
        assert(none_signed(n).drop_last() =~= none_signed((n - 1) as nat));
        lemma_count_none((n - 1) as nat);
    }
}

/// A signature counts once: one more where the signer had not signed, the
/// same where it had.
pub proof fn lemma_count_signature(signed: Seq<bool>, i: int)
    requires
        0 <= i < signed.len(),
    ensures
        count_signed(signed.update(i, true)) == count_signed(signed) + if signed[i] {
            0nat
        } else {
            1nat
        },
    decreases signed.len(),
{
    let after = signed.update(i, true);
    if i == signed.len() - 1 {
        assert(after.drop_last() =~= signed.drop_last());
    } else {
        assert(after.drop_last() =~= signed.drop_last().update(i, true));
        lemma_count_signature(signed.drop_last(), i);
    }
}

/// Signing the same instruction with the same parameters a second time
/// changes nothing, as long as the first signature left the guard
/// collecting.
pub proof fn lemma_signing_twice(state: GuardState, signer: int, request: PendingInstruction)
    requires
        0 <= signer < state.signed.len(),
        state.sign(signer, request).1 > 0,
    ensures
        state.sign(signer, request).0.sign(signer, request) == state.sign(signer, request),
{
    let first = state.sign(signer, request).0;
    let signed = state.collected_for(request).update(signer, true);
    assert(first.collected_for(request) == signed);
    assert(signed.update(signer, true) =~= signed);
}

/// A signature under other parameters, or for another instruction, starts
/// over: of the signatures collected before, none counts.
pub proof fn lemma_new_request_resets(state: GuardState, signer: int, request: PendingInstruction)
    requires
        0 <= signer < state.signed.len(),
        state.pending != Some(request),
    ensures
        forall|i: int|
            0 <= i < state.signed.len() && i != signer ==> !#[trigger] state.sign(
                signer,
                request,
            ).0.signed[i],
        state.sign(signer, request).1 == if state.min_signatures <= 1 {
            0
        } else {
            state.min_signatures - 1
        },
{
    let n = state.signed.len();
    lemma_count_none(n);
    lemma_count_signature(none_signed(n), signer);
}

/// While an instruction collects signatures, a signer that had not signed
/// lowers what is missing by one.
pub proof fn lemma_new_signature_counts(state: GuardState, signer: int, request: PendingInstruction)
    requires
        0 <= signer < state.signed.len(),
        state.pending == Some(request),
        !state.signed[signer],
        count_signed(state.signed) < state.min_signatures,
    ensures
        state.sign(signer, request).1 == state.min_signatures - count_signed(state.signed) - 1,
{
    lemma_count_signature(state.signed, signer);
}

/// What holds after the first `signers.len()` of a run of distinct signers
/// have signed a request that was not pending: as long as fewer than
/// `min_signatures` have signed, exactly they are marked.
proof fn lemma_collecting(state: GuardState, signers: Seq<int>, request: PendingInstruction)
    requires
        state.pending != Some(request),
        0 < signers.len() < state.min_signatures,
        forall|i: int| 0 <= i < signers.len() ==> 0 <= #[trigger] signers[i] < state.signed.len(),
        forall|i: int, j: int| 0 <= i < j < signers.len() ==> signers[i] != signers[j],
    ensures
        ({
            let after = state.sign_each(signers, request).0;
            &&& after.pending == Some(request)
            &&& after.min_signatures == state.min_signatures
            &&& after.signed.len() == state.signed.len()
            &&& count_signed(after.signed) == signers.len()
            &&& forall|t: int|
                0 <= t < after.signed.len() ==> (#[trigger] after.signed[t] <==> exists|i: int|
                    0 <= i < signers.len() && signers[i] == t)
        }),
    decreases signers.len(),
{
    let n = state.signed.len();
    let last = signers.last();
    let before = signers.drop_last();
    if before.len() == 0 {
        assert(state.sign_each(before, request).0 == state);
        lemma_count_none(n);
        lemma_count_signature(none_signed(n), last);
        let after = state.sign(last, request).0;
        assert forall|t: int| 0 <= t < after.signed.len() implies (#[trigger] after.signed[t]
            <==> exists|i: int| 0 <= i < signers.len() && signers[i] == t) by {
            if t == last {
                assert(signers[0] == t);
            }
        }
    } else {
        lemma_collecting(state, before, request);
        let mid = state.sign_each(before, request).0;
        assert(!mid.signed[last]) by {
            if mid.signed[last] {
                let i = choose|i: int| 0 <= i < before.len() && before[i] == last;
                assert(signers[i] == signers[signers.len() - 1]);
            }
        }
        lemma_count_signature(mid.signed, last);
        let after = mid.sign(last, request).0;
        assert forall|t: int| 0 <= t < after.signed.len() implies (#[trigger] after.signed[t]
            <==> exists|i: int| 0 <= i < signers.len() && signers[i] == t) by {
            if t == last {
                assert(signers[signers.len() - 1] == t);
            } else if mid.signed[t] {
                let i = choose|i: int| 0 <= i < before.len() && before[i] == t;
                assert(signers[i] == t);
            } else if exists|i: int| 0 <= i < signers.len() && signers[i] == t {
                let i = choose|i: int| 0 <= i < signers.len() && signers[i] == t;
                assert(before[i] == t);
            }
        }
    }
}

/// When `min_signatures` distinct signers have signed the same instruction
/// with the same parameters, the last of them is told that nothing is
/// missing, and the guard is idle again.
pub proof fn lemma_quorum_reached(state: GuardState, signers: Seq<int>, request: PendingInstruction)
    requires
        state.pending != Some(request),
        state.min_signatures >= 1,
        signers.len() == state.min_signatures,
        forall|i: int| 0 <= i < signers.len() ==> 0 <= #[trigger] signers[i] < state.signed.len(),
        forall|i: int, j: int| 0 <= i < j < signers.len() ==> signers[i] != signers[j],
    ensures
        state.sign_each(signers, request).1 == 0,
        state.sign_each(signers, request).0.pending is None,
{
    let n = state.signed.len();
    let last = signers.last();
    let before = signers.drop_last();
    if before.len() == 0 {
        assert(state.sign_each(before, request).0 == state);
        lemma_count_none(n);
        lemma_count_signature(none_signed(n), last);
    } else {
        lemma_collecting(state, before, request);
        let mid = state.sign_each(before, request).0;
        assert(!mid.signed[last]) by {
            if mid.signed[last] {
                let i = choose|i: int| 0 <= i < before.len() && before[i] == last;
                assert(signers[i] == signers[signers.len() - 1]);
            }
        }
        lemma_count_signature(mid.signed, last);
    }
}

/// Marks every signer as not having signed.
fn reset_signatures(signed: &mut Vec<bool>)
    ensures
        final(signed)@ == none_signed(old(signed)@.len()),
{
    let n = signed.len();
    let mut i: usize = 0;
    while i < n
        invariant
            i <= n,
            signed@.len() == n,
            forall|j: int| 0 <= j < i ==> !signed@[j],
        decreases n - i,
    {
        signed.set(i, false);
        i += 1;
    }
    assert(signed@ =~= none_signed(n as nat));
}

/// Counts the signers that have signed.
fn count_signatures(signed: &Vec<bool>) -> (r: usize)
    ensures
        r == count_signed(signed@),
{
    let mut count: usize = 0;
    let mut i: usize = 0;
    while i < signed.len()
        invariant
            i <= signed@.len(),
            count == count_signed(signed@.take(i as int)),
            count <= i,
        decreases signed@.len() - i,
    {
        proof {
            assert(signed@.take(i + 1).drop_last() =~= signed@.take(i as int));
        }
        if signed[i] {
            count += 1;
        }
        i += 1;
    }
    assert(signed@.take(signed@.len() as int) =~= signed@);
    count
}

impl Multisig {
    pub open spec fn view(&self) -> GuardState {
        GuardState {
            min_signatures: self.min_signatures,
            pending: self.pending,
            signed: self.signed@,
        }
    }

    /// Every signer has its mark, and an idle guard holds no signature.
    pub open spec fn wf(&self) -> bool {
        &&& self.signed@.len() == self.signers@.len()
        &&& self@.wf()
    }

    /// A guard over `signers` that asks for `min_signatures` of them: at
    /// least one and at most all, of at most `MAX_SIGNERS`.
    pub fn new(signers: Vec<[u8; 32]>, min_signatures: u8) -> (r: Result<Multisig, PerpetualsError>)
        ensures
            match r {
                Ok(m) => m.wf() && m.signers@ == signers@ && m.min_signatures == min_signatures
                    && m.pending is None && 1 <= min_signatures <= signers@.len() <= MAX_SIGNERS,
                Err(e) => e == PerpetualsError::InvalidArgument && !(1 <= min_signatures
                    <= signers@.len() <= MAX_SIGNERS),
            },
    {
        if min_signatures == 0 || min_signatures as usize > signers.len() || signers.len()
            > MAX_SIGNERS {
            return Err(PerpetualsError::InvalidArgument);
        }
        let mut signed: Vec<bool> = Vec::new();
        let mut i: usize = 0;
        while i < signers.len()
            invariant
                i <= signers@.len(),
                signed@.len() == i,
                forall|j: int| 0 <= j < i ==> !signed@[j],
            decreases signers@.len() - i,
        {
            signed.push(false);
            i += 1;
        }
        assert(signed@ =~= none_signed(signed@.len()));
        Ok(Multisig { min_signatures, signers, pending: None, signed })
    }

    /// Replaces the signers. Whatever was being collected is dropped: the
    /// guard is idle afterwards. On an error nothing changes.
    pub fn set_signers(&mut self, signers: Vec<[u8; 32]>, min_signatures: u8) -> (r: Result<
        (),
        PerpetualsError,
    >)
        ensures
            match r {
                Ok(_) => final(self).wf() && final(self).signers@ == signers@
                    && final(self).min_signatures == min_signatures
                    && final(self).pending is None,
                Err(e) => e == PerpetualsError::InvalidArgument && *final(self) == *old(self),
            },
            r is Ok <==> 1 <= min_signatures <= signers@.len() <= MAX_SIGNERS,
    {
        match Multisig::new(signers, min_signatures) {
            Ok(m) => {
                *self = m;
                Ok(())
            },
            Err(e) => Err(e),
        }
    }

    /// The first place of `signer` among the signers, if it is one.
    pub open spec fn find_signer_spec(&self, signer: [u8; 32]) -> Option<usize> {
        key_position(self.signers@, signer)
    }

    /// The first place of `signer` among the signers.
    pub fn find_signer(&self, signer: &[u8; 32]) -> (r: Option<usize>)
        ensures
            r == self.find_signer_spec(*signer),
            match r {
                Some(i) => first_position(self.signers@, *signer, i as int),
                None => forall|i: int| 0 <= i < self.signers@.len() ==> self.signers@[i]@ != signer@,
            },
    {
        find_key(&self.signers, signer)
    }

    /// Records the signature of `signer` under `instruction` with the
    /// parameters that hash to `params_hash`, and returns how many
    /// signatures are still missing. A key that is no signer is refused and
    /// changes nothing. Zero means that the caller may proceed; the guard is
    /// then idle again.
    pub fn sign_multisig(
        &mut self,
        signer: &[u8; 32],
        instruction: AdminInstruction,
        params_hash: u64,
    ) -> (r: Result<u8, PerpetualsError>)
        requires
            old(self).wf(),
        ensures
            final(self).wf(),
            final(self).signers@ == old(self).signers@,
            match old(self).find_signer_spec(*signer) {
                Some(i) => {
                    &&& first_position(old(self).signers@, *signer, i as int)
                    &&& r matches Ok(left) && (final(self)@, left as int) == old(self)@.sign(
                        i as int,
                        PendingInstruction { instruction, params_hash },
                    )
                },
                None => {
                    &&& r == Err::<u8, PerpetualsError>(PerpetualsError::UnauthorizedSigner)
                    &&& forall|i: int|
                        0 <= i < old(self).signers@.len() ==> old(self).signers@[i]@ != signer@
                    &&& *final(self) == *old(self)
                },
            },
    {
        let request = PendingInstruction { instruction, params_hash };
        let i = match self.find_signer(signer) {
            Some(i) => i,
            None => {
                return Err(PerpetualsError::UnauthorizedSigner);
            },
        };
        let same = match &self.pending {
            Some(p) => p.instruction == instruction && p.params_hash == params_hash,
            None => false,
        };
        if !same {
            reset_signatures(&mut self.signed);
        }
        self.signed.set(i, true);
        let count = count_signatures(&self.signed);
        let needed = self.min_signatures as usize;
        if count >= needed {
            self.pending = None;
            reset_signatures(&mut self.signed);
            Ok(0)
        } else {
            self.pending = Some(request);
            Ok((needed - count) as u8)
        }
    }
}

} // verus!
