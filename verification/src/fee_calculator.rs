//! Calculation of transaction fees: the fixed per-transaction fee, the fee
//! rate governor that carries it from slot to slot, and the burn split of
//! collected fees.

use vstd::prelude::*;

use crate::message::Instruction;
use crate::message::Message;

verus! {

/// The fixed fee, in lamports, charged for every transaction.
pub const CONSTANT_TRANSACTION_FEE_LAMPORTS: u64 = 10_000;

/// The target cost of a signature; pinned to the fixed transaction fee.
pub const DEFAULT_TARGET_LAMPORTS_PER_SIGNATURE: u64 = CONSTANT_TRANSACTION_FEE_LAMPORTS;

/// The default throughput target; zero disables dynamic fee adjustment.
pub const DEFAULT_TARGET_SIGNATURES_PER_SLOT: u64 = 0;

/// The default share of collected fees that is burned, in parts of 100.
pub const DEFAULT_BURN_PERCENT: u8 = 0;

/// A snapshot of the currently effective fee: the cost, in lamports, of one
/// required transaction signature.
#[derive(Clone, Copy, Debug, PartialEq, Eq, Structural)]
pub struct FeeCalculator {
    pub lamports_per_signature: u64,
}

impl Default for FeeCalculator {
    /// A zero fee.
    fn default() -> (r: Self)
        ensures
            r.lamports_per_signature == 0,
    {
        FeeCalculator { lamports_per_signature: 0 }
    }
}

impl FeeCalculator {
    /// Stores the given per-signature fee verbatim.
    pub fn new(lamports_per_signature: u64) -> (r: Self)
        ensures
            r.lamports_per_signature == lamports_per_signature,
    {
        FeeCalculator { lamports_per_signature }
    }

    /// The fee owed for a message. Fixed-fee mode: every transaction is
    /// charged the global constant fee, whatever the message holds.
    pub fn calculate_fee(&self, message: &Message) -> (r: u64)
        ensures
            r == DEFAULT_TARGET_LAMPORTS_PER_SIGNATURE,
    {
        let _ = message;
        DEFAULT_TARGET_LAMPORTS_PER_SIGNATURE
    }

    /// The historical per-message fee computation, kept as a clearly
    /// separated legacy path and slated for removal; `calculate_fee` is the
    /// current contract. The fee is the per-signature rate times the number
    /// of signatures the message is charged for.
    pub fn calculate_fee_legacy(&self, message: &Message) -> (r: u64)
        requires
            self.lamports_per_signature * spec_message_signature_count(*message) <= u64::MAX,
        ensures
            r == self.lamports_per_signature * spec_message_signature_count(*message),
    {
        let n = count_signatures(message);
        proof {
            if self.lamports_per_signature >= 1 {
                assert(spec_message_signature_count(*message)
                    <= self.lamports_per_signature * spec_message_signature_count(*message))
                    by (nonlinear_arith)
                    requires
                        self.lamports_per_signature >= 1,
                ;
            }
            assert(self.lamports_per_signature * n
                <= self.lamports_per_signature * spec_message_signature_count(*message))
                by (nonlinear_arith)
                requires
                    n <= spec_message_signature_count(*message),
                    self.lamports_per_signature >= 0,
            ;
        }
        self.lamports_per_signature * n
    }
}

/// The per-signature fee contribution of one instruction under the legacy
/// per-message fee path: a signature-verification precompile instruction
/// contributes the count carried in its leading data byte (a leading zero
/// being a bypass indicator), every other instruction contributes nothing.
pub open spec fn spec_instruction_signature_contribution(inst: Instruction) -> nat {
    if inst.program_id.spec_is_signature_precompile() && inst.data@.len() > 0 {
        inst.data@[0] as nat
    } else {
        0nat
    }
}

/// The signatures that the signature-verification precompile instructions of
/// a message claim to verify, summed.
pub open spec fn spec_precompile_signature_count(insts: Seq<Instruction>) -> nat
    decreases insts.len(),
{
    if insts.len() == 0 {
        0nat
    } else {
        spec_precompile_signature_count(insts.drop_last())
            + spec_instruction_signature_contribution(insts.last())
    }
}

/// The number of signatures a message is charged for under the legacy path:
/// the signatures it requires plus those its signature-verification
/// precompile instructions claim to verify.
pub open spec fn spec_message_signature_count(msg: Message) -> nat {
    msg.num_required_signatures as nat + spec_precompile_signature_count(msg.instructions@)
}

/// A count clipped to the largest representable value.
spec fn saturate_u64(x: nat) -> u64 {
    if x > u64::MAX {
        u64::MAX
    } else {
        x as u64
    }
}

/// Counts the signatures a message is charged for under the legacy path,
/// saturating at `u64::MAX`.
fn count_signatures(message: &Message) -> (n: u64)
    ensures
        n == saturate_u64(spec_message_signature_count(*message)),
        n <= spec_message_signature_count(*message),
{
    let mut n: u64 = message.num_required_signatures as u64;
    let mut i: usize = 0;
    while i < message.instructions.len()
        invariant
            i <= message.instructions@.len(),
            n == saturate_u64(
                message.num_required_signatures as nat
                    + spec_precompile_signature_count(message.instructions@.take(i as int)),
            ),
        decreases message.instructions@.len() - i,
    {
        let inst = &message.instructions[i];
        let c: u64 = if inst.program_id.is_signature_precompile() && inst.data.len() > 0 {
            inst.data[0] as u64
        } else {
            0
        };
        proof {
            let taken = message.instructions@.take(i + 1);
            assert(taken.drop_last() =~= message.instructions@.take(i as int));
            assert(taken.last() == message.instructions@[i as int]);
            assert(c == spec_instruction_signature_contribution(message.instructions@[i as int]));
        }
        n = if n <= u64::MAX - c {
            n + c
        } else {
            u64::MAX
        };
        i = i + 1;
    }
    proof {
        assert(message.instructions@.take(message.instructions@.len() as int)
            =~= message.instructions@);
    }
    n
}

/// The authoritative fee-rate state of a slot context: the current fee, the
/// target fee and throughput, the bounds on the fee, and the share of
/// collected fees to burn.
#[derive(Clone, Debug, PartialEq, Eq, Structural)]
pub struct FeeRateGovernor {
    /// The current cost of a signature, in lamports.
    pub lamports_per_signature: u64,
    /// The cost of a signature aimed at when the cluster runs at the target
    /// throughput.
    pub target_lamports_per_signature: u64,
    /// The desired processing capacity, in signatures per slot; zero disables
    /// dynamic fee adjustment.
    pub target_signatures_per_slot: u64,
    pub min_lamports_per_signature: u64,
    pub max_lamports_per_signature: u64,
    /// The portion of collected fees to destroy, in parts of 100.
    pub burn_percent: u8,
}

/// The governor that every derivation yields under the fixed-fee policy:
/// each fee field is the global constant, dynamic adjustment is disabled,
/// and the burn percentage is carried over from the base governor.
pub open spec fn spec_derived(base: FeeRateGovernor) -> FeeRateGovernor {
    FeeRateGovernor {
        lamports_per_signature: CONSTANT_TRANSACTION_FEE_LAMPORTS,
        target_lamports_per_signature: CONSTANT_TRANSACTION_FEE_LAMPORTS,
        target_signatures_per_slot: 0,
        min_lamports_per_signature: CONSTANT_TRANSACTION_FEE_LAMPORTS,
        max_lamports_per_signature: CONSTANT_TRANSACTION_FEE_LAMPORTS,
        burn_percent: base.burn_percent,
    }
}

/// The burned part of a fee total: the truncating integer fraction
/// `fees * burn_percent / 100`.
pub open spec fn spec_burned(fees: u64, burn_percent: u8) -> int {
    fees * burn_percent / 100
}

impl Default for FeeRateGovernor {
    /// Every fee field is the global constant fee, dynamic adjustment is
    /// disabled, and nothing is burned.
    fn default() -> (r: Self)
        ensures
            r.lamports_per_signature == CONSTANT_TRANSACTION_FEE_LAMPORTS,
            r.target_lamports_per_signature == CONSTANT_TRANSACTION_FEE_LAMPORTS,
            r.target_signatures_per_slot == 0,
            r.min_lamports_per_signature == CONSTANT_TRANSACTION_FEE_LAMPORTS,
            r.max_lamports_per_signature == CONSTANT_TRANSACTION_FEE_LAMPORTS,
            r.burn_percent == DEFAULT_BURN_PERCENT,
    {
        FeeRateGovernor {
            lamports_per_signature: CONSTANT_TRANSACTION_FEE_LAMPORTS,
            target_lamports_per_signature: CONSTANT_TRANSACTION_FEE_LAMPORTS,
            target_signatures_per_slot: 0,
            min_lamports_per_signature: CONSTANT_TRANSACTION_FEE_LAMPORTS,
            max_lamports_per_signature: CONSTANT_TRANSACTION_FEE_LAMPORTS,
            burn_percent: DEFAULT_BURN_PERCENT,
        }
    }
}

impl FeeRateGovernor {
    /// Seeds a governor. Under the fixed-fee policy the two arguments are
    /// accepted for interface compatibility but ignored: the result equals
    /// deriving from the default governor with zero observed throughput.
    pub fn new(target_lamports_per_signature: u64, target_signatures_per_slot: u64) -> (r: Self)
        ensures
            r.lamports_per_signature == CONSTANT_TRANSACTION_FEE_LAMPORTS,
            r.target_lamports_per_signature == CONSTANT_TRANSACTION_FEE_LAMPORTS,
            r.target_signatures_per_slot == 0,
            r.min_lamports_per_signature == CONSTANT_TRANSACTION_FEE_LAMPORTS,
            r.max_lamports_per_signature == CONSTANT_TRANSACTION_FEE_LAMPORTS,
            r.burn_percent == DEFAULT_BURN_PERCENT,
    {
        let _ = target_lamports_per_signature;
        let _ = target_signatures_per_slot;
        let base = FeeRateGovernor {
            lamports_per_signature: CONSTANT_TRANSACTION_FEE_LAMPORTS,
            target_lamports_per_signature: CONSTANT_TRANSACTION_FEE_LAMPORTS,
            target_signatures_per_slot: 0,
            min_lamports_per_signature: CONSTANT_TRANSACTION_FEE_LAMPORTS,
            max_lamports_per_signature: CONSTANT_TRANSACTION_FEE_LAMPORTS,
            burn_percent: DEFAULT_BURN_PERCENT,
        };
        Self::new_derived(&base, 0)
    }

    /// Derives the successor governor from a prior one and the signature
    /// count observed in the latest slot. Under the fixed-fee policy every
    /// fee field of the successor is the global constant, dynamic adjustment
    /// stays disabled, and the observation is discarded; only the burn
    /// percentage is carried over.
    pub fn new_derived(
        base_fee_rate_governor: &FeeRateGovernor,
        latest_signatures_per_slot: u64,
    ) -> (r: Self)
        ensures
            r == spec_derived(*base_fee_rate_governor),
            r.lamports_per_signature == CONSTANT_TRANSACTION_FEE_LAMPORTS,
            r.target_lamports_per_signature == CONSTANT_TRANSACTION_FEE_LAMPORTS,
            r.target_signatures_per_slot == 0,
            r.min_lamports_per_signature == CONSTANT_TRANSACTION_FEE_LAMPORTS,
            r.max_lamports_per_signature == CONSTANT_TRANSACTION_FEE_LAMPORTS,
            r.burn_percent == base_fee_rate_governor.burn_percent,
    {
        let _ = latest_signatures_per_slot;
        FeeRateGovernor {
            lamports_per_signature: CONSTANT_TRANSACTION_FEE_LAMPORTS,
            target_lamports_per_signature: CONSTANT_TRANSACTION_FEE_LAMPORTS,
            target_signatures_per_slot: 0,
            min_lamports_per_signature: CONSTANT_TRANSACTION_FEE_LAMPORTS,
            max_lamports_per_signature: CONSTANT_TRANSACTION_FEE_LAMPORTS,
            burn_percent: base_fee_rate_governor.burn_percent,
        }
    }

    /// A copy of this governor with only `lamports_per_signature` overridden.
    pub fn clone_with_lamports_per_signature(&self, lamports_per_signature: u64) -> (r: Self)
        ensures
            r.lamports_per_signature == lamports_per_signature,
            r.target_lamports_per_signature == self.target_lamports_per_signature,
            r.target_signatures_per_slot == self.target_signatures_per_slot,
            r.min_lamports_per_signature == self.min_lamports_per_signature,
            r.max_lamports_per_signature == self.max_lamports_per_signature,
            r.burn_percent == self.burn_percent,
    {
        FeeRateGovernor {
            lamports_per_signature,
            target_lamports_per_signature: self.target_lamports_per_signature,
            target_signatures_per_slot: self.target_signatures_per_slot,
            min_lamports_per_signature: self.min_lamports_per_signature,
            max_lamports_per_signature: self.max_lamports_per_signature,
            burn_percent: self.burn_percent,
        }
    }

    /// Splits a fee total into the retained and the destroyed part, returned
    /// as `(unburned, burned)`: `burned` is the truncating fraction
    /// `fees * burn_percent / 100`, and the two parts always add back up to
    /// the whole fee total.
    pub fn burn(&self, fees: u64) -> (r: (u64, u64))
        requires
            self.burn_percent <= 100,
            fees * self.burn_percent <= u64::MAX,
        ensures
            r.1 == spec_burned(fees, self.burn_percent),
            r.0 == fees - spec_burned(fees, self.burn_percent),
            r.0 + r.1 == fees,
    {
        proof {
            lemma_burned_le_fees(fees, self.burn_percent);
        }
        let burned: u64 = fees * (self.burn_percent as u64) / 100;
        (fees - burned, burned)
    }

    /// Snapshots the current `lamports_per_signature` into a fee calculator.
    pub fn create_fee_calculator(&self) -> (r: FeeCalculator)
        ensures
            r.lamports_per_signature == self.lamports_per_signature,
    {
        FeeCalculator::new(self.lamports_per_signature)
    }
}

/// The burned part never exceeds the fee total while the burn percentage is
/// at most one hundred.
pub proof fn lemma_burned_le_fees(fees: u64, burn_percent: u8)
    requires
        burn_percent <= 100,
    ensures
        0 <= spec_burned(fees, burn_percent) <= fees,
{
    assert(0 <= fees * burn_percent / 100 <= fees) by (nonlinear_arith)
        requires
            burn_percent <= 100,
            fees >= 0,
    ;
}

/// A burn percentage of zero burns nothing; a burn percentage of one hundred
/// burns the whole fee total.
pub proof fn lemma_burn_extremes(fees: u64)
    ensures
        spec_burned(fees, 0) == 0,
        spec_burned(fees, 100) == fees,
{
    assert(fees * 100 / 100 == fees) by (nonlinear_arith);
    assert(fees * 0 / 100 == 0) by (nonlinear_arith);
}

/// Deriving a successor governor is idempotent and independent of the
/// observed throughput: one derivation pins every field that a further
/// derivation would write.
pub proof fn lemma_derivation_idempotent(g: FeeRateGovernor)
    ensures
        spec_derived(spec_derived(g)) == spec_derived(g),
{
}

} // verus!
