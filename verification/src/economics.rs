//! The economic and timing parameters of a cluster: rent, fees, tick timing
//! and the epoch schedule.

use vstd::prelude::*;

verus! {

/// Lamports in one SOL.
pub const LAMPORTS_PER_SOL: u64 = 1_000_000_000;

/// Bytes that every account is charged for besides its data.
pub const ACCOUNT_STORAGE_OVERHEAD: u64 = 128;

/// Bytes of data in a vote account.
pub const VOTE_STATE_SIZE: usize = 3762;

/// Bytes of data in a stake account.
pub const STAKE_STATE_SIZE: usize = 200;

/// The fewest slots that an epoch can have.
pub const MINIMUM_SLOTS_PER_EPOCH: u64 = 32;

/// Whether a text denotes a number of years, as the rent exemption threshold
/// is read from text.
pub uninterp spec fn is_threshold(text: Seq<char>) -> bool;

/// The least balance that exempts an account with `data_len` bytes of data
/// from rent, at the given rate and exemption threshold.
pub uninterp spec fn minimum_balance(
    lamports_per_byte_year: u64,
    exemption_threshold: Seq<char>,
    data_len: nat,
) -> u64;

/// Whether the rent for `data_len` bytes at a rate can be computed in 64 bits.
pub open spec fn rent_fits(lamports_per_byte_year: u64, data_len: nat) -> bool {
    &&& ACCOUNT_STORAGE_OVERHEAD + data_len <= u64::MAX
    &&& (ACCOUNT_STORAGE_OVERHEAD + data_len) * lamports_per_byte_year <= u64::MAX
}

/// Calls `solana_rent::Rent::minimum_balance` on the rent with the given rate
/// and with the threshold that the text denotes. Trusted: it is `None`
/// exactly where the text denotes no number, and else a function of the three
/// values.
#[verifier::external_body]
#[allow(deprecated)]
pub(crate) fn compute_minimum_balance(
    lamports_per_byte_year: u64,
    exemption_threshold: &str,
    data_len: usize,
) -> (r: Option<u64>)
    requires
        rent_fits(lamports_per_byte_year, data_len as nat),
    ensures
        r is Some <==> is_threshold(exemption_threshold@),
        r matches Some(balance) ==> balance == minimum_balance(
            lamports_per_byte_year,
            exemption_threshold@,
            data_len as nat,
        ),
{
    let rent = solana_rent::Rent {
        lamports_per_byte_year,
        exemption_threshold: exemption_threshold.parse().ok()?,
        ..solana_rent::Rent::default()
    };
    Some(rent.minimum_balance(data_len))
}

/// The rent schedule. The exemption threshold, a number of years that may
/// have a fraction, is held as the decimal text it was given in.
#[derive(Debug)]
pub struct Rent {
    lamports_per_byte_year: u64,
    exemption_threshold: String,
    burn_percent: u8,
}

/// A rent schedule as a mathematical value.
pub struct RentView {
    pub lamports_per_byte_year: u64,
    pub exemption_threshold: Seq<char>,
    pub burn_percent: u8,
}

impl View for Rent {
    type V = RentView;

    closed spec fn view(&self) -> RentView {
        RentView {
            lamports_per_byte_year: self.lamports_per_byte_year,
            exemption_threshold: self.exemption_threshold@,
            burn_percent: self.burn_percent,
        }
    }
}

/// Whether a text starts with a minus sign.
pub open spec fn has_minus_sign(text: Seq<char>) -> bool {
    text.len() > 0 && text[0] == '-'
}

impl RentView {
    /// The threshold denotes a number without a minus sign, and the burn
    /// percentage is at most 100.
    pub open spec fn wf(self) -> bool {
        &&& is_threshold(self.exemption_threshold)
        &&& !has_minus_sign(self.exemption_threshold)
        &&& self.burn_percent <= 100
    }

    /// The least balance that exempts `data_len` bytes of data from rent.
    pub open spec fn minimum_balance(self, data_len: nat) -> u64 {
        minimum_balance(self.lamports_per_byte_year, self.exemption_threshold, data_len)
    }
}

impl Rent {
    #[verifier::type_invariant]
    spec fn valid(self) -> bool {
        self@.wf()
    }

    /// A rent schedule, where the threshold text denotes a number, has no
    /// minus sign, and the burn percentage is at most 100; else `None`.
    pub fn new(lamports_per_byte_year: u64, exemption_threshold: &str, burn_percent: u8) -> (r:
        Option<Rent>)
        ensures
            r is Some <==> (RentView {
                lamports_per_byte_year,
                exemption_threshold: exemption_threshold@,
                burn_percent,
            }).wf(),
            r matches Some(rent) ==> rent@ == (RentView {
                lamports_per_byte_year,
                exemption_threshold: exemption_threshold@,
                burn_percent,
            }),
    {
        if burn_percent > 100 {
            return None;
        }
        if exemption_threshold.unicode_len() > 0 && exemption_threshold.get_char(0) == '-' {
            return None;
        }
        match compute_minimum_balance(0, exemption_threshold, 0) {
            Some(_) => Some(
                Rent {
                    lamports_per_byte_year,
                    exemption_threshold: String::from_str(exemption_threshold),
                    burn_percent,
                },
            ),
            None => None,
        }
    }

    /// The default schedule: 3480 lamports per byte and year, a threshold of
    /// two years, half of the rent burned.
    pub fn default_schedule() -> (r: Rent)
        ensures
            r@ == default_rent_view(),
            r@.wf(),
    {
        default_rent()
    }

    pub fn lamports_per_byte_year(&self) -> (r: u64)
        ensures
            r == self@.lamports_per_byte_year,
    {
        self.lamports_per_byte_year
    }

    /// The exemption threshold, which always denotes a number and has no
    /// minus sign.
    pub fn exemption_threshold(&self) -> (r: &str)
        ensures
            r@ == self@.exemption_threshold,
            self@.wf(),
    {
        proof {
            use_type_invariant(self);
        }
        self.exemption_threshold.as_str()
    }

    /// The burn percentage, which is never above 100.
    pub fn burn_percent(&self) -> (r: u8)
        ensures
            r == self@.burn_percent,
            r <= 100,
    {
        proof {
            use_type_invariant(self);
        }
        self.burn_percent
    }

    /// A copy of the schedule.
    pub fn duplicate(&self) -> (r: Rent)
        ensures
            r@ == self@,
    {
        proof {
            use_type_invariant(self);
        }
        Rent {
            lamports_per_byte_year: self.lamports_per_byte_year,
            exemption_threshold: self.exemption_threshold.clone(),
            burn_percent: self.burn_percent,
        }
    }

    /// The least balance that exempts an account with `data_len` bytes of
    /// data from rent.
    pub fn minimum_balance(&self, data_len: usize) -> (r: u64)
        requires
            rent_fits(self@.lamports_per_byte_year, data_len as nat),
        ensures
            r == self@.minimum_balance(data_len as nat),
    {
        proof {
            use_type_invariant(self);
        }
        match compute_minimum_balance(
            self.lamports_per_byte_year,
            self.exemption_threshold.as_str(),
            data_len,
        ) {
            Some(balance) => balance,
            None => 0,
        }
    }
}

/// The default rent schedule as a mathematical value.
pub open spec fn default_rent_view() -> RentView {
    RentView { lamports_per_byte_year: 3480, exemption_threshold: "2"@, burn_percent: 50 }
}

/// Takes the default schedule from `solana_rent::Rent::default`, the
/// threshold written as text. Trusted: its three values, and that the text of
/// the threshold denotes a number.
#[verifier::external_body]
#[allow(deprecated)]
fn default_rent() -> (r: Rent)
    ensures
        r@ == default_rent_view(),
        r@.wf(),
{
    let outside = solana_rent::Rent::default();
    Rent {
        lamports_per_byte_year: outside.lamports_per_byte_year,
        exemption_threshold: outside.exemption_threshold.to_string(),
        burn_percent: outside.burn_percent,
    }
}

/// Calls `solana_vote_interface::state::VoteStateV3::get_rent_exempt_reserve`.
/// Trusted: it is the minimum balance for the data of a vote account.
#[verifier::external_body]
#[allow(deprecated)]
pub(crate) fn vote_rent_exempt_reserve(rent: &Rent) -> (r: u64)
    requires
        rent_fits(rent@.lamports_per_byte_year, VOTE_STATE_SIZE as nat),
    ensures
        r == rent@.minimum_balance(VOTE_STATE_SIZE as nat),
{
    let outside = solana_rent::Rent {
        lamports_per_byte_year: rent.lamports_per_byte_year,
        exemption_threshold: rent.exemption_threshold.parse().unwrap_or_default(),
        burn_percent: rent.burn_percent,
    };
    solana_vote_interface::state::VoteStateV3::get_rent_exempt_reserve(&outside)
}

/// Calls `solana_stake_interface::state::StakeStateV2::size_of`. Trusted: it
/// is 200.
#[verifier::external_body]
pub(crate) fn stake_state_size() -> (r: usize)
    ensures
        r == STAKE_STATE_SIZE,
{
    solana_stake_interface::state::StakeStateV2::size_of()
}

/// The fee schedule.
#[derive(Clone, Copy, Debug, PartialEq, Eq, Structural)]
pub struct FeeRateGovernor {
    /// The current cost of a signature.
    pub lamports_per_signature: u64,
    /// The cost of a signature when the cluster runs at its target load.
    pub target_lamports_per_signature: u64,
    /// The load, in signatures per slot, that the cluster aims at; 0 turns
    /// the adjustment of the cost off.
    pub target_signatures_per_slot: u64,
    pub min_lamports_per_signature: u64,
    pub max_lamports_per_signature: u64,
    /// The percentage of collected fees that is burned.
    pub burn_percent: u8,
}

/// Whether the fee bounds for a target cost can be computed in 64 bits.
pub open spec fn fee_fits(target_lamports_per_signature: u64, target_signatures_per_slot: u64)
    -> bool {
    target_signatures_per_slot > 0 ==> target_lamports_per_signature * 10 <= u64::MAX
}

/// The fee schedule that starts from a target cost and a target load, before
/// any slot has been seen. With adjustment on, the cost may range from half
/// the target (at least 1) to ten times the target, and it starts one step
/// of a twentieth of the target (at least 1) below the target, unless the
/// target is 0 or 1. With adjustment off, all three are the target.
pub open spec fn governed_fees(
    target_lamports_per_signature: u64,
    target_signatures_per_slot: u64,
) -> FeeRateGovernor {
    let target = target_lamports_per_signature;
    if target_signatures_per_slot == 0 {
        FeeRateGovernor {
            lamports_per_signature: target,
            target_lamports_per_signature: target,
            target_signatures_per_slot,
            min_lamports_per_signature: target,
            max_lamports_per_signature: target,
            burn_percent: 50,
        }
    } else {
        let step = if target / 20 >= 1 {
            target / 20
        } else {
            1
        };
        FeeRateGovernor {
            lamports_per_signature: if target <= 1 {
                target
            } else {
                (target - step) as u64
            },
            target_lamports_per_signature: target,
            target_signatures_per_slot,
            min_lamports_per_signature: if target / 2 >= 1 {
                target / 2
            } else {
                1
            },
            max_lamports_per_signature: (target * 10) as u64,
            burn_percent: 50,
        }
    }
}

/// The fee schedule before any choice is made.
pub open spec fn default_fees() -> FeeRateGovernor {
    FeeRateGovernor {
        lamports_per_signature: 0,
        target_lamports_per_signature: 10_000,
        target_signatures_per_slot: 20_000,
        min_lamports_per_signature: 0,
        max_lamports_per_signature: 0,
        burn_percent: 50,
    }
}

/// Calls `solana_fee_calculator::FeeRateGovernor::new`. Trusted: the six
/// values of the result, as `governed_fees` gives them.
#[verifier::external_body]
pub(crate) fn new_fee_rate_governor(
    target_lamports_per_signature: u64,
    target_signatures_per_slot: u64,
) -> (r: FeeRateGovernor)
    requires
        fee_fits(target_lamports_per_signature, target_signatures_per_slot),
    ensures
        r == governed_fees(target_lamports_per_signature, target_signatures_per_slot),
{
    let outside = solana_fee_calculator::FeeRateGovernor::new(
        target_lamports_per_signature,
        target_signatures_per_slot,
    );
    FeeRateGovernor {
        lamports_per_signature: outside.lamports_per_signature,
        target_lamports_per_signature: outside.target_lamports_per_signature,
        target_signatures_per_slot: outside.target_signatures_per_slot,
        min_lamports_per_signature: outside.min_lamports_per_signature,
        max_lamports_per_signature: outside.max_lamports_per_signature,
        burn_percent: outside.burn_percent,
    }
}

/// Takes the fee schedule of `solana_fee_calculator::FeeRateGovernor::default`.
/// Trusted: its six values.
#[verifier::external_body]
pub(crate) fn default_fee_rate_governor() -> (r: FeeRateGovernor)
    ensures
        r == default_fees(),
{
    let outside = solana_fee_calculator::FeeRateGovernor::default();
    FeeRateGovernor {
        lamports_per_signature: outside.lamports_per_signature,
        target_lamports_per_signature: outside.target_lamports_per_signature,
        target_signatures_per_slot: outside.target_signatures_per_slot,
        min_lamports_per_signature: outside.min_lamports_per_signature,
        max_lamports_per_signature: outside.max_lamports_per_signature,
        burn_percent: outside.burn_percent,
    }
}

/// A length of time: whole seconds and the nanoseconds beyond them.
#[derive(Clone, Copy, Debug, PartialEq, Eq, Structural)]
pub struct TickDuration {
    pub secs: u64,
    pub subsec_nanos: u32,
}

impl TickDuration {
    /// The nanoseconds are less than one second.
    pub open spec fn wf(self) -> bool {
        self.subsec_nanos < 1_000_000_000
    }

    /// The length in nanoseconds.
    pub open spec fn nanos(self) -> nat {
        (self.secs * 1_000_000_000 + self.subsec_nanos) as nat
    }

    /// The length of time of a number of microseconds.
    pub fn from_micros(micros: u64) -> (r: TickDuration)
        ensures
            r.wf(),
            r.nanos() == micros * 1000,
    {
        let rest: u64 = micros % 1_000_000;
        TickDuration { secs: micros / 1_000_000, subsec_nanos: (rest * 1000) as u32 }
    }
}

/// The tick duration of a cluster that nobody configured: 4.6875
/// milliseconds.
pub open spec fn default_tick() -> TickDuration {
    TickDuration { secs: 0, subsec_nanos: 4_687_500 }
}

/// Takes the tick duration of `solana_poh_config::PohConfig::default`.
/// Trusted: it is 4,687,500 nanoseconds.
#[verifier::external_body]
pub(crate) fn default_tick_duration() -> (r: TickDuration)
    ensures
        r == default_tick(),
{
    let outside = solana_poh_config::PohConfig::default().target_tick_duration;
    TickDuration { secs: outside.as_secs(), subsec_nanos: outside.subsec_nanos() }
}

/// The proof-of-history schedule.
#[derive(Clone, Copy, Debug, PartialEq, Eq, Structural)]
pub struct PohConfig {
    /// The time that one tick should take.
    pub target_tick_duration: TickDuration,
    /// The number of ticks to produce in all, where it is limited.
    pub target_tick_count: Option<u64>,
    /// The hashes to roll for one tick; `None` paces ticks by sleeping.
    pub hashes_per_tick: Option<u64>,
}

/// The epoch schedule.
#[derive(Clone, Copy, Debug, PartialEq, Eq, Structural)]
pub struct EpochSchedule {
    /// The most slots that an epoch has.
    pub slots_per_epoch: u64,
    /// How many slots before an epoch its leader schedule is computed.
    pub leader_schedule_slot_offset: u64,
    /// Whether epochs start short and grow.
    pub warmup: bool,
    /// The first epoch of full length.
    pub first_normal_epoch: u64,
    /// The first slot of that epoch.
    pub first_normal_slot: u64,
}

/// How many times `size` doubles until it reaches `slots`.
pub open spec fn doublings(size: nat, slots: nat) -> nat
    decreases
        (if slots > size {
            slots - size
        } else {
            0
        }),
{
    if size == 0 || size >= slots {
        0
    } else {
        1 + doublings(2 * size, slots)
    }
}

/// The first of `size`, `2 * size`, `4 * size`, ... that reaches `slots`.
pub open spec fn doubled_up(size: nat, slots: nat) -> nat
    decreases
        (if slots > size {
            slots - size
        } else {
            0
        }),
{
    if size == 0 || size >= slots {
        size
    } else {
        doubled_up(2 * size, slots)
    }
}

/// Whether the epoch schedule for a number of slots can be computed.
pub open spec fn schedule_fits(slots_per_epoch: u64, warmup: bool) -> bool {
    &&& slots_per_epoch >= MINIMUM_SLOTS_PER_EPOCH
    &&& warmup ==> slots_per_epoch <= 0x8000_0000_0000_0000
}

/// The epoch schedule for a number of slots per epoch. With warmup, epochs
/// start at the minimum length and double until they reach the number of
/// slots: the first epoch of full length is the number of doublings, and it
/// starts where the epochs before it end. Without warmup, every epoch has
/// full length.
pub open spec fn custom_schedule(
    slots_per_epoch: u64,
    leader_schedule_slot_offset: u64,
    warmup: bool,
) -> EpochSchedule {
    EpochSchedule {
        slots_per_epoch,
        leader_schedule_slot_offset,
        warmup,
        first_normal_epoch: if warmup {
            doublings(MINIMUM_SLOTS_PER_EPOCH as nat, slots_per_epoch as nat) as u64
        } else {
            0
        },
        first_normal_slot: if warmup {
            (doubled_up(MINIMUM_SLOTS_PER_EPOCH as nat, slots_per_epoch as nat)
                - MINIMUM_SLOTS_PER_EPOCH) as u64
        } else {
            0
        },
    }
}

/// Calls `solana_epoch_schedule::EpochSchedule::custom`. Trusted: the five
/// values of the result, as `custom_schedule` gives them.
#[verifier::external_body]
pub(crate) fn new_epoch_schedule(
    slots_per_epoch: u64,
    leader_schedule_slot_offset: u64,
    warmup: bool,
) -> (r: EpochSchedule)
    requires
        schedule_fits(slots_per_epoch, warmup),
    ensures
        r == custom_schedule(slots_per_epoch, leader_schedule_slot_offset, warmup),
{
    let outside = solana_epoch_schedule::EpochSchedule::custom(
        slots_per_epoch,
        leader_schedule_slot_offset,
        warmup,
    );
    EpochSchedule {
        slots_per_epoch: outside.slots_per_epoch,
        leader_schedule_slot_offset: outside.leader_schedule_slot_offset,
        warmup: outside.warmup,
        first_normal_epoch: outside.first_normal_epoch,
        first_normal_slot: outside.first_normal_slot,
    }
}

} // verus!
