//! The genesis configuration: its options with their defaults, the checks
//! across them, and the configuration that they build.

use crate::accounts::{
    fresh_account, has_key, insert_entries, key_at, lemma_insert_entries_domain,
    lemma_insert_entries_skips, lemma_insert_entries_value, Account, AccountMap, AccountView,
    EntryView,
};
use crate::bootstrap::{
    baseline_entries, grouped, identity_account, key_view, stake_account, stake_genesis_accounts,
    synthesize, synthesized, system_program_id, system_program_key, validator_entries,
    validator_in_place, validator_views, vote_account, BootstrapValidator,
};
use crate::decimal::{decimal_string, decimal_text, fault_text, parse_bounded, parse_unsigned, NumberFault};
use crate::economics::{
    custom_schedule, default_fee_rate_governor, default_fees, default_rent_view, default_tick,
    default_tick_duration, fee_fits, governed_fees, new_epoch_schedule, new_fee_rate_governor,
    rent_fits, schedule_fits, stake_state_size, vote_rent_exempt_reserve, EpochSchedule,
    FeeRateGovernor, PohConfig, Rent, RentView, TickDuration, LAMPORTS_PER_SOL, STAKE_STATE_SIZE,
    VOTE_STATE_SIZE,
};
use crate::keys::Pubkey;
use crate::text::text_is;
use vstd::prelude::*;

verus! {

/// Ticks in a slot, where nobody says otherwise.
pub const DEFAULT_TICKS_PER_SLOT: u64 = 64;

/// Hashes in a tick on every cluster but a development cluster.
pub const DEFAULT_HASHES_PER_TICK: u64 = 62_500;

/// Slots in an epoch of a development cluster.
pub const DEFAULT_DEV_SLOTS_PER_EPOCH: u64 = 8_192;

/// Slots in an epoch of every other cluster.
pub const DEFAULT_SLOTS_PER_EPOCH: u64 = 432_000;

/// The least balance of a bootstrap validator's identity by default: 500
/// SOL.
pub const DEFAULT_VALIDATOR_LAMPORTS_FLOOR: u64 = 500 * LAMPORTS_PER_SOL;

/// The least stake of a bootstrap validator by default: half a SOL.
pub const DEFAULT_STAKE_LAMPORTS_FLOOR: u64 = LAMPORTS_PER_SOL / 2;

/// Takes `solana_clock::DEFAULT_TICKS_PER_SLOT`. Trusted: it is 64.
#[verifier::external_body]
fn default_ticks_per_slot() -> (r: u64)
    ensures
        r == DEFAULT_TICKS_PER_SLOT,
{
    solana_clock::DEFAULT_TICKS_PER_SLOT
}

/// Takes `solana_clock::DEFAULT_HASHES_PER_TICK`. Trusted: it is 62,500.
#[verifier::external_body]
fn default_hashes_per_tick() -> (r: u64)
    ensures
        r == DEFAULT_HASHES_PER_TICK,
{
    solana_clock::DEFAULT_HASHES_PER_TICK
}

/// Takes `solana_clock::DEFAULT_DEV_SLOTS_PER_EPOCH`. Trusted: it is 8,192.
#[verifier::external_body]
fn default_dev_slots_per_epoch() -> (r: u64)
    ensures
        r == DEFAULT_DEV_SLOTS_PER_EPOCH,
{
    solana_clock::DEFAULT_DEV_SLOTS_PER_EPOCH
}

/// Takes `solana_clock::DEFAULT_SLOTS_PER_EPOCH`. Trusted: it is 432,000.
#[verifier::external_body]
fn default_slots_per_epoch() -> (r: u64)
    ensures
        r == DEFAULT_SLOTS_PER_EPOCH,
{
    solana_clock::DEFAULT_SLOTS_PER_EPOCH
}

/// Takes `solana_native_token::LAMPORTS_PER_SOL`. Trusted: it is one
/// billion.
#[verifier::external_body]
fn lamports_per_sol() -> (r: u64)
    ensures
        r == LAMPORTS_PER_SOL,
{
    solana_native_token::LAMPORTS_PER_SOL
}

/// The kind of cluster that a genesis configuration is for.
#[derive(Clone, Copy, Debug, PartialEq, Eq, Structural)]
pub enum ClusterType {
    Testnet,
    MainnetBeta,
    Devnet,
    Development,
}

/// The kind of cluster that a text names.
pub open spec fn cluster_type_of(text: Seq<char>) -> Option<ClusterType> {
    if text == "development"@ {
        Some(ClusterType::Development)
    } else if text == "devnet"@ {
        Some(ClusterType::Devnet)
    } else if text == "testnet"@ {
        Some(ClusterType::Testnet)
    } else if text == "mainnet-beta"@ {
        Some(ClusterType::MainnetBeta)
    } else {
        None
    }
}

/// Reads the kind of a cluster from its name.
pub fn parse_cluster_type(text: &str) -> (r: Option<ClusterType>)
    ensures
        r == cluster_type_of(text@),
{
    if text_is(text, "development") {
        Some(ClusterType::Development)
    } else if text_is(text, "devnet") {
        Some(ClusterType::Devnet)
    } else if text_is(text, "testnet") {
        Some(ClusterType::Testnet)
    } else if text_is(text, "mainnet-beta") {
        Some(ClusterType::MainnetBeta)
    } else {
        None
    }
}

/// The inflation curve that the operator selected.
#[derive(Clone, Copy, Debug, PartialEq, Eq, Structural)]
pub enum Inflation {
    Disabled,
    Full,
    Pico,
}

/// The inflation curve that a text names.
pub open spec fn inflation_of(text: Seq<char>) -> Option<Inflation> {
    if text == "pico"@ {
        Some(Inflation::Pico)
    } else if text == "full"@ {
        Some(Inflation::Full)
    } else if text == "none"@ {
        Some(Inflation::Disabled)
    } else {
        None
    }
}

/// Reads the selected inflation curve from its name.
pub fn parse_inflation(text: &str) -> (r: Option<Inflation>)
    ensures
        r == inflation_of(text@),
{
    if text_is(text, "pico") {
        Some(Inflation::Pico)
    } else if text_is(text, "full") {
        Some(Inflation::Full)
    } else if text_is(text, "none") {
        Some(Inflation::Disabled)
    } else {
        None
    }
}

/// Why a text is no count of hashes per tick.
#[derive(Clone, Copy, Debug, PartialEq, Eq, Structural)]
pub enum HashesFault {
    /// The text is no number of 64 bits.
    Number(NumberFault),
    /// The number is zero.
    Zero,
}

/// Why a genesis configuration cannot be built.
#[derive(Debug)]
pub enum BuildError {
    /// The keys of the bootstrap validators do not come in threes.
    InvalidTripleCount { count: usize },
    /// A key occurs twice among the keys of the bootstrap validators.
    DuplicatePubkey,
    /// The stake of a bootstrap validator does not exempt its stake account
    /// from rent.
    InsufficientStakeForRentExemption { provided: u64, required: u64 },
    /// The hashes per tick are neither `auto` nor `sleep` nor a positive
    /// number.
    InvalidHashesPerTick { input: String, fault: HashesFault },
}

/// A build error as a mathematical value.
pub enum BuildErrorView {
    InvalidTripleCount { count: usize },
    DuplicatePubkey,
    InsufficientStakeForRentExemption { provided: u64, required: u64 },
    InvalidHashesPerTick { input: Seq<char>, fault: HashesFault },
}

impl View for BuildError {
    type V = BuildErrorView;

    open spec fn view(&self) -> BuildErrorView {
        match self {
            BuildError::InvalidTripleCount { count } => BuildErrorView::InvalidTripleCount {
                count: *count,
            },
            BuildError::DuplicatePubkey => BuildErrorView::DuplicatePubkey,
            BuildError::InsufficientStakeForRentExemption { provided, required } =>
                BuildErrorView::InsufficientStakeForRentExemption {
                    provided: *provided,
                    required: *required,
                },
            BuildError::InvalidHashesPerTick { input, fault } =>
                BuildErrorView::InvalidHashesPerTick { input: input@, fault: *fault },
        }
    }
}

/// What is wrong with a count of hashes, in words.
pub open spec fn hashes_fault_text(fault: HashesFault) -> Seq<char> {
    match fault {
        HashesFault::Number(inner) => fault_text(inner),
        HashesFault::Zero => "number would be zero for non-zero type"@,
    }
}

impl BuildErrorView {
    /// The error in words.
    pub open spec fn message(self) -> Seq<char> {
        match self {
            BuildErrorView::InvalidTripleCount { count } =>
                "Error: --bootstrap-validator takes three pubkeys for each validator, provided: "@
                    + decimal_text(count as nat),
            BuildErrorView::DuplicatePubkey =>
                "Error: --bootstrap-validator pubkeys cannot be duplicated"@,
            BuildErrorView::InsufficientStakeForRentExemption { provided, required } =>
                "error: insufficient validator stake lamports: "@ + decimal_text(provided as nat)
                    + " for rent exemption, requires "@ + decimal_text(required as nat),
            BuildErrorView::InvalidHashesPerTick { input, fault } =>
                "Error: invalid value for --hashes-per-tick: "@ + input + ": "@
                    + hashes_fault_text(fault),
        }
    }
}

impl BuildError {
    /// The error in words.
    pub fn message(&self) -> (r: String)
        ensures
            r@ == self@.message(),
    {
        match self {
            BuildError::InvalidTripleCount { count } => {
                let mut text = String::from_str(
                    "Error: --bootstrap-validator takes three pubkeys for each validator, provided: ",
                );
                let number = decimal_string(*count as u64);
                text.append(number.as_str());
                text
            },
            BuildError::DuplicatePubkey => String::from_str(
                "Error: --bootstrap-validator pubkeys cannot be duplicated",
            ),
            BuildError::InsufficientStakeForRentExemption { provided, required } => {
                let mut text = String::from_str("error: insufficient validator stake lamports: ");
                let given = decimal_string(*provided);
                text.append(given.as_str());
                text.append(" for rent exemption, requires ");
                let needed = decimal_string(*required);
                text.append(needed.as_str());
                text
            },
            BuildError::InvalidHashesPerTick { input, fault } => {
                let mut text = String::from_str("Error: invalid value for --hashes-per-tick: ");
                text.append(input.as_str());
                text.append(": ");
                match fault {
                    HashesFault::Number(inner) => {
                        text.append(inner.describe());
                    },
                    HashesFault::Zero => {
                        text.append("number would be zero for non-zero type");
                    },
                }
                text
            },
        }
    }
}

/// The view of a result that may be a build error.
pub open spec fn build_view<T>(r: Result<T, BuildError>) -> Result<T, BuildErrorView> {
    match r {
        Ok(value) => Ok(value),
        Err(error) => Err(error@),
    }
}

/// What the rent exemption check gives: the stake must reach the minimum.
pub open spec fn rent_exemption(stake_lamports: u64, exempt: u64) -> Result<(), BuildErrorView> {
    if stake_lamports < exempt {
        Err(
            BuildErrorView::InsufficientStakeForRentExemption {
                provided: stake_lamports,
                required: exempt,
            },
        )
    } else {
        Ok(())
    }
}

/// Checks that a stake reaches the balance that exempts a stake account from
/// rent.
pub fn rent_exempt_check(stake_lamports: u64, exempt: u64) -> (r: Result<(), BuildError>)
    ensures
        build_view(r) == rent_exemption(stake_lamports, exempt),
{
    if stake_lamports < exempt {
        Err(
            BuildError::InsufficientStakeForRentExemption {
                provided: stake_lamports,
                required: exempt,
            },
        )
    } else {
        Ok(())
    }
}

/// The hashes per tick that a setting selects. `auto` takes half of the
/// measured throughput on a development cluster and the fixed count on every
/// other; `sleep` takes none; any other text must be a positive number.
pub open spec fn hashes_per_tick_of(setting: Seq<char>, cluster_type: ClusterType, measured: u64)
    -> Result<Option<u64>, BuildErrorView> {
    if setting == "auto"@ {
        match cluster_type {
            ClusterType::Development => Ok(Some(measured / 2)),
            _ => Ok(Some(DEFAULT_HASHES_PER_TICK)),
        }
    } else if setting == "sleep"@ {
        Ok(None)
    } else {
        match parse_unsigned(setting, u64::MAX as nat) {
            Err(fault) => Err(
                BuildErrorView::InvalidHashesPerTick {
                    input: setting,
                    fault: HashesFault::Number(fault),
                },
            ),
            Ok(count) => if count == 0 {
                Err(BuildErrorView::InvalidHashesPerTick { input: setting, fault: HashesFault::Zero })
            } else {
                Ok(Some(count as u64))
            },
        }
    }
}

/// Whether a setting asks for the throughput of this machine to be measured.
pub open spec fn needs_measurement(setting: Seq<char>, cluster_type: ClusterType) -> bool {
    setting == "auto"@ && cluster_type == ClusterType::Development
}

/// Whether the hashes per tick depend on a measurement of this machine, so
/// that one has to be made before the configuration is built.
pub fn hashes_need_measurement(setting: &str, cluster_type: ClusterType) -> (r: bool)
    ensures
        r == needs_measurement(setting@, cluster_type),
{
    text_is(setting, "auto") && cluster_type == ClusterType::Development
}

/// Resolves the hashes per tick from the setting, the kind of cluster and the
/// measured throughput, in hashes per tick.
pub fn resolve_hashes_per_tick(setting: &str, cluster_type: ClusterType, measured: u64) -> (r:
    Result<Option<u64>, BuildError>)
    ensures
        build_view(r) == hashes_per_tick_of(setting@, cluster_type, measured),
{
    if text_is(setting, "auto") {
        match cluster_type {
            ClusterType::Development => Ok(Some(measured / 2)),
            _ => Ok(Some(default_hashes_per_tick())),
        }
    } else if text_is(setting, "sleep") {
        Ok(None)
    } else {
        match parse_bounded(setting, u64::MAX) {
            Err(fault) => Err(
                BuildError::InvalidHashesPerTick {
                    input: String::from_str(setting),
                    fault: HashesFault::Number(fault),
                },
            ),
            Ok(count) => {
                if count == 0 {
                    Err(
                        BuildError::InvalidHashesPerTick {
                            input: String::from_str(setting),
                            fault: HashesFault::Zero,
                        },
                    )
                } else {
                    Ok(Some(count))
                }
            },
        }
    }
}

/// The slots per epoch: the given number, else the default of the kind of
/// cluster.
pub open spec fn slots_per_epoch_of(given: Option<u64>, cluster_type: ClusterType) -> u64 {
    match given {
        Some(slots) => slots,
        None => match cluster_type {
            ClusterType::Development => DEFAULT_DEV_SLOTS_PER_EPOCH,
            _ => DEFAULT_SLOTS_PER_EPOCH,
        },
    }
}

/// Resolves the slots per epoch.
pub fn resolve_slots_per_epoch(given: Option<u64>, cluster_type: ClusterType) -> (r: u64)
    ensures
        r == slots_per_epoch_of(given, cluster_type),
{
    match given {
        Some(slots) => slots,
        None => match cluster_type {
            ClusterType::Development => default_dev_slots_per_epoch(),
            _ => default_slots_per_epoch(),
        },
    }
}

/// The views of a list of keys.
pub open spec fn key_views(keys: Seq<Pubkey>) -> Seq<Seq<u8>> {
    Seq::new(keys.len(), |i: int| keys[i]@)
}

/// Whether a key occurs at two places of a list.
pub open spec fn has_duplicate(keys: Seq<Seq<u8>>) -> bool {
    exists|i: int, j: int| 0 <= i < j < keys.len() && #[trigger] keys[i] == #[trigger] keys[j]
}

/// Whether a key occurs twice in a list of keys.
pub fn has_duplicate_keys(keys: &Vec<Pubkey>) -> (r: bool)
    ensures
        r == has_duplicate(key_views(keys@)),
{
    let ghost views = key_views(keys@);
    let mut j: usize = 0;
    while j < keys.len()
        invariant
            j <= keys@.len(),
            views == key_views(keys@),
            forall|a: int, b: int| 0 <= a < b < j ==> #[trigger] views[a] != #[trigger] views[b],
        decreases keys@.len() - j,
    {
        let mut i: usize = 0;
        while i < j
            invariant
                i <= j,
                j < keys@.len(),
                views == key_views(keys@),
                forall|a: int| 0 <= a < i ==> #[trigger] views[a] != views[j as int],
            decreases j - i,
        {
            if keys[i].same(&keys[j]) {
                assert(views[i as int] == views[j as int]);
                return true;
            }
            i = i + 1;
        }
        j = j + 1;
    }
    false
}

/// Groups a flat list of keys into validators; the number of keys must be a
/// multiple of three.
pub fn group_validators(keys: &Vec<Pubkey>) -> (r: Result<Vec<BootstrapValidator>, BuildError>)
    ensures
        match r {
            Ok(validators) => keys@.len() % 3 == 0 && validator_views(validators@) == grouped(
                key_views(keys@),
            ),
            Err(error) => keys@.len() % 3 != 0 && error@ == (BuildErrorView::InvalidTripleCount {
                count: keys@.len() as usize,
            }),
        },
{
    let n: usize = keys.len();
    if n % 3 != 0 {
        return Err(BuildError::InvalidTripleCount { count: n });
    }
    let mut out: Vec<BootstrapValidator> = Vec::new();
    let mut i: usize = 0;
    while i < n / 3
        invariant
            n == keys@.len(),
            n % 3 == 0,
            i <= n / 3,
            out@.len() == i,
            forall|k: int|
                0 <= k < i ==> (#[trigger] out@[k])@ == grouped(key_views(keys@))[k],
        decreases n / 3 - i,
    {
        out.push(
            BootstrapValidator {
                identity: keys[3 * i],
                vote: keys[3 * i + 1],
                stake: keys[3 * i + 2],
            },
        );
        i = i + 1;
    }
    assert(validator_views(out@) =~= grouped(key_views(keys@)));
    Ok(out)
}

/// The options from which a genesis configuration is built.
#[derive(Debug)]
pub struct GenesisOptions {
    /// The keys of the bootstrap validators, three for each: identity, vote
    /// and stake.
    pub bootstrap_validators: Vec<Pubkey>,
    /// Who manages the stake of the bootstrap validators, where it is not
    /// each validator's identity.
    pub bootstrap_stake_authorized_pubkey: Option<Pubkey>,
    /// The balance of each validator's identity account.
    pub bootstrap_validator_lamports: u64,
    /// The balance of each validator's stake account.
    pub bootstrap_validator_stake_lamports: u64,
    pub faucet_pubkey: Option<Pubkey>,
    pub faucet_lamports: Option<u64>,
    pub target_lamports_per_signature: u64,
    pub target_signatures_per_slot: u64,
    pub fee_burn_percentage: u8,
    pub rent: Rent,
    pub vote_commission_percentage: u8,
    pub target_tick_duration: TickDuration,
    /// `auto`, `sleep`, or a positive number.
    pub hashes_per_tick: String,
    pub ticks_per_slot: u64,
    pub slots_per_epoch: Option<u64>,
    pub enable_warmup_epochs: bool,
    pub cluster_type: ClusterType,
    pub inflation: Option<Inflation>,
    /// The creation time in seconds since the Unix epoch, where it is not
    /// the time at which the configuration is built.
    pub creation_time: Option<i64>,
}

/// The options as a mathematical value.
pub struct GenesisOptionsView {
    pub bootstrap_validators: Seq<Seq<u8>>,
    pub bootstrap_stake_authorized_pubkey: Option<Seq<u8>>,
    pub bootstrap_validator_lamports: u64,
    pub bootstrap_validator_stake_lamports: u64,
    pub faucet_pubkey: Option<Seq<u8>>,
    pub faucet_lamports: Option<u64>,
    pub target_lamports_per_signature: u64,
    pub target_signatures_per_slot: u64,
    pub fee_burn_percentage: u8,
    pub rent: RentView,
    pub vote_commission_percentage: u8,
    pub target_tick_duration: TickDuration,
    pub hashes_per_tick: Seq<char>,
    pub ticks_per_slot: u64,
    pub slots_per_epoch: Option<u64>,
    pub enable_warmup_epochs: bool,
    pub cluster_type: ClusterType,
    pub inflation: Option<Inflation>,
    pub creation_time: Option<i64>,
}

/// The view of an optional key that is held by value.
pub open spec fn owned_key_view(key: Option<Pubkey>) -> Option<Seq<u8>> {
    match key {
        Some(k) => Some(k@),
        None => None,
    }
}

impl View for GenesisOptions {
    type V = GenesisOptionsView;

    open spec fn view(&self) -> GenesisOptionsView {
        GenesisOptionsView {
            bootstrap_validators: key_views(self.bootstrap_validators@),
            bootstrap_stake_authorized_pubkey: owned_key_view(
                self.bootstrap_stake_authorized_pubkey,
            ),
            bootstrap_validator_lamports: self.bootstrap_validator_lamports,
            bootstrap_validator_stake_lamports: self.bootstrap_validator_stake_lamports,
            faucet_pubkey: owned_key_view(self.faucet_pubkey),
            faucet_lamports: self.faucet_lamports,
            target_lamports_per_signature: self.target_lamports_per_signature,
            target_signatures_per_slot: self.target_signatures_per_slot,
            fee_burn_percentage: self.fee_burn_percentage,
            rent: self.rent@,
            vote_commission_percentage: self.vote_commission_percentage,
            target_tick_duration: self.target_tick_duration,
            hashes_per_tick: self.hashes_per_tick@,
            ticks_per_slot: self.ticks_per_slot,
            slots_per_epoch: self.slots_per_epoch,
            enable_warmup_epochs: self.enable_warmup_epochs,
            cluster_type: self.cluster_type,
            inflation: self.inflation,
            creation_time: self.creation_time,
        }
    }
}

/// The larger of two numbers.
pub open spec fn larger(a: u64, b: u64) -> u64 {
    if a >= b {
        a
    } else {
        b
    }
}

/// The options of an operator who chose nothing but the validators. The
/// defaults are taken in this order: fees, rent, the balance of a validator
/// (500 SOL, or the rent-exempt reserve of a vote account under the default
/// rent where that is more), the stake of a validator (half a SOL, or the
/// rent-exempt minimum of a stake account where that is more), tick
/// duration, ticks per slot.
pub open spec fn default_options(bootstrap_validators: Seq<Seq<u8>>) -> GenesisOptionsView {
    GenesisOptionsView {
        bootstrap_validators,
        bootstrap_stake_authorized_pubkey: None,
        bootstrap_validator_lamports: larger(
            DEFAULT_VALIDATOR_LAMPORTS_FLOOR,
            default_rent_view().minimum_balance(VOTE_STATE_SIZE as nat),
        ),
        bootstrap_validator_stake_lamports: larger(
            DEFAULT_STAKE_LAMPORTS_FLOOR,
            default_rent_view().minimum_balance(STAKE_STATE_SIZE as nat),
        ),
        faucet_pubkey: None,
        faucet_lamports: None,
        target_lamports_per_signature: default_fees().target_lamports_per_signature,
        target_signatures_per_slot: default_fees().target_signatures_per_slot,
        fee_burn_percentage: default_fees().burn_percent,
        rent: default_rent_view(),
        vote_commission_percentage: 100,
        target_tick_duration: default_tick(),
        hashes_per_tick: "auto"@,
        ticks_per_slot: DEFAULT_TICKS_PER_SLOT,
        slots_per_epoch: None,
        enable_warmup_epochs: false,
        cluster_type: ClusterType::MainnetBeta,
        inflation: None,
        creation_time: None,
    }
}

impl GenesisOptionsView {
    /// The slots per epoch that the options come to.
    pub open spec fn resolved_slots_per_epoch(self) -> u64 {
        slots_per_epoch_of(self.slots_per_epoch, self.cluster_type)
    }

    /// The fee bounds, the rent of a vote account and the epoch schedule can
    /// be computed in 64 bits, and an epoch has at least 32 slots.
    pub open spec fn within_limits(self) -> bool {
        &&& fee_fits(self.target_lamports_per_signature, self.target_signatures_per_slot)
        &&& rent_fits(self.rent.lamports_per_byte_year, VOTE_STATE_SIZE as nat)
        &&& schedule_fits(self.resolved_slots_per_epoch(), self.enable_warmup_epochs)
    }
}

impl GenesisOptions {
    /// The options with every value at its default, for the given keys of
    /// the bootstrap validators.
    pub fn with_defaults(bootstrap_validators: Vec<Pubkey>) -> (r: GenesisOptions)
        ensures
            r@ == default_options(key_views(bootstrap_validators@)),
            r@.within_limits(),
    {
        let fees: FeeRateGovernor = default_fee_rate_governor();
        let rent: Rent = Rent::default_schedule();
        assert(rent_fits(3480, VOTE_STATE_SIZE as nat));
        assert(rent_fits(3480, STAKE_STATE_SIZE as nat));
        let vote_reserve: u64 = vote_rent_exempt_reserve(&rent);
        let validator_floor: u64 = 500 * lamports_per_sol();
        let validator_lamports: u64 = if validator_floor >= vote_reserve {
            validator_floor
        } else {
            vote_reserve
        };
        let stake_minimum: u64 = rent.minimum_balance(stake_state_size());
        let stake_floor: u64 = lamports_per_sol() / 2;
        let stake_lamports: u64 = if stake_floor >= stake_minimum {
            stake_floor
        } else {
            stake_minimum
        };
        GenesisOptions {
            bootstrap_validators,
            bootstrap_stake_authorized_pubkey: None,
            bootstrap_validator_lamports: validator_lamports,
            bootstrap_validator_stake_lamports: stake_lamports,
            faucet_pubkey: None,
            faucet_lamports: None,
            target_lamports_per_signature: fees.target_lamports_per_signature,
            target_signatures_per_slot: fees.target_signatures_per_slot,
            fee_burn_percentage: fees.burn_percent,
            rent,
            vote_commission_percentage: 100,
            target_tick_duration: default_tick_duration(),
            hashes_per_tick: String::from_str("auto"),
            ticks_per_slot: default_ticks_per_slot(),
            slots_per_epoch: None,
            enable_warmup_epochs: false,
            cluster_type: ClusterType::MainnetBeta,
            inflation: None,
            creation_time: None,
        }
    }

    /// Whether the options are within the limits of 64-bit arithmetic and of
    /// the epoch schedule.
    pub fn check_limits(&self) -> (r: bool)
        ensures
            r == self@.within_limits(),
    {
        let fees_fit: bool = self.target_signatures_per_slot == 0
            || self.target_lamports_per_signature <= u64::MAX / 10;
        let rate: u64 = self.rent.lamports_per_byte_year();
        let rent_fits_vote: bool = rate <= u64::MAX / 3890;
        let slots: u64 = resolve_slots_per_epoch(self.slots_per_epoch, self.cluster_type);
        let schedule_fits_slots: bool = slots >= 32 && (!self.enable_warmup_epochs || slots
            <= 0x8000_0000_0000_0000);
        assert(rent_fits_vote == rent_fits(rate, VOTE_STATE_SIZE as nat)) by {
            assert((128 + 3762) * rate <= u64::MAX <==> rate <= u64::MAX / 3890) by (nonlinear_arith)
                requires
                    0 <= rate,
            ;
        }
        fees_fit && rent_fits_vote && schedule_fits_slots
    }
}

/// A genesis configuration: the initial state of a cluster.
#[derive(Debug)]
pub struct GenesisConfig {
    /// When the cluster starts, in seconds since the Unix epoch.
    pub creation_time: i64,
    /// The initial accounts.
    pub accounts: AccountMap,
    /// The built-in programs, by name and key.
    pub native_instruction_processors: Vec<(String, Pubkey)>,
    pub ticks_per_slot: u64,
    pub poh_config: PohConfig,
    pub fee_rate_governor: FeeRateGovernor,
    pub rent: Rent,
    /// The selected inflation curve; `None` leaves the curve at its default.
    pub inflation: Option<Inflation>,
    pub epoch_schedule: EpochSchedule,
    pub cluster_type: ClusterType,
}

/// A genesis configuration as a mathematical value.
pub struct GenesisConfigView {
    pub creation_time: i64,
    pub accounts: Map<Seq<u8>, AccountView>,
    pub native_instruction_processors: Seq<(Seq<char>, Seq<u8>)>,
    pub ticks_per_slot: u64,
    pub poh_config: PohConfig,
    pub fee_rate_governor: FeeRateGovernor,
    pub rent: RentView,
    pub inflation: Option<Inflation>,
    pub epoch_schedule: EpochSchedule,
    pub cluster_type: ClusterType,
}

impl View for GenesisConfig {
    type V = GenesisConfigView;

    open spec fn view(&self) -> GenesisConfigView {
        GenesisConfigView {
            creation_time: self.creation_time,
            accounts: self.accounts@,
            native_instruction_processors: Seq::new(
                self.native_instruction_processors@.len(),
                |i: int|
                    (
                        self.native_instruction_processors@[i].0@,
                        self.native_instruction_processors@[i].1@,
                    ),
            ),
            ticks_per_slot: self.ticks_per_slot,
            poh_config: self.poh_config,
            fee_rate_governor: self.fee_rate_governor,
            rent: self.rent@,
            inflation: self.inflation,
            epoch_schedule: self.epoch_schedule,
            cluster_type: self.cluster_type,
        }
    }
}

impl GenesisConfig {
    /// The accounts are held in ascending key order, so no key occurs twice.
    pub open spec fn wf(&self) -> bool {
        self.accounts.wf()
    }

    /// The lamports issued at genesis: the sum of the balances of all
    /// accounts, or `None` where the sum does not fit in 64 bits.
    pub fn issued_lamports(&self) -> (r: Option<u64>)
        ensures
            match r {
                Some(sum) => sum == crate::accounts::total_lamports(self.accounts.entries()),
                None => crate::accounts::total_lamports(self.accounts.entries()) > u64::MAX,
            },
    {
        self.accounts.issued_lamports()
    }
}

/// Adds the accounts of the bootstrap validators to a genesis configuration,
/// once the stake is known to exempt a stake account from rent. Where it
/// does not, nothing is added.
pub fn add_validator_accounts(
    genesis_config: &mut GenesisConfig,
    validators: &Vec<BootstrapValidator>,
    lamports: u64,
    stake_lamports: u64,
    commission: u8,
    rent: &Rent,
    authorized_pubkey: Option<&Pubkey>,
) -> (r: Result<(), BuildError>)
    requires
        old(genesis_config).wf(),
        rent_fits(rent@.lamports_per_byte_year, VOTE_STATE_SIZE as nat),
    ensures
        final(genesis_config).wf(),
        build_view(r) == rent_exemption(
            stake_lamports,
            rent@.minimum_balance(STAKE_STATE_SIZE as nat),
        ),
        final(genesis_config)@ == (GenesisConfigView {
            accounts: final(genesis_config)@.accounts,
            ..old(genesis_config)@
        }),
        final(genesis_config)@.accounts == if r is Ok {
            insert_entries(
                old(genesis_config)@.accounts,
                synthesized(
                    validator_views(validators@),
                    lamports,
                    stake_lamports,
                    commission,
                    rent@,
                    key_view(authorized_pubkey),
                ),
            )
        } else {
            old(genesis_config)@.accounts
        },
{
    assert(rent_fits(rent@.lamports_per_byte_year, STAKE_STATE_SIZE as nat)) by {
        let rate = rent@.lamports_per_byte_year;
        assert((128 + 200) * rate <= (128 + 3762) * rate) by (nonlinear_arith)
            requires
                0 <= rate,
        ;
    }
    let exempt: u64 = rent.minimum_balance(stake_state_size());
    match rent_exempt_check(stake_lamports, exempt) {
        Err(error) => Err(error),
        Ok(()) => {
            let entries = synthesize(
                validators,
                lamports,
                stake_lamports,
                commission,
                rent,
                authorized_pubkey,
            );
            genesis_config.accounts.insert_all(&entries);
            Ok(())
        },
    }
}

/// The accounts with the faucet's account among them, where the faucet has
/// both a key and a balance.
pub open spec fn with_faucet(
    accounts: Map<Seq<u8>, AccountView>,
    faucet_pubkey: Option<Seq<u8>>,
    faucet_lamports: Option<u64>,
) -> Map<Seq<u8>, AccountView> {
    match (faucet_pubkey, faucet_lamports) {
        (Some(key), Some(lamports)) => accounts.insert(
            key,
            fresh_account(lamports, 0, system_program_key()),
        ),
        _ => accounts,
    }
}

/// The accounts of the configuration that options build: those of the
/// bootstrap validators, then the faucet's, then those that the stake
/// program adds to every cluster.
pub open spec fn built_accounts(options: GenesisOptionsView) -> Map<Seq<u8>, AccountView> {
    insert_entries(
        with_faucet(
            insert_entries(Map::<Seq<u8>, AccountView>::empty(), validator_accounts(options)),
            options.faucet_pubkey,
            options.faucet_lamports,
        ),
        baseline_entries(options.rent.lamports_per_byte_year, options.rent.exemption_threshold),
    )
}

/// The configuration that options build at `current_time`, on a machine
/// whose measured throughput is `measured` hashes per tick. The checks come
/// in this order: the keys come in threes, no key occurs twice, the stake
/// exempts a stake account from rent, the hashes per tick can be read.
pub open spec fn built(options: GenesisOptionsView, current_time: i64, measured: u64) -> Result<
    GenesisConfigView,
    BuildErrorView,
> {
    let keys = options.bootstrap_validators;
    let exempt = options.rent.minimum_balance(STAKE_STATE_SIZE as nat);
    if keys.len() % 3 != 0 {
        Err(BuildErrorView::InvalidTripleCount { count: keys.len() as usize })
    } else if has_duplicate(keys) {
        Err(BuildErrorView::DuplicatePubkey)
    } else if options.bootstrap_validator_stake_lamports < exempt {
        Err(
            BuildErrorView::InsufficientStakeForRentExemption {
                provided: options.bootstrap_validator_stake_lamports,
                required: exempt,
            },
        )
    } else {
        match hashes_per_tick_of(options.hashes_per_tick, options.cluster_type, measured) {
            Err(error) => Err(error),
            Ok(hashes_per_tick) => Ok(
                GenesisConfigView {
                    creation_time: match options.creation_time {
                        Some(seconds) => seconds,
                        None => current_time,
                    },
                    accounts: built_accounts(options),
                    native_instruction_processors: Seq::empty(),
                    ticks_per_slot: options.ticks_per_slot,
                    poh_config: PohConfig {
                        target_tick_duration: options.target_tick_duration,
                        target_tick_count: None,
                        hashes_per_tick,
                    },
                    fee_rate_governor: FeeRateGovernor {
                        burn_percent: options.fee_burn_percentage,
                        ..governed_fees(
                            options.target_lamports_per_signature,
                            options.target_signatures_per_slot,
                        )
                    },
                    rent: options.rent,
                    inflation: options.inflation,
                    epoch_schedule: custom_schedule(
                        options.resolved_slots_per_epoch(),
                        options.resolved_slots_per_epoch(),
                        options.enable_warmup_epochs,
                    ),
                    cluster_type: options.cluster_type,
                },
            ),
        }
    }
}

/// The view of the result of a build.
pub open spec fn built_view(r: Result<GenesisConfig, BuildError>) -> Result<
    GenesisConfigView,
    BuildErrorView,
> {
    match r {
        Ok(config) => Ok(config@),
        Err(error) => Err(error@),
    }
}

/// Builds the genesis configuration from the options. `current_time` is the
/// creation time where the options give none; `measured_hashes_per_tick` is
/// the throughput of this machine, which counts only where
/// `hashes_need_measurement` says so.
pub fn build(options: &GenesisOptions, current_time: i64, measured_hashes_per_tick: u64) -> (r:
    Result<GenesisConfig, BuildError>)
    requires
        options@.within_limits(),
    ensures
        built_view(r) == built(options@, current_time, measured_hashes_per_tick),
        r matches Ok(config) ==> config.wf(),
{
    let validators = match group_validators(&options.bootstrap_validators) {
        Ok(validators) => validators,
        Err(error) => {
            return Err(error);
        },
    };
    if has_duplicate_keys(&options.bootstrap_validators) {
        return Err(BuildError::DuplicatePubkey);
    }
    let mut fee_rate_governor: FeeRateGovernor = new_fee_rate_governor(
        options.target_lamports_per_signature,
        options.target_signatures_per_slot,
    );
    fee_rate_governor.burn_percent = options.fee_burn_percentage;
    let slots_per_epoch: u64 = resolve_slots_per_epoch(options.slots_per_epoch, options.cluster_type);
    let epoch_schedule: EpochSchedule = new_epoch_schedule(
        slots_per_epoch,
        slots_per_epoch,
        options.enable_warmup_epochs,
    );
    let mut genesis_config = GenesisConfig {
        creation_time: current_time,
        accounts: AccountMap::new(),
        native_instruction_processors: Vec::new(),
        ticks_per_slot: options.ticks_per_slot,
        poh_config: PohConfig {
            target_tick_duration: options.target_tick_duration,
            target_tick_count: None,
            hashes_per_tick: None,
        },
        fee_rate_governor,
        rent: options.rent.duplicate(),
        inflation: options.inflation,
        epoch_schedule,
        cluster_type: options.cluster_type,
    };
    let authorized: Option<&Pubkey> = match &options.bootstrap_stake_authorized_pubkey {
        Some(key) => Some(key),
        None => None,
    };
    match add_validator_accounts(
        &mut genesis_config,
        &validators,
        options.bootstrap_validator_lamports,
        options.bootstrap_validator_stake_lamports,
        options.vote_commission_percentage,
        &options.rent,
        authorized,
    ) {
        Ok(()) => {},
        Err(error) => {
            return Err(error);
        },
    }
    match resolve_hashes_per_tick(
        options.hashes_per_tick.as_str(),
        options.cluster_type,
        measured_hashes_per_tick,
    ) {
        Ok(hashes_per_tick) => {
            genesis_config.poh_config.hashes_per_tick = hashes_per_tick;
        },
        Err(error) => {
            return Err(error);
        },
    }
    match options.creation_time {
        Some(seconds) => {
            genesis_config.creation_time = seconds;
        },
        None => {},
    }
    match (&options.faucet_pubkey, options.faucet_lamports) {
        (Some(key), Some(lamports)) => {
            let system: Pubkey = system_program_id();
            genesis_config.accounts.insert(*key, Account::new(lamports, 0, &system));
        },
        _ => {},
    }
    let baseline = stake_genesis_accounts(&options.rent);
    genesis_config.accounts.insert_all(&baseline);
    proof {
        assert(genesis_config@.native_instruction_processors =~= Seq::empty());
    }
    Ok(genesis_config)
}

/// A stake one lamport short of the minimum is refused, and the error names
/// both amounts; a stake of exactly the minimum is accepted.
pub proof fn lemma_rent_exemption_boundary(required: u64)
    requires
        required > 0,
    ensures
        rent_exemption((required - 1) as u64, required) == Err::<(), BuildErrorView>(
            BuildErrorView::InsufficientStakeForRentExemption {
                provided: (required - 1) as u64,
                required,
            },
        ),
        rent_exemption(required, required) == Ok::<(), BuildErrorView>(()),
{
}

/// On a development cluster `auto` takes exactly half of the measured
/// throughput; on every other cluster it takes the fixed count, whatever was
/// measured.
pub proof fn lemma_auto_hashes(cluster_type: ClusterType, measured: u64)
    ensures
        hashes_per_tick_of("auto"@, cluster_type, measured) == Ok::<Option<u64>, BuildErrorView>(
            Some(
                if cluster_type == ClusterType::Development {
                    measured / 2
                } else {
                    DEFAULT_HASHES_PER_TICK
                },
            ),
        ),
{
}

/// `sleep` takes no hash count on any cluster.
pub proof fn lemma_sleep_hashes(cluster_type: ClusterType, measured: u64)
    ensures
        hashes_per_tick_of("sleep"@, cluster_type, measured) == Ok::<Option<u64>, BuildErrorView>(
            None,
        ),
{
    reveal_strlit("auto");
    reveal_strlit("sleep");
    assert("sleep"@[0] != "auto"@[0]);
}

/// A positive number written in decimal takes exactly that count on any
/// cluster.
pub proof fn lemma_literal_hashes(count: u64, cluster_type: ClusterType, measured: u64)
    requires
        count > 0,
    ensures
        hashes_per_tick_of(decimal_text(count as nat), cluster_type, measured) == Ok::<
            Option<u64>,
            BuildErrorView,
        >(Some(count)),
{
    let text = decimal_text(count as nat);
    crate::decimal::lemma_decimal_text_value(count as nat);
    crate::decimal::lemma_parse_decimal_text(count as nat, u64::MAX as nat);
    reveal_strlit("auto");
    reveal_strlit("sleep");
    assert(crate::decimal::is_digit(text[0]));
    assert(!crate::decimal::is_digit("auto"@[0]));
    assert(!crate::decimal::is_digit("sleep"@[0]));
}

/// A configuration is built only from keys that come in threes without a
/// key occurring twice, and from a stake that exempts a stake account from
/// rent.
pub proof fn lemma_built_means_checked(options: GenesisOptionsView, current_time: i64, measured: u64)
    requires
        built(options, current_time, measured) is Ok,
    ensures
        options.bootstrap_validators.len() % 3 == 0,
        !has_duplicate(options.bootstrap_validators),
        options.bootstrap_validator_stake_lamports >= options.rent.minimum_balance(
            STAKE_STATE_SIZE as nat,
        ),
        hashes_per_tick_of(options.hashes_per_tick, options.cluster_type, measured) is Ok,
{
}

/// A key that occurs twice among the keys of the bootstrap validators, in
/// one triple or in two, is refused as a duplicate once the keys come in
/// threes.
pub proof fn lemma_duplicate_is_refused(
    options: GenesisOptionsView,
    current_time: i64,
    measured: u64,
    i: int,
    j: int,
)
    requires
        options.bootstrap_validators.len() % 3 == 0,
        0 <= i < j < options.bootstrap_validators.len(),
        options.bootstrap_validators[i] == options.bootstrap_validators[j],
    ensures
        built(options, current_time, measured) == Err::<GenesisConfigView, BuildErrorView>(
            BuildErrorView::DuplicatePubkey,
        ),
{
}

/// Whether the account that the validators gave a key is still the one
/// under that key in the built configuration: the key is neither the
/// faucet's nor one of those that the stake program adds.
pub open spec fn undisturbed(options: GenesisOptionsView, key: Seq<u8>) -> bool {
    &&& !(options.faucet_pubkey == Some(key) && options.faucet_lamports is Some)
    &&& !has_key(
        baseline_entries(options.rent.lamports_per_byte_year, options.rent.exemption_threshold),
        key,
    )
}

/// The accounts of the validators that options name.
pub open spec fn validator_accounts(options: GenesisOptionsView) -> Seq<EntryView> {
    synthesized(
        grouped(options.bootstrap_validators),
        options.bootstrap_validator_lamports,
        options.bootstrap_validator_stake_lamports,
        options.vote_commission_percentage,
        options.rent,
        options.bootstrap_stake_authorized_pubkey,
    )
}

/// Where no key occurs twice among the keys of the validators, no key
/// occurs twice among their accounts.
proof fn lemma_validator_accounts_distinct(options: GenesisOptionsView, a: int, b: int)
    requires
        !has_duplicate(options.bootstrap_validators),
        0 <= a < b < validator_accounts(options).len(),
    ensures
        key_at(validator_accounts(options), a) != key_at(validator_accounts(options), b),
{
    let keys = options.bootstrap_validators;
    let entries = validator_accounts(options);
    crate::bootstrap::lemma_synthesized_for_keys(
        keys,
        options.bootstrap_validator_lamports,
        options.bootstrap_validator_stake_lamports,
        options.vote_commission_percentage,
        options.rent,
        options.bootstrap_stake_authorized_pubkey,
    );
    let qa = a / 3;
    let qb = b / 3;
    assert(validator_in_place(entries, keys, qa));
    assert(validator_in_place(entries, keys, qb));
    let pa = if a % 3 == 0 {
        3 * qa
    } else if a % 3 == 1 {
        3 * qa + 2
    } else {
        3 * qa + 1
    };
    let pb = if b % 3 == 0 {
        3 * qb
    } else if b % 3 == 1 {
        3 * qb + 2
    } else {
        3 * qb + 1
    };
    assert(key_at(entries, a) == keys[pa]);
    assert(key_at(entries, b) == keys[pb]);
    assert(pa != pb);
    if pa < pb {
        assert(keys[pa] != keys[pb]);
    } else {
        assert(keys[pb] != keys[pa]);
    }
}

/// What a key holds after the validators' accounts, the faucet's account
/// and the accounts of the stake program were put in, given what it held
/// after the first of the three.
proof fn lemma_later_accounts(options: GenesisOptionsView, key: Seq<u8>)
    requires
        insert_entries(Map::<Seq<u8>, AccountView>::empty(), validator_accounts(options)).contains_key(
            key,
        ),
    ensures
        built_accounts(options).contains_key(key),
        undisturbed(options, key) ==> built_accounts(options)[key] == insert_entries(
            Map::<Seq<u8>, AccountView>::empty(),
            validator_accounts(options),
        )[key],
{
    let first = insert_entries(Map::<Seq<u8>, AccountView>::empty(), validator_accounts(options));
    let second = with_faucet(first, options.faucet_pubkey, options.faucet_lamports);
    let baseline = baseline_entries(
        options.rent.lamports_per_byte_year,
        options.rent.exemption_threshold,
    );
    assert(second.contains_key(key));
    lemma_insert_entries_domain(second, baseline, key);
    if undisturbed(options, key) {
        assert(second[key] == first[key]);
        lemma_insert_entries_skips(second, baseline, key);
    }
}

/// A built configuration holds an account under each key of each validator.
/// Unless the faucet or the stake program put another account under the
/// key, it is the identity's account with the configured balance, the vote
/// account, or the stake account with the configured stake.
pub proof fn lemma_built_validator_accounts(
    options: GenesisOptionsView,
    current_time: i64,
    measured: u64,
    i: int,
)
    requires
        built(options, current_time, measured) is Ok,
        0 <= i < options.bootstrap_validators.len() / 3,
    ensures
        ({
            let validator = grouped(options.bootstrap_validators)[i];
            let accounts = built_accounts(options);
            &&& accounts.contains_key(validator.identity)
            &&& accounts.contains_key(validator.vote)
            &&& accounts.contains_key(validator.stake)
            &&& undisturbed(options, validator.identity) ==> accounts[validator.identity]
                == identity_account(options.bootstrap_validator_lamports)
            &&& undisturbed(options, validator.vote) ==> accounts[validator.vote] == vote_account(
                validator.identity,
                options.vote_commission_percentage,
                options.rent,
            )
            &&& undisturbed(options, validator.stake) ==> accounts[validator.stake]
                == stake_account(
                validator,
                options.bootstrap_validator_stake_lamports,
                options.vote_commission_percentage,
                options.rent,
                options.bootstrap_stake_authorized_pubkey,
            )
        }),
{
    let keys = options.bootstrap_validators;
    let validators = grouped(keys);
    let validator = validators[i];
    let entries = validator_accounts(options);
    let empty = Map::<Seq<u8>, AccountView>::empty();
    crate::bootstrap::lemma_synthesized_layout(
        validators,
        options.bootstrap_validator_lamports,
        options.bootstrap_validator_stake_lamports,
        options.vote_commission_percentage,
        options.rent,
        options.bootstrap_stake_authorized_pubkey,
    );
    let own = validator_entries(
        validator,
        options.bootstrap_validator_lamports,
        options.bootstrap_validator_stake_lamports,
        options.vote_commission_percentage,
        options.rent,
        options.bootstrap_stake_authorized_pubkey,
    );
    assert(entries[3 * i + 0] == own[0]);
    assert(entries[3 * i + 1] == own[1]);
    assert(entries[3 * i + 2] == own[2]);
    assert forall|at: int, j: int| 3 * i <= at <= 3 * i + 2 && at < j < entries.len() implies key_at(
        entries,
        j,
    ) != key_at(entries, at) by {
        lemma_validator_accounts_distinct(options, at, j);
    }
    lemma_insert_entries_value(empty, entries, 3 * i);
    lemma_insert_entries_value(empty, entries, 3 * i + 1);
    lemma_insert_entries_value(empty, entries, 3 * i + 2);
    lemma_later_accounts(options, validator.identity);
    lemma_later_accounts(options, validator.stake);
    lemma_later_accounts(options, validator.vote);
}

} // verus!
