//! The accounts of the bootstrap validators: for each validator an identity
//! account, a stake account and a vote account.

use crate::accounts::{entry_views, fresh_account, Account, AccountView, EntryView};
use crate::economics::{
    minimum_balance, rent_fits, vote_rent_exempt_reserve, Rent, RentView, STAKE_STATE_SIZE,
    VOTE_STATE_SIZE,
};
use crate::keys::Pubkey;
use solana_account::ReadableAccount;
use vstd::prelude::*;

verus! {

/// The three keys of one bootstrap validator.
#[derive(Clone, Copy, Debug)]
pub struct BootstrapValidator {
    pub identity: Pubkey,
    pub vote: Pubkey,
    pub stake: Pubkey,
}

/// A bootstrap validator as a mathematical value.
pub struct ValidatorView {
    pub identity: Seq<u8>,
    pub vote: Seq<u8>,
    pub stake: Seq<u8>,
}

impl View for BootstrapValidator {
    type V = ValidatorView;

    open spec fn view(&self) -> ValidatorView {
        ValidatorView { identity: self.identity@, vote: self.vote@, stake: self.stake@ }
    }
}

/// The key of the system program: 32 zero bytes.
pub open spec fn system_program_key() -> Seq<u8> {
    Seq::new(32, |i: int| 0u8)
}

/// The key of the vote program.
pub open spec fn vote_program_key() -> Seq<u8> {
    seq![
        7u8, 97, 72, 29, 53, 116, 116, 187, 124, 77, 118, 36, 235, 211, 189, 179, 216, 53, 94, 115,
        209, 16, 67, 252, 13, 163, 83, 128, 0, 0, 0, 0,
    ]
}

/// The key of the stake program.
pub open spec fn stake_program_key() -> Seq<u8> {
    seq![
        6u8, 161, 216, 23, 145, 55, 84, 42, 152, 52, 55, 189, 254, 42, 122, 178, 85, 127, 83, 92,
        138, 120, 114, 43, 104, 164, 157, 192, 0, 0, 0, 0,
    ]
}

/// The data of a fresh vote account with the given node, authorities and
/// commission.
pub uninterp spec fn vote_state_data(
    node: Seq<u8>,
    voter: Seq<u8>,
    withdrawer: Seq<u8>,
    commission: u8,
) -> Seq<u8>;

/// Whether bytes can be read as the state of a vote account.
pub uninterp spec fn is_vote_state(data: Seq<u8>) -> bool;

/// The data of a stake account of `lamports` that is delegated to the vote
/// account with the given key and data, under the given rent.
pub uninterp spec fn stake_state_data(
    authorized: Seq<u8>,
    vote_key: Seq<u8>,
    vote_data: Seq<u8>,
    lamports_per_byte_year: u64,
    exemption_threshold: Seq<char>,
    lamports: u64,
) -> Seq<u8>;

/// The accounts that the stake program adds to every genesis configuration
/// under the given rent, in ascending key order.
pub uninterp spec fn baseline_entries(
    lamports_per_byte_year: u64,
    exemption_threshold: Seq<char>,
) -> Seq<EntryView>;

/// Takes the key of `solana_sdk_ids::system_program::id`. Trusted: it is 32
/// zero bytes.
#[verifier::external_body]
pub(crate) fn system_program_id() -> (r: Pubkey)
    ensures
        r@ == system_program_key(),
{
    Pubkey::new(solana_sdk_ids::system_program::id().to_bytes())
}

/// Calls `solana_vote_program::vote_state::create_account_with_authorized`.
/// Trusted: the account holds the given balance, belongs to the vote
/// program, is no program, has rent epoch 0, and its data is the state of a
/// vote account, 3762 bytes that depend on the four other arguments alone.
#[verifier::external_body]
pub(crate) fn create_vote_account(
    node: &Pubkey,
    voter: &Pubkey,
    withdrawer: &Pubkey,
    commission: u8,
    lamports: u64,
) -> (r: Account)
    ensures
        r@.data == vote_state_data(node@, voter@, withdrawer@, commission),
        r@.data.len() == VOTE_STATE_SIZE,
        is_vote_state(r@.data),
        r@.lamports == lamports,
        r@.owner == vote_program_key(),
        !r@.executable,
        r@.rent_epoch == 0,
{
    let node = solana_pubkey::Pubkey::new_from_array(node.to_bytes());
    let voter = solana_pubkey::Pubkey::new_from_array(voter.to_bytes());
    let withdrawer = solana_pubkey::Pubkey::new_from_array(withdrawer.to_bytes());
    let made = solana_vote_program::vote_state::create_account_with_authorized(
        &node,
        &voter,
        &withdrawer,
        commission,
        lamports,
    );
    let owner = Pubkey::new(made.owner().to_bytes());
    Account::from_parts(made.lamports(), made.data().to_vec(), owner, made.executable(), made.rent_epoch())
}

/// Calls `solana_stake_program::stake_state::create_account` with a vote
/// account that holds the given data. Trusted: the account holds the given
/// balance, belongs to the stake program, is no program, has rent epoch 0,
/// and its data is 200 bytes that depend on the authority, the vote
/// account's key and data, the rent and the balance.
#[verifier::external_body]
#[allow(deprecated)]
pub(crate) fn create_stake_account(
    authorized: &Pubkey,
    vote_key: &Pubkey,
    vote_data: &Vec<u8>,
    rent: &Rent,
    lamports: u64,
) -> (r: Account)
    requires
        is_vote_state(vote_data@),
        rent_fits(rent@.lamports_per_byte_year, STAKE_STATE_SIZE as nat),
        lamports >= minimum_balance(
            rent@.lamports_per_byte_year,
            rent@.exemption_threshold,
            STAKE_STATE_SIZE as nat,
        ),
    ensures
        r@.data == stake_state_data(
            authorized@,
            vote_key@,
            vote_data@,
            rent@.lamports_per_byte_year,
            rent@.exemption_threshold,
            lamports,
        ),
        r@.data.len() == STAKE_STATE_SIZE,
        r@.lamports == lamports,
        r@.owner == stake_program_key(),
        !r@.executable,
        r@.rent_epoch == 0,
{
    let vote = solana_account::Account { data: vote_data.clone(), ..Default::default() };
    let rent = solana_rent::Rent {
        lamports_per_byte_year: rent.lamports_per_byte_year(),
        exemption_threshold: rent.exemption_threshold().parse().unwrap_or_default(),
        burn_percent: rent.burn_percent(),
    };
    let authority = solana_pubkey::Pubkey::new_from_array(authorized.to_bytes());
    let voter = solana_pubkey::Pubkey::new_from_array(vote_key.to_bytes());
    let made = solana_stake_program::stake_state::create_account(&authority, &voter, &vote.into(), &rent, lamports);
    let owner = Pubkey::new(made.owner().to_bytes());
    Account::from_parts(made.lamports(), made.data().to_vec(), owner, made.executable(), made.rent_epoch())
}

/// Calls `solana_stake_program::add_genesis_accounts` on an empty genesis
/// configuration with the given rent and hands out the accounts it added.
/// Trusted: they depend on the rate and the threshold of the rent alone, and
/// come in ascending key order.
#[verifier::external_body]
#[allow(deprecated)]
pub(crate) fn stake_genesis_accounts(rent: &Rent) -> (r: Vec<(Pubkey, Account)>)
    requires
        rent_fits(rent@.lamports_per_byte_year, VOTE_STATE_SIZE as nat),
    ensures
        entry_views(r@) == baseline_entries(
            rent@.lamports_per_byte_year,
            rent@.exemption_threshold,
        ),
{
    let mut config = solana_genesis_config::GenesisConfig::default();
    config.rent.lamports_per_byte_year = rent.lamports_per_byte_year();
    config.rent.exemption_threshold = rent.exemption_threshold().parse().unwrap_or_default();
    solana_stake_program::add_genesis_accounts(&mut config);
    let accounts = config.accounts.into_iter();
    accounts.map(|(key, a)| (Pubkey::new(key.to_bytes()), Account::from_parts(a.lamports, a.data, Pubkey::new(a.owner.to_bytes()), a.executable, a.rent_epoch))).collect()
}

/// The identity account of a validator: the given balance, no data, owned by
/// the system program.
pub open spec fn identity_account(lamports: u64) -> AccountView {
    fresh_account(lamports, 0, system_program_key())
}

/// The balance of a vote account: the rent-exempt reserve for its data, and
/// at least one lamport.
pub open spec fn vote_balance(rent: RentView) -> u64 {
    let reserve = rent.minimum_balance(VOTE_STATE_SIZE as nat);
    if reserve >= 1 {
        reserve
    } else {
        1
    }
}

/// The vote account of a validator: the identity votes and withdraws.
pub open spec fn vote_account(identity: Seq<u8>, commission: u8, rent: RentView) -> AccountView {
    AccountView {
        lamports: vote_balance(rent),
        data: vote_state_data(identity, identity, identity, commission),
        owner: vote_program_key(),
        executable: false,
        rent_epoch: 0,
    }
}

/// Who manages the stake of a validator: the given authority, else the
/// identity.
pub open spec fn stake_authority(identity: Seq<u8>, authorized: Option<Seq<u8>>) -> Seq<u8> {
    match authorized {
        Some(key) => key,
        None => identity,
    }
}

/// The stake account of a validator, delegated to its vote account.
pub open spec fn stake_account(
    validator: ValidatorView,
    stake_lamports: u64,
    commission: u8,
    rent: RentView,
    authorized: Option<Seq<u8>>,
) -> AccountView {
    AccountView {
        lamports: stake_lamports,
        data: stake_state_data(
            stake_authority(validator.identity, authorized),
            validator.vote,
            vote_account(validator.identity, commission, rent).data,
            rent.lamports_per_byte_year,
            rent.exemption_threshold,
            stake_lamports,
        ),
        owner: stake_program_key(),
        executable: false,
        rent_epoch: 0,
    }
}

/// The three accounts of one validator, in the order in which they are
/// added: identity, stake, vote.
pub open spec fn validator_entries(
    validator: ValidatorView,
    lamports: u64,
    stake_lamports: u64,
    commission: u8,
    rent: RentView,
    authorized: Option<Seq<u8>>,
) -> Seq<EntryView> {
    seq![
        (validator.identity, identity_account(lamports)),
        (validator.stake, stake_account(validator, stake_lamports, commission, rent, authorized)),
        (validator.vote, vote_account(validator.identity, commission, rent)),
    ]
}

/// The accounts of a list of validators: those of the first validator, then
/// those of the second, and so on.
pub open spec fn synthesized(
    validators: Seq<ValidatorView>,
    lamports: u64,
    stake_lamports: u64,
    commission: u8,
    rent: RentView,
    authorized: Option<Seq<u8>>,
) -> Seq<EntryView>
    decreases validators.len(),
{
    if validators.len() == 0 {
        Seq::<EntryView>::empty()
    } else {
        synthesized(
            validators.drop_last(),
            lamports,
            stake_lamports,
            commission,
            rent,
            authorized,
        ) + validator_entries(
            validators.last(),
            lamports,
            stake_lamports,
            commission,
            rent,
            authorized,
        )
    }
}

/// A list of validators as mathematical values.
pub open spec fn validator_views(validators: Seq<BootstrapValidator>) -> Seq<ValidatorView> {
    Seq::new(validators.len(), |i: int| validators[i]@)
}

/// The view of an optional key.
pub open spec fn key_view(key: Option<&Pubkey>) -> Option<Seq<u8>> {
    match key {
        Some(k) => Some(k@),
        None => None,
    }
}

/// The list has three accounts for each validator, and the accounts of the
/// validator at place `i` stand at places `3 * i` to `3 * i + 2`.
pub proof fn lemma_synthesized_layout(
    validators: Seq<ValidatorView>,
    lamports: u64,
    stake_lamports: u64,
    commission: u8,
    rent: RentView,
    authorized: Option<Seq<u8>>,
)
    ensures
        synthesized(validators, lamports, stake_lamports, commission, rent, authorized).len() == 3
            * validators.len(),
        forall|i: int, j: int|
            0 <= i < validators.len() && 0 <= j < 3 ==> #[trigger] synthesized(
                validators,
                lamports,
                stake_lamports,
                commission,
                rent,
                authorized,
            )[3 * i + j] == validator_entries(
                validators[i],
                lamports,
                stake_lamports,
                commission,
                rent,
                authorized,
            )[j],
    decreases validators.len(),
{
    if validators.len() > 0 {
        let front = validators.drop_last();
        lemma_synthesized_layout(front, lamports, stake_lamports, commission, rent, authorized);
        let whole = synthesized(validators, lamports, stake_lamports, commission, rent, authorized);
        let head = synthesized(front, lamports, stake_lamports, commission, rent, authorized);
        assert forall|i: int, j: int| 0 <= i < validators.len() && 0 <= j < 3 implies #[trigger] whole[3
            * i + j] == validator_entries(
            validators[i],
            lamports,
            stake_lamports,
            commission,
            rent,
            authorized,
        )[j] by {
            if i < front.len() {
                assert(whole[3 * i + j] == head[3 * i + j]);
                assert(front[i] == validators[i]);
            }
        }
    }
}

/// Makes the accounts of the bootstrap validators, three for each, in the
/// order of the validators.
pub fn synthesize(
    validators: &Vec<BootstrapValidator>,
    lamports: u64,
    stake_lamports: u64,
    commission: u8,
    rent: &Rent,
    authorized: Option<&Pubkey>,
) -> (r: Vec<(Pubkey, Account)>)
    requires
        rent_fits(rent@.lamports_per_byte_year, VOTE_STATE_SIZE as nat),
        stake_lamports >= rent@.minimum_balance(STAKE_STATE_SIZE as nat),
    ensures
        entry_views(r@) == synthesized(
            validator_views(validators@),
            lamports,
            stake_lamports,
            commission,
            rent@,
            key_view(authorized),
        ),
        r@.len() == 3 * validators@.len(),
{
    let ghost views = validator_views(validators@);
    let ghost auth = key_view(authorized);
    let mut out: Vec<(Pubkey, Account)> = Vec::new();
    let reserve: u64 = vote_rent_exempt_reserve(rent);
    let vote_lamports: u64 = if reserve >= 1 {
        reserve
    } else {
        1
    };
    let system: Pubkey = system_program_id();
    let mut i: usize = 0;
    assert(views.take(0) =~= Seq::<ValidatorView>::empty());
    assert(entry_views(out@) =~= Seq::<EntryView>::empty());
    while i < validators.len()
        invariant
            i <= validators@.len(),
            views == validator_views(validators@),
            auth == key_view(authorized),
            system@ == system_program_key(),
            vote_lamports == vote_balance(rent@),
            rent_fits(rent@.lamports_per_byte_year, VOTE_STATE_SIZE as nat),
            stake_lamports >= rent@.minimum_balance(STAKE_STATE_SIZE as nat),
            out@.len() == 3 * i,
            entry_views(out@) == synthesized(
                views.take(i as int),
                lamports,
                stake_lamports,
                commission,
                rent@,
                auth,
            ),
        decreases validators@.len() - i,
    {
        let validator: BootstrapValidator = validators[i];
        let ghost before = entry_views(out@);
        let identity_account = Account::new(lamports, 0, &system);
        let vote_account = create_vote_account(
            &validator.identity,
            &validator.identity,
            &validator.identity,
            commission,
            vote_lamports,
        );
        let stake_authority: &Pubkey = match authorized {
            Some(key) => key,
            None => &validator.identity,
        };
        let stake_account = create_stake_account(
            stake_authority,
            &validator.vote,
            &vote_account.data,
            rent,
            stake_lamports,
        );
        out.push((validator.identity, identity_account));
        out.push((validator.stake, stake_account));
        out.push((validator.vote, vote_account));
        proof {
            assert(views.take(i + 1).drop_last() =~= views.take(i as int));
            assert(views.take(i + 1).last() == validator@);
            assert(entry_views(out@) =~= before + validator_entries(
                validator@,
                lamports,
                stake_lamports,
                commission,
                rent@,
                auth,
            ));
        }
        i = i + 1;
    }
    assert(views.take(validators@.len() as int) =~= views);
    out
}

/// The validators that a flat list of keys names: each three keys in a row
/// are the identity, the vote key and the stake key of one validator. Keys
/// beyond the last full three name no validator.
pub open spec fn grouped(keys: Seq<Seq<u8>>) -> Seq<ValidatorView> {
    Seq::new(
        keys.len() / 3,
        |i: int| ValidatorView { identity: keys[3 * i], vote: keys[3 * i + 1], stake: keys[3 * i + 2] },
    )
}

/// The accounts at places `3 * i` to `3 * i + 2` stand under the keys of the
/// validator at place `i`: its identity, its stake key, its vote key.
pub open spec fn validator_in_place(entries: Seq<EntryView>, keys: Seq<Seq<u8>>, i: int) -> bool {
    &&& entries[3 * i].0 == keys[3 * i]
    &&& entries[3 * i + 1].0 == keys[3 * i + 2]
    &&& entries[3 * i + 2].0 == keys[3 * i + 1]
}

/// For every list of keys, the accounts of the validators that it names are
/// three times as many as the list has full threes, and they come in the
/// order of the validators.
pub proof fn lemma_synthesized_for_keys(
    keys: Seq<Seq<u8>>,
    lamports: u64,
    stake_lamports: u64,
    commission: u8,
    rent: RentView,
    authorized: Option<Seq<u8>>,
)
    ensures
        synthesized(grouped(keys), lamports, stake_lamports, commission, rent, authorized).len()
            == 3 * (keys.len() / 3),
        forall|i: int|
            0 <= i < keys.len() / 3 ==> #[trigger] validator_in_place(
                synthesized(grouped(keys), lamports, stake_lamports, commission, rent, authorized),
                keys,
                i,
            ),
{
    let validators = grouped(keys);
    lemma_synthesized_layout(validators, lamports, stake_lamports, commission, rent, authorized);
    let entries = synthesized(validators, lamports, stake_lamports, commission, rent, authorized);
    assert forall|i: int| 0 <= i < keys.len() / 3 implies #[trigger] validator_in_place(
        entries,
        keys,
        i,
    ) by {
        let own = validator_entries(
            validators[i],
            lamports,
            stake_lamports,
            commission,
            rent,
            authorized,
        );
        assert(entries[3 * i + 0] == own[0]);
        assert(entries[3 * i + 1] == own[1]);
        assert(entries[3 * i + 2] == own[2]);
    }
}

} // verus!
