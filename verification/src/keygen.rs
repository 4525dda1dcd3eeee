//! The keypair generator: a mnemonic phrase from fresh entropy, an optional
//! passphrase that the operator confirms, the keypair that both derive, and
//! what is written and shown of them.

use crate::keys::{
    base58_text, encode_base58, keypair_of_seed, keypair_text, write_keypair_text, Keypair, Pubkey,
};
use crate::text::text_is;
use vstd::pervasive::unreached;
use vstd::prelude::*;
use vstd::utf8::encode_utf8;

verus! {

/// How many words a mnemonic phrase has.
#[derive(Clone, Copy, Debug, PartialEq, Eq, Structural)]
pub enum WordCount {
    Twelve,
    TwentyFour,
}

/// The word count that a text names.
pub open spec fn word_count_of(text: Seq<char>) -> Option<WordCount> {
    if text == "12"@ {
        Some(WordCount::Twelve)
    } else if text == "24"@ {
        Some(WordCount::TwentyFour)
    } else {
        None
    }
}

impl WordCount {
    /// The number of words.
    pub open spec fn words(self) -> nat {
        match self {
            WordCount::Twelve => 12,
            WordCount::TwentyFour => 24,
        }
    }

    /// The bytes of entropy behind the words: 128 bits for twelve words, 256
    /// bits for twenty-four.
    pub open spec fn entropy_len(self) -> nat {
        match self {
            WordCount::Twelve => 16,
            WordCount::TwentyFour => 32,
        }
    }

    /// The number of words.
    pub fn count(&self) -> (r: usize)
        ensures
            r == self.words(),
    {
        match self {
            WordCount::Twelve => 12,
            WordCount::TwentyFour => 24,
        }
    }
}

/// Reads a word count: `12` or `24`.
pub fn try_get_word_count(text: &str) -> (r: Option<WordCount>)
    ensures
        r == word_count_of(text@),
{
    if text_is(text, "12") {
        Some(WordCount::Twelve)
    } else if text_is(text, "24") {
        Some(WordCount::TwentyFour)
    } else {
        None
    }
}

/// The language of the words of a mnemonic phrase.
#[derive(Clone, Copy, Debug, PartialEq, Eq, Structural)]
pub enum Language {
    English,
    ChineseSimplified,
    ChineseTraditional,
    Japanese,
    Spanish,
    Korean,
    French,
    Italian,
}

/// The language that a text names.
pub open spec fn language_of(text: Seq<char>) -> Option<Language> {
    if text == "english"@ {
        Some(Language::English)
    } else if text == "chinese-simplified"@ {
        Some(Language::ChineseSimplified)
    } else if text == "chinese-traditional"@ {
        Some(Language::ChineseTraditional)
    } else if text == "japanese"@ {
        Some(Language::Japanese)
    } else if text == "spanish"@ {
        Some(Language::Spanish)
    } else if text == "korean"@ {
        Some(Language::Korean)
    } else if text == "french"@ {
        Some(Language::French)
    } else if text == "italian"@ {
        Some(Language::Italian)
    } else {
        None
    }
}

/// Reads a language from its name.
pub fn try_get_language(text: &str) -> (r: Option<Language>)
    ensures
        r == language_of(text@),
{
    if text_is(text, "english") {
        Some(Language::English)
    } else if text_is(text, "chinese-simplified") {
        Some(Language::ChineseSimplified)
    } else if text_is(text, "chinese-traditional") {
        Some(Language::ChineseTraditional)
    } else if text_is(text, "japanese") {
        Some(Language::Japanese)
    } else if text_is(text, "spanish") {
        Some(Language::Spanish)
    } else if text_is(text, "korean") {
        Some(Language::Korean)
    } else if text_is(text, "french") {
        Some(Language::French)
    } else if text_is(text, "italian") {
        Some(Language::Italian)
    } else {
        None
    }
}

/// The code by which the word lists know a language.
pub open spec fn language_code(language: Language) -> Seq<char> {
    match language {
        Language::English => "en"@,
        Language::ChineseSimplified => "zh-hans"@,
        Language::ChineseTraditional => "zh-hant"@,
        Language::Japanese => "ja"@,
        Language::Spanish => "es"@,
        Language::Korean => "ko"@,
        Language::French => "fr"@,
        Language::Italian => "it"@,
    }
}

impl Language {
    /// The code by which the word lists know the language.
    pub fn code(&self) -> (r: &'static str)
        ensures
            r@ == language_code(*self),
    {
        match self {
            Language::English => "en",
            Language::ChineseSimplified => "zh-hans",
            Language::ChineseTraditional => "zh-hant",
            Language::Japanese => "ja",
            Language::Spanish => "es",
            Language::Korean => "ko",
            Language::French => "fr",
            Language::Italian => "it",
        }
    }
}

/// Why a keypair was not generated or not written.
#[derive(Debug)]
pub enum KeygenError {
    /// The second entry of the passphrase differs from the first.
    PassphraseMismatch,
    /// The file exists and the operator did not ask to overwrite it.
    OverwriteRefused { path: String },
    /// The entropy has a length that no mnemonic phrase stands for.
    InvalidEntropyLength { len: usize },
    /// The terminal could not be asked for the passphrase.
    PromptFailed { cause: String },
    /// The keypair could not be written to the file.
    WriteFailed { path: String, cause: String },
}

/// A keygen error as a mathematical value.
pub enum KeygenErrorView {
    PassphraseMismatch,
    OverwriteRefused { path: Seq<char> },
    InvalidEntropyLength { len: usize },
    PromptFailed { cause: Seq<char> },
    WriteFailed { path: Seq<char>, cause: Seq<char> },
}

impl View for KeygenError {
    type V = KeygenErrorView;

    open spec fn view(&self) -> KeygenErrorView {
        match self {
            KeygenError::PassphraseMismatch => KeygenErrorView::PassphraseMismatch,
            KeygenError::OverwriteRefused { path } => KeygenErrorView::OverwriteRefused {
                path: path@,
            },
            KeygenError::InvalidEntropyLength { len } => KeygenErrorView::InvalidEntropyLength {
                len: *len,
            },
            KeygenError::PromptFailed { cause } => KeygenErrorView::PromptFailed { cause: cause@ },
            KeygenError::WriteFailed { path, cause } => KeygenErrorView::WriteFailed {
                path: path@,
                cause: cause@,
            },
        }
    }
}

impl KeygenErrorView {
    /// The error in words.
    pub open spec fn message(self) -> Seq<char> {
        match self {
            KeygenErrorView::PassphraseMismatch =>
                "Unable to acquire passphrase: Passphrases did not match"@,
            KeygenErrorView::OverwriteRefused { path } => "Refusing to overwrite "@ + path
                + " without --force flag"@,
            KeygenErrorView::InvalidEntropyLength { len } =>
                "invalid number of bytes of entropy: "@ + crate::decimal::decimal_text(len as nat),
            KeygenErrorView::PromptFailed { cause } => "Unable to acquire passphrase: "@ + cause,
            KeygenErrorView::WriteFailed { path, cause } => "Unable to write "@ + path + ": "@
                + cause,
        }
    }
}

impl KeygenError {
    /// The error in words.
    pub fn message(&self) -> (r: String)
        ensures
            r@ == self@.message(),
    {
        match self {
            KeygenError::PassphraseMismatch => String::from_str(
                "Unable to acquire passphrase: Passphrases did not match",
            ),
            KeygenError::OverwriteRefused { path } => {
                let mut text = String::from_str("Refusing to overwrite ");
                text.append(path.as_str());
                text.append(" without --force flag");
                text
            },
            KeygenError::InvalidEntropyLength { len } => {
                let mut text = String::from_str("invalid number of bytes of entropy: ");
                let number = crate::decimal::decimal_string(*len as u64);
                text.append(number.as_str());
                text
            },
            KeygenError::PromptFailed { cause } => {
                let mut text = String::from_str("Unable to acquire passphrase: ");
                text.append(cause.as_str());
                text
            },
            KeygenError::WriteFailed { path, cause } => {
                let mut text = String::from_str("Unable to write ");
                text.append(path.as_str());
                text.append(": ");
                text.append(cause.as_str());
                text
            },
        }
    }
}

/// Whether the operator is asked for a passphrase.
#[derive(Clone, Copy, Debug, PartialEq, Eq, Structural)]
pub enum PassphraseMode {
    NoPassphrase,
    Interactive,
}

/// Where the acquisition of the passphrase stands.
#[derive(Debug)]
pub enum PassphraseState {
    /// The operator is to enter the passphrase.
    AwaitingFirst,
    /// The operator is to enter the passphrase again.
    AwaitingConfirmation { first: String },
    /// The passphrase is settled; `message` is what the note on the seed
    /// phrase says of it.
    Accepted { passphrase: String, message: String },
    /// The two entries differ.
    Mismatch,
}

/// A passphrase state as a mathematical value.
pub enum PassphraseStateView {
    AwaitingFirst,
    AwaitingConfirmation { first: Seq<char> },
    Accepted { passphrase: Seq<char>, message: Seq<char> },
    Mismatch,
}

impl View for PassphraseState {
    type V = PassphraseStateView;

    open spec fn view(&self) -> PassphraseStateView {
        match self {
            PassphraseState::AwaitingFirst => PassphraseStateView::AwaitingFirst,
            PassphraseState::AwaitingConfirmation { first } =>
                PassphraseStateView::AwaitingConfirmation { first: first@ },
            PassphraseState::Accepted { passphrase, message } => PassphraseStateView::Accepted {
                passphrase: passphrase@,
                message: message@,
            },
            PassphraseState::Mismatch => PassphraseStateView::Mismatch,
        }
    }
}

/// What the note on the seed phrase says of a passphrase that was asked for.
pub open spec fn passphrase_note() -> Seq<char> {
    " and your BIP39 passphrase"@
}

/// The state before anything is entered: without a passphrase nothing is
/// asked.
pub open spec fn initial_state(mode: PassphraseMode) -> PassphraseStateView {
    match mode {
        PassphraseMode::NoPassphrase => PassphraseStateView::Accepted {
            passphrase: Seq::empty(),
            message: Seq::empty(),
        },
        PassphraseMode::Interactive => PassphraseStateView::AwaitingFirst,
    }
}

/// The state after an entry: an empty first entry settles on no passphrase,
/// any other first entry asks for confirmation, and the confirmation
/// settles on the first entry or fails.
pub open spec fn next_state(state: PassphraseStateView, entry: Seq<char>) -> PassphraseStateView {
    match state {
        PassphraseStateView::AwaitingFirst => if entry.len() == 0 {
            PassphraseStateView::Accepted { passphrase: entry, message: passphrase_note() }
        } else {
            PassphraseStateView::AwaitingConfirmation { first: entry }
        },
        PassphraseStateView::AwaitingConfirmation { first } => if entry == first {
            PassphraseStateView::Accepted { passphrase: first, message: passphrase_note() }
        } else {
            PassphraseStateView::Mismatch
        },
        settled => settled,
    }
}

/// The prompt that a state shows, where it awaits an entry.
pub open spec fn prompt_of(state: PassphraseStateView) -> Option<Seq<char>> {
    match state {
        PassphraseStateView::AwaitingFirst => Some(
            "\nFor added security, enter a BIP39 passphrase\n\nNOTE! This passphrase improves security of the recovery seed phrase NOT the\nkeypair file itself, which is stored as insecure plain text\n\nBIP39 Passphrase (empty for none): "@,
        ),
        PassphraseStateView::AwaitingConfirmation { first } => Some(
            "Enter same passphrase again: "@,
        ),
        _ => None,
    }
}

/// No passphrase and nothing to say of it.
pub fn no_passphrase_and_message() -> (r: (String, String))
    ensures
        r.0@ == Seq::<char>::empty(),
        r.1@ == Seq::<char>::empty(),
{
    (String::new(), String::new())
}

/// Starts the acquisition of the passphrase.
pub fn begin_passphrase(mode: PassphraseMode) -> (r: PassphraseState)
    ensures
        r@ == initial_state(mode),
{
    match mode {
        PassphraseMode::NoPassphrase => {
            let (passphrase, message) = no_passphrase_and_message();
            PassphraseState::Accepted { passphrase, message }
        },
        PassphraseMode::Interactive => PassphraseState::AwaitingFirst,
    }
}

/// The prompt to show, without echo of what is entered, where the state
/// awaits an entry.
pub fn passphrase_prompt(state: &PassphraseState) -> (r: Option<&'static str>)
    ensures
        match r {
            Some(prompt) => prompt_of(state@) == Some(prompt@),
            None => prompt_of(state@) is None,
        },
{
    match state {
        PassphraseState::AwaitingFirst => Some(
            "\nFor added security, enter a BIP39 passphrase\n\nNOTE! This passphrase improves security of the recovery seed phrase NOT the\nkeypair file itself, which is stored as insecure plain text\n\nBIP39 Passphrase (empty for none): ",
        ),
        PassphraseState::AwaitingConfirmation { first } => Some("Enter same passphrase again: "),
        _ => None,
    }
}

/// Takes what the operator entered.
pub fn prompt_passphrase(state: PassphraseState, entry: String) -> (r: PassphraseState)
    ensures
        r@ == next_state(state@, entry@),
{
    match state {
        PassphraseState::AwaitingFirst => {
            if entry.as_str().unicode_len() == 0 {
                PassphraseState::Accepted {
                    passphrase: entry,
                    message: String::from_str(" and your BIP39 passphrase"),
                }
            } else {
                PassphraseState::AwaitingConfirmation { first: entry }
            }
        },
        PassphraseState::AwaitingConfirmation { first } => {
            if text_is(entry.as_str(), first.as_str()) {
                PassphraseState::Accepted {
                    passphrase: first,
                    message: String::from_str(" and your BIP39 passphrase"),
                }
            } else {
                PassphraseState::Mismatch
            }
        },
        PassphraseState::Accepted { passphrase, message } => PassphraseState::Accepted {
            passphrase,
            message,
        },
        PassphraseState::Mismatch => PassphraseState::Mismatch,
    }
}

/// The passphrase and what the note says of it, once the state is settled:
/// `None` while an entry is awaited.
pub fn acquire_passphrase_and_message(state: PassphraseState) -> (r: Option<
    Result<(String, String), KeygenError>,
>)
    ensures
        match state@ {
            PassphraseStateView::Accepted { passphrase, message } => r matches Some(Ok(pair))
                && pair.0@ == passphrase && pair.1@ == message,
            PassphraseStateView::Mismatch => r matches Some(Err(error)) && error@
                == KeygenErrorView::PassphraseMismatch,
            _ => r is None,
        },
{
    match state {
        PassphraseState::Accepted { passphrase, message } => Some(Ok((passphrase, message))),
        PassphraseState::Mismatch => Some(Err(KeygenError::PassphraseMismatch)),
        _ => None,
    }
}

/// Whether a number of bytes of entropy stands for a mnemonic phrase: 128 to
/// 256 bits in steps of 32.
pub open spec fn is_entropy_len(len: nat) -> bool {
    len == 16 || len == 20 || len == 24 || len == 28 || len == 32
}

/// The mnemonic phrase of some entropy in a language.
pub uninterp spec fn bip39_phrase(entropy: Seq<u8>, language: Language) -> Seq<char>;

/// The seed of 64 bytes that a mnemonic phrase and a passphrase derive.
pub uninterp spec fn bip39_seed(phrase: Seq<char>, passphrase: Seq<char>) -> Seq<u8>;

/// Draws the entropy of a new mnemonic phrase with `bip39::Mnemonic::new`.
/// Trusted: it has 16 bytes for twelve words and 32 for twenty-four. Which
/// bytes they are is left to chance.
#[verifier::external_body]
fn fresh_entropy(word_count: WordCount) -> (r: Vec<u8>)
    ensures
        r@.len() == word_count.entropy_len(),
{
    let kind = bip39::MnemonicType::for_word_count(word_count.count()).unwrap_or_default();
    bip39::Mnemonic::new(kind, bip39::Language::English).entropy().to_vec()
}

/// Calls `bip39::Mnemonic::from_entropy` and takes the phrase. Trusted: the
/// phrase depends on the entropy and the language alone.
#[verifier::external_body]
fn phrase_of_entropy(entropy: &Vec<u8>, language: Language) -> (r: String)
    requires
        is_entropy_len(entropy@.len()),
    ensures
        r@ == bip39_phrase(entropy@, language),
{
    let tongue = bip39::Language::from_language_code(language.code()).unwrap_or_default();
    match bip39::Mnemonic::from_entropy(entropy, tongue) {
        Ok(mnemonic) => mnemonic.into_phrase(),
        Err(_) => String::new(),
    }
}

/// Calls `bip39::Seed::new` on the mnemonic of the entropy. Trusted: the
/// seed has 64 bytes and depends on the phrase and the passphrase alone.
#[verifier::external_body]
fn seed_of_entropy(entropy: &Vec<u8>, language: Language, passphrase: &str) -> (r: Vec<u8>)
    requires
        is_entropy_len(entropy@.len()),
    ensures
        r@ == bip39_seed(bip39_phrase(entropy@, language), passphrase@),
        r@.len() == 64,
{
    let tongue = bip39::Language::from_language_code(language.code()).unwrap_or_default();
    match bip39::Mnemonic::from_entropy(entropy, tongue) {
        Ok(mnemonic) => bip39::Seed::new(&mnemonic, passphrase).as_bytes().to_vec(),
        Err(_) => Vec::new(),
    }
}

/// A mnemonic phrase with the entropy that it encodes.
#[derive(Debug)]
pub struct Mnemonic {
    phrase: String,
    language: Language,
    entropy: Vec<u8>,
}

/// A mnemonic as a mathematical value.
pub struct MnemonicView {
    pub phrase: Seq<char>,
    pub language: Language,
    pub entropy: Seq<u8>,
}

impl MnemonicView {
    /// The phrase is the phrase of the entropy, and the entropy has a length
    /// that a phrase stands for.
    pub open spec fn wf(self) -> bool {
        &&& is_entropy_len(self.entropy.len())
        &&& self.phrase == bip39_phrase(self.entropy, self.language)
    }
}

impl View for Mnemonic {
    type V = MnemonicView;

    closed spec fn view(&self) -> MnemonicView {
        MnemonicView { phrase: self.phrase@, language: self.language, entropy: self.entropy@ }
    }
}

impl Mnemonic {
    #[verifier::type_invariant]
    spec fn valid(self) -> bool {
        self@.wf()
    }

    /// The mnemonic of the given entropy; `None` exactly where the entropy
    /// has a length that no phrase stands for.
    pub fn from_entropy(entropy: Vec<u8>, language: Language) -> (r: Option<Mnemonic>)
        ensures
            r is Some <==> is_entropy_len(entropy@.len()),
            r matches Some(mnemonic) ==> mnemonic@.wf() && mnemonic@.entropy == entropy@
                && mnemonic@.language == language,
    {
        let len: usize = entropy.len();
        if len == 16 || len == 20 || len == 24 || len == 28 || len == 32 {
            let phrase = phrase_of_entropy(&entropy, language);
            Some(Mnemonic { phrase, language, entropy })
        } else {
            None
        }
    }

    /// A mnemonic of fresh entropy.
    pub fn new(word_count: WordCount, language: Language) -> (r: Mnemonic)
        ensures
            r@.wf(),
            r@.entropy.len() == word_count.entropy_len(),
            r@.language == language,
    {
        let entropy = fresh_entropy(word_count);
        let phrase = phrase_of_entropy(&entropy, language);
        Mnemonic { phrase, language, entropy }
    }

    /// The phrase.
    pub fn phrase(&self) -> (r: &str)
        ensures
            r@ == self@.phrase,
            self@.wf(),
    {
        proof {
            use_type_invariant(self);
        }
        self.phrase.as_str()
    }

    pub fn language(&self) -> (r: Language)
        ensures
            r == self@.language,
    {
        self.language
    }

    /// The entropy that the phrase encodes.
    pub fn entropy(&self) -> (r: &Vec<u8>)
        ensures
            r@ == self@.entropy,
            is_entropy_len(r@.len()),
    {
        proof {
            use_type_invariant(self);
        }
        &self.entropy
    }

    /// The seed that the phrase and a passphrase derive.
    pub fn seed(&self, passphrase: &str) -> (r: Vec<u8>)
        ensures
            r@ == bip39_seed(self@.phrase, passphrase@),
            r@.len() == 64,
    {
        proof {
            use_type_invariant(self);
        }
        seed_of_entropy(&self.entropy, self.language, passphrase)
    }
}

/// The secret half of the keypair that a mnemonic and a passphrase derive:
/// the first 32 bytes of their seed.
pub open spec fn derived_secret(mnemonic: MnemonicView, passphrase: Seq<char>) -> Seq<u8> {
    bip39_seed(mnemonic.phrase, passphrase).take(32)
}

/// Derives the keypair of a mnemonic and a passphrase.
pub fn derive_keypair(mnemonic: &Mnemonic, passphrase: &str) -> (r: Keypair)
    ensures
        r.secret() == derived_secret(mnemonic@, passphrase@),
        r.public() == crate::keys::ed25519_public(r.secret()),
{
    let seed = mnemonic.seed(passphrase);
    match keypair_of_seed(seed.as_slice()) {
        Some(keypair) => keypair,
        None => unreached(),
    }
}

/// What holds of the keypair and the mnemonic that are generated from some
/// entropy, a language and a passphrase.
pub open spec fn generated(
    entropy: Seq<u8>,
    language: Language,
    passphrase: Seq<char>,
    keypair: Keypair,
    mnemonic: MnemonicView,
) -> bool {
    &&& mnemonic.wf()
    &&& mnemonic.entropy == entropy
    &&& mnemonic.language == language
    &&& keypair.secret() == derived_secret(mnemonic, passphrase)
    &&& keypair.public() == crate::keys::ed25519_public(keypair.secret())
}

/// The same entropy, language and passphrase always give the same mnemonic
/// and the same keypair.
pub proof fn lemma_generation_is_deterministic(
    entropy: Seq<u8>,
    language: Language,
    passphrase: Seq<char>,
    first: (Keypair, MnemonicView),
    second: (Keypair, MnemonicView),
)
    requires
        generated(entropy, language, passphrase, first.0, first.1),
        generated(entropy, language, passphrase, second.0, second.1),
    ensures
        first.1 == second.1,
        first.0.secret() == second.0.secret(),
        first.0.public() == second.0.public(),
        first.0.bytes() == second.0.bytes(),
{
}

/// A passphrase that is entered twice alike is accepted as it was entered;
/// a second entry that differs is a mismatch; an empty first entry is
/// accepted at once.
pub proof fn lemma_confirmation(first: Seq<char>, second: Seq<char>)
    ensures
        first.len() > 0 && second == first ==> next_state(
            next_state(initial_state(PassphraseMode::Interactive), first),
            second,
        ) == (PassphraseStateView::Accepted { passphrase: first, message: passphrase_note() }),
        first.len() > 0 && second != first ==> next_state(
            next_state(initial_state(PassphraseMode::Interactive), first),
            second,
        ) == PassphraseStateView::Mismatch,
        first.len() == 0 ==> next_state(initial_state(PassphraseMode::Interactive), first) == (
        PassphraseStateView::Accepted { passphrase: first, message: passphrase_note() }),
        prompt_of(initial_state(PassphraseMode::NoPassphrase)) is None,
{
}

/// Generates the mnemonic of the given entropy and the keypair that it
/// derives with the passphrase.
pub fn generate_from_entropy(entropy: Vec<u8>, language: Language, passphrase: &str) -> (r: Result<
    (Keypair, Mnemonic),
    KeygenError,
>)
    ensures
        r is Ok <==> is_entropy_len(entropy@.len()),
        r matches Ok(pair) ==> generated(entropy@, language, passphrase@, pair.0, pair.1@),
        r matches Err(error) ==> error@ == (KeygenErrorView::InvalidEntropyLength {
            len: entropy@.len() as usize,
        }),
{
    let len: usize = entropy.len();
    match Mnemonic::from_entropy(entropy, language) {
        Some(mnemonic) => {
            let keypair = derive_keypair(&mnemonic, passphrase);
            Ok((keypair, mnemonic))
        },
        None => Err(KeygenError::InvalidEntropyLength { len }),
    }
}

/// Generates a mnemonic of fresh entropy and the keypair that it derives
/// with the passphrase.
pub fn generate(word_count: WordCount, language: Language, passphrase: &str) -> (r: (
    Keypair,
    Mnemonic,
))
    ensures
        r.1@.entropy.len() == word_count.entropy_len(),
        generated(r.1@.entropy, language, passphrase@, r.0, r.1@),
{
    let mnemonic = Mnemonic::new(word_count, language);
    let keypair = derive_keypair(&mnemonic, passphrase);
    (keypair, mnemonic)
}

/// What the overwrite guard gives: an existing file is left alone unless
/// the operator forces the write.
pub open spec fn overwrite_guard(outfile: Seq<char>, force: bool, exists: bool) -> Result<
    (),
    KeygenErrorView,
> {
    if !force && exists {
        Err(KeygenErrorView::OverwriteRefused { path: outfile })
    } else {
        Ok(())
    }
}

/// The view of a result that may be a keygen error.
pub open spec fn keygen_view<T>(r: Result<T, KeygenError>) -> Result<T, KeygenErrorView> {
    match r {
        Ok(value) => Ok(value),
        Err(error) => Err(error@),
    }
}

/// Whether the overwrite guard has to know if the file exists.
pub fn overwrite_needs_lookup(force: bool) -> (r: bool)
    ensures
        r == !force,
        forall|outfile: Seq<char>, a: bool, b: bool|
            !r ==> #[trigger] overwrite_guard(outfile, force, a) == #[trigger] overwrite_guard(
                outfile,
                force,
                b,
            ),
{
    !force
}

/// Guards an existing file against being overwritten. `exists` says whether
/// there is a file at the path.
pub fn check_for_overwrite(outfile: &str, force: bool, exists: bool) -> (r: Result<
    (),
    KeygenError,
>)
    ensures
        keygen_view(r) == overwrite_guard(outfile@, force, exists),
{
    if !force && exists {
        Err(KeygenError::OverwriteRefused { path: String::from_str(outfile) })
    } else {
        Ok(())
    }
}

/// Where the keypair goes.
#[derive(Debug)]
pub enum KeypairOutput {
    /// The text of the keypair goes to standard output.
    Stdout { text: String },
    /// The keypair goes to the file at `path`, and `notice` is shown.
    File { path: String, notice: String },
}

/// Where a keypair goes, as a mathematical value.
pub enum KeypairOutputView {
    Stdout { text: Seq<char> },
    File { path: Seq<char>, notice: Seq<char> },
}

impl View for KeypairOutput {
    type V = KeypairOutputView;

    open spec fn view(&self) -> KeypairOutputView {
        match self {
            KeypairOutput::Stdout { text } => KeypairOutputView::Stdout { text: text@ },
            KeypairOutput::File { path, notice } => KeypairOutputView::File {
                path: path@,
                notice: notice@,
            },
        }
    }
}

/// The path that stands for standard output.
pub open spec fn stdout_token() -> Seq<char> {
    "-"@
}

/// Where a keypair goes: to standard output where the path is the token for
/// it, else to the file at the path.
pub open spec fn keypair_output(keypair: Seq<u8>, outfile: Seq<char>, source: Seq<char>)
    -> KeypairOutputView {
    if outfile == stdout_token() {
        KeypairOutputView::Stdout { text: keypair_text(keypair) }
    } else {
        KeypairOutputView::File {
            path: outfile,
            notice: "Wrote "@ + source + " keypair to "@ + outfile,
        }
    }
}

/// Decides where a keypair goes and what is said of it.
pub fn output_keypair(keypair: &Keypair, outfile: &str, source: &str) -> (r: KeypairOutput)
    ensures
        r@ == keypair_output(keypair.bytes(), outfile@, source@),
{
    if text_is(outfile, "-") {
        KeypairOutput::Stdout { text: write_keypair_text(keypair) }
    } else {
        let mut notice = String::from_str("Wrote ");
        notice.append(source);
        notice.append(" keypair to ");
        notice.append(outfile);
        KeypairOutput::File { path: String::from_str(outfile), notice }
    }
}

/// The file that the keypair goes to: the one that the operator named, else
/// the default.
pub open spec fn outfile_of(named: Option<Seq<char>>, default_path: Seq<char>) -> Seq<char> {
    match named {
        Some(path) => path,
        None => default_path,
    }
}

/// Chooses the file that the keypair goes to.
pub fn choose_outfile(named: Option<&str>, default_path: &str) -> (r: String)
    ensures
        r@ == outfile_of(
            match named {
                Some(text) => Some(text@),
                None => None,
            },
            default_path@,
        ),
{
    match named {
        Some(path) => String::from_str(path),
        None => String::from_str(default_path),
    }
}

/// A line of `n` equals signs.
pub open spec fn divider(n: nat) -> Seq<char> {
    Seq::new(n, |i: int| '=')
}

/// What is shown of a new keypair: its public key and the seed phrase,
/// framed by dividers as long as the phrase has bytes. The passphrase is not
/// in it.
pub open spec fn seed_phrase_report(
    phrase: Seq<char>,
    pubkey: Seq<u8>,
    passphrase_message: Seq<char>,
) -> Seq<char> {
    let line = divider(encode_utf8(phrase).len());
    line + "\npubkey: "@ + base58_text(pubkey) + "\n"@ + line + "\nSave this seed phrase"@
        + passphrase_message + " to recover your new keypair:\n"@ + phrase + "\n"@ + line
}

/// Writes what is shown of a new keypair.
pub fn render_seed_phrase(phrase: &str, pubkey: &Pubkey, passphrase_message: &str) -> (r: String)
    ensures
        r@ == seed_phrase_report(phrase@, pubkey@, passphrase_message@),
{
    let width: usize = phrase.as_bytes().len();
    let mut line = String::new();
    let mut i: usize = 0;
    proof {
        reveal_strlit("=");
    }
    while i < width
        invariant
            i <= width,
            line@ == divider(i as nat),
            "="@ == seq!['='],
        decreases width - i,
    {
        line.append("=");
        i = i + 1;
        assert(line@ =~= divider(i as nat));
    }
    let key_text = encode_base58(pubkey);
    let mut text = line.clone();
    text.append("\npubkey: ");
    text.append(key_text.as_str());
    text.append("\n");
    text.append(line.as_str());
    text.append("\nSave this seed phrase");
    text.append(passphrase_message);
    text.append(" to recover your new keypair:\n");
    text.append(phrase);
    text.append("\n");
    text.append(line.as_str());
    assert(text@ =~= seed_phrase_report(phrase@, pubkey@, passphrase_message@));
    text
}

/// What is shown of a new keypair, unless the operator asked for silence.
pub fn display_seed_phrase(
    silent: bool,
    phrase: &str,
    pubkey: &Pubkey,
    passphrase_message: &str,
) -> (r: Option<String>)
    ensures
        silent ==> r is None,
        !silent ==> (r matches Some(text) && text@ == seed_phrase_report(
            phrase@,
            pubkey@,
            passphrase_message@,
        )),
{
    if silent {
        None
    } else {
        Some(render_seed_phrase(phrase, pubkey, passphrase_message))
    }
}

} // verus!
