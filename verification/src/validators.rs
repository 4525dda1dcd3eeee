//! Validators for the scalar inputs of the tools: each takes the text that
//! the operator gave and returns a typed value or says what is wrong.

use crate::decimal::{
    all_digits, after_sign, decimal_string, decimal_text, decimal_value, fault_text,
    lemma_parse_decimal_text, lemma_scan_succeeds_iff, parse_bounded, parse_unsigned, NumberFault,
};
use crate::keys::{
    base58_pubkey, decode_base58, ed25519_public, keypair_file_secret, read_keypair_text, Keypair,
    Pubkey,
};
use vstd::prelude::*;

verus! {

/// What is wrong with an input.
#[derive(Debug)]
pub enum InputError {
    /// A percentage is no number of eight bits.
    InvalidFormat { input: String, fault: NumberFault },
    /// A percentage is above 100.
    OutOfRange { value: u8 },
    /// A number is no number of 64 bits.
    ParseError { input: String, fault: NumberFault },
    /// A text is neither a public key nor the path of a keypair file that
    /// could be read.
    InvalidPubkeyOrPath { input: String, cause: String },
    /// A keypair file could not be read or holds no keypair.
    KeypairFileError { path: String, cause: String },
    /// A text is no date and time.
    DateParseError { input: String, cause: String },
}

/// An input error as a mathematical value.
pub enum InputErrorView {
    InvalidFormat { input: Seq<char>, fault: NumberFault },
    OutOfRange { value: u8 },
    ParseError { input: Seq<char>, fault: NumberFault },
    InvalidPubkeyOrPath { input: Seq<char>, cause: Seq<char> },
    KeypairFileError { path: Seq<char>, cause: Seq<char> },
    DateParseError { input: Seq<char>, cause: Seq<char> },
}

impl View for InputError {
    type V = InputErrorView;

    open spec fn view(&self) -> InputErrorView {
        match self {
            InputError::InvalidFormat { input, fault } => InputErrorView::InvalidFormat {
                input: input@,
                fault: *fault,
            },
            InputError::OutOfRange { value } => InputErrorView::OutOfRange { value: *value },
            InputError::ParseError { input, fault } => InputErrorView::ParseError {
                input: input@,
                fault: *fault,
            },
            InputError::InvalidPubkeyOrPath { input, cause } => InputErrorView::InvalidPubkeyOrPath {
                input: input@,
                cause: cause@,
            },
            InputError::KeypairFileError { path, cause } => InputErrorView::KeypairFileError {
                path: path@,
                cause: cause@,
            },
            InputError::DateParseError { input, cause } => InputErrorView::DateParseError {
                input: input@,
                cause: cause@,
            },
        }
    }
}

impl InputErrorView {
    /// The error in words.
    pub open spec fn message(self) -> Seq<char> {
        match self {
            InputErrorView::InvalidFormat { input, fault } =>
                "Unable to parse input percentage, provided: "@ + input + ", err: "@ + fault_text(
                    fault,
                ),
            InputErrorView::OutOfRange { value } =>
                "Percentage must be in range of 0 to 100, provided: "@ + decimal_text(value as nat),
            InputErrorView::ParseError { input, fault } => "error parsing '"@ + input + "': "@
                + fault_text(fault),
            InputErrorView::InvalidPubkeyOrPath { input, cause } =>
                "failed to read keypair file '"@ + input + "': "@ + cause,
            InputErrorView::KeypairFileError { path, cause } => "failed to read keypair file '"@
                + path + "': "@ + cause,
            InputErrorView::DateParseError { input, cause } => "failed parsing date '"@ + input
                + "': "@ + cause,
        }
    }
}

impl InputError {
    /// The error in words.
    pub fn message(&self) -> (r: String)
        ensures
            r@ == self@.message(),
    {
        match self {
            InputError::InvalidFormat { input, fault } => {
                let mut text = String::from_str("Unable to parse input percentage, provided: ");
                text.append(input.as_str());
                text.append(", err: ");
                text.append(fault.describe());
                text
            },
            InputError::OutOfRange { value } => {
                let mut text = String::from_str(
                    "Percentage must be in range of 0 to 100, provided: ",
                );
                let number = decimal_string(*value as u64);
                text.append(number.as_str());
                text
            },
            InputError::ParseError { input, fault } => {
                let mut text = String::from_str("error parsing '");
                text.append(input.as_str());
                text.append("': ");
                text.append(fault.describe());
                text
            },
            InputError::InvalidPubkeyOrPath { input, cause } => {
                let mut text = String::from_str("failed to read keypair file '");
                text.append(input.as_str());
                text.append("': ");
                text.append(cause.as_str());
                text
            },
            InputError::KeypairFileError { path, cause } => {
                let mut text = String::from_str("failed to read keypair file '");
                text.append(path.as_str());
                text.append("': ");
                text.append(cause.as_str());
                text
            },
            InputError::DateParseError { input, cause } => {
                let mut text = String::from_str("failed parsing date '");
                text.append(input.as_str());
                text.append("': ");
                text.append(cause.as_str());
                text
            },
        }
    }
}

/// What a text is as a percentage: a number of eight bits that is at most
/// 100.
pub open spec fn percentage_of(text: Seq<char>) -> Result<u8, InputErrorView> {
    match parse_unsigned(text, 255) {
        Err(fault) => Err(InputErrorView::InvalidFormat { input: text, fault }),
        Ok(value) => if value > 100 {
            Err(InputErrorView::OutOfRange { value: value as u8 })
        } else {
            Ok(value as u8)
        },
    }
}

/// The view of the result of a validator.
pub open spec fn result_view<T>(r: Result<T, InputError>) -> Result<T, InputErrorView> {
    match r {
        Ok(value) => Ok(value),
        Err(error) => Err(error@),
    }
}

/// Reads a percentage: a whole number from 0 to 100.
pub fn parse_percentage(percentage: &str) -> (r: Result<u8, InputError>)
    ensures
        result_view(r) == percentage_of(percentage@),
        r is Ok <==> after_sign(percentage@).len() > 0 && all_digits(after_sign(percentage@))
            && decimal_value(after_sign(percentage@)) <= 100,
        r matches Ok(value) ==> value == decimal_value(after_sign(percentage@)),
{
    proof {
        lemma_scan_succeeds_iff(after_sign(percentage@), 255);
    }
    match parse_bounded(percentage, 255) {
        Err(fault) => Err(InputError::InvalidFormat { input: String::from_str(percentage), fault }),
        Ok(value) => {
            if value > 100 {
                Err(InputError::OutOfRange { value: value as u8 })
            } else {
                Ok(value as u8)
            }
        },
    }
}

/// Every percentage from 0 to 100, written in decimal, is read back as
/// itself.
pub proof fn lemma_percentage_accepts(value: nat)
    requires
        value <= 100,
    ensures
        percentage_of(decimal_text(value)) == Ok::<u8, InputErrorView>(value as u8),
{
    lemma_parse_decimal_text(value, 255);
}

/// What a text is as a number of 64 bits.
pub open spec fn number_of(text: Seq<char>) -> Result<u64, InputErrorView> {
    match parse_unsigned(text, u64::MAX as nat) {
        Err(fault) => Err(InputErrorView::ParseError { input: text, fault }),
        Ok(value) => Ok(value as u64),
    }
}

/// Reads a number of 64 bits.
pub fn parse_generic(string: &str) -> (r: Result<u64, InputError>)
    ensures
        result_view(r) == number_of(string@),
{
    match parse_bounded(string, u64::MAX) {
        Err(fault) => Err(InputError::ParseError { input: String::from_str(string), fault }),
        Ok(value) => Ok(value),
    }
}

/// Reads a slot number.
pub fn parse_slot(slot: &str) -> (r: Result<u64, InputError>)
    ensures
        result_view(r) == number_of(slot@),
{
    parse_generic(slot)
}

/// What came of reading a file: its text, or why it could not be read.
#[derive(Debug)]
pub enum FileRead {
    Text(String),
    Failed(String),
}

/// What a keypair file gives, from what came of reading it: the secret half
/// of its keypair, or the reason why there is none.
pub open spec fn keypair_file_outcome(read: FileRead) -> Result<Seq<u8>, Seq<char>> {
    match read {
        FileRead::Failed(why) => Err(why@),
        FileRead::Text(text) => keypair_file_secret(text@),
    }
}

/// Reads the keypair of a keypair file, given what came of reading the file.
/// It succeeds exactly where the file was read and its text holds a keypair;
/// else the error names the path and the cause.
pub fn parse_keypair_from_path(path: &str, read: &FileRead) -> (r: Result<Keypair, InputError>)
    ensures
        match keypair_file_outcome(*read) {
            Ok(secret) => r matches Ok(keypair) && keypair.secret() == secret && keypair.public()
                == ed25519_public(secret),
            Err(why) => r matches Err(error) && error@ == (InputErrorView::KeypairFileError {
                path: path@,
                cause: why,
            }),
        },
{
    match read {
        FileRead::Failed(why) => Err(
            InputError::KeypairFileError { path: String::from_str(path), cause: why.clone() },
        ),
        FileRead::Text(text) => match read_keypair_text(text.as_str()) {
            Ok(keypair) => Ok(keypair),
            Err(cause) => Err(InputError::KeypairFileError { path: String::from_str(path), cause }),
        },
    }
}

/// Reads the public key of a keypair file, given what came of reading the
/// file.
pub fn parse_pubkey_from_path(path: &str, read: &FileRead) -> (r: Result<Pubkey, InputError>)
    ensures
        match keypair_file_outcome(*read) {
            Ok(secret) => r matches Ok(key) && key@ == ed25519_public(secret),
            Err(why) => r matches Err(error) && error@ == (InputErrorView::KeypairFileError {
                path: path@,
                cause: why,
            }),
        },
{
    match parse_keypair_from_path(path, read) {
        Ok(keypair) => Ok(keypair.pubkey()),
        Err(error) => Err(error),
    }
}

/// Whether a text is no public key by itself, so that it has to be tried as
/// the path of a keypair file.
pub fn pubkey_needs_file(pubkey: &str) -> (r: bool)
    ensures
        r == (base58_pubkey(pubkey@) is None),
{
    decode_base58(pubkey).is_none()
}

/// The public key that a text stands for: the key that it is in base 58, or
/// else the public key of the keypair file at the path that it is.
pub open spec fn pubkey_of(text: Seq<char>, read: FileRead) -> Result<Seq<u8>, InputErrorView> {
    match base58_pubkey(text) {
        Some(bytes) => Ok(bytes),
        None => match keypair_file_outcome(read) {
            Ok(secret) => Ok(ed25519_public(secret)),
            Err(why) => Err(InputErrorView::InvalidPubkeyOrPath { input: text, cause: why }),
        },
    }
}

/// Reads a public key: the text is a key in base 58, or else the path of a
/// keypair file, whose reading gave `read`. What came of the reading is
/// looked at only where the text is no key.
pub fn parse_pubkey(pubkey: &str, read: &FileRead) -> (r: Result<Pubkey, InputError>)
    ensures
        match pubkey_of(pubkey@, *read) {
            Ok(bytes) => r matches Ok(key) && key@ == bytes,
            Err(expected) => r matches Err(error) && error@ == expected,
        },
{
    match decode_base58(pubkey) {
        Some(key) => Ok(key),
        None => match parse_pubkey_from_path(pubkey, read) {
            Ok(key) => Ok(key),
            Err(InputError::KeypairFileError { path, cause }) => Err(
                InputError::InvalidPubkeyOrPath { input: path, cause },
            ),
            Err(other) => Err(other),
        },
    }
}

/// The seconds since the Unix epoch of the moment that a text names in the
/// RFC 3339 format, or else the parser's account of what is wrong with the
/// text.
pub uninterp spec fn rfc3339_timestamp(text: Seq<char>) -> Result<i64, Seq<char>>;

/// Calls `chrono::DateTime::parse_from_rfc3339` and takes the timestamp of
/// the result. Trusted: whether the text is a date, which moment it names,
/// and else what is said of it, depends on the text alone.
#[verifier::external_body]
fn parse_rfc3339(value: &str) -> (r: Result<i64, String>)
    ensures
        match r {
            Ok(seconds) => rfc3339_timestamp(value@) == Ok::<i64, Seq<char>>(seconds),
            Err(cause) => rfc3339_timestamp(value@) == Err::<i64, Seq<char>>(cause@),
        },
{
    match chrono::DateTime::parse_from_rfc3339(value) {
        Ok(moment) => Ok(moment.timestamp()),
        Err(cause) => Err(cause.to_string()),
    }
}

/// What a text is as a date and time.
pub open spec fn date_of(text: Seq<char>) -> Result<i64, InputErrorView> {
    match rfc3339_timestamp(text) {
        Ok(seconds) => Ok(seconds),
        Err(cause) => Err(InputErrorView::DateParseError { input: text, cause }),
    }
}

/// Reads a date and time in the RFC 3339 format as seconds since the Unix
/// epoch.
pub fn unix_timestamp_from_rfc3339_datetime(value: &str) -> (r: Result<i64, InputError>)
    ensures
        result_view(r) == date_of(value@),
{
    match parse_rfc3339(value) {
        Ok(seconds) => Ok(seconds),
        Err(cause) => Err(InputError::DateParseError { input: String::from_str(value), cause }),
    }
}

} // verus!
