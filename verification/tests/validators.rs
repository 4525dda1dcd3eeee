use solana_signer::Signer;
use solarium_bootstrap::decimal::NumberFault;
use solarium_bootstrap::validators::{
    parse_generic, parse_keypair_from_path, parse_percentage, parse_pubkey,
    parse_pubkey_from_path, parse_slot, pubkey_needs_file, unix_timestamp_from_rfc3339_datetime,
    FileRead, InputError,
};

fn keypair_file_text(secret: [u8; 32]) -> (solana_keypair::Keypair, String) {
    let keypair = solana_keypair::Keypair::new_from_array(secret);
    let mut sink: Vec<u8> = Vec::new();
    let text = solana_keypair::write_keypair(&keypair, &mut sink).unwrap();
    (keypair, text)
}

#[test]
fn percentage_accepts_zero_to_hundred() {
    assert_eq!(parse_percentage("100").unwrap(), 100);
    assert_eq!(parse_percentage("0").unwrap(), 0);
    assert_eq!(parse_percentage("50").unwrap(), 50);
    assert_eq!(parse_percentage("+7").unwrap(), 7);
    for value in 0u8..=100 {
        assert_eq!(parse_percentage(&value.to_string()).unwrap(), value);
    }
}

#[test]
fn percentage_above_hundred_is_out_of_range() {
    match parse_percentage("101") {
        Err(InputError::OutOfRange { value }) => assert_eq!(value, 101),
        other => panic!("unexpected {other:?}"),
    }
    for value in 101u8..=255 {
        assert!(matches!(
            parse_percentage(&value.to_string()),
            Err(InputError::OutOfRange { value: found }) if found == value
        ));
    }
}

#[test]
fn percentage_that_is_no_byte_is_a_format_error() {
    match parse_percentage("-1") {
        Err(InputError::InvalidFormat { input, fault }) => {
            assert_eq!(input, "-1");
            assert_eq!(fault, NumberFault::InvalidDigit);
        }
        other => panic!("unexpected {other:?}"),
    }
    assert!(matches!(
        parse_percentage("256"),
        Err(InputError::InvalidFormat { fault: NumberFault::Overflow, .. })
    ));
    assert!(matches!(
        parse_percentage(""),
        Err(InputError::InvalidFormat { fault: NumberFault::Empty, .. })
    ));
    assert!(matches!(
        parse_percentage("ten"),
        Err(InputError::InvalidFormat { fault: NumberFault::InvalidDigit, .. })
    ));
}

#[test]
fn percentage_messages_read_as_expected() {
    for text in ["-1", "256", "", "1x", "101", "255"] {
        let expected = match text.parse::<u8>() {
            Err(error) => {
                format!("Unable to parse input percentage, provided: {text}, err: {error}")
            }
            Ok(value) => format!("Percentage must be in range of 0 to 100, provided: {value}"),
        };
        assert_eq!(parse_percentage(text).unwrap_err().message(), expected);
    }
}

#[test]
fn slots_and_numbers_are_64_bits_wide() {
    assert_eq!(parse_slot("0").unwrap(), 0);
    assert_eq!(parse_slot("432000").unwrap(), 432_000);
    assert_eq!(parse_generic("18446744073709551615").unwrap(), u64::MAX);
    for text in ["", "18446744073709551616", "-3", "12a", " 1"] {
        let error = text.parse::<u64>().unwrap_err();
        let expected = format!("error parsing '{text}': {error}");
        assert_eq!(parse_slot(text).unwrap_err().message(), expected);
        assert!(matches!(parse_generic(text), Err(InputError::ParseError { .. })));
    }
}

#[test]
fn pubkey_in_base58_is_decoded() {
    let unread = FileRead::Failed(String::from("not read"));
    let zeros = parse_pubkey("11111111111111111111111111111111", &unread).unwrap();
    assert_eq!(zeros.to_bytes(), [0u8; 32]);
    assert!(!pubkey_needs_file("11111111111111111111111111111111"));

    let mut bytes = [0u8; 32];
    for (i, byte) in bytes.iter_mut().enumerate() {
        *byte = (i as u8) * 7 + 1;
    }
    let text = solana_pubkey::Pubkey::new_from_array(bytes).to_string();
    assert_eq!(parse_pubkey(&text, &unread).unwrap().to_bytes(), bytes);
    assert_eq!(
        parse_pubkey("Vote111111111111111111111111111111111111111", &unread).unwrap().to_bytes(),
        solana_sdk_ids::vote::id().to_bytes()
    );
}

#[test]
fn pubkey_falls_back_to_the_keypair_file() {
    let (keypair, text) = keypair_file_text([9u8; 32]);
    let path = "/keys/id.json";
    assert!(pubkey_needs_file(path));
    let key = parse_pubkey(path, &FileRead::Text(text.clone())).unwrap();
    assert_eq!(key.to_bytes(), keypair.pubkey().to_bytes());
    let key = parse_pubkey_from_path(path, &FileRead::Text(text)).unwrap();
    assert_eq!(key.to_bytes(), keypair.pubkey().to_bytes());
}

#[test]
fn pubkey_that_is_neither_key_nor_file_is_rejected() {
    let path = "no-such-file.json";
    let read = FileRead::Failed(String::from("No such file or directory (os error 2)"));
    match parse_pubkey(path, &read) {
        Err(error) => {
            assert!(matches!(error, InputError::InvalidPubkeyOrPath { .. }));
            assert_eq!(
                error.message(),
                "failed to read keypair file 'no-such-file.json': No such file or directory (os error 2)"
            );
        }
        Ok(key) => panic!("unexpected {key:?}"),
    }
    let garbled = FileRead::Text(String::from("{}"));
    assert!(matches!(parse_pubkey(path, &garbled), Err(InputError::InvalidPubkeyOrPath { .. })));
}

#[test]
fn keypair_file_is_decoded() {
    let (keypair, text) = keypair_file_text([3u8; 32]);
    let read = parse_keypair_from_path("id.json", &FileRead::Text(text)).unwrap();
    assert_eq!(&read.secret_bytes(), keypair.secret_bytes());
    assert_eq!(read.pubkey().to_bytes(), keypair.pubkey().to_bytes());
}

#[test]
fn keypair_file_errors_name_the_path() {
    let failed = FileRead::Failed(String::from("permission denied"));
    let error = parse_keypair_from_path("id.json", &failed).unwrap_err();
    assert_eq!(error.message(), "failed to read keypair file 'id.json': permission denied");

    let text = String::from("[1,2,3]");
    let cause = solana_keypair::read_keypair(&mut text.as_bytes()).unwrap_err().to_string();
    let error = parse_keypair_from_path("id.json", &FileRead::Text(text)).unwrap_err();
    assert_eq!(error.message(), format!("failed to read keypair file 'id.json': {cause}"));
    assert!(matches!(error, InputError::KeypairFileError { .. }));
}

#[test]
fn rfc3339_dates_become_timestamps() {
    assert_eq!(unix_timestamp_from_rfc3339_datetime("1970-01-01T00:00:00Z").unwrap(), 0);
    assert_eq!(unix_timestamp_from_rfc3339_datetime("2024-01-01T00:00:00+00:00").unwrap(), 1_704_067_200);
    assert_eq!(unix_timestamp_from_rfc3339_datetime("2024-01-01T01:00:00+01:00").unwrap(), 1_704_067_200);
    assert_eq!(unix_timestamp_from_rfc3339_datetime("1969-12-31T23:59:59Z").unwrap(), -1);
}

#[test]
fn dates_in_other_formats_are_rejected() {
    for text in ["", "yesterday", "2024-01-01", "2024-13-01T00:00:00Z", "1704067200"] {
        let cause = chrono::DateTime::parse_from_rfc3339(text).unwrap_err();
        let error = unix_timestamp_from_rfc3339_datetime(text).unwrap_err();
        assert!(matches!(error, InputError::DateParseError { .. }));
        assert_eq!(error.message(), format!("failed parsing date '{text}': {cause}"));
    }
}
