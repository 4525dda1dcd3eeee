use solana_signer::Signer;
use solarium_bootstrap::keygen::{
    acquire_passphrase_and_message, begin_passphrase, check_for_overwrite, choose_outfile,
    derive_keypair, display_seed_phrase, generate, generate_from_entropy,
    no_passphrase_and_message, output_keypair, overwrite_needs_lookup, passphrase_prompt,
    prompt_passphrase, render_seed_phrase, try_get_language, try_get_word_count, KeygenError,
    KeypairOutput, Language, Mnemonic, PassphraseMode, PassphraseState, WordCount,
};
use solarium_bootstrap::validators::{parse_keypair_from_path, FileRead};

const ENTROPY: [u8; 16] = [
    0x33, 0xE4, 0x6B, 0xB1, 0x3A, 0x74, 0x6E, 0xA4, 0x1C, 0xDD, 0xE4, 0x5C, 0x90, 0x84, 0x6A, 0x79,
];
const PHRASE: &str = "crop cash unable insane eight faith inflict route frame loud box vibrant";

const LANGUAGES: [(&str, Language, bip39::Language); 8] = [
    ("english", Language::English, bip39::Language::English),
    ("chinese-simplified", Language::ChineseSimplified, bip39::Language::ChineseSimplified),
    ("chinese-traditional", Language::ChineseTraditional, bip39::Language::ChineseTraditional),
    ("japanese", Language::Japanese, bip39::Language::Japanese),
    ("spanish", Language::Spanish, bip39::Language::Spanish),
    ("korean", Language::Korean, bip39::Language::Korean),
    ("french", Language::French, bip39::Language::French),
    ("italian", Language::Italian, bip39::Language::Italian),
];

fn direct_keypair(entropy: &[u8], language: bip39::Language, passphrase: &str) -> solana_keypair::Keypair {
    let mnemonic = bip39::Mnemonic::from_entropy(entropy, language).unwrap();
    let seed = bip39::Seed::new(&mnemonic, passphrase);
    solana_keypair::keypair_from_seed(seed.as_bytes()).unwrap()
}

#[test]
fn word_counts_are_twelve_and_twenty_four() {
    assert_eq!(try_get_word_count("12"), Some(WordCount::Twelve));
    assert_eq!(try_get_word_count("24"), Some(WordCount::TwentyFour));
    assert_eq!(try_get_word_count("15"), None);
    assert_eq!(try_get_word_count(""), None);
    assert_eq!(WordCount::Twelve.count(), 12);
    assert_eq!(WordCount::TwentyFour.count(), 24);
}

#[test]
fn languages_are_read_by_name() {
    for (name, language, _) in LANGUAGES {
        assert_eq!(try_get_language(name), Some(language));
    }
    assert_eq!(try_get_language("klingon"), None);
    assert_eq!(try_get_language("English"), None);
}

#[test]
fn language_codes_select_the_word_lists() {
    for (_, language, expected) in LANGUAGES {
        assert_eq!(bip39::Language::from_language_code(language.code()), Some(expected));
        let mnemonic = Mnemonic::from_entropy(ENTROPY.to_vec(), language).unwrap();
        let direct = bip39::Mnemonic::from_entropy(&ENTROPY, expected).unwrap();
        assert_eq!(mnemonic.phrase(), direct.phrase());
        assert_eq!(mnemonic.language(), language);
    }
}

#[test]
fn mnemonic_of_known_entropy() {
    let mnemonic = Mnemonic::from_entropy(ENTROPY.to_vec(), Language::English).unwrap();
    assert_eq!(mnemonic.phrase(), PHRASE);
    assert_eq!(mnemonic.entropy(), &ENTROPY.to_vec());
    let seed = mnemonic.seed("TREZOR");
    let direct = bip39::Mnemonic::from_entropy(&ENTROPY, bip39::Language::English).unwrap();
    assert_eq!(seed, bip39::Seed::new(&direct, "TREZOR").as_bytes());
    assert_eq!(seed.len(), 64);
    assert_ne!(seed, mnemonic.seed(""));
}

#[test]
fn entropy_must_have_a_length_that_a_phrase_stands_for() {
    for len in 0usize..40 {
        let entropy = vec![7u8; len];
        let expected = bip39::Mnemonic::from_entropy(&entropy, bip39::Language::English).is_ok();
        assert_eq!(expected, matches!(len, 16 | 20 | 24 | 28 | 32));
        assert_eq!(Mnemonic::from_entropy(entropy.clone(), Language::English).is_some(), expected);
        match generate_from_entropy(entropy, Language::English, "") {
            Ok(_) => assert!(expected),
            Err(error) => {
                assert!(!expected);
                assert!(matches!(error, KeygenError::InvalidEntropyLength { len: found } if found == len));
                assert_eq!(error.message(), format!("invalid number of bytes of entropy: {len}"));
            }
        }
    }
}

#[test]
fn generation_is_determined_by_entropy_and_passphrase() {
    let (first, first_mnemonic) =
        generate_from_entropy(ENTROPY.to_vec(), Language::English, "secret").unwrap();
    let (second, second_mnemonic) =
        generate_from_entropy(ENTROPY.to_vec(), Language::English, "secret").unwrap();
    assert_eq!(first.secret_bytes(), second.secret_bytes());
    assert_eq!(first.pubkey(), second.pubkey());
    assert_eq!(first_mnemonic.phrase(), second_mnemonic.phrase());
    assert_eq!(first_mnemonic.phrase(), PHRASE);

    let (other, other_mnemonic) =
        generate_from_entropy(ENTROPY.to_vec(), Language::English, "Secret").unwrap();
    assert_eq!(other_mnemonic.phrase(), PHRASE);
    assert_ne!(other.secret_bytes(), first.secret_bytes());
    assert_ne!(other.pubkey(), first.pubkey());
}

#[test]
fn generated_keypair_is_that_of_direct_calls() {
    for passphrase in ["", "secret", "pässwörd"] {
        for (_, language, outside) in LANGUAGES {
            let (keypair, _) = generate_from_entropy(ENTROPY.to_vec(), language, passphrase).unwrap();
            let expected = direct_keypair(&ENTROPY, outside, passphrase);
            assert_eq!(&keypair.secret_bytes(), expected.secret_bytes());
            assert_eq!(keypair.pubkey().to_bytes(), expected.pubkey().to_bytes());
        }
    }
    let long = [0xA5u8; 32];
    let (keypair, mnemonic) = generate_from_entropy(long.to_vec(), Language::English, "x").unwrap();
    assert_eq!(mnemonic.phrase().split(' ').count(), 24);
    let expected = direct_keypair(&long, bip39::Language::English, "x");
    assert_eq!(&keypair.secret_bytes(), expected.secret_bytes());
}

#[test]
fn fresh_mnemonics_have_the_chosen_size() {
    let (keypair, mnemonic) = generate(WordCount::Twelve, Language::English, "");
    assert_eq!(mnemonic.entropy().len(), 16);
    assert_eq!(mnemonic.phrase().split(' ').count(), 12);
    let again = derive_keypair(&mnemonic, "");
    assert_eq!(again.secret_bytes(), keypair.secret_bytes());
    let expected = direct_keypair(mnemonic.entropy(), bip39::Language::English, "");
    assert_eq!(&keypair.secret_bytes(), expected.secret_bytes());

    let (_, mnemonic) = generate(WordCount::TwentyFour, Language::Spanish, "abc");
    assert_eq!(mnemonic.entropy().len(), 32);
    assert_eq!(mnemonic.phrase().split(' ').count(), 24);
    assert_eq!(mnemonic.language(), Language::Spanish);

    let fresh = Mnemonic::new(WordCount::Twelve, Language::Japanese);
    assert_eq!(fresh.entropy().len(), 16);
    let (_, other) = generate(WordCount::Twelve, Language::English, "");
    assert_ne!(other.entropy(), mnemonic.entropy());
}

#[test]
fn passphrase_is_confirmed() {
    let state = begin_passphrase(PassphraseMode::Interactive);
    assert!(matches!(state, PassphraseState::AwaitingFirst));
    assert!(passphrase_prompt(&state).unwrap().ends_with("BIP39 Passphrase (empty for none): "));
    let state = prompt_passphrase(state, String::from("abc"));
    assert!(matches!(&state, PassphraseState::AwaitingConfirmation { first } if first == "abc"));
    assert_eq!(passphrase_prompt(&state), Some("Enter same passphrase again: "));
    let state = prompt_passphrase(state, String::from("abc"));
    assert_eq!(passphrase_prompt(&state), None);
    let (passphrase, message) = acquire_passphrase_and_message(state).unwrap().unwrap();
    assert_eq!(passphrase, "abc");
    assert_eq!(message, " and your BIP39 passphrase");
}

#[test]
fn passphrase_mismatch_is_an_error() {
    let state = begin_passphrase(PassphraseMode::Interactive);
    let state = prompt_passphrase(state, String::from("abc"));
    let state = prompt_passphrase(state, String::from("xyz"));
    assert!(matches!(state, PassphraseState::Mismatch));
    assert_eq!(passphrase_prompt(&state), None);
    let state = prompt_passphrase(state, String::from("abc"));
    assert!(matches!(state, PassphraseState::Mismatch));
    let error = acquire_passphrase_and_message(state).unwrap().unwrap_err();
    assert!(matches!(error, KeygenError::PassphraseMismatch));
    assert_eq!(error.message(), "Unable to acquire passphrase: Passphrases did not match");
}

#[test]
fn empty_passphrase_is_not_confirmed() {
    let state = begin_passphrase(PassphraseMode::Interactive);
    let state = prompt_passphrase(state, String::new());
    assert_eq!(passphrase_prompt(&state), None);
    let (passphrase, message) = acquire_passphrase_and_message(state).unwrap().unwrap();
    assert_eq!(passphrase, "");
    assert_eq!(message, " and your BIP39 passphrase");
}

#[test]
fn no_passphrase_mode_asks_nothing() {
    let state = begin_passphrase(PassphraseMode::NoPassphrase);
    assert_eq!(passphrase_prompt(&state), None);
    let (passphrase, message) = acquire_passphrase_and_message(state).unwrap().unwrap();
    assert_eq!((passphrase.as_str(), message.as_str()), ("", ""));
    assert_eq!(no_passphrase_and_message(), (String::new(), String::new()));
    assert!(acquire_passphrase_and_message(PassphraseState::AwaitingFirst).is_none());
    let waiting = PassphraseState::AwaitingConfirmation { first: String::from("a") };
    assert!(acquire_passphrase_and_message(waiting).is_none());
}

#[test]
fn existing_file_is_overwritten_only_by_force() {
    match check_for_overwrite("id.json", false, true) {
        Err(error) => {
            assert!(matches!(&error, KeygenError::OverwriteRefused { path } if path == "id.json"));
            assert_eq!(error.message(), "Refusing to overwrite id.json without --force flag");
        }
        Ok(()) => panic!("the guard let an existing file be overwritten"),
    }
    assert!(check_for_overwrite("id.json", true, true).is_ok());
    assert!(check_for_overwrite("id.json", false, false).is_ok());
    assert!(check_for_overwrite("id.json", true, false).is_ok());
    assert!(overwrite_needs_lookup(false));
    assert!(!overwrite_needs_lookup(true));
}

#[test]
fn keypair_goes_to_standard_output_or_to_a_file() {
    let (keypair, _) = generate_from_entropy(ENTROPY.to_vec(), Language::English, "").unwrap();
    let direct = direct_keypair(&ENTROPY, bip39::Language::English, "");
    let mut sink: Vec<u8> = Vec::new();
    let expected = solana_keypair::write_keypair(&direct, &mut sink).unwrap();
    match output_keypair(&keypair, "-", "new") {
        KeypairOutput::Stdout { text } => {
            assert_eq!(text, expected);
            assert_eq!(text.as_bytes(), sink.as_slice());
            assert!(text.starts_with('[') && text.ends_with(']'));
            assert_eq!(text.split(',').count(), 64);
        }
        other => panic!("unexpected {other:?}"),
    }
    match output_keypair(&keypair, "keys/id.json", "new") {
        KeypairOutput::File { path, notice } => {
            assert_eq!(path, "keys/id.json");
            assert_eq!(notice, "Wrote new keypair to keys/id.json");
        }
        other => panic!("unexpected {other:?}"),
    }
    assert!(matches!(output_keypair(&keypair, "--", "new"), KeypairOutput::File { .. }));
}

#[test]
fn keypair_text_is_read_back() {
    let (keypair, _) = generate_from_entropy(ENTROPY.to_vec(), Language::English, "p").unwrap();
    let text = match output_keypair(&keypair, "-", "new") {
        KeypairOutput::Stdout { text } => text,
        other => panic!("unexpected {other:?}"),
    };
    let read = parse_keypair_from_path("-", &FileRead::Text(text)).unwrap();
    assert_eq!(read.secret_bytes(), keypair.secret_bytes());
    assert_eq!(read.pubkey(), keypair.pubkey());
}

#[test]
fn seed_phrase_is_shown_between_dividers() {
    let (keypair, mnemonic) = generate_from_entropy(ENTROPY.to_vec(), Language::English, "").unwrap();
    let key_text = direct_keypair(&ENTROPY, bip39::Language::English, "").pubkey().to_string();
    let divider = "=".repeat(PHRASE.len());
    let expected = format!(
        "{divider}\npubkey: {key_text}\n{divider}\nSave this seed phrase and your BIP39 passphrase to recover your new keypair:\n{PHRASE}\n{divider}"
    );
    let shown = render_seed_phrase(mnemonic.phrase(), &keypair.pubkey(), " and your BIP39 passphrase");
    assert_eq!(shown, expected);
    assert_eq!(divider.len(), 72);

    let shown = render_seed_phrase("ab", &keypair.pubkey(), "");
    assert_eq!(
        shown,
        format!("==\npubkey: {key_text}\n==\nSave this seed phrase to recover your new keypair:\nab\n==")
    );
}

#[test]
fn divider_is_as_long_as_the_phrase_has_bytes() {
    let mnemonic = Mnemonic::from_entropy(ENTROPY.to_vec(), Language::Japanese).unwrap();
    let keypair = derive_keypair(&mnemonic, "");
    let shown = render_seed_phrase(mnemonic.phrase(), &keypair.pubkey(), "");
    let first_line = shown.lines().next().unwrap();
    assert_eq!(first_line.len(), mnemonic.phrase().len());
    assert!(first_line.len() > mnemonic.phrase().chars().count());
    assert!(first_line.chars().all(|c| c == '='));
    assert!(shown.ends_with(first_line));
}

#[test]
fn keypair_text_lists_the_bytes_in_decimal() {
    let (keypair, _) = generate_from_entropy(ENTROPY.to_vec(), Language::English, "").unwrap();
    let mut bytes = keypair.secret_bytes().to_vec();
    bytes.extend_from_slice(&keypair.pubkey().to_bytes());
    let numbers: Vec<String> = bytes.iter().map(|byte| byte.to_string()).collect();
    let expected = format!("[{}]", numbers.join(","));
    match output_keypair(&keypair, "-", "new") {
        KeypairOutput::Stdout { text } => assert_eq!(text, expected),
        other => panic!("unexpected {other:?}"),
    }
}

#[test]
fn outfile_is_the_named_one_or_the_default() {
    assert_eq!(choose_outfile(Some("a.json"), "d.json"), "a.json");
    assert_eq!(choose_outfile(Some("-"), "d.json"), "-");
    assert_eq!(choose_outfile(None, "d.json"), "d.json");
}

#[test]
fn failures_of_the_terminal_and_the_file_are_put_in_words() {
    let error = KeygenError::PromptFailed { cause: String::from("not a terminal") };
    assert_eq!(error.message(), "Unable to acquire passphrase: not a terminal");
    let error =
        KeygenError::WriteFailed { path: String::from("id.json"), cause: String::from("disk full") };
    assert_eq!(error.message(), "Unable to write id.json: disk full");
}

#[test]
fn silence_shows_nothing() {
    let (keypair, mnemonic) = generate_from_entropy(ENTROPY.to_vec(), Language::English, "").unwrap();
    assert_eq!(display_seed_phrase(true, mnemonic.phrase(), &keypair.pubkey(), ""), None);
    let shown = display_seed_phrase(false, mnemonic.phrase(), &keypair.pubkey(), "").unwrap();
    assert_eq!(shown, render_seed_phrase(mnemonic.phrase(), &keypair.pubkey(), ""));
    assert!(shown.contains(PHRASE));
}
