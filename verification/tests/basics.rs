use keyspace::error::{push_decimal, SearchError};
use keyspace::persist::{home_key_directory_name, key_directory, KeyDirectory, PersistDecision};
use keyspace::progress::{is_report_due, SearchProgress, PROGRESS_INTERVAL};
use keyspace::request::{KeyAlgorithm, SearchRequest, DEFAULT_MAX_ATTEMPTS};
use keyspace::text::{same_text, starts_with};

#[test]
fn algorithm_identifiers_are_read() {
    assert!(matches!(KeyAlgorithm::parse("ed25519"), Ok(KeyAlgorithm::Ed25519)));
    assert!(matches!(KeyAlgorithm::parse("rsa"), Ok(KeyAlgorithm::Rsa)));
    assert!(matches!(KeyAlgorithm::parse("ecdsa"), Ok(KeyAlgorithm::EcdsaP256)));
}

#[test]
fn unknown_algorithm_identifier_is_a_configuration_error() {
    match KeyAlgorithm::parse("dsa") {
        Err(SearchError::Configuration { algorithm }) => assert_eq!(algorithm, "dsa"),
        other => panic!("expected a configuration error, got {:?}", other),
    }
    assert!(matches!(KeyAlgorithm::parse("ED25519"), Err(SearchError::Configuration { .. })));
    assert!(matches!(KeyAlgorithm::parse(""), Err(SearchError::Configuration { .. })));
    assert!(matches!(KeyAlgorithm::parse("rsa "), Err(SearchError::Configuration { .. })));
}

#[test]
fn defaults_are_ed25519_and_a_hundred_thousand_attempts() {
    assert_eq!(KeyAlgorithm::default_name(), "ed25519");
    assert!(matches!(
        KeyAlgorithm::parse(KeyAlgorithm::default_name()),
        Ok(KeyAlgorithm::Ed25519)
    ));
    assert_eq!(DEFAULT_MAX_ATTEMPTS, 100000);
}

#[test]
fn request_accepts_texts_that_start_with_its_prefix() {
    let request = SearchRequest::new("ssh-ed25519 AAAA".to_string(), KeyAlgorithm::Ed25519, 1);
    assert!(request.accepts("ssh-ed25519 AAAAC3NzaC1lZDI1NTE5"));
    assert!(request.accepts("ssh-ed25519 AAAA"));
    assert!(!request.accepts("ssh-ed25519 AAA"));
    assert!(!request.accepts("ssh-ed25519 aaaaC3NzaC1lZDI1NTE5"));
    assert!(!request.accepts("ssh-rsa AAAA"));
    let any = SearchRequest::new(String::new(), KeyAlgorithm::Ed25519, 1);
    assert!(any.accepts("ssh-rsa AAAA"));
    assert!(any.accepts(""));
}

#[test]
fn request_keeps_what_it_is_given() {
    let request = SearchRequest::new("abc".to_string(), KeyAlgorithm::Rsa, 100000);
    assert_eq!(request.desired_prefix, "abc");
    assert_eq!(request.algorithm, KeyAlgorithm::Rsa);
    assert_eq!(request.max_attempts, 100000);
}

#[test]
fn error_messages_are_exact() {
    let error = SearchError::Configuration { algorithm: "dsa".to_string() };
    assert_eq!(error.message(), "Unsupported algorithm: dsa");
    let error = SearchError::BudgetExhausted { attempts: 0 };
    assert_eq!(error.message(), "Failed to find matching key after 0 attempts");
    let error = SearchError::BudgetExhausted { attempts: 4294967295 };
    assert_eq!(error.message(), "Failed to find matching key after 4294967295 attempts");
    let error = SearchError::Generation { detail: "unknown algorithm".to_string() };
    assert_eq!(error.message(), "unknown algorithm");
    let error = SearchError::Encoding { detail: "length invalid".to_string() };
    assert_eq!(error.message(), "length invalid");
    assert_eq!(SearchError::HomeDirectory.message(), "Cannot find home directory");
}

#[test]
fn decimal_digits_are_appended() {
    for n in [0u32, 7, 10, 99, 100, 1000, 90210, 4294967295] {
        let mut text = String::from("n=");
        push_decimal(&mut text, n);
        assert_eq!(text, format!("n={}", n));
    }
}

#[test]
fn rate_is_attempts_per_whole_second() {
    assert_eq!(SearchProgress::new(3000, 2).rate, 1500);
    assert_eq!(SearchProgress::new(1000, 3).rate, 333);
    assert_eq!(SearchProgress::new(1000, 1001).rate, 0);
    let progress = SearchProgress::new(2000, 4);
    assert_eq!(progress.attempts_so_far, 2000);
    assert_eq!(progress.elapsed_seconds, 4);
    assert_eq!(progress.rate, 500);
}

#[test]
fn rate_is_the_attempt_count_before_the_first_second() {
    assert_eq!(SearchProgress::new(1000, 0).rate, 1000);
    assert_eq!(SearchProgress::new(0, 0).rate, 0);
}

#[test]
fn reports_are_due_at_multiples_of_the_interval() {
    assert_eq!(PROGRESS_INTERVAL, 1000);
    assert!(is_report_due(1000));
    assert!(is_report_due(2000));
    assert!(is_report_due(5_000_000));
    assert!(!is_report_due(1));
    assert!(!is_report_due(999));
    assert!(!is_report_due(1001));
}

#[test]
fn prefix_test_goes_by_bytes() {
    assert!(starts_with("ssh-ed25519 AAAA", "ssh-ed25519"));
    assert!(starts_with("abc", ""));
    assert!(starts_with("", ""));
    assert!(starts_with("abc", "abc"));
    assert!(!starts_with("abc", "abcd"));
    assert!(!starts_with("", "a"));
    assert!(!starts_with("Abc", "ab"));
    assert!(!starts_with("xabc", "abc"));
    assert!(starts_with("h\u{e9}llo", "h\u{e9}"));
    assert!(!starts_with("h\u{e9}llo", "he"));
}

#[test]
fn texts_are_compared_by_their_characters() {
    assert!(same_text("yes", "yes"));
    assert!(same_text("", ""));
    assert!(!same_text("yes", "yes "));
    assert!(!same_text("yes", "Yes"));
    assert!(!same_text("yes", "yea"));
    assert!(same_text("h\u{e9}", "h\u{e9}"));
}

#[test]
fn yes_answers_mean_saving() {
    for answer in ["y", "yes", "Y", "YES", "Yes", "y\n", "  yes  ", "\tyEs\r\n"] {
        assert_eq!(PersistDecision::from_answer(answer), PersistDecision::Save, "{:?}", answer);
    }
}

#[test]
fn other_answers_mean_not_saving() {
    for answer in ["", "\n", "n", "no", "N", "yeah", "ye", "y es", "yes please", "1"] {
        assert_eq!(PersistDecision::from_answer(answer), PersistDecision::Discard, "{:?}", answer);
    }
}

#[test]
fn normalized_answers_are_taken_as_they_stand() {
    assert_eq!(PersistDecision::from_normalized("y"), PersistDecision::Save);
    assert_eq!(PersistDecision::from_normalized("yes"), PersistDecision::Save);
    assert_eq!(PersistDecision::from_normalized("Y"), PersistDecision::Discard);
    assert_eq!(PersistDecision::from_normalized(" y"), PersistDecision::Discard);
    assert!(PersistDecision::Save.is_save());
    assert!(!PersistDecision::Discard.is_save());
}

#[test]
fn named_directory_is_taken() {
    let directory = key_directory(Some("/tmp/keys"), Some("/home/me"));
    assert!(matches!(directory, Ok(KeyDirectory::Given("/tmp/keys"))));
    let directory = key_directory(Some("/tmp/keys"), None);
    assert!(matches!(directory, Ok(KeyDirectory::Given("/tmp/keys"))));
}

#[test]
fn home_directory_is_the_fallback() {
    let directory = key_directory(None, Some("/home/me"));
    assert!(matches!(directory, Ok(KeyDirectory::UnderHome("/home/me"))));
    assert_eq!(home_key_directory_name(), ".ssh");
}

#[test]
fn no_directory_at_all_is_an_error() {
    let directory = key_directory::<&str>(None, None);
    assert!(matches!(directory, Err(SearchError::HomeDirectory)));
}
