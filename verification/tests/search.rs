use keyspace::error::SearchError;
use keyspace::progress::SearchProgress;
use keyspace::request::{KeyAlgorithm, SearchRequest};
use keyspace::scripted::{CountingGenerator, MarkingEncoder};
use keyspace::search::{Encoder, KeyGenerator, SearchOutcome, SearchStep, VanitySearch};

type Search = VanitySearch<u64, CountingGenerator<0>, MarkingEncoder>;

fn encoder(matching: Option<u64>, failing: Option<u64>) -> MarkingEncoder {
    MarkingEncoder {
        matching,
        failing,
        marked_text: "AAAA-key".to_string(),
        plain_text: "miss".to_string(),
    }
}

fn request(prefix: &str, max_attempts: u32) -> SearchRequest {
    SearchRequest::new(prefix.to_string(), KeyAlgorithm::Ed25519, max_attempts)
}

fn search(prefix: &str, max_attempts: u32, matching: Option<u64>) -> Search {
    VanitySearch::new(request(prefix, max_attempts), CountingGenerator::<0>::new(), encoder(matching, None))
}

/// Advances the search to its end and keeps the reports it hands out.
fn run_with_reports<const FAILING: u64>(
    search: &mut VanitySearch<u64, CountingGenerator<FAILING>, MarkingEncoder>,
) -> (Result<SearchOutcome<u64>, SearchError>, Vec<SearchProgress>) {
    let mut reports = Vec::new();
    loop {
        match search.advance() {
            SearchStep::Report(progress) => reports.push(progress),
            SearchStep::Done(result) => return (result, reports),
        }
    }
}

#[test]
fn counting_generator_numbers_its_keys() {
    let mut generator = CountingGenerator::<0>::new();
    assert_eq!(generator.calls(), 0);
    assert_eq!(generator.last_asked(), None);
    assert_eq!(generator.generate(KeyAlgorithm::Rsa), Ok(1));
    assert_eq!(generator.generate(KeyAlgorithm::Ed25519), Ok(2));
    assert_eq!(generator.generate(KeyAlgorithm::EcdsaP256), Ok(3));
    assert_eq!(generator.calls(), 3);
    assert_eq!(generator.last_asked(), Some(KeyAlgorithm::EcdsaP256));
}

#[test]
fn counting_generator_fails_at_the_chosen_call_only() {
    let mut generator = CountingGenerator::<2>::new();
    assert_eq!(generator.generate(KeyAlgorithm::Ed25519), Ok(1));
    assert_eq!(
        generator.generate(KeyAlgorithm::Ed25519),
        Err("no key at this call".to_string())
    );
    assert_eq!(generator.generate(KeyAlgorithm::Ed25519), Ok(3));
    assert_eq!(generator.calls(), 3);
}

#[test]
fn marking_encoder_gives_the_same_text_for_the_same_key() {
    let encoder = encoder(Some(37), Some(40));
    assert_eq!(encoder.encode(&37), Ok("AAAA-key".to_string()));
    assert_eq!(encoder.encode(&36), Ok("miss".to_string()));
    assert_eq!(encoder.encode(&40), Err("cannot render this key".to_string()));
    assert_eq!(encoder.encode(&37), Ok("AAAA-key".to_string()));
    assert_eq!(encoder.encode(&36), Ok("miss".to_string()));
    let both = MarkingEncoder {
        matching: Some(5),
        failing: Some(5),
        marked_text: "a".to_string(),
        plain_text: "b".to_string(),
    };
    assert_eq!(both.encode(&5), Err("cannot render this key".to_string()));
}

#[test]
fn zero_budget_is_exhausted_without_a_key() {
    let mut search = search("AAAA", 0, Some(1));
    let result = search.run();
    assert!(matches!(result, Ok(SearchOutcome::Exhausted { attempts_taken: 0 })));
    assert_eq!(search.generator().calls(), 0);
    assert_eq!(search.attempts_made(), 0);
}

#[test]
fn zero_budget_is_exhausted_even_with_the_empty_prefix() {
    let mut search = search("", 0, None);
    let result = search.run();
    assert!(matches!(result, Ok(SearchOutcome::Exhausted { attempts_taken: 0 })));
    assert_eq!(search.generator().calls(), 0);
}

#[test]
fn empty_prefix_is_found_at_the_first_attempt() {
    let mut search = search("", 100, None);
    match search.run() {
        Ok(SearchOutcome::Found { keypair, encoded_public_key, attempts_taken, .. }) => {
            assert_eq!(attempts_taken, 1);
            assert_eq!(keypair, 1);
            assert_eq!(encoded_public_key, "miss");
        }
        other => panic!("expected a match, got {:?}", other),
    }
    assert_eq!(search.generator().calls(), 1);
}

#[test]
fn unreachable_prefix_uses_the_whole_budget() {
    let mut search = search("!", 50, Some(3));
    let result = search.run();
    assert!(matches!(result, Ok(SearchOutcome::Exhausted { attempts_taken: 50 })));
    assert_eq!(search.generator().calls(), 50);
    assert_eq!(search.attempts_made(), 50);
}

#[test]
fn prefix_longer_than_any_text_uses_the_whole_budget() {
    let mut search = search("AAAA-key-and-much-more", 7, Some(2));
    let result = search.run();
    assert!(matches!(result, Ok(SearchOutcome::Exhausted { attempts_taken: 7 })));
    assert_eq!(search.generator().calls(), 7);
}

#[test]
fn match_at_the_37th_call_ends_the_search_there() {
    let mut search = search("AAAA", 5_000_000, Some(37));
    match search.run() {
        Ok(SearchOutcome::Found { keypair, encoded_public_key, attempts_taken, .. }) => {
            assert_eq!(attempts_taken, 37);
            assert_eq!(keypair, 37);
            assert_eq!(encoded_public_key, "AAAA-key");
        }
        other => panic!("expected a match, got {:?}", other),
    }
    assert_eq!(search.generator().calls(), 37);
    assert_eq!(search.attempts_made(), 37);
}

#[test]
fn match_at_the_last_attempt_of_the_budget_is_found() {
    let mut search = search("AAAA", 5, Some(5));
    let result = search.run();
    assert!(matches!(result, Ok(SearchOutcome::Found { attempts_taken: 5, keypair: 5, .. })));
    assert_eq!(search.generator().calls(), 5);
}

#[test]
fn match_one_past_the_budget_is_not_reached() {
    let mut search = search("AAAA", 5, Some(6));
    let result = search.run();
    assert!(matches!(result, Ok(SearchOutcome::Exhausted { attempts_taken: 5 })));
    assert_eq!(search.generator().calls(), 5);
}

#[test]
fn prefix_match_is_case_sensitive() {
    let mut search = search("aaaa", 3, Some(1));
    let result = search.run();
    assert!(matches!(result, Ok(SearchOutcome::Exhausted { attempts_taken: 3 })));
}

#[test]
fn generator_is_asked_for_the_algorithm_of_the_request() {
    for algorithm in [KeyAlgorithm::Ed25519, KeyAlgorithm::Rsa, KeyAlgorithm::EcdsaP256] {
        let wanted = SearchRequest::new("x".to_string(), algorithm, 3);
        let mut search = VanitySearch::new(wanted, CountingGenerator::<0>::new(), encoder(None, None));
        let _ = search.run();
        assert_eq!(search.generator().last_asked(), Some(algorithm));
    }
}

#[test]
fn generator_that_was_used_before_is_counted_from_where_it_stands() {
    let mut generator = CountingGenerator::<0>::new();
    let _ = generator.generate(KeyAlgorithm::Ed25519);
    let _ = generator.generate(KeyAlgorithm::Ed25519);
    let mut search = VanitySearch::new(request("AAAA", 10), generator, encoder(Some(5), None));
    let result = search.run();
    assert!(matches!(result, Ok(SearchOutcome::Found { attempts_taken: 3, keypair: 5, .. })));
    assert_eq!(search.generator().calls(), 5);
    assert_eq!(search.attempts_made(), 3);
}

#[test]
fn generation_failure_ends_the_search_and_is_not_tried_again() {
    let mut search =
        VanitySearch::new(request("AAAA", 100), CountingGenerator::<4>::new(), encoder(Some(10), None));
    match search.run() {
        Err(SearchError::Generation { detail }) => assert_eq!(detail, "no key at this call"),
        other => panic!("expected a generation error, got {:?}", other),
    }
    assert_eq!(search.generator().calls(), 4);
    assert_eq!(search.attempts_made(), 4);
}

#[test]
fn encoding_failure_ends_the_search_and_is_not_tried_again() {
    let mut search = VanitySearch::new(
        request("AAAA", 100),
        CountingGenerator::<0>::new(),
        encoder(Some(10), Some(3)),
    );
    match search.run() {
        Err(SearchError::Encoding { detail }) => assert_eq!(detail, "cannot render this key"),
        other => panic!("expected an encoding error, got {:?}", other),
    }
    assert_eq!(search.generator().calls(), 3);
}

#[test]
fn progress_is_reported_every_thousand_attempts() {
    let mut search = search("AAAA", 3500, None);
    let (result, reports) = run_with_reports(&mut search);
    assert!(matches!(result, Ok(SearchOutcome::Exhausted { attempts_taken: 3500 })));
    let attempts: Vec<u32> = reports.iter().map(|r| r.attempts_so_far).collect();
    assert_eq!(attempts, vec![1000, 2000, 3000]);
    for pair in reports.windows(2) {
        assert!(pair[0].attempts_so_far < pair[1].attempts_so_far);
    }
    for report in &reports {
        let expected = if report.elapsed_seconds == 0 {
            report.attempts_so_far as u64
        } else {
            report.attempts_so_far as u64 / report.elapsed_seconds
        };
        assert_eq!(report.rate, expected);
    }
    assert_eq!(search.generator().calls(), 3500);
}

#[test]
fn progress_is_reported_before_the_key_of_that_attempt_is_made() {
    let mut search = search("AAAA", 5000, Some(1000));
    match search.advance() {
        SearchStep::Report(progress) => assert_eq!(progress.attempts_so_far, 1000),
        other => panic!("expected a report, got {:?}", other),
    }
    assert_eq!(search.generator().calls(), 999);
    assert_eq!(search.attempts_made(), 999);
    match search.advance() {
        SearchStep::Done(Ok(SearchOutcome::Found { attempts_taken, keypair, .. })) => {
            assert_eq!(attempts_taken, 1000);
            assert_eq!(keypair, 1000);
        }
        other => panic!("expected a match, got {:?}", other),
    }
    assert_eq!(search.generator().calls(), 1000);
}

#[test]
fn report_at_the_failing_attempt_is_still_handed_out() {
    let mut search = VanitySearch::new(
        request("AAAA", 5000),
        CountingGenerator::<1000>::new(),
        encoder(None, None),
    );
    let (result, reports) = run_with_reports(&mut search);
    assert!(matches!(result, Err(SearchError::Generation { .. })));
    assert_eq!(reports.len(), 1);
    assert_eq!(reports[0].attempts_so_far, 1000);
}

#[test]
fn no_progress_is_reported_below_a_thousand_attempts() {
    let mut search = search("AAAA", 999, None);
    let (result, reports) = run_with_reports(&mut search);
    assert!(matches!(result, Ok(SearchOutcome::Exhausted { attempts_taken: 999 })));
    assert!(reports.is_empty());
}

#[test]
fn budget_of_a_thousand_is_reported_once() {
    let mut search = search("AAAA", 1000, None);
    let (result, reports) = run_with_reports(&mut search);
    assert!(matches!(result, Ok(SearchOutcome::Exhausted { attempts_taken: 1000 })));
    assert_eq!(reports.len(), 1);
    assert_eq!(search.generator().calls(), 1000);
}

#[test]
fn run_lets_the_reports_go_and_gives_the_same_end() {
    let mut search = search("AAAA", 5000, Some(2500));
    let result = search.run();
    assert!(matches!(result, Ok(SearchOutcome::Found { attempts_taken: 2500, .. })));
    assert_eq!(search.generator().calls(), 2500);
}

#[test]
fn a_second_run_goes_on_within_the_same_budget() {
    let mut search = search("AAAA", 6, Some(2));
    let first = search.run();
    assert!(matches!(first, Ok(SearchOutcome::Found { attempts_taken: 2, .. })));
    let second = search.run();
    assert!(matches!(second, Ok(SearchOutcome::Exhausted { attempts_taken: 6 })));
    assert_eq!(search.generator().calls(), 6);
    let third = search.run();
    assert!(matches!(third, Ok(SearchOutcome::Exhausted { attempts_taken: 6 })));
    assert_eq!(search.generator().calls(), 6);
}

#[test]
fn exhausted_outcome_gives_the_budget_error() {
    let outcome: SearchOutcome<u64> = SearchOutcome::Exhausted { attempts_taken: 100000 };
    assert_eq!(outcome.attempts_taken(), 100000);
    match outcome.budget_error() {
        Some(error) => {
            assert!(matches!(error, SearchError::BudgetExhausted { attempts: 100000 }));
            assert_eq!(error.message(), "Failed to find matching key after 100000 attempts");
        }
        None => panic!("expected an error"),
    }
}

#[test]
fn found_outcome_gives_no_error() {
    let outcome: SearchOutcome<u64> = SearchOutcome::Found {
        keypair: 7,
        encoded_public_key: "AAAA-7".to_string(),
        attempts_taken: 7,
        elapsed: std::time::Duration::from_millis(1500),
    };
    assert_eq!(outcome.attempts_taken(), 7);
    assert!(outcome.budget_error().is_none());
}
