use sigrake::driver::StepOutcome;
use sigrake::format_signature;
use sigrake::run_search;
use sigrake::sample_candidate;
use sigrake::search_step;
use sigrake::selector_of;
use sigrake::ConfigError;
use sigrake::DedupRegistry;
use sigrake::InsertOutcome;
use sigrake::RakeFlags;

fn words(list: &[&str]) -> Vec<String> {
    list.iter().map(|w| w.to_string()).collect()
}

#[test]
fn golden_vector_transfer() {
    let selector = selector_of("transfer(address,uint256)");
    assert_eq!(selector, "a9059cbb");
}

#[test]
fn hashing_is_deterministic() {
    let a = selector_of("balanceOf(address)");
    let b = selector_of("balanceOf(address)");
    assert_eq!(a, b);
    assert_eq!(a.len(), 8);
    assert!(a.chars().all(|c| c.is_ascii_hexdigit() && !c.is_ascii_uppercase()));
}

#[test]
fn selector_differs_from_input() {
    // The digest and hex stages really transform their input: the selector
    // of an 8-character string is not that string.
    let sig = "aaaaaaaa";
    let selector = selector_of(sig);
    assert_eq!(selector.len(), 8);
    assert_ne!(selector, sig);
}

#[test]
fn formats_camel_case_name() {
    let sig = format_signature(&words(&["foo", "bar", "baz"]), "");
    assert_eq!(sig, "fooBarBaz()");
}

#[test]
fn formats_empty_word_list() {
    let sig = format_signature(&words(&[]), "");
    assert_eq!(sig, "()");
}

#[test]
fn first_word_kept_verbatim() {
    // Only later words are title-cased; the first is used as given.
    let sig = format_signature(&words(&["get", "owner"]), "address");
    assert_eq!(sig, "getOwner(address)");
}

#[test]
fn args_pass_through_unmodified() {
    let sig = format_signature(&words(&["swap"]), "uint256[],address,(bytes32,bool)");
    assert_eq!(sig, "swap(uint256[],address,(bytes32,bool))");
}

#[test]
fn registry_insert_once() {
    let mut registry = DedupRegistry::new();
    let first = registry.check_and_maybe_insert(0xa9059cbb, "transfer(address,uint256)".to_string());
    assert_eq!(first, InsertOutcome::Inserted);
    let second = registry.check_and_maybe_insert(0xa9059cbb, "other(uint256)".to_string());
    assert_eq!(second, InsertOutcome::AlreadyPresent);
    let third = registry.check_and_maybe_insert(0xa9059cbb, "transfer(address,uint256)".to_string());
    assert_eq!(third, InsertOutcome::AlreadyPresent);
    assert_eq!(registry.len(), 1);
    assert!(registry.contains(0xa9059cbb));
    assert!(!registry.contains(0));
}

#[test]
fn registry_distinct_keys() {
    let mut registry = DedupRegistry::new();
    assert_eq!(registry.check_and_maybe_insert(1, "a()".to_string()), InsertOutcome::Inserted);
    assert_eq!(registry.check_and_maybe_insert(2, "b()".to_string()), InsertOutcome::Inserted);
    assert_eq!(registry.len(), 2);
}

#[test]
fn empty_dictionary_is_refused() {
    let flags = RakeFlags::new(Vec::new(), String::new(), "00000000".to_string(), false);
    match run_search(&flags, 100) {
        Err(e) => assert_eq!(e, ConfigError::EmptyDictionary),
        Ok(_) => panic!("an empty dictionary must be refused"),
    }
}

#[test]
fn reported_selectors_are_distinct() {
    let flags = RakeFlags::new(
        words(&["foo", "bar", "baz", "qux", "quux"]),
        String::new(),
        "00000000".to_string(),
        false,
    );
    let out = run_search(&flags, 5_000).expect("dictionary is non-empty");
    for i in 0..out.reported.len() {
        for j in (i + 1)..out.reported.len() {
            assert_ne!(out.reported[i].selector, out.reported[j].selector);
        }
    }
}

#[test]
fn reachable_target_is_matched_and_halts() {
    // With dictionary ["foo", "bar"] the sampled name uses fewer words than
    // the dictionary holds, so the reachable signatures are "()", "foo()"
    // and "bar()".  Aim at "foo()" and give the sampler ample iterations.
    let target = selector_of("foo()");
    let flags = RakeFlags::new(words(&["foo", "bar"]), String::new(), target.clone(), false);
    let out = run_search(&flags, 50_000).expect("dictionary is non-empty");
    let matched = out.matched.expect("the target selector is reachable");
    assert_eq!(matched.selector, target);
    assert_eq!(matched.signature, "foo()");
    for fd in &out.reported {
        assert_ne!(fd.selector, target);
    }
}

#[test]
fn single_word_dictionary_does_not_crash() {
    // A dictionary of one word only ever samples the empty candidate, so
    // the run sees at most the one signature "()".
    let flags = RakeFlags::new(words(&["lonely"]), String::new(), "00000000".to_string(), false);
    let out = run_search(&flags, 1_000).expect("dictionary is non-empty");
    assert!(out.reported.len() + (out.matched.is_some() as usize) <= 1);
    for fd in &out.reported {
        assert_eq!(fd.signature, "()");
    }
}

#[test]
fn zero_budget_reports_nothing() {
    let flags = RakeFlags::new(words(&["foo"]), String::new(), "00000000".to_string(), false);
    let out = run_search(&flags, 0).expect("dictionary is non-empty");
    assert!(out.reported.is_empty());
    assert!(out.matched.is_none());
}

#[test]
fn first_iteration_always_claims_a_selector() {
    // One iteration on an empty registry can never be a duplicate, so a
    // budget of one collects exactly one pair.
    let flags = RakeFlags::new(words(&["foo", "bar"]), String::new(), "00000000".to_string(), false);
    let out = run_search(&flags, 1).expect("dictionary is non-empty");
    assert_eq!(out.reported.len() + (out.matched.is_some() as usize), 1);
}

#[test]
fn budget_bounds_the_output() {
    let flags = RakeFlags::new(
        words(&["foo", "bar", "baz", "qux"]),
        String::new(),
        "00000000".to_string(),
        false,
    );
    let out = run_search(&flags, 7).expect("dictionary is non-empty");
    let total = out.reported.len() + (out.matched.is_some() as usize);
    assert!(total >= 1);
    assert!(total <= 7);
}

#[test]
fn sampler_draws_distinct_words_from_dictionary() {
    let dict = words(&["alpha", "beta", "gamma", "delta"]);
    for _ in 0..200 {
        let sample = sample_candidate(&dict);
        assert!(sample.len() < dict.len());
        for w in &sample {
            assert!(dict.contains(w));
        }
        for i in 0..sample.len() {
            for j in (i + 1)..sample.len() {
                assert_ne!(sample[i], sample[j]);
            }
        }
    }
}

#[test]
fn step_reports_then_deduplicates() {
    // With one word the only candidate is "()", so the first step claims
    // its selector and every later step is a duplicate.
    let flags = RakeFlags::new(words(&["only"]), String::new(), "00000000".to_string(), false);
    let mut registry = DedupRegistry::new();
    match search_step(&mut registry, &flags) {
        StepOutcome::Reported(fd) => {
            assert_eq!(fd.signature, "()");
            assert_eq!(fd.selector, selector_of("()"));
        }
        StepOutcome::Matched(_) => panic!("the target selector was not aimed at \"()\""),
        StepOutcome::Duplicate => panic!("the first step cannot be a duplicate"),
    }
    for _ in 0..10 {
        match search_step(&mut registry, &flags) {
            StepOutcome::Duplicate => {}
            _ => panic!("a claimed selector must not be claimed again"),
        }
    }
}
