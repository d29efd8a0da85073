use sigrake::RakeBuilder;
use sigrake::RakeFlags;

fn words(list: &[&str]) -> Vec<String> {
    list.iter().map(|w| w.to_string()).collect()
}

#[test]
fn builder_collects_every_field() {
    let flags = RakeFlags::builder()
        .dictionary(words(&["foo", "bar"]))
        .function_args("address,uint256".to_string())
        .match_selector("a9059cbb".to_string())
        .with_openchain(true)
        .build();
    assert_eq!(flags.dictionary_words(), &words(&["foo", "bar"]));
    assert_eq!(flags.func_args_str(), "address,uint256");
    assert_eq!(flags.match_selector_str(), "a9059cbb");
    assert!(flags.openchain_enabled());
}

#[test]
fn builder_starts_empty() {
    let flags = RakeBuilder::new().build();
    assert!(flags.dictionary_words().is_empty());
    assert_eq!(flags.func_args_str(), "");
    assert_eq!(flags.match_selector_str(), "");
    assert!(!flags.openchain_enabled());
}

#[test]
fn new_sets_every_field() {
    let flags = RakeFlags::new(
        words(&["mint"]),
        "uint256".to_string(),
        "00000000".to_string(),
        false,
    );
    assert_eq!(flags.dictionary_words(), &words(&["mint"]));
    assert_eq!(flags.func_args_str(), "uint256");
    assert_eq!(flags.match_selector_str(), "00000000");
    assert!(!flags.openchain_enabled());
}

#[test]
fn default_builder_matches_new() {
    let a = RakeBuilder::default().build();
    let b = RakeBuilder::new().build();
    assert_eq!(a.dictionary_words(), b.dictionary_words());
    assert_eq!(a.func_args_str(), b.func_args_str());
    assert_eq!(a.match_selector_str(), b.match_selector_str());
    assert_eq!(a.openchain_enabled(), b.openchain_enabled());
}
