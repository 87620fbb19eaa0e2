use probers::init::{Directive, ProviderInitializer};
use std::cell::Cell;

#[test]
fn accessor_builds_once_and_returns_the_same_provider() {
    let builds = Cell::new(0u32);
    let mut init: ProviderInitializer<u32, String> = ProviderInitializer::new();
    assert_eq!(init.peek(), None);
    assert_eq!(init.get_init_error(), None);
    for _ in 0..5 {
        let got = init.get(|| {
            builds.set(builds.get() + 1);
            Ok(7 + builds.get())
        });
        assert_eq!(got, Some(&8));
    }
    assert_eq!(builds.get(), 1);
    assert_eq!(init.peek(), Some(&8));
    assert_eq!(init.get_init_error(), None);
}

#[test]
fn failure_is_kept_and_not_retried() {
    let builds = Cell::new(0u32);
    let mut init: ProviderInitializer<u32, String> = ProviderInitializer::new();
    for _ in 0..4 {
        let got = init.get(|| {
            builds.set(builds.get() + 1);
            if builds.get() == 1 {
                Err(String::from("no tracing here"))
            } else {
                Ok(1)
            }
        });
        assert_eq!(got, None);
        assert_eq!(init.get_init_error(), Some(&String::from("no tracing here")));
    }
    assert_eq!(builds.get(), 1);
}

#[test]
fn get_init_error_does_not_initialize() {
    let mut init: ProviderInitializer<u32, String> = ProviderInitializer::new();
    assert_eq!(init.get_init_error(), None);
    assert_eq!(init.peek(), None);
    assert_eq!(init.begin(), Directive::Build);
}

#[test]
fn only_the_first_access_is_told_to_build() {
    let mut init: ProviderInitializer<u32, String> = ProviderInitializer::new();
    assert_eq!(init.begin(), Directive::Build);
    assert_eq!(init.begin(), Directive::Wait);
    assert_eq!(init.begin(), Directive::Wait);
    assert_eq!(init.peek(), None);
    assert_eq!(init.get(|| Ok(3)), None);
    assert!(init.resolve(Ok(5)));
    assert_eq!(init.begin(), Directive::Done);
    assert_eq!(init.peek(), Some(&5));
    assert!(!init.resolve(Ok(6)));
    assert!(!init.resolve(Err(String::from("late"))));
    assert_eq!(init.peek(), Some(&5));
    assert_eq!(init.get_init_error(), None);
}

#[test]
fn outcome_without_a_construction_is_dropped() {
    let mut init: ProviderInitializer<u32, String> = ProviderInitializer::new();
    assert!(!init.resolve(Ok(5)));
    assert_eq!(init.peek(), None);
    assert_eq!(init.begin(), Directive::Build);
    assert!(init.resolve(Err(String::from("refused"))));
    assert_eq!(init.begin(), Directive::Done);
    assert_eq!(init.get_init_error(), Some(&String::from("refused")));
}

#[test]
fn providers_do_not_share_state() {
    let mut failing: ProviderInitializer<u32, String> = ProviderInitializer::new();
    let mut working: ProviderInitializer<u32, String> = ProviderInitializer::new();
    assert_eq!(failing.get(|| Err(String::from("down"))), None);
    assert_eq!(working.peek(), None);
    assert_eq!(working.get_init_error(), None);
    assert_eq!(working.get(|| Ok(11)), Some(&11));
    assert_eq!(failing.get(|| Ok(12)), None);
    assert_eq!(failing.get_init_error(), Some(&String::from("down")));
    assert_eq!(working.get_init_error(), None);
}
