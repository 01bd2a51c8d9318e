use int_validation_core::{
    Exactness, Extra, PartialMode, RecursionState, StringCacheMode, ValidationState,
};

fn extra() -> Extra {
    Extra { strict: None, by_alias: None, by_name: None, cache_str: StringCacheMode::Off }
}

fn state_with(extra: Extra, partial: PartialMode) -> ValidationState {
    ValidationState::new(extra, RecursionState::new(), partial)
}

#[test]
fn new_state_tracks_nothing() {
    let s = state_with(extra(), PartialMode::Off);
    assert_eq!(s.exactness, None);
    assert_eq!(s.fields_set_count, None);
    assert_eq!(s.allow_partial, PartialMode::Off);
}

#[test]
fn floor_exactness_records_minimum() {
    // The recorded level is the min of all observations, None counting as top.
    let mut s = state_with(extra(), PartialMode::Off);
    s.floor_exactness(Exactness::Exact);
    assert_eq!(s.exactness, Some(Exactness::Exact));
    s.floor_exactness(Exactness::Strict);
    assert_eq!(s.exactness, Some(Exactness::Strict));
    s.floor_exactness(Exactness::Exact);
    assert_eq!(s.exactness, Some(Exactness::Strict), "an observation never raises the level");
    s.floor_exactness(Exactness::Lax);
    assert_eq!(s.exactness, Some(Exactness::Lax));
    s.floor_exactness(Exactness::Exact);
    assert_eq!(s.exactness, Some(Exactness::Lax));
}

#[test]
fn rebind_extra_restores_on_exit() {
    let original = Extra {
        strict: Some(false),
        by_alias: Some(true),
        by_name: None,
        cache_str: StringCacheMode::All,
    };
    let mut s = state_with(original, PartialMode::Off);
    let mut rebound = original;
    rebound.strict = Some(true);
    let scope = s.rebind_extra(rebound);
    assert_eq!(*s.extra(), rebound);
    assert!(s.strict_or(false));
    // The inner block may change the rest of the state freely.
    s.floor_exactness(Exactness::Lax);
    s.restore_extra(scope);
    assert_eq!(*s.extra(), original, "the pre-scope snapshot must come back");
    assert_eq!(s.exactness, Some(Exactness::Lax));
}

#[test]
fn rebind_extra_restores_around_error_path() {
    let original = extra();
    let mut s = state_with(original, PartialMode::Off);
    let mut rebound = original;
    rebound.strict = Some(true);
    let scope = s.rebind_extra(rebound);
    // An error outcome inside the scope still ends with restoration.
    let failed: Result<(), ()> = Err(());
    assert!(failed.is_err());
    s.restore_extra(scope);
    assert_eq!(*s.extra(), original);
}

#[test]
fn strict_or_prefers_override() {
    let mut e = extra();
    assert!(!state_with(e, PartialMode::Off).strict_or(false));
    assert!(state_with(e, PartialMode::Off).strict_or(true));
    e.strict = Some(true);
    assert!(state_with(e, PartialMode::Off).strict_or(false));
    e.strict = Some(false);
    assert!(!state_with(e, PartialMode::Off).strict_or(true));
}

#[test]
fn by_alias_defaults_true_by_name_defaults_false() {
    let s = state_with(extra(), PartialMode::Off);
    assert!(s.validate_by_alias_or(None));
    assert!(!s.validate_by_name_or(None));
    assert!(!s.validate_by_alias_or(Some(false)));
    assert!(s.validate_by_name_or(Some(true)));

    let mut e = extra();
    e.by_alias = Some(false);
    e.by_name = Some(true);
    let s = state_with(e, PartialMode::Off);
    assert!(!s.validate_by_alias_or(Some(true)));
    assert!(s.validate_by_name_or(Some(false)));
}

#[test]
fn add_fields_set_initializes_lazily() {
    let mut s = state_with(extra(), PartialMode::Off);
    assert_eq!(s.fields_set_count, None);
    s.add_fields_set(2);
    assert_eq!(s.fields_set_count, Some(2));
    s.add_fields_set(3);
    assert_eq!(s.fields_set_count, Some(5));
    s.add_fields_set(0);
    assert_eq!(s.fields_set_count, Some(5));
}

#[test]
fn cache_str_reports_policy() {
    let mut e = extra();
    e.cache_str = StringCacheMode::Keys;
    let s = state_with(e, PartialMode::Off);
    assert_eq!(s.cache_str(), StringCacheMode::Keys);
}

#[test]
fn exactness_ladder_orders_lax_below_strict_below_exact() {
    assert!(Exactness::Lax < Exactness::Strict);
    assert!(Exactness::Strict < Exactness::Exact);
}

#[test]
fn partial_mode_activity() {
    assert!(!PartialMode::Off.is_active());
    assert!(PartialMode::On.is_active());
    assert!(PartialMode::TrailingStrings.is_active());
    assert_eq!(PartialMode::default(), PartialMode::Off);
}

#[test]
fn enumerate_marks_only_final_element_when_partial() {
    let s = state_with(extra(), PartialMode::On);
    let mut it = s.enumerate_last_partial(vec!["a", "b", "c"]);
    let out = it.drain();
    assert_eq!(out, vec![(0, false, "a"), (1, false, "b"), (2, true, "c")]);
    assert_eq!(out.iter().filter(|t| t.1).count(), 1, "the flag fires at most once");
}

#[test]
fn enumerate_marks_nothing_when_partial_off() {
    let s = state_with(extra(), PartialMode::Off);
    let mut it = s.enumerate_last_partial(vec![10, 20, 30]);
    let out = it.drain();
    assert_eq!(out, vec![(0, false, 10), (1, false, 20), (2, false, 30)]);
}

#[test]
fn enumerate_trailing_strings_counts_as_active() {
    let s = state_with(extra(), PartialMode::TrailingStrings);
    let mut it = s.enumerate_last_partial(vec![1]);
    let out = it.drain();
    assert_eq!(out, vec![(0, true, 1)]);
}

#[test]
fn enumerate_by_single_steps() {
    let s = state_with(extra(), PartialMode::On);
    let mut it = s.enumerate_last_partial(vec![7, 8]);
    assert_eq!(it.next(), Some((0, false, 7)));
    assert_eq!(it.next(), Some((1, true, 8)));
    assert_eq!(it.next(), None);
    assert_eq!(it.next(), None);
}

#[test]
fn enumerate_empty_yields_nothing() {
    let s = state_with(extra(), PartialMode::On);
    let mut it = s.enumerate_last_partial(Vec::<u8>::new());
    assert_eq!(it.next(), None);
    let mut it = s.enumerate_last_partial(Vec::<u8>::new());
    assert_eq!(it.drain(), vec![]);
}
