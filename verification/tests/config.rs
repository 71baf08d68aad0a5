use linguars::config::LARGEST_DISTANCE;
use linguars::{resolve_languages, ConfigError, Language, LanguageOrString, RelativeDistance};

fn literal(name: &str) -> LanguageOrString {
    LanguageOrString::Literal(name.to_string())
}

fn typed(name: &str) -> LanguageOrString {
    LanguageOrString::Typed(Language::new(name).unwrap())
}

fn names(languages: &[Language]) -> Vec<String> {
    languages.iter().map(|language| language.name()).collect()
}

#[test]
fn no_candidate_resolves_to_an_empty_list() {
    let found = resolve_languages(&vec![]).unwrap();
    assert!(found.is_empty());
}

#[test]
fn one_candidate_is_too_few() {
    let error = resolve_languages(&vec![literal("english")]).unwrap_err();
    assert!(matches!(error, ConfigError::TooFewLanguages));
}

#[test]
fn one_typed_candidate_is_too_few() {
    let error = resolve_languages(&vec![typed("english")]).unwrap_err();
    assert!(matches!(error, ConfigError::TooFewLanguages));
}

#[test]
fn one_unknown_candidate_is_too_few_before_it_is_unknown() {
    let error = resolve_languages(&vec![literal("klingon")]).unwrap_err();
    assert!(matches!(error, ConfigError::TooFewLanguages));
}

#[test]
fn two_candidates_resolve_in_their_order() {
    let found = resolve_languages(&vec![literal("german"), literal("english")]).unwrap();
    assert_eq!(names(&found), vec!["german", "english"]);
}

#[test]
fn typed_and_named_candidates_mix() {
    let found =
        resolve_languages(&vec![typed("greek"), literal("English"), typed("french")]).unwrap();
    assert_eq!(names(&found), vec!["greek", "english", "french"]);
}

#[test]
fn a_repeated_candidate_is_kept_where_two_languages_differ() {
    let found =
        resolve_languages(&vec![literal("english"), literal("english"), literal("french")])
            .unwrap();
    assert_eq!(names(&found), vec!["english", "english", "french"]);
}

#[test]
fn one_language_given_twice_is_too_few() {
    let error = resolve_languages(&vec![literal("english"), literal("english")]).unwrap_err();
    assert!(matches!(error, ConfigError::TooFewLanguages));
}

#[test]
fn one_language_in_two_spellings_is_too_few() {
    let error = resolve_languages(&vec![literal("english"), typed("ENGLISH"), literal("English")])
        .unwrap_err();
    assert!(matches!(error, ConfigError::TooFewLanguages));
}

#[test]
fn an_unknown_name_is_reported() {
    let error = resolve_languages(&vec![literal("english"), literal("klingon")]).unwrap_err();
    match error {
        ConfigError::UnknownLanguage(unknown) => assert_eq!(unknown.name, "klingon"),
        ConfigError::TooFewLanguages => panic!("the name should have been reported"),
    }
}

#[test]
fn the_first_unknown_name_is_reported() {
    let error = resolve_languages(&vec![
        literal("english"),
        literal("elvish"),
        literal("french"),
        literal("klingon"),
    ])
    .unwrap_err();
    match error {
        ConfigError::UnknownLanguage(unknown) => assert_eq!(unknown.name, "elvish"),
        ConfigError::TooFewLanguages => panic!("the name should have been reported"),
    }
}

#[test]
fn an_unknown_name_comes_before_too_few_languages() {
    let error = resolve_languages(&vec![literal("english"), literal("english"), literal("x")])
        .unwrap_err();
    assert!(matches!(error, ConfigError::UnknownLanguage(_)));
}

#[test]
fn an_iso_code_is_no_name() {
    let error = resolve_languages(&vec![literal("en"), literal("fr")]).unwrap_err();
    match error {
        ConfigError::UnknownLanguage(unknown) => assert_eq!(unknown.name, "en"),
        ConfigError::TooFewLanguages => panic!("the name should have been reported"),
    }
}

#[test]
fn too_few_languages_says_how_many_are_needed() {
    assert_eq!(ConfigError::TooFewLanguages.message(), "At least two languages are required");
}

#[test]
fn an_unknown_language_has_its_own_message() {
    let error = resolve_languages(&vec![literal("english"), literal("klingon")]).unwrap_err();
    assert_eq!(error.message(), "unknown language");
}

#[test]
fn no_distance_is_the_decimal_zero() {
    assert_eq!(RelativeDistance::zero().digits(), 0);
    assert_eq!(RelativeDistance::zero().scale(), 0);
    assert_eq!(RelativeDistance::zero(), RelativeDistance::from_decimal(0, 0).unwrap());
}

#[test]
fn one_number_may_be_written_as_two_decimals() {
    let half = RelativeDistance::from_decimal(5, 1).unwrap();
    let fifty = RelativeDistance::from_decimal(50, 2).unwrap();
    assert_eq!((half.digits(), half.scale()), (5, 1));
    assert_eq!((fifty.digits(), fifty.scale()), (50, 2));
    assert_ne!(half, fifty);
}

#[test]
fn a_distance_of_one_or_more_is_refused() {
    assert!(RelativeDistance::from_decimal(100, 2).is_none());
    assert!(RelativeDistance::from_decimal(101, 2).is_none());
    assert!(RelativeDistance::from_decimal(255, 2).is_none());
    assert!(RelativeDistance::from_decimal(1, 0).is_none());
    assert!(RelativeDistance::from_decimal(10, 1).is_none());
    assert!(RelativeDistance::from_decimal(u64::MAX, 0).is_none());
}

#[test]
fn a_decimal_keeps_its_digits_and_scale() {
    let eighth = RelativeDistance::from_decimal(125, 3).unwrap();
    assert_eq!((eighth.digits(), eighth.scale()), (125, 3));
    let tiny = RelativeDistance::from_decimal(5, 324).unwrap();
    assert_eq!((tiny.digits(), tiny.scale()), (5, 324));
}

#[test]
fn the_largest_distance_is_ninety_nine_hundredths() {
    assert!(RelativeDistance::from_decimal(99, 2).is_some());
    assert!(RelativeDistance::from_decimal(990, 3).is_some());
    assert!(RelativeDistance::from_decimal(991, 3).is_none());
    assert!(RelativeDistance::from_decimal(9_900_000_000_000_000_000, 19).is_some());
    assert!(RelativeDistance::from_decimal(9_900_000_000_000_000_001, 19).is_none());
    assert!(RelativeDistance::from_decimal(9, 1).is_some());
    assert!(RelativeDistance::from_decimal(0, 0).is_some());
}

#[test]
fn many_digits_behind_the_point_make_any_count_small() {
    assert!(RelativeDistance::from_decimal(u64::MAX, 19).is_none());
    assert!(RelativeDistance::from_decimal(u64::MAX, 20).is_some());
    assert!(RelativeDistance::from_decimal(u64::MAX, 21).is_some());
    assert!(RelativeDistance::from_decimal(u64::MAX, 22).is_some());
    assert!(RelativeDistance::from_decimal(u64::MAX, u16::MAX).is_some());
}

#[test]
fn the_largest_distance_has_the_bits_of_its_number() {
    assert_eq!(LARGEST_DISTANCE, 0.99f64.to_bits());
    assert_eq!(f64::from_bits(LARGEST_DISTANCE), 0.99);
}
