use linguars::{Language, UnknownCodeError, UnknownLanguageError};
use std::collections::HashSet;

fn sorted_names(languages: &[Language]) -> Vec<String> {
    let mut names: Vec<String> = languages.iter().map(|language| language.name()).collect();
    names.sort();
    names
}

#[test]
fn a_language_is_found_by_its_name() {
    let english = Language::new("english").unwrap();
    assert_eq!(english.name(), "english");
}

#[test]
fn the_name_is_matched_in_any_case() {
    let lower = Language::new("german").unwrap();
    let capital = Language::new("German").unwrap();
    let upper = Language::new("GERMAN").unwrap();
    assert_eq!(lower, capital);
    assert_eq!(capital, upper);
    assert_eq!(upper.name(), "german");
}

#[test]
fn the_name_is_printed_in_lower_case() {
    let greek = Language::new("Greek").unwrap();
    assert_eq!(greek.name(), "greek");
    assert_ne!(greek.name(), "Greek");
}

#[test]
fn an_unknown_name_is_reported_with_the_name() {
    let error: UnknownLanguageError = Language::new("klingon").unwrap_err();
    assert_eq!(error.name, "klingon");
    assert_eq!(error.message(), "unknown language");
}

#[test]
fn the_empty_name_is_unknown() {
    let error = Language::new("").unwrap_err();
    assert_eq!(error.name, "");
}

#[test]
fn a_name_with_blanks_around_it_is_unknown() {
    assert!(Language::new(" english").is_err());
    assert!(Language::new("english ").is_err());
}

#[test]
fn different_languages_are_not_equal() {
    let english = Language::new("english").unwrap();
    let french = Language::new("french").unwrap();
    assert_ne!(english, french);
    assert_eq!(english, english.clone());
}

#[test]
fn a_copy_is_the_same_language() {
    let russian = Language::new("russian").unwrap();
    let copy = russian.clone();
    assert_eq!(copy, russian);
    assert_eq!(copy.name(), "russian");
    assert_eq!(copy.iso_code_639_3(), "rus");
}

#[test]
fn equal_languages_hash_alike() {
    let mut seen = HashSet::new();
    assert!(seen.insert(Language::new("hindi").unwrap()));
    assert!(!seen.insert(Language::new("HINDI").unwrap()));
    assert!(seen.insert(Language::new("marathi").unwrap()));
    assert_eq!(seen.len(), 2);
}

#[test]
fn iso_code_639_1_of_each_chosen_language() {
    assert_eq!(Language::new("english").unwrap().iso_code_639_1(), "en");
    assert_eq!(Language::new("french").unwrap().iso_code_639_1(), "fr");
    assert_eq!(Language::new("german").unwrap().iso_code_639_1(), "de");
    assert_eq!(Language::new("spanish").unwrap().iso_code_639_1(), "es");
    assert_eq!(Language::new("greek").unwrap().iso_code_639_1(), "el");
    assert_eq!(Language::new("latin").unwrap().iso_code_639_1(), "la");
}

#[test]
fn iso_code_639_3_of_each_chosen_language() {
    assert_eq!(Language::new("english").unwrap().iso_code_639_3(), "eng");
    assert_eq!(Language::new("french").unwrap().iso_code_639_3(), "fra");
    assert_eq!(Language::new("german").unwrap().iso_code_639_3(), "deu");
    assert_eq!(Language::new("spanish").unwrap().iso_code_639_3(), "spa");
    assert_eq!(Language::new("greek").unwrap().iso_code_639_3(), "ell");
    assert_eq!(Language::new("persian").unwrap().iso_code_639_3(), "fas");
}

#[test]
fn a_language_is_found_by_its_iso_code_639_1() {
    let found = Language::from_iso_code_639_1("en").unwrap();
    assert_eq!(found, Language::new("english").unwrap());
    assert_eq!(found.name(), "english");
}

#[test]
fn a_language_is_found_by_its_iso_code_639_3() {
    let found = Language::from_iso_code_639_3("deu").unwrap();
    assert_eq!(found, Language::new("german").unwrap());
    assert_eq!(found.name(), "german");
}

#[test]
fn iso_codes_are_matched_in_any_case() {
    assert_eq!(Language::from_iso_code_639_1("EN").unwrap().name(), "english");
    assert_eq!(Language::from_iso_code_639_1("Fr").unwrap().name(), "french");
    assert_eq!(Language::from_iso_code_639_3("RUS").unwrap().name(), "russian");
}

#[test]
fn an_unknown_iso_code_639_1_is_reported_with_the_code() {
    let error: UnknownCodeError = Language::from_iso_code_639_1("12").unwrap_err();
    assert_eq!(error.code, "12");
    assert_eq!(error.message(), "unknown ISO code");
}

#[test]
fn an_unknown_iso_code_639_3_is_reported_with_the_code() {
    let error = Language::from_iso_code_639_3("123").unwrap_err();
    assert_eq!(error.code, "123");
}

#[test]
fn a_code_of_one_standard_is_unknown_in_the_other() {
    assert!(Language::from_iso_code_639_1("eng").is_err());
    assert!(Language::from_iso_code_639_3("en").is_err());
}

#[test]
fn a_name_is_no_iso_code() {
    assert!(Language::from_iso_code_639_1("english").is_err());
    assert!(Language::from_iso_code_639_3("english").is_err());
    assert!(Language::new("en").is_err());
}

#[test]
fn all_lists_every_language_once() {
    let all = Language::all();
    assert_eq!(
        sorted_names(&all),
        vec![
            "arabic", "english", "french", "german", "greek", "hindi", "latin", "marathi",
            "persian", "russian", "spanish", "ukrainian",
        ]
    );
}

#[test]
fn all_spoken_ones_leaves_latin_out() {
    let spoken = Language::all_spoken_ones();
    assert_eq!(
        sorted_names(&spoken),
        vec![
            "arabic", "english", "french", "german", "greek", "hindi", "marathi", "persian",
            "russian", "spanish", "ukrainian",
        ]
    );
    assert!(!spoken.contains(&Language::new("latin").unwrap()));
}

#[test]
fn all_with_arabic_script_lists_arabic_and_persian() {
    assert_eq!(sorted_names(&Language::all_with_arabic_script()), vec!["arabic", "persian"]);
}

#[test]
fn all_with_cyrillic_script_lists_russian_and_ukrainian() {
    assert_eq!(sorted_names(&Language::all_with_cyrillic_script()), vec!["russian", "ukrainian"]);
}

#[test]
fn all_with_devanagari_script_lists_hindi_and_marathi() {
    assert_eq!(sorted_names(&Language::all_with_devanagari_script()), vec!["hindi", "marathi"]);
}

#[test]
fn all_with_latin_script_lists_the_western_languages() {
    assert_eq!(
        sorted_names(&Language::all_with_latin_script()),
        vec!["english", "french", "german", "latin", "spanish"]
    );
}

#[test]
fn greek_is_written_in_none_of_the_four_scripts() {
    let greek = Language::new("greek").unwrap();
    assert!(Language::all().contains(&greek));
    assert!(!Language::all_with_arabic_script().contains(&greek));
    assert!(!Language::all_with_cyrillic_script().contains(&greek));
    assert!(!Language::all_with_devanagari_script().contains(&greek));
    assert!(!Language::all_with_latin_script().contains(&greek));
}

#[test]
fn every_listed_language_is_found_again_by_name_and_code() {
    for language in Language::all() {
        assert_eq!(Language::new(&language.name()).unwrap(), language);
        assert_eq!(Language::from_iso_code_639_1(&language.iso_code_639_1()).unwrap(), language);
        assert_eq!(Language::from_iso_code_639_3(&language.iso_code_639_3()).unwrap(), language);
    }
}

#[test]
fn iso_codes_have_two_and_three_letters() {
    for language in Language::all() {
        assert_eq!(language.iso_code_639_1().len(), 2);
        assert_eq!(language.iso_code_639_3().len(), 3);
    }
}

#[test]
fn the_name_of_what_is_found_is_the_text_in_lower_case() {
    for text in ["GeRmAn", "german", "GERMAN", "Persian", "uKRAINIAN"] {
        assert_eq!(Language::new(text).unwrap().name(), text.to_lowercase());
    }
}

#[test]
fn the_catalogue_holds_two_languages_at_least() {
    assert!(Language::all().len() >= 2);
    assert_eq!(Language::all().len(), 12);
}
