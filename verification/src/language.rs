//! The catalogue of languages.
//!
//! A [`Language`] is identified by the name under which `lingua` lists it
//! (`English`, `Greek`, ...). The catalogue itself, its ISO codes and its
//! scripts are `lingua`'s tables: they enter the contracts below by name.

use vstd::prelude::*;

verus! {

/// The language that `lingua` resolves `text` to, by the name it is listed under.
///
/// Matching ignores ASCII case, so several texts resolve to one language.
pub uninterp spec fn language_named(text: Seq<char>) -> Option<Seq<char>>;

/// The language that `lingua` files under the ISO 639-1 code written as
/// `text`, in any ASCII case.
pub uninterp spec fn language_with_iso_code_639_1(text: Seq<char>) -> Option<Seq<char>>;

/// The language that `lingua` files under the ISO 639-3 code written as
/// `text`, in any ASCII case.
pub uninterp spec fn language_with_iso_code_639_3(text: Seq<char>) -> Option<Seq<char>>;

/// The ISO 639-1 code, in lower case, that `lingua` gives the language listed
/// as `language`.
pub uninterp spec fn iso_code_639_1_of(language: Seq<char>) -> Seq<char>;

/// The ISO 639-3 code, in lower case, that `lingua` gives the language listed
/// as `language`.
pub uninterp spec fn iso_code_639_3_of(language: Seq<char>) -> Seq<char>;

/// `text` in lower case, as `str::to_lowercase` returns it.
pub uninterp spec fn lowercase(text: Seq<char>) -> Seq<char>;

/// `lingua` counts the language listed as `language` among those written in
/// Arabic script.
pub uninterp spec fn written_in_arabic_script(language: Seq<char>) -> bool;

/// `lingua` counts the language listed as `language` among those written in
/// Cyrillic script.
pub uninterp spec fn written_in_cyrillic_script(language: Seq<char>) -> bool;

/// `lingua` counts the language listed as `language` among those written in
/// Devanagari script.
pub uninterp spec fn written_in_devanagari_script(language: Seq<char>) -> bool;

/// `lingua` counts the language listed as `language` among those written in
/// Latin script.
pub uninterp spec fn written_in_latin_script(language: Seq<char>) -> bool;

/// `name` is the name under which `lingua` lists one of its languages: the
/// language is found by it as it stands, and by it in lower case.
pub open spec fn registered(name: Seq<char>) -> bool {
    language_named(name) == Some(name) && language_named(lowercase(name)) == Some(name)
}

/// The names of all the languages of the catalogue.
pub open spec fn catalogue() -> Set<Seq<char>> {
    Set::new(|name: Seq<char>| registered(name))
}

/// `name` is listed and still spoken: every language of the catalogue but Latin.
pub open spec fn spoken(name: Seq<char>) -> bool {
    registered(name) && name != "Latin"@
}

/// The set holds two different names at least.
pub open spec fn holds_two(names: Set<Seq<char>>) -> bool {
    exists|one: Seq<char>, other: Seq<char>|
        one != other && #[trigger] names.contains(one) && #[trigger] names.contains(other)
}

/// `languages` is a list of the whole catalogue, which holds more than one
/// language: each language once, and no other.
pub open spec fn lists_all(languages: Seq<Language>) -> bool {
    lists_exactly(languages, |name: Seq<char>| registered(name)) && languages.len() >= 2
}

/// `languages` holds each language that `member` accepts once, and no other.
pub open spec fn lists_exactly(languages: Seq<Language>, member: spec_fn(Seq<char>) -> bool) -> bool {
    &&& names(languages).no_duplicates()
    &&& forall|name: Seq<char>| #[trigger] names(languages).contains(name) <==> member(name)
}

/// The names of a sequence of languages, in order.
pub open spec fn names(languages: Seq<Language>) -> Seq<Seq<char>> {
    languages.map_values(|language: Language| language@)
}

/// A language of the catalogue.
#[derive(Debug, Hash)]
pub struct Language {
    pub(crate) name: String,
}

impl View for Language {
    type V = Seq<char>;

    closed spec fn view(&self) -> Seq<char> {
        self.name@
    }
}

/// A language name that the catalogue does not hold.
#[derive(Debug)]
pub struct UnknownLanguageError {
    /// The name that was looked up.
    pub name: String,
}

impl View for UnknownLanguageError {
    type V = Seq<char>;

    open spec fn view(&self) -> Seq<char> {
        self.name@
    }
}

/// An ISO code that belongs to no language of the catalogue.
#[derive(Debug)]
pub struct UnknownCodeError {
    /// The code that was looked up.
    pub code: String,
}

impl View for UnknownCodeError {
    type V = Seq<char>;

    open spec fn view(&self) -> Seq<char> {
        self.code@
    }
}

/// Calls `str::parse` for `lingua::Language` and hands the language back by
/// its name.
///
/// The text is matched against the names of the enum's variants without
/// regard to ASCII case; the name handed back is the variant's own, which
/// is made of ASCII letters and so parses to itself in any case. A text that
/// matches differs from the name in the case of those letters alone, and is
/// the same in lower case.
#[verifier::external_body]
fn parse_language(text: &str) -> (language: Option<Language>)
    ensures
        language matches Some(found) ==> language_named(text@) == Some(found@) && registered(
            found@,
        ) && lowercase(text@) == lowercase(found@),
        language is None ==> language_named(text@) is None,
{
    text.parse::<lingua::Language>().ok().map(|found| Language { name: found.to_string() })
}

/// Calls `str::parse` for `lingua::IsoCode639_1` and, where the text is such
/// a code, `lingua::Language::from_iso_code_639_1` on it.
///
/// The language comes back by its name, which parses to itself in any case.
#[verifier::external_body]
fn find_by_iso_code_639_1(text: &str) -> (language: Option<Language>)
    ensures
        language matches Some(found) ==> language_with_iso_code_639_1(text@) == Some(found@)
            && registered(found@),
        language is None ==> language_with_iso_code_639_1(text@) is None,
{
    text.parse::<lingua::IsoCode639_1>().ok().map(
        |code| Language { name: lingua::Language::from_iso_code_639_1(&code).to_string() },
    )
}

/// Calls `str::parse` for `lingua::IsoCode639_3` and, where the text is such
/// a code, `lingua::Language::from_iso_code_639_3` on it.
///
/// The language comes back by its name, which parses to itself in any case.
#[verifier::external_body]
fn find_by_iso_code_639_3(text: &str) -> (language: Option<Language>)
    ensures
        language matches Some(found) ==> language_with_iso_code_639_3(text@) == Some(found@)
            && registered(found@),
        language is None ==> language_with_iso_code_639_3(text@) is None,
{
    text.parse::<lingua::IsoCode639_3>().ok().map(
        |code| Language { name: lingua::Language::from_iso_code_639_3(&code).to_string() },
    )
}

/// Calls `lingua::Language::iso_code_639_1` on the language listed as
/// `language` and prints the code, which `lingua` prints in lower case.
///
/// No two languages share a code, so the code leads back to the language.
#[verifier::external_body]
fn print_iso_code_639_1(language: &Language) -> (code: String)
    requires
        registered(language@),
    ensures
        code@ == iso_code_639_1_of(language@),
        language_with_iso_code_639_1(code@) == Some(language@),
{
    language.name.parse::<lingua::Language>().unwrap().iso_code_639_1().to_string()
}

/// Calls `lingua::Language::iso_code_639_3` on the language listed as
/// `language` and prints the code, which `lingua` prints in lower case.
///
/// No two languages share a code, so the code leads back to the language.
#[verifier::external_body]
fn print_iso_code_639_3(language: &Language) -> (code: String)
    requires
        registered(language@),
    ensures
        code@ == iso_code_639_3_of(language@),
        language_with_iso_code_639_3(code@) == Some(language@),
{
    language.name.parse::<lingua::Language>().unwrap().iso_code_639_3().to_string()
}

/// Calls `str::to_lowercase`.
#[verifier::external_body]
fn to_lowercase(text: &str) -> (lower: String)
    ensures
        lower@ == lowercase(text@),
{
    text.to_lowercase()
}

/// Calls `lingua::Language::all`, which collects every variant of the enum
/// into a hash set, and hands the set out in the order it is walked. The
/// enum has a variant for each language that the manifest enables, more than
/// one.
#[verifier::external_body]
fn list_all() -> (languages: Vec<Language>)
    ensures
        lists_all(languages@),
{
    lingua::Language::all().into_iter().map(|found| Language { name: found.to_string() }).collect()
}

/// Calls `lingua::Language::all_spoken_ones`, which collects every variant
/// of the enum but `Latin` into a hash set, and hands the set out in the
/// order it is walked.
#[verifier::external_body]
fn list_all_spoken_ones() -> (languages: Vec<Language>)
    ensures
        lists_exactly(languages@, |name: Seq<char>| spoken(name)),
{
    lingua::Language::all_spoken_ones().into_iter().map(
        |found| Language { name: found.to_string() },
    ).collect()
}

/// Calls `lingua::Language::all_with_arabic_script`, which collects the
/// variants whose alphabets include the Arabic one into a hash set, and hands
/// the set out in the order it is walked.
#[verifier::external_body]
fn list_all_with_arabic_script() -> (languages: Vec<Language>)
    ensures
        lists_exactly(
            languages@,
            |name: Seq<char>| registered(name) && written_in_arabic_script(name),
        ),
{
    lingua::Language::all_with_arabic_script().into_iter().map(
        |found| Language { name: found.to_string() },
    ).collect()
}

/// Calls `lingua::Language::all_with_cyrillic_script`, which collects the
/// variants whose alphabets include the Cyrillic one into a hash set, and
/// hands the set out in the order it is walked.
#[verifier::external_body]
fn list_all_with_cyrillic_script() -> (languages: Vec<Language>)
    ensures
        lists_exactly(
            languages@,
            |name: Seq<char>| registered(name) && written_in_cyrillic_script(name),
        ),
{
    lingua::Language::all_with_cyrillic_script().into_iter().map(
        |found| Language { name: found.to_string() },
    ).collect()
}

/// Calls `lingua::Language::all_with_devanagari_script`, which collects the
/// variants whose alphabets include the Devanagari one into a hash set, and
/// hands the set out in the order it is walked.
#[verifier::external_body]
fn list_all_with_devanagari_script() -> (languages: Vec<Language>)
    ensures
        lists_exactly(
            languages@,
            |name: Seq<char>| registered(name) && written_in_devanagari_script(name),
        ),
{
    lingua::Language::all_with_devanagari_script().into_iter().map(
        |found| Language { name: found.to_string() },
    ).collect()
}

/// Calls `lingua::Language::all_with_latin_script`, which collects the
/// variants whose alphabets include the Latin one into a hash set, and hands
/// the set out in the order it is walked.
#[verifier::external_body]
fn list_all_with_latin_script() -> (languages: Vec<Language>)
    ensures
        lists_exactly(
            languages@,
            |name: Seq<char>| registered(name) && written_in_latin_script(name),
        ),
{
    lingua::Language::all_with_latin_script().into_iter().map(
        |found| Language { name: found.to_string() },
    ).collect()
}

/// A list of the whole catalogue holds its names, two of them at least.
pub proof fn whole_list_is_the_catalogue(languages: Seq<Language>)
    requires
        lists_all(languages),
    ensures
        names(languages).to_set() == catalogue(),
        holds_two(catalogue()),
{
    assert(names(languages).to_set() =~= catalogue());
    assert(names(languages)[0] != names(languages)[1]);
    assert(catalogue().contains(names(languages)[0]));
    assert(catalogue().contains(names(languages)[1]));
}

impl Language {
    /// Every language is one of the catalogue.
    #[verifier::type_invariant]
    pub open spec fn is_registered(self) -> bool {
        registered(self@)
    }

    /// Looks a language up by its name, in any ASCII case. The name of
    /// what is found is the text looked up, in lower case.
    pub fn new(lang: &str) -> (result: Result<Language, UnknownLanguageError>)
        ensures
            match result {
                Ok(language) => language_named(lang@) == Some(language@) && lowercase(language@)
                    == lowercase(lang@),
                Err(error) => language_named(lang@) is None && error@ == lang@,
            },
    {
        match parse_language(lang) {
            Some(language) => Ok(language),
            None => Err(UnknownLanguageError { name: lang.to_owned() }),
        }
    }

    /// The language's name in lower case, by which the language is found
    /// again.
    pub fn name(&self) -> (name: String)
        ensures
            name@ == lowercase(self@),
            language_named(name@) == Some(self@),
    {
        proof {
            use_type_invariant(self);
        }
        to_lowercase(self.name.as_str())
    }

    /// The language's ISO 639-1 code, in lower case, by which the language
    /// is found again.
    pub fn iso_code_639_1(&self) -> (code: String)
        ensures
            code@ == iso_code_639_1_of(self@),
            language_with_iso_code_639_1(code@) == Some(self@),
    {
        proof {
            use_type_invariant(self);
        }
        print_iso_code_639_1(self)
    }

    /// Looks a language up by its ISO 639-1 code, in any ASCII case.
    pub fn from_iso_code_639_1(iso_code: &str) -> (result: Result<Language, UnknownCodeError>)
        ensures
            match result {
                Ok(language) => language_with_iso_code_639_1(iso_code@) == Some(language@),
                Err(error) => language_with_iso_code_639_1(iso_code@) is None && error@
                    == iso_code@,
            },
    {
        match find_by_iso_code_639_1(iso_code) {
            Some(language) => Ok(language),
            None => Err(UnknownCodeError { code: iso_code.to_owned() }),
        }
    }

    /// The language's ISO 639-3 code, in lower case, by which the language
    /// is found again.
    pub fn iso_code_639_3(&self) -> (code: String)
        ensures
            code@ == iso_code_639_3_of(self@),
            language_with_iso_code_639_3(code@) == Some(self@),
    {
        proof {
            use_type_invariant(self);
        }
        print_iso_code_639_3(self)
    }

    /// Looks a language up by its ISO 639-3 code, in any ASCII case.
    pub fn from_iso_code_639_3(iso_code: &str) -> (result: Result<Language, UnknownCodeError>)
        ensures
            match result {
                Ok(language) => language_with_iso_code_639_3(iso_code@) == Some(language@),
                Err(error) => language_with_iso_code_639_3(iso_code@) is None && error@
                    == iso_code@,
            },
    {
        match find_by_iso_code_639_3(iso_code) {
            Some(language) => Ok(language),
            None => Err(UnknownCodeError { code: iso_code.to_owned() }),
        }
    }

    /// Every language of the catalogue, each once, in no particular order.
    /// There are two of them at least.
    pub fn all() -> (languages: Vec<Language>)
        ensures
            lists_all(languages@),
            names(languages@).to_set() == catalogue(),
            holds_two(catalogue()),
    {
        let languages = list_all();
        proof {
            whole_list_is_the_catalogue(languages@);
        }
        languages
    }

    /// Every language of the catalogue that is still spoken, each once, in no
    /// particular order.
    pub fn all_spoken_ones() -> (languages: Vec<Language>)
        ensures
            lists_exactly(languages@, |name: Seq<char>| spoken(name)),
    {
        list_all_spoken_ones()
    }

    /// Every language of the catalogue written in Arabic script, each once,
    /// in no particular order.
    pub fn all_with_arabic_script() -> (languages: Vec<Language>)
        ensures
            lists_exactly(
                languages@,
                |name: Seq<char>| registered(name) && written_in_arabic_script(name),
            ),
    {
        list_all_with_arabic_script()
    }

    /// Every language of the catalogue written in Cyrillic script, each once,
    /// in no particular order.
    pub fn all_with_cyrillic_script() -> (languages: Vec<Language>)
        ensures
            lists_exactly(
                languages@,
                |name: Seq<char>| registered(name) && written_in_cyrillic_script(name),
            ),
    {
        list_all_with_cyrillic_script()
    }

    /// Every language of the catalogue written in Devanagari script, each
    /// once, in no particular order.
    pub fn all_with_devanagari_script() -> (languages: Vec<Language>)
        ensures
            lists_exactly(
                languages@,
                |name: Seq<char>| registered(name) && written_in_devanagari_script(name),
            ),
    {
        list_all_with_devanagari_script()
    }

    /// Every language of the catalogue written in Latin script, each once, in
    /// no particular order.
    pub fn all_with_latin_script() -> (languages: Vec<Language>)
        ensures
            lists_exactly(
                languages@,
                |name: Seq<char>| registered(name) && written_in_latin_script(name),
            ),
    {
        list_all_with_latin_script()
    }
}

impl UnknownLanguageError {
    /// A sentence for the user.
    pub fn message(&self) -> (message: String)
        ensures
            message@ == "unknown language"@,
    {
        "unknown language".to_owned()
    }
}

impl UnknownCodeError {
    /// A sentence for the user.
    pub fn message(&self) -> (message: String)
        ensures
            message@ == "unknown ISO code"@,
    {
        "unknown ISO code".to_owned()
    }
}

impl PartialEq for Language {
    fn eq(&self, other: &Language) -> (equal: bool) {
        self.name == other.name
    }
}

impl Eq for Language {

}

impl vstd::std_specs::cmp::PartialEqSpecImpl for Language {
    open spec fn obeys_eq_spec() -> bool {
        true
    }

    open spec fn eq_spec(&self, other: &Language) -> bool {
        self@ == other@
    }
}

impl Clone for Language {
    fn clone(&self) -> (copy: Language)
        ensures
            copy@ == self@,
    {
        proof {
            use_type_invariant(self);
        }
        Language { name: self.name.clone() }
    }
}

} // verus!
