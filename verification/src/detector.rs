//! The detector: a `lingua` detector behind contracts.
//!
//! `lingua` measures in floating point. Here a confidence travels as the bit
//! pattern of its number and a minimum relative distance as a decimal.

use crate::config::{
    acceptable, at_most_largest, nearest_number, rejected_with, resolve_languages, resolved_names,
    two_distinct_hold_two, ConfigError, LanguageOrString, RelativeDistance, LARGEST_DISTANCE,
};
use crate::language::{catalogue, holds_two, lists_exactly, names, registered, Language};
use vstd::prelude::*;

verus! {

/// `lingua`'s builder: a set of languages, a minimum relative distance and
/// the choice between loading the models at once or on demand.
#[verifier::external_type_specification]
#[verifier::external_body]
pub struct ExLanguageDetectorBuilder(lingua::LanguageDetectorBuilder);

/// `lingua`'s detector, which keeps the builder's languages and distance.
#[verifier::external_type_specification]
#[verifier::external_body]
pub struct ExLanguageDetector(lingua::LanguageDetector);

/// The languages that the builder was made with, by name.
pub uninterp spec fn builder_languages(builder: lingua::LanguageDetectorBuilder) -> Set<Seq<char>>;

/// The minimum relative distance that the builder was given, as the bit
/// pattern of the number.
pub uninterp spec fn builder_distance(builder: lingua::LanguageDetectorBuilder) -> u64;

/// Whether the builder was asked to load the models of its languages as the
/// detector is built.
pub uninterp spec fn builder_preloads(builder: lingua::LanguageDetectorBuilder) -> bool;

/// The languages that the detector chooses from, by name.
pub uninterp spec fn detector_languages(detector: lingua::LanguageDetector) -> Set<Seq<char>>;

/// The minimum relative distance that the detector was built with, as the
/// bit pattern of the number.
pub uninterp spec fn detector_distance(detector: lingua::LanguageDetector) -> u64;

/// The bit pattern of the number one: the confidence of a language that the
/// text can only be written in.
pub const CERTAIN: u64 = 0x3FF0_0000_0000_0000;

/// How likely a language is: the bit pattern of a double-precision number
/// from zero to one.
///
/// Among such numbers the larger has the larger bit pattern.
#[derive(Clone, Copy, Debug, PartialEq, Eq, Structural)]
pub struct Confidence {
    bits: u64,
}

impl View for Confidence {
    type V = u64;

    closed spec fn view(&self) -> u64 {
        self.bits
    }
}

impl Confidence {
    /// The confidence with the bit pattern `bits`, if that is the pattern of
    /// a number from zero to one.
    pub fn from_bits(bits: u64) -> (confidence: Option<Confidence>)
        ensures
            confidence is Some <==> bits <= CERTAIN,
            confidence matches Some(made) ==> made@ == bits,
    {
        if bits <= CERTAIN {
            Some(Confidence { bits })
        } else {
            None
        }
    }

    /// The bit pattern of the confidence.
    pub fn to_bits(&self) -> (bits: u64)
        ensures
            bits == self@,
    {
        self.bits
    }
}

/// The languages of a ranking, in its order.
pub open spec fn ranked(values: Seq<(Language, Confidence)>) -> Seq<Language> {
    values.map_values(|value: (Language, Confidence)| value.0)
}

/// No confidence of the ranking is larger than the one before it.
pub open spec fn descending(values: Seq<(Language, Confidence)>) -> bool {
    forall|i: int, j: int| 0 <= i <= j < values.len() ==> values[i].1@ >= values[j].1@
}

/// Every confidence of the ranking is `bits`.
pub open spec fn all_of(values: Seq<(Language, Confidence)>, bits: u64) -> bool {
    forall|i: int| 0 <= i < values.len() ==> (#[trigger] values[i]).1@ == bits
}

/// `sign` is an ASCII character that is no letter: a digit, a blank, a
/// punctuation mark or a control character.
pub open spec fn ascii_and_no_letter(sign: char) -> bool {
    let code = sign as u32;
    code < 0x80 && !(0x41 <= code <= 0x5A) && !(0x61 <= code <= 0x7A)
}

/// The text holds ASCII characters only and no letter among them. The empty
/// text is such a text.
pub open spec fn ascii_without_letters(text: Seq<char>) -> bool {
    forall|i: int| 0 <= i < text.len() ==> ascii_and_no_letter(#[trigger] text[i])
}

/// What a ranking says once a ranking without signal counts as none: the
/// empty ranking where every confidence is zero, the ranking itself
/// otherwise.
pub open spec fn with_signal(values: Seq<(Language, Confidence)>) -> Seq<(Language, Confidence)> {
    if all_of(values, 0) {
        Seq::empty()
    } else {
        values
    }
}

/// Every confidence of the ranking is a number from zero to one.
pub open spec fn probabilities(values: Seq<(Language, Confidence)>) -> bool {
    forall|i: int| 0 <= i < values.len() ==> (#[trigger] values[i]).1@ <= CERTAIN
}

/// Calls `lingua::LanguageDetectorBuilder::from_all_languages`, which makes
/// the builder with every variant of the language enum, the distance 0.0 and
/// no loading at once. The enum has more than one variant.
#[verifier::external_body]
fn builder_from_all_languages() -> (builder: lingua::LanguageDetectorBuilder)
    ensures
        builder_languages(builder) == catalogue(),
        holds_two(builder_languages(builder)),
        builder_distance(builder) == 0,
        !builder_preloads(builder),
{
    lingua::LanguageDetectorBuilder::from_all_languages()
}

/// Calls `lingua::LanguageDetectorBuilder::from_languages`, which makes the
/// builder with the set of the languages handed in, the distance 0.0 and no
/// loading at once. It panics on an empty list.
#[verifier::external_body]
fn builder_from_languages(languages: &Vec<Language>) -> (builder: lingua::LanguageDetectorBuilder)
    requires
        languages.len() > 0,
        forall|i: int| 0 <= i < languages.len() ==> registered(#[trigger] languages@[i]@),
    ensures
        builder_languages(builder) == names(languages@).to_set(),
        builder_distance(builder) == 0,
        !builder_preloads(builder),
{
    let outside: Vec<lingua::Language> = languages.iter().map(
        |language| language.name.parse().unwrap(),
    ).collect();
    lingua::LanguageDetectorBuilder::from_languages(&outside)
}

/// Calls `lingua::LanguageDetectorBuilder::with_minimum_relative_distance`
/// with the number that `str::parse` reads from the decimal written with an
/// exponent. It sets the distance and nothing else, and panics on a distance
/// outside 0.0 to 0.99. The number nearest to a decimal in that range lies in
/// it, and among such numbers the larger has the larger bit pattern.
#[verifier::external_body]
fn with_minimum_relative_distance(
    builder: &mut lingua::LanguageDetectorBuilder,
    digits: u64,
    scale: u16,
)
    requires
        at_most_largest(digits as nat, scale as nat),
    ensures
        builder_languages(*final(builder)) == builder_languages(*old(builder)),
        builder_distance(*final(builder)) == nearest_number(digits as nat, scale as nat),
        builder_distance(*final(builder)) <= LARGEST_DISTANCE,
        builder_preloads(*final(builder)) == builder_preloads(*old(builder)),
{
    builder.with_minimum_relative_distance(format!("{}e-{}", digits, scale).parse().unwrap());
}

/// Calls `lingua::LanguageDetectorBuilder::with_preloaded_language_models`,
/// which asks for the models to be loaded when the detector is built and
/// changes nothing else.
#[verifier::external_body]
fn with_preloaded_language_models(builder: &mut lingua::LanguageDetectorBuilder)
    ensures
        builder_languages(*final(builder)) == builder_languages(*old(builder)),
        builder_distance(*final(builder)) == builder_distance(*old(builder)),
        builder_preloads(*final(builder)),
{
    builder.with_preloaded_language_models();
}

/// Calls `lingua::LanguageDetectorBuilder::build`, which makes a detector
/// with the builder's languages and distance. Where the builder was asked
/// to, it loads the models of those languages first; the detector keeps no
/// trace of that.
#[verifier::external_body]
fn build(builder: &mut lingua::LanguageDetectorBuilder) -> (detector: lingua::LanguageDetector)
    ensures
        detector_languages(detector) == builder_languages(*old(builder)),
        detector_distance(detector) == builder_distance(*old(builder)),
{
    builder.build()
}

/// Calls `lingua::LanguageDetector::detect_language_of`.
///
/// What comes back is one of the detector's languages, or nothing. A text
/// without a word has every language at confidence 0.0, on which `lingua`
/// reports nothing. Its words are runs of letters and of the characters of
/// some scripts, none of which is an ASCII character but the letters.
#[verifier::external_body]
fn detect_language_of(detector: &lingua::LanguageDetector, text: String) -> (language: Option<
    Language,
>)
    ensures
        language matches Some(found) ==> detector_languages(*detector).contains(found@),
        ascii_without_letters(text@) ==> language is None,
{
    detector.detect_language_of(text).map(|found| Language { name: found.to_string() })
}

/// Calls `lingua::LanguageDetector::compute_language_confidence_values`.
///
/// `lingua` starts from one entry of 0.0 for each of the detector's
/// languages, gives some of them a probability and sorts the entries, largest
/// first, whenever it has given one. It documents each value as a number
/// between 0.0 and 1.0. A text without a word leaves every entry at 0.0. Its
/// words are runs of letters and of the characters of some scripts, none of
/// which is an ASCII character but the letters.
#[verifier::external_body]
fn compute_language_confidence_values(detector: &lingua::LanguageDetector, text: String) -> (values:
    Vec<(Language, Confidence)>)
    ensures
        lists_exactly(ranked(values@), |name: Seq<char>| detector_languages(*detector).contains(name)),
        probabilities(values@),
        descending(values@),
        ascii_without_letters(text@) ==> all_of(values@, 0),
{
    detector.compute_language_confidence_values(text).into_iter().map(
        |(found, confidence)|
            (Language { name: found.to_string() }, Confidence { bits: confidence.to_bits() }),
    ).collect()
}

/// Takes a ranking without signal for no ranking: where every confidence is
/// zero the empty ranking comes back, and the ranking as it is otherwise.
pub fn ranking_with_signal(values: Vec<(Language, Confidence)>) -> (ranking: Vec<
    (Language, Confidence),
>)
    ensures
        ranking@ == with_signal(values@),
{
    let mut i: usize = 0;
    while i < values.len()
        invariant
            0 <= i <= values.len(),
            forall|k: int| 0 <= k < i ==> (#[trigger] values@[k]).1@ == 0,
        decreases values.len() - i,
    {
        if values[i].1.to_bits() != 0 {
            assert(!all_of(values@, 0));
            return values;
        }
        i += 1;
    }
    assert(all_of(values@, 0));
    Vec::new()
}

/// Detects the language of a text among a fixed set of candidates.
pub struct Detector {
    inner: lingua::LanguageDetector,
    preloaded: bool,
}

impl Detector {
    /// The names of the candidate languages.
    pub closed spec fn languages(&self) -> Set<Seq<char>> {
        detector_languages(self.inner)
    }

    /// The minimum relative distance, as the bit pattern of the number.
    pub closed spec fn minimum_relative_distance(&self) -> u64 {
        detector_distance(self.inner)
    }

    /// Whether the detector was made with `preload`: the builder was then
    /// asked to load the models of the candidates as the detector is built.
    pub closed spec fn preloaded(&self) -> bool {
        self.preloaded
    }

    /// Whether the detector was made with `preload`.
    pub fn is_preloaded(&self) -> (preloaded: bool)
        ensures
            preloaded == self.preloaded(),
    {
        self.preloaded
    }

    /// Makes a detector for the languages given, or for the whole catalogue
    /// where none is given.
    ///
    /// With `preload` the models of all candidates are loaded now, otherwise
    /// each when a text first needs it.
    pub fn new(
        languages: Vec<LanguageOrString>,
        preload: bool,
        minimum_relative_distance: RelativeDistance,
    ) -> (result: Result<Detector, ConfigError>)
        ensures
            result is Ok <==> acceptable(languages@),
            match result {
                Ok(detector) => {
                    &&& detector.preloaded() == preload
                    &&& detector.minimum_relative_distance() == minimum_relative_distance.number()
                    &&& detector.minimum_relative_distance() <= LARGEST_DISTANCE
                    &&& detector.languages() == if languages@.len() == 0 {
                        catalogue()
                    } else {
                        resolved_names(languages@).to_set()
                    }
                    &&& holds_two(detector.languages())
                },
                Err(error) => rejected_with(languages@, error),
            },
    {
        let found = match resolve_languages(&languages) {
            Ok(found) => found,
            Err(error) => {
                return Err(error);
            },
        };
        assert(found.len() == languages.len()) by {
            assert(names(found@).len() == found.len());
            assert(resolved_names(languages@).len() == languages.len());
        }
        let mut builder = if found.len() == 0 {
            builder_from_all_languages()
        } else {
            builder_from_languages(&found)
        };
        proof {
            use_type_invariant(&minimum_relative_distance);
            if found.len() > 0 {
                two_distinct_hold_two(languages@);
            }
        }
        if minimum_relative_distance.digits() != 0 {
            with_minimum_relative_distance(
                &mut builder,
                minimum_relative_distance.digits(),
                minimum_relative_distance.scale(),
            );
        }
        if preload {
            with_preloaded_language_models(&mut builder);
        }
        assert(builder_preloads(builder) == preload);
        let inner = build(&mut builder);
        Ok(Detector { inner, preloaded: preload })
    }

    /// The language that the text is written in, if one stands out. A text
    /// of ASCII characters without a letter among them is written in none.
    pub fn detect(&self, text: String) -> (language: Option<Language>)
        ensures
            language matches Some(found) ==> self.languages().contains(found@),
            ascii_without_letters(text@) ==> language is None,
    {
        detect_language_of(&self.inner, text)
    }

    /// How likely each candidate is, the most likely first, or the empty
    /// ranking where the text gives no candidate any likelihood. A text of
    /// ASCII characters without a letter among them gives none.
    pub fn confidence(&self, text: String) -> (values: Vec<(Language, Confidence)>)
        ensures
            ascii_without_letters(text@) ==> values@.len() == 0,
            values@.len() > 0 ==> {
                &&& lists_exactly(
                    ranked(values@),
                    |name: Seq<char>| self.languages().contains(name),
                )
                &&& names(ranked(values@)).to_set() == self.languages()
                &&& probabilities(values@)
                &&& descending(values@)
                &&& !all_of(values@, 0)
            },
    {
        let found = compute_language_confidence_values(&self.inner, text);
        assert(names(ranked(found@)).to_set() =~= self.languages());
        ranking_with_signal(found)
    }
}

} // verus!
