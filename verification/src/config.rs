//! What a detector is configured with, and the rule that accepts or rejects
//! a list of candidate languages.

use crate::language::{
    catalogue, holds_two, language_named, lists_all, names, registered, Language,
    UnknownLanguageError,
};
use vstd::prelude::*;

verus! {

/// One candidate of a detector: a language, or a name still to be looked up.
#[derive(Debug)]
pub enum LanguageOrString {
    Typed(Language),
    Literal(String),
}

impl LanguageOrString {
    /// The language that the entry stands for, if it stands for one.
    pub open spec fn resolved(self) -> Option<Seq<char>> {
        match self {
            LanguageOrString::Typed(language) => Some(language@),
            LanguageOrString::Literal(name) => language_named(name@),
        }
    }

    /// The entry is the name `name`, and no language goes by it.
    pub open spec fn is_unknown_name(self, name: Seq<char>) -> bool {
        self matches LanguageOrString::Literal(literal) && literal@ == name && language_named(name)
            is None
    }

    /// Looks the entry's language up.
    pub fn resolve(&self) -> (result: Result<Language, UnknownLanguageError>)
        ensures
            match result {
                Ok(language) => self.resolved() == Some(language@) && registered(language@),
                Err(error) => self.is_unknown_name(error@),
            },
    {
        match self {
            LanguageOrString::Typed(language) => {
                let copy = language.clone();
                proof {
                    use_type_invariant(&copy);
                }
                Ok(copy)
            },
            LanguageOrString::Literal(name) => {
                match Language::new(name.as_str()) {
                    Ok(language) => {
                        proof {
                            use_type_invariant(&language);
                        }
                        Ok(language)
                    },
                    Err(error) => Err(error),
                }
            },
        }
    }
}

/// Every one of the first `end` entries stands for a language.
pub open spec fn all_resolve(entries: Seq<LanguageOrString>, end: int) -> bool {
    forall|i: int| 0 <= i < end ==> (#[trigger] entries[i]).resolved() is Some
}

/// The place of the first of the first `end` entries that stands for no
/// language, or `end` where each of them stands for one.
spec fn first_unknown(entries: Seq<LanguageOrString>, end: int) -> int
    decreases end,
{
    if end <= 0 {
        0
    } else if first_unknown(entries, end - 1) < end - 1 {
        first_unknown(entries, end - 1)
    } else if entries[end - 1].resolved() is None {
        end - 1
    } else {
        end
    }
}

/// Two of the entries stand for different languages.
pub open spec fn two_distinct(entries: Seq<LanguageOrString>) -> bool {
    exists|i: int, j: int|
        0 <= i < entries.len() && 0 <= j < entries.len() && (#[trigger] entries[i]).resolved() != (
        #[trigger] entries[j]).resolved()
}

/// The languages that the entries stand for, in the entries' order.
pub open spec fn resolved_names(entries: Seq<LanguageOrString>) -> Seq<Seq<char>> {
    Seq::new(entries.len(), |i: int| entries[i].resolved().unwrap())
}

/// The list is one that a detector can be made from: it is empty, which
/// stands for the whole catalogue, or it names at least two different
/// languages and nothing that is unknown.
pub open spec fn acceptable(entries: Seq<LanguageOrString>) -> bool {
    entries.len() == 0 || (entries.len() >= 2 && all_resolve(entries, entries.len() as int)
        && two_distinct(entries))
}

/// The bit pattern of the double-precision number that `str::parse` reads
/// from the decimal `digits` times ten to the power of minus `scale`: the
/// number nearest to it.
pub uninterp spec fn nearest_number(digits: nat, scale: nat) -> u64;

/// The bit pattern of 0.99, the largest minimum relative distance.
pub const LARGEST_DISTANCE: u64 = 0x3FEF_AE14_7AE1_47AE;

/// Ten to the power of `exponent`.
pub open spec fn power_of_ten(exponent: nat) -> nat
    decreases exponent,
{
    if exponent == 0 {
        1
    } else {
        10 * power_of_ten((exponent - 1) as nat)
    }
}

/// The decimal `digits` times ten to the power of minus `scale` is at most
/// 0.99, the largest minimum relative distance.
pub open spec fn at_most_largest(digits: nat, scale: nat) -> bool {
    100 * digits <= 99 * power_of_ten(scale)
}

/// A larger exponent gives no smaller power, and no power is below one.
pub proof fn power_of_ten_grows(smaller: nat, larger: nat)
    requires
        smaller <= larger,
    ensures
        1 <= power_of_ten(smaller) <= power_of_ten(larger),
    decreases larger,
{
    if smaller < larger {
        power_of_ten_grows(smaller, (larger - 1) as nat);
    } else if smaller > 0 {
        power_of_ten_grows((smaller - 1) as nat, (larger - 1) as nat);
    }
}

/// How far, at least, the most likely language must lie ahead of the next one
/// for a text to count as detected: a decimal from 0 to 0.99, written as a
/// count of digits and the number of them that stand behind the point.
#[derive(Clone, Copy, Debug, PartialEq, Eq, Structural)]
pub struct RelativeDistance {
    digits: u64,
    scale: u16,
}

impl View for RelativeDistance {
    type V = (nat, nat);

    closed spec fn view(&self) -> (nat, nat) {
        (self.digits as nat, self.scale as nat)
    }
}

impl RelativeDistance {
    /// The distance is at most 0.99.
    #[verifier::type_invariant]
    pub open spec fn in_range(self) -> bool {
        at_most_largest(self@.0, self@.1)
    }

    /// The bit pattern of the number that the distance stands for: that of
    /// zero where the count of digits is zero, and else that of the number
    /// nearest to the decimal.
    pub open spec fn number(self) -> u64 {
        if self@.0 == 0 {
            0
        } else {
            nearest_number(self@.0, self@.1)
        }
    }

    /// No distance: the most likely language need not lie ahead by any margin.
    pub fn zero() -> (distance: RelativeDistance)
        ensures
            distance@ == (0nat, 0nat),
    {
        RelativeDistance { digits: 0, scale: 0 }
    }

    /// The distance `digits` times ten to the power of minus `scale`, if that
    /// is at most 0.99: `from_decimal(125, 3)` is 0.125.
    pub fn from_decimal(digits: u64, scale: u16) -> (distance: Option<RelativeDistance>)
        ensures
            distance is Some <==> at_most_largest(digits as nat, scale as nat),
            distance matches Some(made) ==> made@ == (digits as nat, scale as nat),
    {
        assert(power_of_ten(21) == 1_000_000_000_000_000_000_000) by {
            reveal_with_fuel(power_of_ten, 22);
        }
        let mut power: u128 = 1;
        let mut known: u16 = 0;
        while known < scale && known < 21
            invariant
                known <= scale,
                known <= 21,
                power == power_of_ten(known as nat),
                power_of_ten(21) == 1_000_000_000_000_000_000_000,
            decreases 21 - known,
        {
            proof {
                power_of_ten_grows((known + 1) as nat, 21);
            }
            power = power * 10;
            known += 1;
        }
        proof {
            power_of_ten_grows(known as nat, 21);
            power_of_ten_grows(known as nat, scale as nat);
        }
        let wide: u128 = digits as u128;
        if 100 * wide <= 99 * power {
            Some(RelativeDistance { digits, scale })
        } else {
            None
        }
    }

    /// The count of digits.
    pub fn digits(&self) -> (digits: u64)
        ensures
            digits == self@.0,
    {
        self.digits
    }

    /// The number of digits that stand behind the point.
    pub fn scale(&self) -> (scale: u16)
        ensures
            scale == self@.1,
    {
        self.scale
    }
}

/// Why a detector could not be configured.
#[derive(Debug)]
pub enum ConfigError {
    /// Fewer than two different languages were given, but not none.
    TooFewLanguages,
    /// One of the names given is not in the catalogue.
    UnknownLanguage(UnknownLanguageError),
}

impl ConfigError {
    /// A sentence for the user.
    pub fn message(&self) -> (message: String)
        ensures
            self is TooFewLanguages ==> message@ == "At least two languages are required"@,
            self is UnknownLanguage ==> message@ == "unknown language"@,
    {
        match self {
            ConfigError::TooFewLanguages => "At least two languages are required".to_owned(),
            ConfigError::UnknownLanguage(error) => error.message(),
        }
    }
}

/// `error` is what the list is rejected with.
///
/// A list of one entry is too short whatever the entry is. In a longer list
/// the first name that is not in the catalogue is reported; a list that is
/// known throughout must hold two different languages.
pub open spec fn rejected_with(entries: Seq<LanguageOrString>, error: ConfigError) -> bool {
    match error {
        ConfigError::TooFewLanguages => {
            ||| entries.len() == 1
            ||| entries.len() >= 2 && all_resolve(entries, entries.len() as int) && !two_distinct(
                entries,
            )
        },
        ConfigError::UnknownLanguage(unknown) => {
            &&& entries.len() >= 2
            &&& exists|i: int|
                0 <= i < entries.len() && all_resolve(entries, i) && (#[trigger] entries[i]).is_unknown_name(
                unknown@)
        },
    }
}

/// Before the first unknown entry every entry is known, and where that place
/// lies among the entries its entry is unknown.
proof fn first_unknown_is_first(entries: Seq<LanguageOrString>, end: int)
    requires
        0 <= end <= entries.len(),
    ensures
        0 <= first_unknown(entries, end) <= end,
        all_resolve(entries, first_unknown(entries, end)),
        first_unknown(entries, end) < end ==> entries[first_unknown(entries, end)].resolved()
            is None,
    decreases end,
{
    if end > 0 {
        first_unknown_is_first(entries, end - 1);
    }
}

/// A list of exactly one candidate is rejected as too short, whatever the
/// candidate is.
pub proof fn one_candidate_is_too_few(entries: Seq<LanguageOrString>, error: ConfigError)
    requires
        entries.len() == 1,
    ensures
        !acceptable(entries),
        rejected_with(entries, error) <==> error is TooFewLanguages,
{
}

/// The empty list is accepted: no error goes with it.
pub proof fn no_candidate_is_accepted(entries: Seq<LanguageOrString>, error: ConfigError)
    requires
        entries.len() == 0,
    ensures
        acceptable(entries),
        !rejected_with(entries, error),
{
}

/// Where two entries stand for different languages, the set of the languages
/// that the entries stand for holds two names.
pub proof fn two_distinct_hold_two(entries: Seq<LanguageOrString>)
    requires
        all_resolve(entries, entries.len() as int),
        two_distinct(entries),
    ensures
        holds_two(resolved_names(entries).to_set()),
{
    let (i, j) = choose|i: int, j: int|
        0 <= i < entries.len() && 0 <= j < entries.len() && (#[trigger] entries[i]).resolved() != (
        #[trigger] entries[j]).resolved();
    let one = resolved_names(entries)[i];
    let other = resolved_names(entries)[j];
    assert(entries[i].resolved() is Some && entries[j].resolved() is Some);
    assert(one != other);
    assert(resolved_names(entries).to_set().contains(one));
    assert(resolved_names(entries).to_set().contains(other));
}

/// The list of all the languages of the catalogue is accepted and stands for
/// the same candidates as the empty list: the whole catalogue.
pub proof fn every_language_is_the_catalogue(
    languages: Seq<Language>,
    entries: Seq<LanguageOrString>,
)
    requires
        lists_all(languages),
        entries.len() == languages.len(),
        forall|i: int|
            0 <= i < entries.len() ==> #[trigger] entries[i] == LanguageOrString::Typed(
                languages[i],
            ),
    ensures
        acceptable(entries),
        resolved_names(entries).to_set() == catalogue(),
{
    assert(resolved_names(entries) =~= names(languages));
    assert(names(languages).to_set() =~= catalogue());
    assert(names(languages)[0] != names(languages)[1]);
    assert(entries[0].resolved() != entries[1].resolved());
}

/// A list is accepted or rejected, never both: an error goes with it exactly
/// when it is not acceptable.
pub proof fn accepted_or_rejected(entries: Seq<LanguageOrString>)
    ensures
        acceptable(entries) <==> !exists|error: ConfigError| rejected_with(entries, error),
{
    if acceptable(entries) {
        assert forall|error: ConfigError| !rejected_with(entries, error) by {
            if let ConfigError::UnknownLanguage(unknown) = error {
                assert forall|i: int| 0 <= i < entries.len() implies !(#[trigger] entries[i]).is_unknown_name(
                unknown@) by {
                    assert(entries[i].resolved() is Some);
                }
            }
        }
    } else if entries.len() == 1 {
        assert(rejected_with(entries, ConfigError::TooFewLanguages));
    } else if all_resolve(entries, entries.len() as int) {
        assert(rejected_with(entries, ConfigError::TooFewLanguages));
    } else {
        let first = first_unknown(entries, entries.len() as int);
        let name = entries[first]->Literal_0;
        let error = ConfigError::UnknownLanguage(UnknownLanguageError { name });
        first_unknown_is_first(entries, entries.len() as int);
        assert(entries[first].is_unknown_name(name@));
        assert(rejected_with(entries, error));
    }
}

/// The error that a list is rejected with is settled by the list: two errors
/// that go with it are of one kind and name the same unknown language.
pub proof fn rejection_is_settled(entries: Seq<LanguageOrString>, one: ConfigError, other: ConfigError)
    requires
        rejected_with(entries, one),
        rejected_with(entries, other),
    ensures
        one is TooFewLanguages <==> other is TooFewLanguages,
        one matches ConfigError::UnknownLanguage(a) ==> other matches ConfigError::UnknownLanguage(b)
            && a@ == b@,
{
    if let ConfigError::UnknownLanguage(a) = one {
        let i = choose|i: int|
            0 <= i < entries.len() && all_resolve(entries, i) && (#[trigger] entries[i]).is_unknown_name(
            a@);
        assert(entries[i].resolved() is None);
        if let ConfigError::UnknownLanguage(b) = other {
            let j = choose|j: int|
                0 <= j < entries.len() && all_resolve(entries, j) && (
                #[trigger] entries[j]).is_unknown_name(b@);
            assert(entries[j].resolved() is None);
            if i < j {
                assert(entries[i].resolved() is Some);
            }
            if j < i {
                assert(entries[j].resolved() is Some);
            }
        }
    } else if let ConfigError::UnknownLanguage(b) = other {
        let j = choose|j: int|
            0 <= j < entries.len() && all_resolve(entries, j) && (#[trigger] entries[j]).is_unknown_name(
            b@);
        assert(entries[j].resolved() is None);
    }
}

/// Looks up the languages that a list of candidates stands for.
///
/// A list of one entry is too short whatever the entry is. In a longer list
/// the first name that is not in the catalogue is reported; a list that is
/// known throughout must hold two different languages.
pub fn resolve_languages(languages: &Vec<LanguageOrString>) -> (result: Result<
    Vec<Language>,
    ConfigError,
>)
    ensures
        result is Ok <==> acceptable(languages@),
        match result {
            Ok(found) => {
                &&& names(found@) == resolved_names(languages@)
                &&& forall|i: int| 0 <= i < found.len() ==> registered(#[trigger] found@[i]@)
            },
            Err(error) => rejected_with(languages@, error),
        },
{
    let mut found: Vec<Language> = Vec::new();
    if languages.len() == 0 {
        assert(names(found@) =~= resolved_names(languages@));
        return Ok(found);
    }
    if languages.len() == 1 {
        return Err(ConfigError::TooFewLanguages);
    }
    let mut differ = false;
    let mut i: usize = 0;
    while i < languages.len()
        invariant
            2 <= languages.len(),
            0 <= i <= languages.len(),
            found.len() == i,
            forall|k: int| 0 <= k < i ==> (#[trigger] languages@[k]).resolved() == Some(found@[k]@),
            forall|k: int| 0 <= k < i ==> registered(#[trigger] found@[k]@),
            differ <==> exists|k: int| 0 <= k < i && (#[trigger] found@[k])@ != found@[0]@,
        decreases languages.len() - i,
    {
        let language = match languages[i].resolve() {
            Ok(language) => language,
            Err(error) => {
                proof {
                    assert(all_resolve(languages@, i as int));
                    assert(languages@[i as int].is_unknown_name(error@));
                    assert(languages@[i as int].resolved() is None);
                }
                return Err(ConfigError::UnknownLanguage(error));
            },
        };
        let ghost before = found@;
        if i > 0 && language != found[0] {
            differ = true;
        }
        found.push(language);
        proof {
            assert(forall|k: int| 0 <= k < i ==> found@[k] == before[k]);
            if differ {
                if language@ != found@[0]@ {
                    assert(found@[i as int]@ != found@[0]@);
                } else {
                    let k = choose|k: int| 0 <= k < i && (#[trigger] before[k])@ != before[0]@;
                    assert(found@[k]@ != found@[0]@);
                }
            }
        }
        i += 1;
    }
    proof {
        let entries = languages@;
        assert(all_resolve(entries, entries.len() as int));
        assert(names(found@) =~= resolved_names(entries));
        if differ {
            let k = choose|k: int| 0 <= k < found.len() && (#[trigger] found@[k])@ != found@[0]@;
            assert(entries[k].resolved() != entries[0].resolved());
        }
        if two_distinct(entries) {
            let (a, b) = choose|a: int, b: int|
                0 <= a < entries.len() && 0 <= b < entries.len() && (
                #[trigger] entries[a]).resolved() != (#[trigger] entries[b]).resolved();
            if found@[a]@ != found@[0]@ {
            } else {
                assert(found@[b]@ != found@[0]@);
            }
        }
    }
    if !differ {
        return Err(ConfigError::TooFewLanguages);
    }
    Ok(found)
}

} // verus!
