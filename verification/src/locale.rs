//! The locale choice: a fixed language-and-region code, or the
//! sentinel that inherits the host's setting.

use vstd::prelude::*;

verus! {

/// The locale the session runs in. `SystemLanguage` means: inherit
/// the host's language-and-region setting.
#[derive(Debug, Clone, Copy, PartialEq, Eq, Structural)]
pub enum Language {
    EnUs,
    DeDe,
    FrFr,
    SystemLanguage,
}

/// The code each locale choice stands for.
pub open spec fn spec_language_code(l: Language) -> Seq<char> {
    match l {
        Language::EnUs => "en_US"@,
        Language::DeDe => "de_DE"@,
        Language::FrFr => "fr_FR"@,
        Language::SystemLanguage => "systemlanguage"@,
    }
}

/// `i` is the position of the first `'.'` of the sequence.
pub open spec fn first_dot_at(s: Seq<char>, i: int) -> bool {
    &&& 0 <= i < s.len()
    &&& s[i] == '.'
    &&& forall|j: int| 0 <= j < i ==> s[j] != '.'
}

impl Language {
    /// The locale code of this choice, as the configuration
    /// front-end spells it.
    pub fn code(&self) -> (r: &'static str)
        ensures
            r@ == spec_language_code(*self),
    {
        match self {
            Language::EnUs => "en_US",
            Language::DeDe => "de_DE",
            Language::FrFr => "fr_FR",
            Language::SystemLanguage => "systemlanguage",
        }
    }
}

/// Splits a host locale value such as `"de_DE.UTF-8"` at its first
/// `'.'` and keeps the prefix; a value without a `'.'` is rejected.
pub fn locale_prefix(value: &str) -> (r: Option<String>)
    ensures
        match r {
            Some(p) => exists|i: int| #[trigger]
                first_dot_at(value@, i) && p@ == value@.subrange(0, i),
            None => forall|i: int| 0 <= i < value@.len() ==> value@[i] != '.',
        },
{
    let len = value.unicode_len();
    let mut i: usize = 0;
    while i < len
        invariant
            0 <= i <= len,
            len == value@.len(),
            forall|j: int| 0 <= j < i ==> value@[j] != '.',
        decreases len - i,
    {
        let c = value.get_char(i);
        if c == '.' {
            let prefix = value.substring_char(0, i);
            proof {
                assert(first_dot_at(value@, i as int));
            }
            return Some(String::from_str(prefix));
        }
        i += 1;
    }
    None
}

/// Decides the locale code of a session. A fixed choice yields its
/// own code; the inherit sentinel takes the host's value and strips
/// everything from the first `'.'` on. `None` means the host gave no
/// usable value, which is a fatal configuration error.
pub fn language_code(language: &Language, system_value: Option<&str>) -> (r: Option<String>)
    ensures
        *language != Language::SystemLanguage ==> r is Some && r->0@ == spec_language_code(
            *language,
        ),
        *language == Language::SystemLanguage ==> match system_value {
            None => r is None,
            Some(v) => match r {
                Some(p) => exists|i: int| #[trigger]
                    first_dot_at(v@, i) && p@ == v@.subrange(0, i),
                None => forall|i: int| 0 <= i < v@.len() ==> v@[i] != '.',
            },
        },
{
    match language {
        Language::SystemLanguage => {
            match system_value {
                None => None,
                Some(v) => locale_prefix(v),
            }
        },
        _ => Some(String::from_str(language.code())),
    }
}

} // verus!
