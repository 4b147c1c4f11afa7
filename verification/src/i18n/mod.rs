//! UI string catalog and locale resolution. The active locale comes from the
//! `MIXMIXER_LANG` override, then the configuration, then English.

pub mod en;
pub mod fr;

use vstd::prelude::*;

use crate::text::{ascii_lower, ascii_lowercase, chars_eq, chars_of, trim, trim_chars};

verus! {

broadcast use vstd::string::group_string_axioms;

/// Supported UI languages.
#[derive(Debug, Clone, Copy, PartialEq, Eq, Structural)]
pub enum Locale {
    En,
    Fr,
}

/// All user-visible UI strings for a locale.
#[derive(Debug, Clone, Copy)]
pub struct UiText {
    pub header_subtitle: &'static str,
    pub status_active: &'static str,
    pub status_reconnecting: &'static str,
    pub status_inactive: &'static str,
    pub btn_quit: &'static str,
    pub btn_apply: &'static str,
    pub btn_cancel: &'static str,
    pub section_general: &'static str,
    pub section_routing: &'static str,
    pub section_devices: &'static str,
    pub section_audio: &'static str,
    pub routing_enable: &'static str,
    pub device_mic: &'static str,
    pub device_vac: &'static str,
    pub device_monitor: &'static str,
    pub monitor_headphones: &'static str,
    pub monitor_volume: &'static str,
    pub gain_voice: &'static str,
    pub gain_master: &'static str,
    pub buffer_latency: &'static str,
    pub buffer_hint: &'static str,
    pub status_send_failed: &'static str,
    pub status_command_failed: &'static str,
    pub status_apply_ok: &'static str,
    pub status_routing_on: &'static str,
    pub status_routing_off: &'static str,
    pub window_title: &'static str,
    pub tray_about: &'static str,
    pub tray_quit: &'static str,
    pub tray_tooltip: &'static str,
    pub about_title: &'static str,
    pub about_description: &'static str,
    pub about_url: &'static str,
}

/// The locale that a code names: `en`/`english` or `fr`/`french`/`français`/`francais`,
/// ignoring surrounding white space and ASCII case.
pub open spec fn parse_spec(code: Seq<char>) -> Option<Locale> {
    let k = ascii_lower(trim(code));
    if k == "en"@ || k == "english"@ {
        Some(Locale::En)
    } else if k == "fr"@ || k == "french"@ || k == "français"@ || k == "francais"@ {
        Some(Locale::Fr)
    } else {
        None
    }
}

/// The first of the given codes that names a locale decides; English otherwise.
pub open spec fn resolve_spec(env_lang: Option<Seq<char>>, config_locale: Option<Seq<char>>) -> Locale {
    if env_lang is Some && parse_spec(env_lang->0) is Some {
        parse_spec(env_lang->0)->0
    } else if config_locale is Some && parse_spec(config_locale->0) is Some {
        parse_spec(config_locale->0)->0
    } else {
        Locale::En
    }
}

/// A POSIX locale value such as `fr_FR.UTF-8` names the locale of its language part,
/// the text before the first `.` or `_`.
pub open spec fn posix_language(value: Seq<char>) -> Seq<char> {
    if exists|i: int| 0 <= i < value.len() && (value[i] == '.' || value[i] == '_') {
        let i = choose|i: int|
            0 <= i < value.len() && (value[i] == '.' || value[i] == '_') && forall|j: int|
                0 <= j < i ==> value[j] != '.' && value[j] != '_';
        value.take(i)
    } else {
        value
    }
}

/// A Windows locale name such as `fr-FR` names French or English by its first two letters.
pub open spec fn windows_locale_spec(name: Seq<char>) -> Option<Locale> {
    let lower = ascii_lower(name);
    if lower.len() >= 2 && lower.take(2) == "fr"@ {
        Some(Locale::Fr)
    } else if lower.len() >= 2 && lower.take(2) == "en"@ {
        Some(Locale::En)
    } else {
        None
    }
}

/// The code saved in the configuration for a locale.
pub open spec fn code_spec(l: Locale) -> Seq<char> {
    match l {
        Locale::En => "en"@,
        Locale::Fr => "fr"@,
    }
}

/// The two-letter code shown in the locale picker.
pub open spec fn short_code_spec(l: Locale) -> Seq<char> {
    match l {
        Locale::En => "EN"@,
        Locale::Fr => "FR"@,
    }
}

/// The human-readable name shown in the language picker.
pub open spec fn display_name_spec(l: Locale) -> Seq<char> {
    match l {
        Locale::En => "English"@,
        Locale::Fr => "Français"@,
    }
}

/// A code with no white space at either end is its own trim.
proof fn lemma_trim_unpadded(s: Seq<char>)
    requires
        s.len() > 0,
        !crate::text::is_white_space(s[0]),
        !crate::text::is_white_space(s.last()),
    ensures
        trim(s) == s,
{
    assert(crate::text::trim_start(s) == s);
}

/// Each locale's code, short code and display name parse back to that locale, so a
/// saved configuration and the language picker always name the locale they show.
pub proof fn law_locale_names_parse_back(l: Locale)
    ensures
        parse_spec(code_spec(l)) == Some(l),
        parse_spec(short_code_spec(l)) == Some(l),
        parse_spec(display_name_spec(l)) == Some(l),
{
    reveal_strlit("en");
    reveal_strlit("fr");
    reveal_strlit("EN");
    reveal_strlit("FR");
    reveal_strlit("English");
    reveal_strlit("Français");
    reveal_strlit("english");
    reveal_strlit("français");
    lemma_trim_unpadded("en"@);
    lemma_trim_unpadded("fr"@);
    lemma_trim_unpadded("EN"@);
    lemma_trim_unpadded("FR"@);
    lemma_trim_unpadded("English"@);
    lemma_trim_unpadded("Français"@);
    assert(ascii_lower("en"@) =~= "en"@);
    assert(ascii_lower("fr"@) =~= "fr"@);
    assert(ascii_lower("EN"@) =~= "en"@);
    assert(ascii_lower("FR"@) =~= "fr"@);
    assert(ascii_lower("English"@) =~= "english"@);
    assert(ascii_lower("Français"@) =~= "français"@);
}

impl Default for Locale {
    fn default() -> (r: Self)
        ensures
            r == Locale::En,
    {
        Locale::En
    }
}

/// Is `k` the literal `word`?
fn is_word(k: &Vec<char>, word: &str) -> (r: bool)
    ensures
        r == (k@ == word@),
{
    let w = chars_of(word);
    chars_eq(k, &w)
}

impl Locale {
    /// All supported locales, in the order the language picker lists them.
    pub const ALL: [Locale; 2] = [Locale::En, Locale::Fr];

    /// Parses a locale code (see [`parse_spec`]).
    pub fn parse(code: &str) -> (r: Option<Self>)
        ensures
            r == parse_spec(code@),
    {
        let k = ascii_lowercase(&trim_chars(&chars_of(code)));
        if is_word(&k, "en") || is_word(&k, "english") {
            Some(Locale::En)
        } else if is_word(&k, "fr") || is_word(&k, "french") || is_word(&k, "français") || is_word(
            &k,
            "francais",
        ) {
            Some(Locale::Fr)
        } else {
            None
        }
    }

    /// The active locale: the `MIXMIXER_LANG` value when it names one, else the
    /// configured code when it names one, else English.
    pub fn resolve(env_lang: Option<&str>, config_locale: Option<&str>) -> (r: Self)
        ensures
            r == resolve_spec(
                match env_lang {
                    Some(s) => Some(s@),
                    None => None,
                },
                match config_locale {
                    Some(s) => Some(s@),
                    None => None,
                },
            ),
    {
        if let Some(env) = env_lang {
            if let Some(locale) = Self::parse(env) {
                return locale;
            }
        }
        if let Some(code) = config_locale {
            if let Some(locale) = Self::parse(code) {
                return locale;
            }
        }
        Locale::En
    }

    /// The locale for a new configuration: the `MIXMIXER_LANG` value when it names one,
    /// else the system's UI language when it is supported, else English.
    pub fn from_system(env_lang: Option<&str>, system: Option<Locale>) -> (r: Self)
        ensures
            r == (if env_lang is Some && parse_spec(env_lang->0@) is Some {
                parse_spec(env_lang->0@)->0
            } else if system is Some {
                system->0
            } else {
                Locale::En
            }),
    {
        if let Some(env) = env_lang {
            if let Some(locale) = Self::parse(env) {
                return locale;
            }
        }
        match system {
            Some(l) => l,
            None => Locale::En,
        }
    }

    /// The locale of a POSIX locale value (`LC_ALL`, `LANG`), from its language part.
    pub fn from_posix_value(value: &str) -> (r: Option<Self>)
        ensures
            r == parse_spec(posix_language(value@)),
    {
        let v = chars_of(value);
        let n = v.len();
        let mut i: usize = 0;
        while i < n && v[i] != '.' && v[i] != '_'
            invariant
                n == v.len(),
                i <= n,
                forall|j: int| 0 <= j < i ==> v@[j] != '.' && v@[j] != '_',
            decreases n - i,
        {
            i = i + 1;
        }
        let mut head: Vec<char> = Vec::new();
        let mut k: usize = 0;
        while k < i
            invariant
                i <= n,
                n == v.len(),
                k <= i,
                head@ =~= v@.take(k as int),
            decreases i - k,
        {
            head.push(v[k]);
            k = k + 1;
        }
        proof {
            if i < n {
                let w = choose|w: int|
                    0 <= w < v@.len() && (v@[w] == '.' || v@[w] == '_') && forall|j: int|
                        0 <= j < w ==> v@[j] != '.' && v@[j] != '_';
                assert(0 <= i < v@.len() && (v@[i as int] == '.' || v@[i as int] == '_'));
                if w < i {
                } else if w > i {
                    assert(v@[i as int] != '.' && v@[i as int] != '_');
                }
                assert(w == i);
            } else {
                assert(head@ =~= v@);
            }
        }
        let head_string = crate::text::string_from_chars(&head);
        Self::parse(head_string.as_str())
    }

    /// The locale of a Windows locale name (see [`windows_locale_spec`]).
    pub fn from_windows_name(name: &str) -> (r: Option<Self>)
        ensures
            r == windows_locale_spec(name@),
    {
        let lower = ascii_lowercase(&chars_of(name));
        if lower.len() < 2 {
            return None;
        }
        let mut two: Vec<char> = Vec::new();
        two.push(lower[0]);
        two.push(lower[1]);
        assert(two@ =~= lower@.take(2));
        if is_word(&two, "fr") {
            Some(Locale::Fr)
        } else if is_word(&two, "en") {
            Some(Locale::En)
        } else {
            None
        }
    }

    /// The string table for this locale.
    pub fn texts(&self) -> (t: UiText)
        ensures
            t == match *self {
                Locale::En => en::spec_texts(),
                Locale::Fr => fr::spec_texts(),
            },
    {
        match self {
            Locale::En => en::texts(),
            Locale::Fr => fr::texts(),
        }
    }

    /// The code saved in the configuration.
    pub fn code(self) -> (r: &'static str)
        ensures
            r@ == code_spec(self),
    {
        match self {
            Locale::En => "en",
            Locale::Fr => "fr",
        }
    }

    /// Two-letter code shown in the locale picker.
    pub fn short_code(self) -> (r: &'static str)
        ensures
            r@ == short_code_spec(self),
    {
        match self {
            Locale::En => "EN",
            Locale::Fr => "FR",
        }
    }

    /// Human-readable name shown in the language picker.
    pub fn display_name(self) -> (r: &'static str)
        ensures
            r@ == display_name_spec(self),
    {
        match self {
            Locale::En => "English",
            Locale::Fr => "Français",
        }
    }
}

/// `MIXMIXER_LANG` wins: an environment value that names a locale decides the
/// active locale whatever the configuration says; one that names none leaves
/// the choice to the configuration, as if it were unset.
pub proof fn law_env_override(env: Seq<char>, config_locale: Option<Seq<char>>)
    ensures
        parse_spec(env) matches Some(l) ==> resolve_spec(Some(env), config_locale) == l,
        parse_spec(env) is None ==> resolve_spec(Some(env), config_locale) == resolve_spec(
            None,
            config_locale,
        ),
        (config_locale is Some && parse_spec(config_locale->0) is Some) ==> resolve_spec(
            None,
            config_locale,
        ) == parse_spec(config_locale->0)->0,
        (config_locale is None || parse_spec(config_locale->0) is None) ==> resolve_spec(
            None,
            config_locale,
        ) == Locale::En,
{
}

} // verus!
