//! Text shown by the user interface: shortened labels and the About dialog.

use vstd::prelude::*;

use crate::i18n::{en, fr, Locale};
use crate::text::{chars_of, concat_str, string_from_chars};

verus! {

broadcast use vstd::string::group_string_axioms;

/// `text` when it has at most `max_chars` characters; otherwise its first
/// `max_chars - 1` characters (none when `max_chars` is 0) followed by `…`.
pub open spec fn truncated(text: Seq<char>, max_chars: int) -> Seq<char> {
    if text.len() <= max_chars {
        text
    } else {
        text.take(if max_chars >= 1 { max_chars - 1 } else { 0 }) + "…"@
    }
}

/// Shortens a label to at most `max_chars` characters, marking the cut with `…`.
pub fn truncate_end(text: &str, max_chars: usize) -> (r: String)
    ensures
        r@ == truncated(text@, max_chars as int),
{
    let chars = chars_of(text);
    if chars.len() <= max_chars {
        return text.to_string();
    }
    let keep: usize = if max_chars >= 1 {
        max_chars - 1
    } else {
        0
    };
    let mut head: Vec<char> = Vec::new();
    let mut i: usize = 0;
    while i < keep
        invariant
            keep < chars.len(),
            i <= keep,
            head@ =~= chars@.take(i as int),
        decreases keep - i,
    {
        head.push(chars[i]);
        i = i + 1;
    }
    let head_string = string_from_chars(&head);
    concat_str(head_string.as_str(), "…")
}

/// A shortened label never exceeds a limit of at least one character, is the
/// label itself when it fits, and otherwise starts with the label's first
/// characters.
pub proof fn law_truncate_fits(text: Seq<char>, max_chars: int)
    requires
        max_chars >= 1,
    ensures
        truncated(text, max_chars).len() <= max_chars,
        text.len() <= max_chars ==> truncated(text, max_chars) == text,
        text.len() > max_chars ==> truncated(text, max_chars).take(max_chars - 1) == text.take(
            max_chars - 1,
        ),
{
    reveal_strlit("…");
    if text.len() > max_chars {
        assert(truncated(text, max_chars).take(max_chars - 1) =~= text.take(max_chars - 1));
    }
}

/// The About dialog's body: the description, a blank line, `Version <version>`,
/// the project URL, a blank line, then `Config:` and the configuration path.
pub open spec fn about_body(
    description: Seq<char>,
    version: Seq<char>,
    url: Seq<char>,
    config_path: Seq<char>,
) -> Seq<char> {
    description + "\n\nVersion "@ + version + "\n"@ + url + "\n\nConfig:\n"@ + config_path
}

/// Title and body of the About dialog for a locale, program version and the
/// path of the configuration file.
pub fn about_message(locale: Locale, version: &str, config_path: &str) -> (r: (String, String))
    ensures
        ({
            let t = match locale {
                Locale::En => en::spec_texts(),
                Locale::Fr => fr::spec_texts(),
            };
            &&& r.0@ == t.about_title@
            &&& r.1@ == about_body(t.about_description@, version@, t.about_url@, config_path@)
        }),
{
    let texts = locale.texts();
    let a = concat_str(texts.about_description, "\n\nVersion ");
    let b = concat_str(a.as_str(), version);
    let c = concat_str(b.as_str(), "\n");
    let d = concat_str(c.as_str(), texts.about_url);
    let e = concat_str(d.as_str(), "\n\nConfig:\n");
    let body = concat_str(e.as_str(), config_path);
    (texts.about_title.to_string(), body)
}

} // verus!
