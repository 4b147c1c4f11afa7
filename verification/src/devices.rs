//! Device-name rules: how a configured name picks an audio endpoint, how names
//! are shortened to stable queries, and how device lists are ordered.
//! Endpoints are represented by their names; the caller keeps the endpoint
//! handles in the same order and maps a chosen index back to its handle.

use vstd::prelude::*;

use crate::error::{error_message, Error, Result};
use crate::text::{
    ascii_lower, chars_eq_ignore_ascii_case, chars_of, concat_str, contains_chars,
    has_substring, is_ascii_chars, lemma_has_substring_subrange, lemma_trim_ascii_lower,
    lemma_trim_bounds, lowercase_form, occurs_at, string_from_chars, to_lowercase, trim, trim_chars,
};

verus! {

broadcast use vstd::string::group_string_axioms;

/// Names of the capture and playback endpoints, each list ordered by lowercase name.
#[derive(Debug, Clone)]
pub struct DeviceLists {
    pub inputs: Vec<String>,
    pub outputs: Vec<String>,
}

/// The short query that a full endpoint name is saved as: well-known devices get a
/// fixed query that survives Windows renumbering them, others keep their trimmed name.
pub open spec fn stable_query(full_name: Seq<char>) -> Seq<char> {
    let lower = lowercase_form(full_name);
    if has_substring(lower, "fifine"@) && has_substring(lower, "microphone"@) {
        "fifine Microphone"@
    } else if has_substring(lower, "cable"@) && has_substring(lower, "input"@) {
        "CABLE Input"@
    } else if has_substring(lower, "fifine"@) && (has_substring(lower, "sc3"@)
        || has_substring(lower, "haut-parleurs"@)) {
        "fifine SC3"@
    } else {
        trim(full_name)
    }
}

/// `name` matches `query` when the lowercase query is a substring of the lowercase name.
pub open spec fn name_matches(name: Seq<char>, query: Seq<char>) -> bool {
    has_substring(lowercase_form(name), lowercase_form(query))
}

/// `name` equals `needle` up to ASCII case.
pub open spec fn name_equals(name: Seq<char>, needle: Seq<char>) -> bool {
    ascii_lower(name) == ascii_lower(needle)
}

/// `r` is the index of the first name that matches `query`, or `None` when none does.
pub open spec fn first_matching(names: Seq<String>, query: Seq<char>, r: Option<usize>) -> bool {
    match r {
        Some(i) => {
            &&& i < names.len()
            &&& name_matches(names[i as int]@, query)
            &&& forall|j: int| 0 <= j < i ==> !name_matches(#[trigger] names[j]@, query)
        },
        None => forall|j: int| 0 <= j < names.len() ==> !name_matches(#[trigger] names[j]@, query),
    }
}

/// `r` is the index of the first name equal to `needle` up to ASCII case, or `None`.
pub open spec fn first_equal(names: Seq<String>, needle: Seq<char>, r: Option<usize>) -> bool {
    match r {
        Some(i) => {
            &&& i < names.len()
            &&& name_equals(names[i as int]@, needle)
            &&& forall|j: int| 0 <= j < i ==> !name_equals(#[trigger] names[j]@, needle)
        },
        None => forall|j: int| 0 <= j < names.len() ==> !name_equals(#[trigger] names[j]@, needle),
    }
}

/// The endpoint choice for a configured name: none for a blank query; otherwise the
/// first name equal to the trimmed query up to ASCII case, and failing that the
/// first name that matches it as a case-insensitive substring.
pub open spec fn device_pick(names: Seq<String>, query: Seq<char>, r: Option<usize>) -> bool {
    let needle = trim(query);
    if needle.len() == 0 {
        r is None
    } else if exists|j: int| 0 <= j < names.len() && name_equals(#[trigger] names[j]@, needle) {
        first_equal(names, needle, r)
    } else {
        first_matching(names, needle, r)
    }
}

/// The message of the error for a configured name that matches no endpoint.
pub open spec fn no_device_message(kind: Seq<char>, query: Seq<char>) -> Seq<char> {
    "no "@ + kind + " device matching '"@ + query + "' — run --list-devices"@
}

/// Does `lower` contain the literal `word`?
fn contains_word(lower: &Vec<char>, word: &str) -> (r: bool)
    ensures
        r == has_substring(lower@, word@),
{
    let w = chars_of(word);
    contains_chars(lower, &w)
}

/// Shortens a full endpoint name to the query that is saved in the configuration.
pub fn stable_device_query(full_name: &str) -> (r: String)
    ensures
        r@ == stable_query(full_name@),
{
    let lower_string = to_lowercase(full_name);
    let lower = chars_of(lower_string.as_str());
    if contains_word(&lower, "fifine") && contains_word(&lower, "microphone") {
        return "fifine Microphone".to_string();
    }
    if contains_word(&lower, "cable") && contains_word(&lower, "input") {
        return "CABLE Input".to_string();
    }
    if contains_word(&lower, "fifine") && (contains_word(&lower, "sc3") || contains_word(
        &lower,
        "haut-parleurs",
    )) {
        return "fifine SC3".to_string();
    }
    let trimmed = trim_chars(&chars_of(full_name));
    string_from_chars(&trimmed)
}

/// `i` is the index of the first name that matches `query`, or 0 when none does.
pub open spec fn best_index(names: Seq<String>, query: Seq<char>, i: usize) -> bool {
    if exists|j: int| 0 <= j < names.len() && name_matches(#[trigger] names[j]@, query) {
        first_matching(names, query, Some(i))
    } else {
        i == 0
    }
}

/// Index of the first name that matches `query` case-insensitively as a substring,
/// or 0 when none does (and for an empty list).
pub fn best_device_index(names: &[String], query: &str) -> (r: usize)
    ensures
        best_index(names@, query@, r),
{
    if names.len() == 0 {
        return 0;
    }
    match first_substring_match(names, query) {
        Some(i) => i,
        None => 0,
    }
}

/// First index whose name matches `query` as a case-insensitive substring.
fn first_substring_match(names: &[String], query: &str) -> (r: Option<usize>)
    ensures
        first_matching(names@, query@, r),
{
    let needle_string = to_lowercase(query);
    let needle = chars_of(needle_string.as_str());
    let n = names.len();
    let mut i: usize = 0;
    while i < n
        invariant
            n == names@.len(),
            i <= n,
            needle@ == lowercase_form(query@),
            forall|j: int| 0 <= j < i ==> !name_matches(#[trigger] names@[j]@, query@),
        decreases n - i,
    {
        let lower_string = to_lowercase(names[i].as_str());
        let lower = chars_of(lower_string.as_str());
        if contains_chars(&lower, &needle) {
            return Some(i);
        }
        i = i + 1;
    }
    None
}

/// First index whose name equals `needle` up to ASCII case.
fn first_exact_match(names: &[String], needle: &Vec<char>) -> (r: Option<usize>)
    ensures
        first_equal(names@, needle@, r),
{
    let n = names.len();
    let mut i: usize = 0;
    while i < n
        invariant
            n == names@.len(),
            i <= n,
            forall|j: int| 0 <= j < i ==> !name_equals(#[trigger] names@[j]@, needle@),
        decreases n - i,
    {
        let name = chars_of(names[i].as_str());
        if chars_eq_ignore_ascii_case(&name, needle) {
            return Some(i);
        }
        i = i + 1;
    }
    None
}

/// Picks the endpoint for a configured name among `names` (see [`device_pick`]).
pub fn find_device_optional(names: &[String], name_substr: &str) -> (r: Option<usize>)
    ensures
        device_pick(names@, name_substr@, r),
{
    let needle = trim_chars(&chars_of(name_substr));
    if needle.len() == 0 {
        return None;
    }
    let exact = first_exact_match(names, &needle);
    if exact.is_some() {
        proof {
            let i = exact.unwrap();
            assert(name_equals(names@[i as int]@, needle@));
        }
        return exact;
    }
    let needle_string = string_from_chars(&needle);
    first_substring_match(names, needle_string.as_str())
}

/// Like [`find_device_optional`], but a name that picks nothing is a device error
/// that names the endpoint `kind` and the query.
pub fn find_device(names: &[String], name_substr: &str, kind: &str) -> (r: Result<usize>)
    ensures
        match r {
            Ok(i) => device_pick(names@, name_substr@, Some(i)),
            Err(e) => device_pick(names@, name_substr@, None) && e is Device && error_message(e)
                == no_device_message(kind@, name_substr@),
        },
{
    match find_device_optional(names, name_substr) {
        Some(i) => Ok(i),
        None => {
            let a = concat_str("no ", kind);
            let b = concat_str(a.as_str(), " device matching '");
            let c = concat_str(b.as_str(), name_substr);
            let d = concat_str(c.as_str(), "' — run --list-devices");
            assert(d@ =~= no_device_message(kind@, name_substr@));
            Err(Error::device(d.as_str()))
        },
    }
}

/// The name of the virtual-cable endpoint for a first-run configuration: the
/// endpoint that the query `CABLE Input` picks among `outputs` (as
/// [`device_pick`] states it), else the default playback endpoint.
pub open spec fn cable_choice(outputs: Seq<String>, default_output: Seq<char>, name: Seq<char>) -> bool {
    exists|p: Option<usize>|
        #[trigger] device_pick(outputs, "CABLE Input"@, p) && name == match p {
            Some(i) => outputs[i as int]@,
            None => default_output,
        }
}

/// Endpoint queries for a first-run configuration, from the names of the default
/// capture and playback endpoints and the names of all playback endpoints: the
/// microphone, the VB-Cable input when present (else the default output), and the
/// default output as headphone monitor, each in its stable form.
pub fn suggest_default_queries(
    default_input: &str,
    default_output: &str,
    outputs: &[String],
) -> (r: (String, String, String))
    ensures
        r.0@ == stable_query(default_input@),
        exists|cable: Seq<char>|
            cable_choice(outputs@, default_output@, cable) && r.1@ == stable_query(cable),
        r.2@ == stable_query(default_output@),
{
    let picked = find_device_optional(outputs, "CABLE Input");
    let voice = stable_device_query(default_input);
    let monitor = stable_device_query(default_output);
    match picked {
        Some(i) => {
            let cable = stable_device_query(outputs[i].as_str());
            proof {
                assert(cable_choice(outputs@, default_output@, outputs@[i as int]@));
            }
            (voice, cable, monitor)
        },
        None => {
            let cable = stable_device_query(default_output);
            proof {
                assert(cable_choice(outputs@, default_output@, default_output@));
            }
            (voice, cable, monitor)
        },
    }
}

/// A picker index is always a valid position in a non-empty list.
pub proof fn law_best_index_in_range(names: Seq<String>, query: Seq<char>, i: usize)
    requires
        best_index(names, query, i),
        names.len() > 0,
    ensures
        i < names.len(),
{
}

/// A blank query picks no endpoint; a name equal to the query up to ASCII case is
/// preferred over substring matches; any pick is a valid position.
pub proof fn law_device_pick(names: Seq<String>, query: Seq<char>, r: Option<usize>)
    requires
        device_pick(names, query, r),
    ensures
        trim(query).len() == 0 ==> r is None,
        r matches Some(i) ==> i < names.len(),
        (trim(query).len() > 0 && exists|j: int|
            0 <= j < names.len() && name_equals(#[trigger] names[j]@, trim(query)))
            ==> (r matches Some(i) && name_equals(names[i as int]@, trim(query))),
{
    if trim(query).len() > 0 {
        if exists|j: int| 0 <= j < names.len() && name_equals(#[trigger] names[j]@, trim(query)) {
            let j = choose|j: int| 0 <= j < names.len() && name_equals(#[trigger] names[j]@, trim(query));
            if r is None {
                assert(!name_equals(names[j]@, trim(query)));
            }
        }
    }
}

/// Matching ignores case: for ASCII text, a name matches a query exactly when the
/// ASCII-lowercase query occurs in the ASCII-lowercase name, so the case of the
/// letters in either never changes whether they match.
pub proof fn law_match_ignores_ascii_case(
    name: Seq<char>,
    name2: Seq<char>,
    query: Seq<char>,
    query2: Seq<char>,
)
    requires
        is_ascii_chars(name),
        is_ascii_chars(name2),
        is_ascii_chars(query),
        is_ascii_chars(query2),
        ascii_lower(name) == ascii_lower(name2),
        ascii_lower(query) == ascii_lower(query2),
    ensures
        name_matches(name, query) == has_substring(ascii_lower(name), ascii_lower(query)),
        name_matches(name, query) == name_matches(name2, query2),
{
}

/// The case of the letters in an ASCII query never changes which endpoint a
/// configured name picks, nor the picker's index.
pub proof fn law_query_case_ignored(
    names: Seq<String>,
    query: Seq<char>,
    query2: Seq<char>,
    r: Option<usize>,
    i: usize,
)
    requires
        is_ascii_chars(query),
        is_ascii_chars(query2),
        ascii_lower(query) == ascii_lower(query2),
    ensures
        device_pick(names, query, r) == device_pick(names, query2, r),
        best_index(names, query, i) == best_index(names, query2, i),
{
    lemma_trim_ascii_lower(query);
    lemma_trim_ascii_lower(query2);
    let n1 = trim(query);
    let n2 = trim(query2);
    assert(ascii_lower(n1) == ascii_lower(n2));
    assert(lowercase_form(n1) == lowercase_form(n2));
    assert(n1.len() == ascii_lower(n1).len());
    assert(n2.len() == ascii_lower(n2).len());
    assert forall|x: Seq<char>| name_equals(x, n1) == name_equals(x, n2) by {}
    assert forall|x: Seq<char>| name_matches(x, n1) == name_matches(x, n2) by {}
    assert forall|x: Seq<char>| name_matches(x, query) == name_matches(x, query2) by {}
}

/// `w` does not occur in `hay` when its first character occurs nowhere in `hay`.
proof fn lemma_first_char_absent(hay: Seq<char>, w: Seq<char>)
    requires
        w.len() > 0,
        forall|j: int| 0 <= j < hay.len() ==> hay[j] != w[0],
    ensures
        !has_substring(hay, w),
{
    assert forall|i: int| !occurs_at(hay, w, i) by {
        if occurs_at(hay, w, i) {
            assert(hay.subrange(i, i + w.len())[0] == hay[i]);
        }
    }
}

/// A stable query is its own stable form (for ASCII names): saving an endpoint
/// query again leaves it as it is.
pub proof fn law_stable_query_idempotent(full_name: Seq<char>)
    requires
        is_ascii_chars(full_name),
    ensures
        stable_query(stable_query(full_name)) == stable_query(full_name),
{
    reveal_strlit("fifine Microphone");
    reveal_strlit("CABLE Input");
    reveal_strlit("fifine SC3");
    reveal_strlit("fifine");
    reveal_strlit("microphone");
    reveal_strlit("cable");
    reveal_strlit("input");
    reveal_strlit("sc3");
    reveal_strlit("haut-parleurs");
    reveal_strlit("fifine microphone");
    reveal_strlit("cable input");
    reveal_strlit("fifine sc3");
    let lower = lowercase_form(full_name);
    let fifine = has_substring(lower, "fifine"@);
    let microphone = has_substring(lower, "microphone"@);
    let cable = has_substring(lower, "cable"@);
    let input = has_substring(lower, "input"@);
    let sc3 = has_substring(lower, "sc3"@);
    let hp = has_substring(lower, "haut-parleurs"@);
    if fifine && microphone {
        let q = "fifine Microphone"@;
        assert(is_ascii_chars(q));
        let lq = ascii_lower(q);
        assert(lq =~= "fifine microphone"@);
        assert(lq.subrange(0, 6) =~= "fifine"@);
        assert(occurs_at(lq, "fifine"@, 0));
        assert(lq.subrange(7, 17) =~= "microphone"@);
        assert(occurs_at(lq, "microphone"@, 7));
    } else if cable && input {
        let q = "CABLE Input"@;
        assert(is_ascii_chars(q));
        let lq = ascii_lower(q);
        assert(lq =~= "cable input"@);
        lemma_first_char_absent(lq, "fifine"@);
        assert(lq.subrange(0, 5) =~= "cable"@);
        assert(occurs_at(lq, "cable"@, 0));
        assert(lq.subrange(6, 11) =~= "input"@);
        assert(occurs_at(lq, "input"@, 6));
    } else if fifine && (sc3 || hp) {
        let q = "fifine SC3"@;
        assert(is_ascii_chars(q));
        let lq = ascii_lower(q);
        assert(lq =~= "fifine sc3"@);
        lemma_first_char_absent(lq, "microphone"@);
        assert(lq.subrange(0, 6) =~= "fifine"@);
        assert(occurs_at(lq, "fifine"@, 0));
        assert(!has_substring(lq, "cable"@)) by {
            assert forall|i: int| !occurs_at(lq, "cable"@, i) by {
                if occurs_at(lq, "cable"@, i) {
                    assert(lq.subrange(i, i + 5)[0] == lq[i]);
                    assert(lq.subrange(i, i + 5)[1] == lq[i + 1]);
                }
            }
        }
        assert(lq.subrange(7, 10) =~= "sc3"@);
        assert(occurs_at(lq, "sc3"@, 7));
    } else {
        let q = trim(full_name);
        lemma_trim_ascii_lower(full_name);
        let ab = lemma_trim_bounds(lower);
        let lq = lowercase_form(q);
        assert(lq == lower.subrange(ab.0, ab.1));
        if has_substring(lq, "fifine"@) {
            lemma_has_substring_subrange(lower, ab.0, ab.1, "fifine"@);
        }
        if has_substring(lq, "microphone"@) {
            lemma_has_substring_subrange(lower, ab.0, ab.1, "microphone"@);
        }
        if has_substring(lq, "cable"@) {
            lemma_has_substring_subrange(lower, ab.0, ab.1, "cable"@);
        }
        if has_substring(lq, "input"@) {
            lemma_has_substring_subrange(lower, ab.0, ab.1, "input"@);
        }
        if has_substring(lq, "sc3"@) {
            lemma_has_substring_subrange(lower, ab.0, ab.1, "sc3"@);
        }
        if has_substring(lq, "haut-parleurs"@) {
            lemma_has_substring_subrange(lower, ab.0, ab.1, "haut-parleurs"@);
        }
        lemma_trim_bounds(full_name);
    }
}

/// A name is saved as one of the fixed queries only when its lowercase form holds
/// that query's words (or the name, trimmed, is the query itself): `CABLE Input`
/// needs "cable" and "input", `fifine Microphone` needs "fifine" and
/// "microphone", `fifine SC3` needs "fifine" and "sc3" or "haut-parleurs". A name
/// whose lowercase form holds neither "fifine" nor "cable" keeps its trimmed text.
pub proof fn law_stable_query_keeps_words(full_name: Seq<char>)
    ensures
        stable_query(full_name) == "CABLE Input"@ ==> (has_substring(
            lowercase_form(full_name),
            "cable"@,
        ) && has_substring(lowercase_form(full_name), "input"@)) || trim(full_name)
            == "CABLE Input"@,
        stable_query(full_name) == "fifine Microphone"@ ==> (has_substring(
            lowercase_form(full_name),
            "fifine"@,
        ) && has_substring(lowercase_form(full_name), "microphone"@)) || trim(full_name)
            == "fifine Microphone"@,
        stable_query(full_name) == "fifine SC3"@ ==> (has_substring(
            lowercase_form(full_name),
            "fifine"@,
        ) && (has_substring(lowercase_form(full_name), "sc3"@) || has_substring(
            lowercase_form(full_name),
            "haut-parleurs"@,
        ))) || trim(full_name) == "fifine SC3"@,
        (!has_substring(lowercase_form(full_name), "fifine"@) && !has_substring(
            lowercase_form(full_name),
            "cable"@,
        )) ==> stable_query(full_name) == trim(full_name),
{
    reveal_strlit("fifine Microphone");
    reveal_strlit("CABLE Input");
    reveal_strlit("fifine SC3");
    assert("fifine Microphone"@ != "CABLE Input"@) by {
        assert("fifine Microphone"@[0] != "CABLE Input"@[0]);
    }
    assert("fifine SC3"@ != "CABLE Input"@) by {
        assert("fifine SC3"@[0] != "CABLE Input"@[0]);
    }
    assert("fifine Microphone"@ != "fifine SC3"@) by {
        assert("fifine Microphone"@.len() != "fifine SC3"@.len());
    }
}

/// Lexicographic order of character sequences by code point; for strings this is
/// the order of `String::cmp`, since UTF-8 preserves code point order.
pub open spec fn chars_lt(a: Seq<char>, b: Seq<char>) -> bool
    decreases a.len(),
{
    if a.len() == 0 {
        b.len() > 0
    } else if b.len() == 0 {
        false
    } else if a[0] != b[0] {
        a[0] < b[0]
    } else {
        chars_lt(a.drop_first(), b.drop_first())
    }
}

/// The key that device names are ordered by: the name in lowercase.
pub open spec fn sort_key(name: String) -> Seq<char> {
    lowercase_form(name@)
}

/// Names in ascending order of their lowercase form.
pub open spec fn sorted_by_lowercase(names: Seq<String>) -> bool {
    forall|i: int, j: int|
        0 <= i < j < names.len() ==> !chars_lt(sort_key(#[trigger] names[j]), sort_key(
            #[trigger] names[i],
        ))
}

/// Does a name's lowercase form equal `key`?
pub open spec fn has_key(key: Seq<char>) -> spec_fn(String) -> bool {
    |s: String| sort_key(s) == key
}

/// The names whose lowercase form is `key`, in their order in `names`.
pub open spec fn names_with_key(names: Seq<String>, key: Seq<char>) -> Seq<String> {
    names.filter(has_key(key))
}

/// `sorted` is `names` stably sorted by lowercase form: ascending, and the names
/// that share a lowercase form keep their relative order.
pub open spec fn is_stable_lowercase_sort(names: Seq<String>, sorted: Seq<String>) -> bool {
    &&& sorted_by_lowercase(sorted)
    &&& forall|key: Seq<char>| #[trigger] names_with_key(sorted, key) == names_with_key(names, key)
}

proof fn lemma_lt_skip(a: Seq<char>, b: Seq<char>, i: int)
    requires
        0 <= i <= a.len(),
        i <= b.len(),
        forall|j: int| 0 <= j < i ==> a[j] == b[j],
    ensures
        chars_lt(a, b) == chars_lt(a.skip(i), b.skip(i)),
    decreases i,
{
    if i == 0 {
        assert(a.skip(0) =~= a);
        assert(b.skip(0) =~= b);
    } else {
        lemma_lt_skip(a.drop_first(), b.drop_first(), i - 1);
        assert(a.drop_first().skip(i - 1) =~= a.skip(i));
        assert(b.drop_first().skip(i - 1) =~= b.skip(i));
    }
}

proof fn lemma_lt_asym(a: Seq<char>, b: Seq<char>)
    ensures
        chars_lt(a, b) ==> !chars_lt(b, a),
    decreases a.len(),
{
    if a.len() > 0 && b.len() > 0 && a[0] == b[0] {
        lemma_lt_asym(a.drop_first(), b.drop_first());
    }
}

proof fn lemma_lt_total(a: Seq<char>, b: Seq<char>)
    ensures
        a != b ==> chars_lt(a, b) || chars_lt(b, a),
    decreases a.len(),
{
    if a.len() > 0 && b.len() > 0 && a[0] == b[0] {
        lemma_lt_total(a.drop_first(), b.drop_first());
        if a.drop_first() == b.drop_first() {
            assert(a =~= seq![a[0]] + a.drop_first());
            assert(b =~= seq![b[0]] + b.drop_first());
        }
    } else if a.len() == 0 && b.len() == 0 {
        assert(a =~= b);
    } else if a.len() > 0 && b.len() > 0 {
        assert(a[0] != b[0]);
    }
}

proof fn lemma_lt_trans(a: Seq<char>, b: Seq<char>, c: Seq<char>)
    requires
        chars_lt(a, b),
        chars_lt(b, c),
    ensures
        chars_lt(a, c),
    decreases a.len(),
{
    if a.len() > 0 && b.len() > 0 && c.len() > 0 && a[0] == b[0] && b[0] == c[0] {
        lemma_lt_trans(a.drop_first(), b.drop_first(), c.drop_first());
    }
}

proof fn lemma_le_trans(a: Seq<char>, b: Seq<char>, c: Seq<char>)
    requires
        !chars_lt(b, a),
        !chars_lt(c, b),
    ensures
        !chars_lt(c, a),
{
    lemma_lt_total(a, b);
    if a != b && chars_lt(c, a) {
        lemma_lt_trans(c, a, b);
    }
}

/// Compares two character vectors in the order of [`chars_lt`].
fn chars_less(a: &Vec<char>, b: &Vec<char>) -> (r: bool)
    ensures
        r == chars_lt(a@, b@),
{
    let mut i: usize = 0;
    while i < a.len() && i < b.len()
        invariant
            i <= a.len(),
            i <= b.len(),
            forall|j: int| 0 <= j < i ==> a@[j] == b@[j],
        decreases a.len() - i,
    {
        if a[i] != b[i] {
            proof {
                lemma_lt_skip(a@, b@, i as int);
                assert(a@.skip(i as int)[0] == a@[i as int]);
                assert(b@.skip(i as int)[0] == b@[i as int]);
            }
            return a[i] < b[i];
        }
        i = i + 1;
    }
    proof {
        lemma_lt_skip(a@, b@, i as int);
    }
    a.len() < b.len()
}

proof fn lemma_no_key_filter_empty(names: Seq<String>, key: Seq<char>)
    requires
        forall|i: int| 0 <= i < names.len() ==> sort_key(#[trigger] names[i]) != key,
    ensures
        names_with_key(names, key) == Seq::<String>::empty(),
    decreases names.len(),
{
    if names.len() > 0 {
        let rest = names.drop_last();
        lemma_no_key_filter_empty(rest, key);
        assert(names =~= rest.push(names.last()));
        rest.lemma_filter_push(names.last(), has_key(key));
    } else {
        reveal(Seq::filter);
    }
}

proof fn lemma_insert_keeps_groups(names: Seq<String>, p: int, x: String, key: Seq<char>)
    requires
        0 <= p <= names.len(),
        forall|j: int| p <= j < names.len() ==> sort_key(#[trigger] names[j]) != sort_key(x),
    ensures
        names_with_key(names.insert(p, x), key) == if sort_key(x) == key {
            names_with_key(names, key).push(x)
        } else {
            names_with_key(names, key)
        },
{
    let pred = has_key(key);
    let front = names.take(p);
    let back = names.skip(p);
    assert(names =~= front + back);
    assert(names.insert(p, x) =~= (front + seq![x]) + back);
    Seq::filter_distributes_over_add(front, back, pred);
    Seq::filter_distributes_over_add(front + seq![x], back, pred);
    assert(front + seq![x] =~= front.push(x));
    front.lemma_filter_push(x, pred);
    if sort_key(x) == key {
        assert forall|i: int| 0 <= i < back.len() implies sort_key(#[trigger] back[i]) != key by {
            assert(back[i] == names[p + i]);
        }
        lemma_no_key_filter_empty(back, key);
        assert(names_with_key(names.insert(p, x), key) =~= names_with_key(front, key).push(x));
        assert(names_with_key(names, key) =~= names_with_key(front, key));
    }
}

/// Sorts names by their lowercase form, keeping the input order among names with
/// the same lowercase form (as a stable `sort_by` on lowercase keys).
pub fn sort_names_by_lowercase(names: Vec<String>) -> (r: Vec<String>)
    ensures
        is_stable_lowercase_sort(names@, r@),
{
    let n = names.len();
    let mut out: Vec<String> = Vec::new();
    let mut keys: Vec<Vec<char>> = Vec::new();
    let mut m: usize = 0;
    proof {
        assert forall|key: Seq<char>| #[trigger] names_with_key(out@, key) == names_with_key(
            names@.take(0),
            key,
        ) by {
            assert(out@ =~= names@.take(0));
        }
    }
    while m < n
        invariant
            n == names.len(),
            m <= n,
            keys.len() == out.len(),
            forall|i: int| 0 <= i < out.len() ==> (#[trigger] keys@[i])@ == sort_key(out@[i]),
            sorted_by_lowercase(out@),
            forall|key: Seq<char>| #[trigger] names_with_key(out@, key) == names_with_key(
                names@.take(m as int),
                key,
            ),
        decreases n - m,
    {
        let x = names[m].clone();
        let kx_string = to_lowercase(x.as_str());
        let kx = chars_of(kx_string.as_str());
        let len = out.len();
        let mut p: usize = len;
        while p > 0 && chars_less(&kx, &keys[p - 1])
            invariant
                len == out.len(),
                len == keys.len(),
                p <= len,
                forall|j: int| p <= j < len ==> chars_lt(kx@, (#[trigger] keys@[j])@),
            decreases p,
        {
            p = p - 1;
        }
        let ghost old_out = out@;
        let ghost old_keys = keys@;
        proof {
            if p > 0 {
                assert forall|i: int| 0 <= i < p implies !chars_lt(kx@, sort_key(
                    #[trigger] old_out[i],
                )) by {
                    if i < p - 1 {
                        assert(!chars_lt(sort_key(old_out[p - 1]), sort_key(old_out[i])));
                        lemma_le_trans(sort_key(old_out[i]), sort_key(old_out[p - 1]), kx@);
                    }
                }
            }
            assert forall|j: int| p <= j < len implies !chars_lt(sort_key(#[trigger] old_out[j]), kx@) by {
                assert(chars_lt(kx@, old_keys[j]@));
                lemma_lt_asym(kx@, sort_key(old_out[j]));
            }
        }
        out.insert(p, x);
        keys.insert(p, kx);
        proof {
            let new_out = out@;
            assert(new_out =~= old_out.take(p as int) + seq![x] + old_out.skip(p as int));
            assert forall|i: int, j: int| 0 <= i < j < new_out.len() implies !chars_lt(
                sort_key(#[trigger] new_out[j]),
                sort_key(#[trigger] new_out[i]),
            ) by {
                if j < p {
                } else if j == p {
                } else if i < p {
                    lemma_le_trans(sort_key(old_out[i]), kx@, sort_key(old_out[j - 1]));
                } else if i == p {
                } else {
                }
            }
            assert forall|i: int| 0 <= i < out.len() implies (#[trigger] keys@[i])@ == sort_key(
                out@[i],
            ) by {
                if i < p {
                } else if i == p {
                } else {
                    assert(keys@[i] == old_keys[i - 1]);
                }
            }
            assert forall|j: int| p <= j < old_out.len() implies sort_key(
                #[trigger] old_out[j],
            ) != kx@ by {
                assert(chars_lt(kx@, old_keys[j]@));
                lemma_lt_asym(kx@, kx@);
            }
            assert forall|key: Seq<char>| #[trigger] names_with_key(out@, key) == names_with_key(
                names@.take(m + 1),
                key,
            ) by {
                lemma_insert_keeps_groups(old_out, p as int, x, key);
                assert(names@.take(m + 1) =~= names@.take(m as int).push(x));
                names@.take(m as int).lemma_filter_push(x, has_key(key));
            }
        }
        m = m + 1;
    }
    proof {
        assert(names@.take(n as int) =~= names@);
    }
    out
}

/// Orders the capture and playback endpoint names for the device pickers
/// (see [`sort_names_by_lowercase`]).
pub fn enumerate_device_lists(inputs: Vec<String>, outputs: Vec<String>) -> (r: DeviceLists)
    ensures
        is_stable_lowercase_sort(inputs@, r.inputs@),
        is_stable_lowercase_sort(outputs@, r.outputs@),
{
    DeviceLists { inputs: sort_names_by_lowercase(inputs), outputs: sort_names_by_lowercase(outputs) }
}

} // verus!
