//! Catching the captcha link in a chat message: the regular expression is
//! matched by the `regex` crate, the choice among its matches is verified.

use vstd::prelude::*;
use crate::search::{first_in, lemma_first_in};
use crate::text::{is_substring, contains_text};

verus! {

/// Whether `regex::Regex::new` accepts `pattern` (it is valid and within
/// the default size limit).
pub uninterp spec fn regex_compiles(pattern: Seq<char>) -> bool;

/// The texts of the successive non-overlapping matches that
/// `regex::Regex::find_iter` yields for `pattern` in `text`.
pub uninterp spec fn regex_find_all(pattern: Seq<char>, text: Seq<char>) -> Seq<Seq<char>>;

/// Compiles `pattern` with `regex::Regex::new` and, when that succeeds,
/// collects the texts of the matches that `regex::Regex::find_iter` yields
/// in `text`. The contract claims that the result is `Some` exactly when
/// `regex_compiles(pattern)`, that the texts are then
/// `regex_find_all(pattern, text)`, and, as `Match::as_str` documents, that
/// each is a substring of `text`.
#[verifier::external_body]
fn find_all_matches(pattern: &str, text: &str) -> (res: Option<Vec<String>>)
    ensures
        res is Some <==> regex_compiles(pattern@),
        res matches Some(v) ==> v@.len() == regex_find_all(pattern@, text@).len(),
        res matches Some(v) ==> forall|i: int|
            0 <= i < v@.len() ==> (#[trigger] v@[i])@ == regex_find_all(pattern@, text@)[i],
        res matches Some(v) ==> forall|i: int|
            0 <= i < v@.len() ==> is_substring((#[trigger] v@[i])@, text@),
{
    match regex::Regex::new(pattern) {
        Ok(re) => Some(re.find_iter(text).map(|m| m.as_str().to_string()).collect()),
        Err(_) => None,
    }
}

/// The characters of an optional string.
pub open spec fn opt_view(s: Option<String>) -> Option<Seq<char>> {
    match s {
        Some(t) => Some(t@),
        None => None,
    }
}

/// A match is taken as the captcha link when it is not empty and holds the
/// required part, if one is required.
pub open spec fn url_acceptable(m: Seq<char>, required: Option<Seq<char>>) -> bool {
    &&& m.len() > 0
    &&& match required {
        Some(r) => is_substring(r, m),
        None => true,
    }
}

/// The index of the first acceptable match.
pub open spec fn first_url(matches: Seq<Seq<char>>, required: Option<Seq<char>>) -> Option<int> {
    first_in(0, matches.len() - 1, |i: int| url_acceptable(matches[i], required))
}

/// The result of picking the first acceptable match.
pub open spec fn picked(matches: Seq<Seq<char>>, required: Option<Seq<char>>, res: Option<String>) -> bool {
    match first_url(matches, required) {
        Some(i) => res is Some && res->0@ == matches[i],
        None => res is None,
    }
}

/// The captcha catcher.
pub struct CaptchaCatcher;

impl CaptchaCatcher {
    /// The first of `matches` that is not empty and contains
    /// `required_url_part` when one is given.
    pub fn select_url(matches: &Vec<String>, required_url_part: &Option<String>) -> (res: Option<String>)
        ensures
            picked(matches@.map_values(|s: String| s@), opt_view(*required_url_part), res),
    {
        let ghost ms = matches@.map_values(|s: String| s@);
        let ghost req = opt_view(*required_url_part);
        let ghost p = |i: int| url_acceptable(ms[i], req);
        let n: usize = matches.len();
        let mut i: usize = 0;
        while i < n
            invariant
                n == matches@.len(),
                ms == matches@.map_values(|s: String| s@),
                req == opt_view(*required_url_part),
                p == (|i: int| url_acceptable(ms[i], req)),
                i <= n,
                first_url(ms, req) == first_in(i as int, n - 1, p),
            decreases n - i,
        {
            let m = matches[i].as_str();
            assert(m@ == ms[i as int]);
            if !m.is_empty() {
                let accept = match required_url_part {
                    Some(required) => contains_text(m, required.as_str()),
                    None => true,
                };
                if accept {
                    assert(p(i as int));
                    return Some(matches[i].clone());
                }
            }
            assert(!p(i as int));
            i = i + 1;
        }
        None
    }

    /// The captcha link in `message`: the first match of `regex` that is
    /// not empty and contains `required_url_part` when one is given.
    pub fn catch_url_from_message(message: String, regex: &str, required_url_part: Option<String>) -> (res: Option<String>)
        requires
            regex_compiles(regex@),
        ensures
            picked(regex_find_all(regex@, message@), opt_view(required_url_part), res),
            res matches Some(url) ==> url@.len() > 0 && is_substring(url@, message@)
                && (required_url_part matches Some(r) ==> is_substring(r@, url@)),
    {
        let found = find_all_matches(regex, message.as_str()).unwrap();
        let ghost ms = found@.map_values(|s: String| s@);
        assert(ms =~= regex_find_all(regex@, message@));
        let res = Self::select_url(&found, &required_url_part);
        proof {
            let req = opt_view(required_url_part);
            lemma_first_in(0, ms.len() - 1, |i: int| url_acceptable(ms[i], req));
            if let Some(i) = first_url(ms, req) {
                assert(is_substring(found@[i]@, message@));
                assert(url_acceptable(ms[i], req));
            }
        }
        res
    }

    /// `catch_url_from_message` for any pattern: `None` when `regex` does
    /// not compile, otherwise `Some` of the caught link.
    pub fn try_catch_url_from_message(
        message: String,
        regex: &str,
        required_url_part: Option<String>,
    ) -> (res: Option<Option<String>>)
        ensures
            res is None <==> !regex_compiles(regex@),
            res matches Some(r) ==> picked(
                regex_find_all(regex@, message@),
                opt_view(required_url_part),
                r,
            ),
    {
        if find_all_matches(regex, message.as_str()).is_some() {
            Some(Self::catch_url_from_message(message, regex, required_url_part))
        } else {
            None
        }
    }
}

} // verus!
