//! The boundary to the regular-expression engine, and the patterns that the
//! portal's pages are searched with.

use regex::Regex;
use vstd::prelude::*;

verus! {

/// The capture groups of one match, by group number: group 0 is the whole
/// match, and a group that took no part in the match is `None`.
pub type Groups = Seq<Option<Seq<char>>>;

/// A port block of an area page: the form with the hidden `ParkingID` field
/// (group 1), then the list entry whose text is the port's identifier
/// (group 2), a dot, its name (group 3) and, after two line breaks, the
/// number of vehicles (group 4).
pub const PORT_BLOCK_PATTERN: &'static str =
    r#"<form method="POST"(?s:.*?)name="ParkingID" value="(?s:(.*?))"(?s:.*?)<a class="port_list_btn_inner(?s:.*?)>(?s:(.*?))\.(?s:(.*?))<br>(?s:.*?)<br>([0-9]*?)台</a>"#;

/// A login page up to its hidden `SessionID` field (group 1).
pub const SESSION_FIELD_PATTERN: &'static str =
    r#"<input(?s:.*)name="SessionID" value="(?s:(.*?))">"#;

/// A login page up to its hidden `UserID` field (group 2), which follows
/// the `SessionID` field (group 1).
pub const USER_FIELD_PATTERN: &'static str =
    r#"<input(?s:.*)name="SessionID" value="(?s:(.*?))">(?s:.*)<input(?s:.*)name="UserID" value="(?s:(.*?))">"#;

/// A login page with its three hidden fields in order: `SessionID`
/// (group 1), `UserID` (group 2) and `MemberID` (group 3).
pub const MEMBER_FIELD_PATTERN: &'static str =
    r#"<input(?s:.*)name="SessionID" value="(?s:(.*?))">(?s:.*)<input(?s:.*)name="UserID" value="(?s:(.*?))">(?s:.*)<input(?s:.*)name="MemberID" value="(?s:(.*?))">"#;

/// A vehicle entry of a port page: a link whose text is the seven characters
/// of the vehicle's code (group 1).
pub const BICYCLE_PATTERN: &'static str = r#"<a(?s:.*?)>(.{7})</a>"#;

/// What the `regex` crate finds when it searches `haystack` for `pattern`:
/// `None` where it refuses the pattern, else the successive matches that do
/// not overlap, from left to right, each with the text of its groups.
pub uninterp spec fn regex_captures(pattern: Seq<char>, haystack: Seq<char>) -> Option<Seq<Groups>>;

/// Compiles `pattern` with `regex::Regex::new` and walks
/// `Regex::captures_iter` over `haystack`. Of every match it copies the text
/// of every group, as `Captures::iter` and `Match::as_str` give it; a
/// pattern that `Regex::new` refuses gives `None`. The contract only gives
/// the outcome its name, `regex_captures`: nothing is claimed of what
/// matches, and nothing of it is proved.
#[verifier::external_body]
pub(crate) fn captures_iter(pattern: &str, haystack: &str) -> (found: Option<
    Vec<Vec<Option<String>>>,
>)
    ensures
        found.deep_view() == regex_captures(pattern@, haystack@),
{
    match Regex::new(pattern) {
        Ok(re) => Some(
            re.captures_iter(haystack).map(
                |caps| caps.iter().map(|group| group.map(|m| m.as_str().to_string())).collect(),
            ).collect(),
        ),
        Err(_) => None,
    }
}

/// The text of group `i` of a match, `None` where the match has no such
/// group or the group took no part.
pub open spec fn group(groups: Groups, i: int) -> Option<Seq<char>> {
    if 0 <= i < groups.len() {
        groups[i]
    } else {
        None
    }
}

/// The matches of a search, none where the pattern was refused.
pub open spec fn matches_of(found: Option<Seq<Groups>>) -> Seq<Groups> {
    match found {
        Some(matches) => matches,
        None => Seq::empty(),
    }
}

/// The first match of a search, if there is any.
pub open spec fn first_of(found: Option<Seq<Groups>>) -> Option<Groups> {
    if matches_of(found).len() > 0 {
        Some(matches_of(found)[0])
    } else {
        None
    }
}

/// The text of group `i` of a match.
pub fn group_text(groups: &Vec<Option<String>>, i: usize) -> (text: Option<&String>)
    ensures
        match text {
            Some(t) => group(groups.deep_view(), i as int) == Some(t@),
            None => group(groups.deep_view(), i as int) is None,
        },
{
    if i < groups.len() {
        match &groups[i] {
            Some(t) => Some(t),
            None => None,
        }
    } else {
        None
    }
}

} // verus!
