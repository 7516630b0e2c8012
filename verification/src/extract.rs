//! Reading the portal's HTML pages into typed records.

use crate::decimal::{count_of, parse_count};
use crate::error::{ExtractError, SessionField};
use crate::model::{DocomoId, PortInfo, PortRecord, SessionIdentity};
use crate::pattern::{
    captures_iter, first_of, group, group_text, matches_of, regex_captures, Groups,
    BICYCLE_PATTERN, MEMBER_FIELD_PATTERN, PORT_BLOCK_PATTERN, SESSION_FIELD_PATTERN,
    USER_FIELD_PATTERN,
};
use vstd::hash_map::StringHashMap;
use vstd::prelude::*;

verus! {

/// The ports of an area page, by identifier.
pub struct PortTable {
    map: StringHashMap<PortInfo>,
}

impl View for PortTable {
    type V = Map<Seq<char>, PortRecord>;

    closed spec fn view(&self) -> Map<Seq<char>, PortRecord> {
        self.map@.map_values(|port: PortInfo| port@)
    }
}

impl PortTable {
    /// The table without any port.
    pub fn new() -> (table: Self)
        ensures
            table@ == Map::<Seq<char>, PortRecord>::empty(),
    {
        let table = PortTable { map: StringHashMap::new() };
        assert(table@ =~= Map::<Seq<char>, PortRecord>::empty());
        table
    }

    /// Files `port` under its identifier, in place of an earlier port with
    /// the same identifier.
    pub fn insert(&mut self, port: PortInfo)
        ensures
            final(self)@ == old(self)@.insert(port@.id, port@),
    {
        let key = port.0.0.clone();
        self.map.insert(key, port);
        assert(self@ =~= old(self)@.insert(port@.id, port@));
    }

    /// The port with the identifier `id`, if the table has one.
    pub fn get(&self, id: &str) -> (found: Option<&PortInfo>)
        ensures
            match found {
                Some(port) => self@.contains_key(id@) && port@ == self@[id@],
                None => !self@.contains_key(id@),
            },
    {
        self.map.get(id)
    }

    /// Whether the table has a port with the identifier `id`.
    pub fn contains_key(&self, id: &str) -> (found: bool)
        ensures
            found == self@.contains_key(id@),
    {
        self.map.contains_key(id)
    }

    /// The number of ports in the table.
    pub fn len(&self) -> (n: usize)
        ensures
            n == self@.dom().len(),
    {
        assert(self@.dom() =~= self.map@.dom());
        self.map.len()
    }
}

/// The port that one match of the port-block pattern describes: all four
/// groups must have taken part and the last must write a count.
pub open spec fn record_of(groups: Groups) -> Option<PortRecord> {
    match (group(groups, 1), group(groups, 2), group(groups, 3), group(groups, 4)) {
        (Some(_), Some(id), Some(name), Some(digits)) => match count_of(digits) {
            Some(count) => Some(PortRecord { id, name, count }),
            None => None,
        },
        _ => None,
    }
}

/// The table that a list of matches fills: each match that describes a port
/// is filed under the port's identifier, a later one in place of an earlier.
pub open spec fn table_of(matches: Seq<Groups>) -> Map<Seq<char>, PortRecord>
    decreases matches.len(),
{
    if matches.len() == 0 {
        Map::empty()
    } else {
        let earlier = table_of(matches.drop_last());
        match record_of(matches.last()) {
            Some(record) => earlier.insert(record.id, record),
            None => earlier,
        }
    }
}

/// The ports that an area page lists.
pub open spec fn ports_of(html: Seq<char>) -> Map<Seq<char>, PortRecord> {
    table_of(matches_of(regex_captures(PORT_BLOCK_PATTERN@, html)))
}

/// Reads one match of the port-block pattern. A match that lacks a group,
/// or whose count is no digit run that fits, describes no port.
pub fn port_from_groups(groups: &Vec<Option<String>>) -> (port: Option<PortInfo>)
    ensures
        match port {
            Some(p) => record_of(groups.deep_view()) == Some(p@),
            None => record_of(groups.deep_view()) is None,
        },
{
    let code = group_text(groups, 1);
    let id = group_text(groups, 2);
    let name = group_text(groups, 3);
    let digits = group_text(groups, 4);
    match (code, id, name, digits) {
        (Some(_), Some(id), Some(name), Some(digits)) => match parse_count(digits.as_str()) {
            Some(count) => Some(PortInfo((id.clone(), name.clone(), count))),
            None => None,
        },
        _ => None,
    }
}

/// Files the ports that the matches of the port-block pattern describe.
pub fn ports_from_captures(matches: &Vec<Vec<Option<String>>>) -> (table: PortTable)
    ensures
        table@ == table_of(matches.deep_view()),
        matches@.len() == 0 ==> table@ == Map::<Seq<char>, PortRecord>::empty(),
{
    let mut table = PortTable::new();
    let mut i: usize = 0;
    while i < matches.len()
        invariant
            i <= matches.len(),
            table@ == table_of(matches.deep_view().take(i as int)),
        decreases matches.len() - i,
    {
        let ghost all = matches.deep_view();
        proof {
            assert(all.take(i + 1).drop_last() =~= all.take(i as int));
            assert(all.take(i + 1).last() == matches@[i as int].deep_view());
        }
        match port_from_groups(&matches[i]) {
            Some(port) => {
                table.insert(port);
            },
            None => {},
        }
        i = i + 1;
    }
    proof {
        assert(matches.deep_view().take(i as int) =~= matches.deep_view());
    }
    table
}

/// Reads the ports of an area page. A page without any port block gives the
/// empty table.
pub fn extract_ports(html: &str) -> (table: PortTable)
    ensures
        table@ == ports_of(html@),
        matches_of(regex_captures(PORT_BLOCK_PATTERN@, html@)).len() == 0 ==> table@ == Map::<
            Seq<char>,
            PortRecord,
        >::empty(),
{
    match captures_iter(PORT_BLOCK_PATTERN, html) {
        Some(matches) => ports_from_captures(&matches),
        None => PortTable::new(),
    }
}

/// The session identity that a match of the three-field pattern carries. A
/// group that took no part names the field that is missing.
pub open spec fn session_of_groups(groups: Groups) -> Result<SessionIdentity, ExtractError> {
    match (group(groups, 1), group(groups, 2), group(groups, 3)) {
        (Some(session), Some(user), Some(member)) => Ok(SessionIdentity { session, user, member }),
        (Some(_), Some(_), None) => Err(ExtractError::SessionFieldMissing(SessionField::MemberId)),
        (Some(_), None, _) => Err(ExtractError::SessionFieldMissing(SessionField::UserId)),
        (None, _, _) => Err(ExtractError::SessionFieldMissing(SessionField::SessionId)),
    }
}

/// The first field that a login page lacks, given whether the page matches
/// up to the `UserID` field and whether it matches up to the `SessionID`
/// field, when it does not match with all three.
pub open spec fn first_missing(through_user: bool, through_session: bool) -> SessionField {
    if through_user {
        SessionField::MemberId
    } else if through_session {
        SessionField::UserId
    } else {
        SessionField::SessionId
    }
}

/// What a login page gives, from the three searches made on it: for all
/// three fields, up to `UserID`, and up to `SessionID`.
pub open spec fn session_of_searches(
    full: Option<Groups>,
    through_user: bool,
    through_session: bool,
) -> Result<SessionIdentity, ExtractError> {
    match full {
        Some(groups) => session_of_groups(groups),
        None => Err(
            ExtractError::SessionFieldMissing(first_missing(through_user, through_session)),
        ),
    }
}

/// What a login page gives: the session identity, or the first of the three
/// fields that cannot be found in order.
pub open spec fn session_of(html: Seq<char>) -> Result<SessionIdentity, ExtractError> {
    session_of_searches(
        first_of(regex_captures(MEMBER_FIELD_PATTERN@, html)),
        first_of(regex_captures(USER_FIELD_PATTERN@, html)) is Some,
        first_of(regex_captures(SESSION_FIELD_PATTERN@, html)) is Some,
    )
}

/// Whether what was read is the outcome `expected`: the identity with the
/// same tokens, or the same error.
pub open spec fn is_session(
    outcome: Result<DocomoId, ExtractError>,
    expected: Result<SessionIdentity, ExtractError>,
) -> bool {
    match outcome {
        Ok(id) => expected == Ok::<SessionIdentity, ExtractError>(id@),
        Err(e) => expected == Err::<SessionIdentity, ExtractError>(e),
    }
}

/// The first match of a search.
pub fn first_match(found: &Option<Vec<Vec<Option<String>>>>) -> (first: Option<
    &Vec<Option<String>>,
>)
    ensures
        first.deep_view() == first_of(found.deep_view()),
{
    match found {
        Some(matches) => if matches.len() > 0 {
            Some(&matches[0])
        } else {
            None
        },
        None => None,
    }
}

/// Reads the session identity from a match of the three-field pattern.
pub fn session_from_groups(groups: &Vec<Option<String>>) -> (outcome: Result<
    DocomoId,
    ExtractError,
>)
    ensures
        is_session(outcome, session_of_groups(groups.deep_view())),
{
    match group_text(groups, 1) {
        None => Err(ExtractError::SessionFieldMissing(SessionField::SessionId)),
        Some(session) => match group_text(groups, 2) {
            None => Err(ExtractError::SessionFieldMissing(SessionField::UserId)),
            Some(user) => match group_text(groups, 3) {
                None => Err(ExtractError::SessionFieldMissing(SessionField::MemberId)),
                Some(member) => Ok(
                    DocomoId::assemble(session.clone(), user.clone(), member.clone()),
                ),
            },
        },
    }
}

/// Decides what a login page gives from the searches made on it.
pub fn session_from_searches(
    full: Option<&Vec<Option<String>>>,
    through_user: bool,
    through_session: bool,
) -> (outcome: Result<DocomoId, ExtractError>)
    ensures
        is_session(
            outcome,
            session_of_searches(full.deep_view(), through_user, through_session),
        ),
{
    match full {
        Some(groups) => session_from_groups(groups),
        None => {
            let field = if through_user {
                SessionField::MemberId
            } else if through_session {
                SessionField::UserId
            } else {
                SessionField::SessionId
            };
            Err(ExtractError::SessionFieldMissing(field))
        },
    }
}

/// Reads the session identity from a login page. The page must hold the
/// hidden fields `SessionID`, `UserID` and `MemberID` in this order; the
/// error names the first that cannot be found.
pub fn extract_session(html: &str) -> (outcome: Result<DocomoId, ExtractError>)
    ensures
        is_session(outcome, session_of(html@)),
{
    let full = captures_iter(MEMBER_FIELD_PATTERN, html);
    match first_match(&full) {
        Some(groups) => session_from_searches(Some(groups), true, true),
        None => {
            let user = captures_iter(USER_FIELD_PATTERN, html);
            let through_user = first_match(&user).is_some();
            let session = captures_iter(SESSION_FIELD_PATTERN, html);
            let through_session = first_match(&session).is_some();
            session_from_searches(None, through_user, through_session)
        },
    }
}

/// The vehicle codes that the matches of the vehicle pattern carry, one
/// entry for each match.
pub open spec fn bicycles_of_matches(matches: Seq<Groups>) -> Seq<Option<Seq<char>>> {
    matches.map_values(|groups: Groups| group(groups, 1))
}

/// The vehicle codes that a port page lists.
pub open spec fn bicycles_of(html: Seq<char>) -> Seq<Option<Seq<char>>> {
    bicycles_of_matches(matches_of(regex_captures(BICYCLE_PATTERN@, html)))
}

/// Copies the vehicle code out of each match of the vehicle pattern.
pub fn bicycles_from_captures(matches: &Vec<Vec<Option<String>>>) -> (codes: Vec<Option<String>>)
    ensures
        codes.deep_view() == bicycles_of_matches(matches.deep_view()),
{
    let mut codes: Vec<Option<String>> = Vec::new();
    let mut i: usize = 0;
    while i < matches.len()
        invariant
            i <= matches.len(),
            codes@.len() == i,
            forall|j: int|
                0 <= j < i ==> #[trigger] codes@[j].deep_view() == group(
                    matches@[j].deep_view(),
                    1,
                ),
        decreases matches.len() - i,
    {
        let code = match group_text(&matches[i], 1) {
            Some(text) => Some(text.clone()),
            None => None,
        };
        codes.push(code);
        i = i + 1;
    }
    assert(codes.deep_view() =~= bicycles_of_matches(matches.deep_view()));
    codes
}

/// Reads the vehicle codes of a port page.
pub fn extract_bicycles(html: &str) -> (codes: Vec<Option<String>>)
    ensures
        codes.deep_view() == bicycles_of(html@),
{
    match captures_iter(BICYCLE_PATTERN, html) {
        Some(matches) => bicycles_from_captures(&matches),
        None => {
            let codes: Vec<Option<String>> = Vec::new();
            assert(codes.deep_view() =~= bicycles_of(html@));
            codes
        },
    }
}

} // verus!
