use docomo_sharecycle::extract::{session_from_groups, session_from_searches};
use docomo_sharecycle::{extract_session, login, ErrorEnum, ExtractError, SessionField};

fn hidden(name: &str, value: &str) -> String {
    format!("<input type=\"hidden\" name=\"{}\" value=\"{}\">\n", name, value)
}

fn login_page(fields: &[(&str, &str)]) -> String {
    let mut page = String::from("<html><body><form method=\"POST\">\n");
    for (name, value) in fields {
        page.push_str(&hidden(name, value));
    }
    page.push_str("</form></body></html>");
    page
}

fn groups(texts: &[Option<&str>]) -> Vec<Option<String>> {
    texts.iter().map(|text| text.map(|t| t.to_string())).collect()
}

#[test]
fn a_login_page_gives_the_three_tokens() {
    let page = login_page(&[("SessionID", "sess-1"), ("UserID", "TYO"), ("MemberID", "member-7")]);
    let id = extract_session(&page).unwrap();
    assert_eq!(id.session_id(), "sess-1");
    assert_eq!(id.user_id(), "TYO");
    assert_eq!(id.member_id(), "member-7");
}

#[test]
fn a_page_without_member_id_names_member_id() {
    let page = login_page(&[("SessionID", "sess-1"), ("UserID", "TYO")]);
    let error = extract_session(&page).unwrap_err();
    assert_eq!(error, ExtractError::SessionFieldMissing(SessionField::MemberId));
    let ExtractError::SessionFieldMissing(field) = error;
    assert_eq!(field.name(), "MemberID");
    assert_eq!(error.message(), "MemberID not found");
}

#[test]
fn a_page_without_user_id_names_user_id() {
    let page = login_page(&[("SessionID", "sess-1"), ("MemberID", "member-7")]);
    assert_eq!(
        extract_session(&page),
        Err(ExtractError::SessionFieldMissing(SessionField::UserId))
    );
    assert_eq!(SessionField::UserId.name(), "UserID");
}

#[test]
fn a_page_without_session_id_names_session_id() {
    let page = login_page(&[("UserID", "TYO"), ("MemberID", "member-7")]);
    assert_eq!(
        extract_session(&page),
        Err(ExtractError::SessionFieldMissing(SessionField::SessionId))
    );
    assert_eq!(
        extract_session("<html>error</html>"),
        Err(ExtractError::SessionFieldMissing(SessionField::SessionId))
    );
    assert_eq!(SessionField::SessionId.name(), "SessionID");
}

#[test]
fn fields_out_of_order_count_as_missing() {
    let page = login_page(&[("UserID", "TYO"), ("SessionID", "sess-1"), ("MemberID", "member-7")]);
    assert_eq!(
        extract_session(&page),
        Err(ExtractError::SessionFieldMissing(SessionField::UserId))
    );
}

#[test]
fn login_reads_the_session_of_the_answer() {
    let page = login_page(&[("SessionID", "s"), ("UserID", "u"), ("MemberID", "m")]);
    let id = login(&page).unwrap();
    assert_eq!((id.session_id(), id.user_id(), id.member_id()), ("s", "u", "m"));
}

#[test]
fn login_without_member_id_is_authentication_failed() {
    let page = login_page(&[("SessionID", "sess-1"), ("UserID", "TYO")]);
    assert_eq!(login(&page), Err(ErrorEnum::AuthenticationFailed));
    assert_eq!(login(""), Err(ErrorEnum::AuthenticationFailed));
}

#[test]
fn a_match_gives_the_session_by_its_groups() {
    let id = session_from_groups(&groups(&[Some("w"), Some("s"), Some("u"), Some("m")])).unwrap();
    assert_eq!((id.session_id(), id.user_id(), id.member_id()), ("s", "u", "m"));
    assert_eq!(
        session_from_groups(&groups(&[Some("w"), None, Some("u"), Some("m")])),
        Err(ExtractError::SessionFieldMissing(SessionField::SessionId))
    );
    assert_eq!(
        session_from_groups(&groups(&[Some("w"), Some("s"), None, Some("m")])),
        Err(ExtractError::SessionFieldMissing(SessionField::UserId))
    );
    assert_eq!(
        session_from_groups(&groups(&[Some("w"), Some("s"), Some("u")])),
        Err(ExtractError::SessionFieldMissing(SessionField::MemberId))
    );
}

#[test]
fn the_searches_decide_which_field_is_missing() {
    assert_eq!(
        session_from_searches(None, true, true),
        Err(ExtractError::SessionFieldMissing(SessionField::MemberId))
    );
    assert_eq!(
        session_from_searches(None, false, true),
        Err(ExtractError::SessionFieldMissing(SessionField::UserId))
    );
    assert_eq!(
        session_from_searches(None, false, false),
        Err(ExtractError::SessionFieldMissing(SessionField::SessionId))
    );
    let found = groups(&[Some("w"), Some("s"), Some("u"), Some("m")]);
    let id = session_from_searches(Some(&found), false, false).unwrap();
    assert_eq!(id.member_id(), "m");
}
