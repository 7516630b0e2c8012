use docomo_sharecycle::form::ENDPOINT;
use docomo_sharecycle::{extract_session, list_bicycles_form, list_ports_form, login_form, DocomoId, Form};

fn session() -> DocomoId {
    let page = "<input type=\"hidden\" name=\"SessionID\" value=\"sess-1\">\n<input type=\"hidden\" name=\"UserID\" value=\"TYO\">\n<input type=\"hidden\" name=\"MemberID\" value=\"member-7\">";
    extract_session(page).unwrap()
}

fn fields(pairs: &[(&str, &str)]) -> Vec<(String, String)> {
    pairs.iter().map(|(name, value)| (name.to_string(), value.to_string())).collect()
}

#[test]
fn the_endpoint_is_the_portals_address() {
    assert_eq!(ENDPOINT, "https://tcc.docomo-cycle.jp/cycle/TYO/cs_web_main.php");
}

#[test]
fn the_login_form_carries_the_credentials() {
    let form = login_form("alice", "secret");
    assert_eq!(
        form.fields,
        fields(&[
            ("EventNo", "21401"),
            ("SessionID", "ＰＯＳＴデータ"),
            ("MemberID", "alice"),
            ("Password", "secret"),
            ("MemAreaID", "3"),
        ])
    );
}

#[test]
fn the_ports_form_carries_the_session_and_the_area() {
    let form = list_ports_form(&session(), 10);
    assert_eq!(
        form.fields,
        fields(&[
            ("EventNo", "25702"),
            ("SessionID", "sess-1"),
            ("UserID", "TYO"),
            ("MemberID", "member-7"),
            ("GetInfoNum", "200"),
            ("GetInfoTopNum", "1"),
            ("MapType", "1"),
            ("MapZoom", "13"),
            ("EntServiceID", "TYO0001"),
            ("AreaID", "10"),
        ])
    );
    let first = list_ports_form(&session(), 3);
    assert_eq!(first.fields[9], ("AreaID".to_string(), "3".to_string()));
}

#[test]
fn the_bicycles_form_carries_the_session_and_the_port() {
    let form = list_bicycles_form(&session(), "10414");
    assert_eq!(
        form.fields,
        fields(&[
            ("EventNo", "25701"),
            ("SessionID", "sess-1"),
            ("UserID", "TYO"),
            ("MemberID", "member-7"),
            ("GetInfoNum", "20"),
            ("GetInfoTopNum", "1"),
            ("ParkingEntID", "TYO"),
            ("ParkingID", "10414"),
        ])
    );
}

#[test]
fn a_form_keeps_its_fields_in_the_order_written() {
    let mut form = Form::new();
    assert_eq!(form.fields, fields(&[]));
    form.push("b", "2");
    form.push("a", "1");
    assert_eq!(form.fields, fields(&[("b", "2"), ("a", "1")]));
}

#[test]
fn a_copy_of_a_session_has_the_same_tokens() {
    let id = session();
    let copy = id.clone();
    assert_eq!(copy, id);
    assert_eq!(copy.session_id(), "sess-1");
}
