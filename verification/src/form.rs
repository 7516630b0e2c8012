//! The form payloads of the portal's protocol. Every request is a POST of
//! form fields to one endpoint, told apart by the field `EventNo`.

use crate::decimal::{decimal_string, digits_of};
use crate::model::{DocomoId, SessionIdentity};
use vstd::prelude::*;

verus! {

/// The address that every form is posted to.
pub const ENDPOINT: &'static str = "https://tcc.docomo-cycle.jp/cycle/TYO/cs_web_main.php";

/// The event number of a login.
pub const EVENT_LOGIN: &'static str = "21401";

/// The event number that lists the vehicles at one port.
pub const EVENT_LIST_BICYCLES: &'static str = "25701";

/// The event number that lists the ports of an area.
pub const EVENT_LIST_PORTS: &'static str = "25702";

/// The value that the portal wants in place of a session token on login.
pub const LOGIN_SESSION_PLACEHOLDER: &'static str = "ＰＯＳＴデータ";

/// The member area that a login asks for.
pub const DEFAULT_MEMBER_AREA: &'static str = "3";

/// The number of ports asked for in one page. The portal goes on to a
/// second page beyond its own limit; that page is never asked for.
pub const PORTS_PAGE_SIZE: &'static str = "200";

/// The number of vehicles asked for in one page.
pub const BICYCLES_PAGE_SIZE: &'static str = "20";

/// The fields of a form, in the order in which they are written.
pub type Fields = Seq<(Seq<char>, Seq<char>)>;

/// A form payload: names and values, in order.
#[derive(Debug, PartialEq, Eq)]
pub struct Form {
    pub fields: Vec<(String, String)>,
}

impl View for Form {
    type V = Fields;

    open spec fn view(&self) -> Fields {
        self.fields.deep_view()
    }
}

impl Form {
    /// The form without any field.
    pub fn new() -> (form: Self)
        ensures
            form@ == Fields::empty(),
    {
        let form = Form { fields: Vec::new() };
        assert(form@ =~= Fields::empty());
        form
    }

    /// Writes one more field at the end of the form.
    pub fn push(&mut self, name: &str, value: &str)
        ensures
            final(self)@ == old(self)@.push((name@, value@)),
    {
        self.fields.push((name.to_owned(), value.to_owned()));
        assert(self@ =~= old(self)@.push((name@, value@)));
    }
}

/// The fields of a login with the caller's credentials.
pub open spec fn login_fields(user_id: Seq<char>, password: Seq<char>) -> Fields {
    seq![
        ("EventNo"@, EVENT_LOGIN@),
        ("SessionID"@, LOGIN_SESSION_PLACEHOLDER@),
        ("MemberID"@, user_id),
        ("Password"@, password),
        ("MemAreaID"@, DEFAULT_MEMBER_AREA@),
    ]
}

/// The fields that carry a session identity.
pub open spec fn session_fields(event: Seq<char>, id: SessionIdentity) -> Fields {
    seq![
        ("EventNo"@, event),
        ("SessionID"@, id.session),
        ("UserID"@, id.user),
        ("MemberID"@, id.member),
    ]
}

/// The fields of the request for the ports of the area `area_id`.
pub open spec fn list_ports_fields(id: SessionIdentity, area_id: nat) -> Fields {
    session_fields(EVENT_LIST_PORTS@, id) + seq![
        ("GetInfoNum"@, PORTS_PAGE_SIZE@),
        ("GetInfoTopNum"@, "1"@),
        ("MapType"@, "1"@),
        ("MapZoom"@, "13"@),
        ("EntServiceID"@, "TYO0001"@),
        ("AreaID"@, digits_of(area_id)),
    ]
}

/// The fields of the request for the vehicles at the port `parking_id`.
pub open spec fn list_bicycles_fields(id: SessionIdentity, parking_id: Seq<char>) -> Fields {
    session_fields(EVENT_LIST_BICYCLES@, id) + seq![
        ("GetInfoNum"@, BICYCLES_PAGE_SIZE@),
        ("GetInfoTopNum"@, "1"@),
        ("ParkingEntID"@, "TYO"@),
        ("ParkingID"@, parking_id),
    ]
}

/// The form that logs the user in.
pub fn login_form(user_id: &str, password: &str) -> (form: Form)
    ensures
        form@ == login_fields(user_id@, password@),
{
    let mut form = Form::new();
    form.push("EventNo", EVENT_LOGIN);
    form.push("SessionID", LOGIN_SESSION_PLACEHOLDER);
    form.push("MemberID", user_id);
    form.push("Password", password);
    form.push("MemAreaID", DEFAULT_MEMBER_AREA);
    assert(form@ =~= login_fields(user_id@, password@));
    form
}

/// A form for `event` that starts with the tokens of the session.
fn session_form(event: &str, docomo_id: &DocomoId) -> (form: Form)
    ensures
        form@ == session_fields(event@, docomo_id@),
{
    let mut form = Form::new();
    form.push("EventNo", event);
    form.push("SessionID", docomo_id.session_id());
    form.push("UserID", docomo_id.user_id());
    form.push("MemberID", docomo_id.member_id());
    assert(form@ =~= session_fields(event@, docomo_id@));
    form
}

/// The form that asks for all ports of the area `area_id` in one page.
pub fn list_ports_form(docomo_id: &DocomoId, area_id: usize) -> (form: Form)
    ensures
        form@ == list_ports_fields(docomo_id@, area_id as nat),
{
    let area = decimal_string(area_id);
    let mut form = session_form(EVENT_LIST_PORTS, docomo_id);
    form.push("GetInfoNum", PORTS_PAGE_SIZE);
    form.push("GetInfoTopNum", "1");
    form.push("MapType", "1");
    form.push("MapZoom", "13");
    form.push("EntServiceID", "TYO0001");
    form.push("AreaID", area.as_str());
    assert(form@ =~= list_ports_fields(docomo_id@, area_id as nat));
    form
}

/// The form that asks for the vehicles at the port `parking_id`.
pub fn list_bicycles_form(docomo_id: &DocomoId, parking_id: &str) -> (form: Form)
    ensures
        form@ == list_bicycles_fields(docomo_id@, parking_id@),
{
    let mut form = session_form(EVENT_LIST_BICYCLES, docomo_id);
    form.push("GetInfoNum", BICYCLES_PAGE_SIZE);
    form.push("GetInfoTopNum", "1");
    form.push("ParkingEntID", "TYO");
    form.push("ParkingID", parking_id);
    assert(form@ =~= list_bicycles_fields(docomo_id@, parking_id@));
    form
}

} // verus!
