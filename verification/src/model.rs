//! The data that a scrape run works on, each type with its mathematical view.

use vstd::prelude::*;

verus! {

/// The session triple that the portal assigns on login.
pub struct SessionIdentity {
    pub session: Seq<char>,
    pub user: Seq<char>,
    pub member: Seq<char>,
}

/// One port as the portal lists it: identifier, display name and the number
/// of vehicles that are available.
pub struct PortRecord {
    pub id: Seq<char>,
    pub name: Seq<char>,
    pub count: nat,
}

/// A named selection of ports: the title of a report section and the
/// identifiers of the ports that it shows, in the order of the report.
pub struct SubAreaDescriptor {
    pub title: Seq<char>,
    pub ports: Seq<Seq<char>>,
}

/// The ports of one sub-area that a scrape found.
pub struct SubAreaResult {
    pub title: Seq<char>,
    pub ports: Seq<PortRecord>,
}

/// An area of the portal with the sub-areas to report on.
pub struct AreaDescriptor {
    pub id: nat,
    pub subareas: Seq<SubAreaDescriptor>,
}

/// The views of a list of ports.
pub open spec fn port_views(ports: Seq<PortInfo>) -> Seq<PortRecord> {
    ports.map_values(|port: PortInfo| port@)
}

/// The views of a list of sub-areas.
pub open spec fn subarea_views(subareas: Seq<SubArea>) -> Seq<SubAreaDescriptor> {
    subareas.map_values(|subarea: SubArea| subarea@)
}

/// The views of a list of results.
pub open spec fn result_views(results: Seq<HtmlSource>) -> Seq<SubAreaResult> {
    results.map_values(|result: HtmlSource| result@)
}

/// The views of a list of areas.
pub open spec fn area_views(areas: Seq<Area>) -> Seq<AreaDescriptor> {
    areas.map_values(|area: Area| area@)
}

/// The session identity of one login. It is made by reading a login page and
/// never changes afterwards.
#[derive(Debug, PartialEq, Eq)]
pub struct DocomoId(pub(crate) (String, String, String));

impl View for DocomoId {
    type V = SessionIdentity;

    closed spec fn view(&self) -> SessionIdentity {
        SessionIdentity { session: self.0.0@, user: self.0.1@, member: self.0.2@ }
    }
}

impl Clone for DocomoId {
    fn clone(&self) -> (copy: Self)
        ensures
            copy@ == self@,
    {
        DocomoId((self.0.0.clone(), self.0.1.clone(), self.0.2.clone()))
    }
}

impl DocomoId {
    /// The identity made of the three tokens of a login page.
    pub(crate) fn assemble(session: String, user: String, member: String) -> (id: Self)
        ensures
            id@ == (SessionIdentity { session: session@, user: user@, member: member@ }),
    {
        DocomoId((session, user, member))
    }

    /// The session token.
    pub fn session_id(&self) -> (token: &str)
        ensures
            token@ == self@.session,
    {
        self.0.0.as_str()
    }

    /// The user token.
    pub fn user_id(&self) -> (token: &str)
        ensures
            token@ == self@.user,
    {
        self.0.1.as_str()
    }

    /// The member token.
    pub fn member_id(&self) -> (token: &str)
        ensures
            token@ == self@.member,
    {
        self.0.2.as_str()
    }
}

/// A port record: identifier, display name, available vehicles.
#[derive(Debug, PartialEq, Eq)]
pub struct PortInfo(pub (String, String, usize));

impl View for PortInfo {
    type V = PortRecord;

    open spec fn view(&self) -> PortRecord {
        PortRecord { id: self.0.0@, name: self.0.1@, count: self.0.2 as nat }
    }
}

impl Clone for PortInfo {
    fn clone(&self) -> (copy: Self)
        ensures
            copy@ == self@,
    {
        PortInfo((self.0.0.clone(), self.0.1.clone(), self.0.2))
    }
}

/// A sub-area as the configuration describes it.
#[derive(Debug, PartialEq, Eq)]
pub struct SubArea {
    ports: Vec<String>,
    title: String,
}

impl View for SubArea {
    type V = SubAreaDescriptor;

    closed spec fn view(&self) -> SubAreaDescriptor {
        SubAreaDescriptor { title: self.title@, ports: self.ports.deep_view() }
    }
}

impl SubArea {
    /// A sub-area with the given title that shows the given ports.
    pub fn new(title: String, ports: Vec<String>) -> (subarea: Self)
        ensures
            subarea@.title == title@,
            subarea@.ports == ports.deep_view(),
    {
        SubArea { ports, title }
    }

    /// The title of the report section.
    pub fn title(&self) -> (title: &str)
        ensures
            title@ == self@.title,
    {
        self.title.as_str()
    }

    /// The identifiers of the ports to show, in the order of the report.
    pub fn ports(&self) -> (ports: &Vec<String>)
        ensures
            ports.deep_view() == self@.ports,
    {
        &self.ports
    }
}

/// An area of the portal with its sub-areas.
#[derive(Debug, PartialEq, Eq)]
pub struct Area {
    pub id: usize,
    pub subarea: Vec<SubArea>,
}

impl View for Area {
    type V = AreaDescriptor;

    open spec fn view(&self) -> AreaDescriptor {
        AreaDescriptor { id: self.id as nat, subareas: subarea_views(self.subarea@) }
    }
}

/// What one sub-area's report section holds: the title and the ports found.
#[derive(Debug, PartialEq, Eq)]
pub struct HtmlSource {
    pub ports: Vec<PortInfo>,
    pub title: String,
}

impl View for HtmlSource {
    type V = SubAreaResult;

    open spec fn view(&self) -> SubAreaResult {
        SubAreaResult { title: self.title@, ports: port_views(self.ports@) }
    }
}

impl HtmlSource {
    /// A section with the given title and no ports yet.
    pub fn new(title: String) -> (source: Self)
        ensures
            source@.title == title@,
            source@.ports == Seq::<PortRecord>::empty(),
    {
        let source = HtmlSource { ports: Vec::new(), title: title };
        assert(port_views(source.ports@) =~= Seq::<PortRecord>::empty());
        source
    }

    /// Adds a port at the end of the section.
    pub fn push(&mut self, port: PortInfo)
        ensures
            final(self)@.title == old(self)@.title,
            final(self)@.ports == old(self)@.ports.push(port@),
    {
        self.ports.push(port);
        assert(port_views(self.ports@) =~= port_views(old(self).ports@).push(port@));
    }
}

} // verus!
