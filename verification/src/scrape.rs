//! Reading the portal's answers: the login page, the ports of an area
//! grouped by sub-area, and the vehicles at a port.

use crate::error::ErrorEnum;
use crate::extract::{
    bicycles_of, extract_bicycles, extract_ports, extract_session, ports_of, session_of,
    PortTable,
};
use crate::model::{
    result_views, subarea_views, DocomoId, HtmlSource, PortRecord, SessionIdentity, SubArea,
    SubAreaDescriptor, SubAreaResult,
};
use vstd::prelude::*;

verus! {

/// The record that `table` holds for the identifier `id`.
pub open spec fn lookup(table: Map<Seq<char>, PortRecord>, id: Seq<char>) -> Option<PortRecord> {
    if table.contains_key(id) {
        Some(table[id])
    } else {
        None
    }
}

/// The records of those ports of `ids` that `table` holds, in the order of
/// `ids`. A port that the table lacks is left out.
pub open spec fn select_ports(table: Map<Seq<char>, PortRecord>, ids: Seq<Seq<char>>) -> Seq<
    PortRecord,
> {
    ids.filter_map(|id: Seq<char>| lookup(table, id))
}

/// The section of one sub-area: its title and its ports that `table` holds.
pub open spec fn section_of(
    table: Map<Seq<char>, PortRecord>,
    subarea: SubAreaDescriptor,
) -> SubAreaResult {
    SubAreaResult { title: subarea.title, ports: select_ports(table, subarea.ports) }
}

/// One section for each sub-area, in the order of the sub-areas.
pub open spec fn group_ports(
    table: Map<Seq<char>, PortRecord>,
    subareas: Seq<SubAreaDescriptor>,
) -> Seq<SubAreaResult> {
    subareas.map_values(|subarea: SubAreaDescriptor| section_of(table, subarea))
}

/// What the answer to a login gives.
pub open spec fn login_outcome(body: Seq<char>) -> Result<SessionIdentity, ErrorEnum> {
    match session_of(body) {
        Ok(id) => Ok(id),
        Err(_) => Err(ErrorEnum::AuthenticationFailed),
    }
}

/// Builds the section of one sub-area from the ports of a page.
pub fn select(table: &PortTable, subarea: &SubArea) -> (source: HtmlSource)
    ensures
        source@ == section_of(table@, subarea@),
{
    let ids = subarea.ports();
    let mut source = HtmlSource::new(subarea.title().to_owned());
    let ghost pick = |id: Seq<char>| lookup(table@, id);
    let mut i: usize = 0;
    while i < ids.len()
        invariant
            i <= ids.len(),
            ids.deep_view() == subarea@.ports,
            pick == |id: Seq<char>| lookup(table@, id),
            source@.title == subarea@.title,
            source@.ports == subarea@.ports.take(i as int).filter_map(pick),
        decreases ids.len() - i,
    {
        proof {
            subarea@.ports.lemma_filter_map_take_succ(pick, i as int);
        }
        match table.get(ids[i].as_str()) {
            Some(port) => {
                source.push(port.clone());
            },
            None => {},
        }
        i = i + 1;
    }
    proof {
        assert(subarea@.ports.take(i as int) =~= subarea@.ports);
    }
    source
}

/// Builds one section for each sub-area, in the order given.
pub fn group_by_subareas(table: &PortTable, filter_subareas: &Vec<SubArea>) -> (sources: Vec<
    HtmlSource,
>)
    ensures
        result_views(sources@) == group_ports(table@, subarea_views(filter_subareas@)),
{
    let mut sources: Vec<HtmlSource> = Vec::new();
    let mut i: usize = 0;
    while i < filter_subareas.len()
        invariant
            i <= filter_subareas.len(),
            sources@.len() == i,
            forall|j: int|
                0 <= j < i ==> #[trigger] sources@[j]@ == section_of(
                    table@,
                    filter_subareas@[j]@,
                ),
        decreases filter_subareas.len() - i,
    {
        let source = select(table, &filter_subareas[i]);
        sources.push(source);
        i = i + 1;
    }
    assert(result_views(sources@) =~= group_ports(table@, subarea_views(filter_subareas@)));
    sources
}

/// Reads the answer to a login. A page that lacks one of the three session
/// fields means that the login failed.
pub fn login(body: &str) -> (outcome: Result<DocomoId, ErrorEnum>)
    ensures
        match outcome {
            Ok(id) => login_outcome(body@) == Ok::<SessionIdentity, ErrorEnum>(id@),
            Err(e) => login_outcome(body@) == Err::<SessionIdentity, ErrorEnum>(e),
        },
{
    match extract_session(body) {
        Ok(id) => Ok(id),
        Err(_) => Err(ErrorEnum::AuthenticationFailed),
    }
}

/// Reads the answer to a request for the ports of an area and groups them:
/// one section for each sub-area, in the order of `filter_subareas`, each
/// with those of its ports that the page lists, in the sub-area's own order.
pub fn list_ports(body: &str, filter_subareas: &Vec<SubArea>) -> (sources: Vec<HtmlSource>)
    ensures
        result_views(sources@) == group_ports(ports_of(body@), subarea_views(filter_subareas@)),
        sources@.len() == filter_subareas@.len(),
        forall|i: int|
            0 <= i < sources@.len() ==> (#[trigger] sources@[i])@.title
                == filter_subareas@[i]@.title,
{
    let table = extract_ports(body);
    let sources = group_by_subareas(&table, filter_subareas);
    proof {
        let expected = group_ports(ports_of(body@), subarea_views(filter_subareas@));
        assert(result_views(sources@).len() == expected.len());
        assert forall|i: int| 0 <= i < sources@.len() implies (#[trigger] sources@[i])@.title
            == filter_subareas@[i]@.title by {
            assert(result_views(sources@)[i] == expected[i]);
        }
    }
    sources
}

/// Reads the answer to a request for the vehicles at a port: the code of
/// each vehicle that the page lists.
pub fn list_bicycles(body: &str) -> (codes: Vec<Option<String>>)
    ensures
        codes.deep_view() == bicycles_of(body@),
{
    extract_bicycles(body)
}

} // verus!
