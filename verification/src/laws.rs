//! What holds of the library as a whole, stated over the models that the
//! contracts use and proved once.

use crate::decimal::{decimal_value, is_digit_run};
use crate::error::ErrorEnum;
use crate::extract::{ports_of, record_of, session_of, table_of};
use crate::model::{PortRecord, SessionIdentity, SubAreaDescriptor, SubAreaResult};
use crate::orchestrator::{
    answered, any_waiting, awaits, broken, count_waiting, initial, logged_in, offers,
    run_invariant, sections_of, started, tag_all, taken, Queue, RunState,
};
use crate::pattern::{group, matches_of, regex_captures, Groups, PORT_BLOCK_PATTERN};
use crate::scrape::{group_ports, login_outcome, lookup, section_of, select_ports};
use vstd::prelude::*;

verus! {

/// Matches that describe no port leave the table empty. In particular a page
/// without any match gives the empty table.
pub proof fn lemma_no_record_no_port(matches: Seq<Groups>)
    requires
        forall|i: int| 0 <= i < matches.len() ==> record_of(#[trigger] matches[i]) is None,
    ensures
        table_of(matches) == Map::<Seq<char>, PortRecord>::empty(),
    decreases matches.len(),
{
    if matches.len() > 0 {
        let earlier = matches.drop_last();
        assert forall|i: int| 0 <= i < earlier.len() implies record_of(
            #[trigger] earlier[i],
        ) is None by {
            assert(earlier[i] == matches[i]);
        }
        lemma_no_record_no_port(earlier);
        assert(record_of(matches[matches.len() - 1]) is None);
    }
}

/// A page in which the port-block pattern matches nowhere lists no port.
pub proof fn lemma_no_port_block_no_port(html: Seq<char>)
    requires
        matches_of(regex_captures(PORT_BLOCK_PATTERN@, html)).len() == 0,
    ensures
        ports_of(html) == Map::<Seq<char>, PortRecord>::empty(),
{
    lemma_no_record_no_port(matches_of(regex_captures(PORT_BLOCK_PATTERN@, html)));
}

/// A match with all four groups whose count is a digit run, not empty and
/// within the machine word, describes the port with the identifier and the
/// name that were captured, and its count is the value of the digit run.
pub proof fn lemma_record_count(groups: Groups)
    requires
        group(groups, 1) is Some,
        group(groups, 2) is Some,
        group(groups, 3) is Some,
        group(groups, 4) is Some,
        group(groups, 4)->0.len() > 0,
        is_digit_run(group(groups, 4)->0),
        decimal_value(group(groups, 4)->0) <= usize::MAX,
    ensures
        record_of(groups) == Some(
            PortRecord {
                id: group(groups, 2)->0,
                name: group(groups, 3)->0,
                count: decimal_value(group(groups, 4)->0),
            },
        ),
{
}

/// Every port of the table is filed under its own identifier and is
/// described by one of the matches.
pub proof fn lemma_table_entry_has_match(matches: Seq<Groups>, id: Seq<char>)
    requires
        table_of(matches).contains_key(id),
    ensures
        table_of(matches)[id].id == id,
        exists|i: int|
            0 <= i < matches.len() && record_of(#[trigger] matches[i]) == Some(
                table_of(matches)[id],
            ),
    decreases matches.len(),
{
    if matches.len() > 0 {
        let earlier = matches.drop_last();
        let last = matches.len() - 1;
        match record_of(matches.last()) {
            Some(record) => {
                if record.id == id {
                    assert(record_of(matches[last]) == Some(table_of(matches)[id]));
                } else {
                    lemma_table_entry_has_match(earlier, id);
                    let i = choose|i: int|
                        0 <= i < earlier.len() && record_of(#[trigger] earlier[i]) == Some(
                            table_of(earlier)[id],
                        );
                    assert(matches[i] == earlier[i]);
                }
            },
            None => {
                lemma_table_entry_has_match(earlier, id);
                let i = choose|i: int|
                    0 <= i < earlier.len() && record_of(#[trigger] earlier[i]) == Some(
                        table_of(earlier)[id],
                    );
                assert(matches[i] == earlier[i]);
            },
        }
    }
}

/// The last match that describes a port with a given identifier is the one
/// that the table keeps.
pub proof fn lemma_table_last_wins(matches: Seq<Groups>, i: int)
    requires
        0 <= i < matches.len(),
        record_of(matches[i]) is Some,
        forall|j: int|
            i < j < matches.len() ==> (record_of(#[trigger] matches[j]) matches Some(later)
                ==> later.id != record_of(matches[i])->0.id),
    ensures
        table_of(matches).contains_key(record_of(matches[i])->0.id),
        table_of(matches)[record_of(matches[i])->0.id] == record_of(matches[i])->0,
    decreases matches.len(),
{
    let last = matches.len() - 1;
    if i < last {
        let earlier = matches.drop_last();
        assert(earlier[i] == matches[i]);
        assert forall|j: int| i < j < earlier.len() implies (record_of(
            #[trigger] earlier[j],
        ) matches Some(later) ==> later.id != record_of(earlier[i])->0.id) by {
            assert(earlier[j] == matches[j]);
        }
        lemma_table_last_wins(earlier, i);
        assert(record_of(matches[last]) matches Some(later) ==> later.id != record_of(
            matches[i],
        )->0.id);
    }
}

/// Reading the same page twice gives tables with the same identifiers and
/// the same record for each.
pub proof fn lemma_extract_ports_repeats(
    html: Seq<char>,
    first: Map<Seq<char>, PortRecord>,
    second: Map<Seq<char>, PortRecord>,
)
    requires
        first == ports_of(html),
        second == ports_of(html),
    ensures
        first.dom() == second.dom(),
        forall|id: Seq<char>| first.contains_key(id) ==> first[id] == second[id],
{
}

/// A port that the table lacks adds nothing to a selection; one that the
/// table holds adds its record at the end.
pub proof fn lemma_select_step(table: Map<Seq<char>, PortRecord>, ids: Seq<Seq<char>>, id: Seq<char>)
    ensures
        select_ports(table, ids.push(id)) == if table.contains_key(id) {
            select_ports(table, ids).push(table[id])
        } else {
            select_ports(table, ids)
        },
{
    assert(ids.push(id).drop_last() =~= ids);
    assert(ids.push(id).last() == id);
    if table.contains_key(id) {
        assert(select_ports(table, ids) + seq![table[id]] =~= select_ports(table, ids).push(
            table[id],
        ));
    }
}

/// Every port of a selection is the table's record of a port that the
/// sub-area lists.
pub proof fn lemma_selected_is_listed(
    table: Map<Seq<char>, PortRecord>,
    ids: Seq<Seq<char>>,
    k: int,
)
    requires
        0 <= k < select_ports(table, ids).len(),
    ensures
        exists|id: Seq<char>|
            #[trigger] ids.contains(id) && table.contains_key(id) && table[id] == select_ports(
                table,
                ids,
            )[k],
{
    let pick = |id: Seq<char>| lookup(table, id);
    let record = select_ports(table, ids)[k];
    assert(ids.filter_map(pick).contains(record));
    ids.lemma_filter_map_contains(pick, record);
    let id = choose|id: Seq<char>| #[trigger] ids.contains(id) && pick(id) == Some(record);
    assert(ids.contains(id) && table.contains_key(id) && table[id] == record);
}

/// The sections of a page follow the sub-areas: as many, in the same order,
/// each with its sub-area's title, whatever the order of the ports in the
/// page.
pub proof fn lemma_sections_follow_subareas(
    table: Map<Seq<char>, PortRecord>,
    subareas: Seq<SubAreaDescriptor>,
)
    ensures
        group_ports(table, subareas).len() == subareas.len(),
        forall|i: int|
            0 <= i < subareas.len() ==> #[trigger] group_ports(table, subareas)[i] == section_of(
                table,
                subareas[i],
            ),
        forall|i: int|
            0 <= i < subareas.len() ==> (#[trigger] group_ports(table, subareas)[i]).title
                == subareas[i].title,
{
}

/// A login page that lacks a session field means that the login failed, and
/// nothing else does.
pub proof fn lemma_login_fails_without_session(body: Seq<char>)
    ensures
        session_of(body) is Err <==> login_outcome(body) == Err::<SessionIdentity, ErrorEnum>(
            ErrorEnum::AuthenticationFailed,
        ),
        session_of(body) matches Ok(id) ==> login_outcome(body) == Ok::<
            SessionIdentity,
            ErrorEnum,
        >(id),
{
}

/// A run starts in a state that meets the invariant, and every event keeps
/// it.
pub proof fn lemma_run_invariant_is_kept(state: RunState, area: int, body: Seq<char>)
    requires
        run_invariant(state),
    ensures
        run_invariant(initial(state.areas, state.capacity)),
        run_invariant(started(state)),
        run_invariant(logged_in(state, body)),
        run_invariant(answered(state, area, body)),
        run_invariant(broken(state)),
        run_invariant(taken(state)),
{
    if state.phase is LoggingIn && login_outcome(body) is Ok {
        let next = logged_in(state, body);
        if state.areas.len() > 0 {
            assert(next.waiting[0]);
        }
    }
    if awaits(state, area) {
        let next = answered(state, area, body);
        assert forall|i: int| 0 <= i < next.queue.len() implies (#[trigger] next.queue[i]).0
            < next.areas.len() by {
            if i < state.queue.len() {
                assert(next.queue[i] == state.queue[i]);
            }
        }
    }
    if offers(state) {
        let next = taken(state);
        assert forall|i: int| 0 <= i < next.queue.len() implies (#[trigger] next.queue[i]).0
            < next.areas.len() by {
            assert(next.queue[i] == state.queue[i + 1]);
        }
    }
}

/// The answer of some area is awaited exactly when the number of awaited
/// answers is not zero.
pub proof fn lemma_waiting_is_counted(waiting: Seq<bool>)
    ensures
        any_waiting(waiting) <==> count_waiting(waiting) > 0,
        count_waiting(waiting) <= waiting.len(),
    decreases waiting.len(),
{
    if waiting.len() > 0 {
        let earlier = waiting.drop_last();
        lemma_waiting_is_counted(earlier);
        if any_waiting(waiting) {
            let i = choose|i: int| 0 <= i < waiting.len() && waiting[i];
            if i < earlier.len() {
                assert(earlier[i]);
            }
        }
        if any_waiting(earlier) {
            let i = choose|i: int| 0 <= i < earlier.len() && earlier[i];
            assert(waiting[i]);
        }
        if waiting.last() {
            assert(waiting[waiting.len() - 1]);
        }
    }
}

/// An answer that arrives marks its area as answered: one answer less is
/// awaited.
pub proof fn lemma_answer_is_counted(waiting: Seq<bool>, area: int)
    requires
        0 <= area < waiting.len(),
        waiting[area],
    ensures
        count_waiting(waiting.update(area, false)) + 1 == count_waiting(waiting),
    decreases waiting.len(),
{
    let last = waiting.len() - 1;
    let after = waiting.update(area, false);
    if area == last {
        assert(after.drop_last() =~= waiting.drop_last());
    } else {
        lemma_answer_is_counted(waiting.drop_last(), area);
        assert(after.drop_last() =~= waiting.drop_last().update(area, false));
    }
}

/// The channel never holds more than its capacity, and sections are parked
/// only while it is full.
pub proof fn lemma_channel_is_bounded(state: RunState)
    requires
        run_invariant(state),
    ensures
        state.in_channel <= state.capacity,
        state.in_channel <= state.queue.len(),
        state.in_channel < state.queue.len() ==> state.in_channel == state.capacity,
{
}

/// A run that is done or has failed stays as it is, whatever arrives; it
/// asks for nothing more and hands out nothing.
pub proof fn lemma_terminal_phase_is_final(state: RunState, area: int, body: Seq<char>)
    requires
        run_invariant(state),
        state.phase is Done || state.phase is Failed,
    ensures
        started(state) == state,
        logged_in(state, body) == state,
        answered(state, area, body) == state,
        broken(state) == state,
        taken(state) == state,
        !offers(state),
{
}

/// A failed login gives the run up at once: the state is `Failed` with
/// `AuthenticationFailed`, and no area is asked for.
pub proof fn lemma_failed_login_ends_run(state: RunState, body: Seq<char>)
    requires
        run_invariant(state),
        state.phase is LoggingIn,
        session_of(body) is Err,
    ensures
        logged_in(state, body).phase is Failed,
        logged_in(state, body).failure == Some(ErrorEnum::AuthenticationFailed),
        !any_waiting(logged_in(state, body).waiting),
{
}

/// Picks the sections of one area out of the queue.
pub open spec fn of_area(area: nat) -> spec_fn((nat, SubAreaResult)) -> Option<SubAreaResult> {
    |item: (nat, SubAreaResult)|
        if item.0 == area {
            Some(item.1)
        } else {
            None
        }
}

/// The sections of the area with index `area` that wait in the queue, oldest
/// first.
pub open spec fn stream_of(queue: Queue, area: nat) -> Seq<SubAreaResult> {
    queue.filter_map(of_area(area))
}

/// The stream of a queue made of two parts is the stream of the first
/// followed by the stream of the second.
pub proof fn lemma_stream_of_parts(front: Queue, back: Queue, area: nat)
    ensures
        stream_of(front + back, area) == stream_of(front, area) + stream_of(back, area),
    decreases back.len(),
{
    if back.len() == 0 {
        assert(front + back =~= front);
        assert(stream_of(back, area) =~= Seq::empty());
        assert(stream_of(front, area) + stream_of(back, area) =~= stream_of(front, area));
    } else {
        lemma_stream_of_parts(front, back.drop_last(), area);
        assert((front + back).drop_last() =~= front + back.drop_last());
        assert((front + back).last() == back.last());
        let rest = stream_of(front, area) + stream_of(back.drop_last(), area);
        match of_area(area)(back.last()) {
            Some(section) => {
                assert(rest + seq![section] =~= stream_of(front, area) + (stream_of(
                    back.drop_last(),
                    area,
                ) + seq![section]));
            },
            None => {},
        }
    }
}

/// Among the marked sections of one area's answer, that area's stream is the
/// whole answer and every other stream is empty.
pub proof fn lemma_stream_of_answer(area: nat, sections: Seq<SubAreaResult>, other: nat)
    ensures
        stream_of(tag_all(area, sections), other) == if other == area {
            sections
        } else {
            Seq::empty()
        },
    decreases sections.len(),
{
    let tagged = tag_all(area, sections);
    if sections.len() == 0 {
        assert(stream_of(tagged, other) =~= Seq::empty());
        assert(sections =~= Seq::empty());
    } else {
        lemma_stream_of_answer(area, sections.drop_last(), other);
        assert(tagged.drop_last() =~= tag_all(area, sections.drop_last()));
        assert(tagged.last() == (area, sections.last()));
        if other == area {
            assert(sections.drop_last() + seq![sections.last()] =~= sections);
        }
    }
}

/// An answer puts its sections, in the order of the sub-areas, at the end of
/// its own area's stream and leaves every other stream as it is: no section
/// is dropped, repeated or moved, whichever area answers first.
pub proof fn lemma_answer_extends_stream(state: RunState, area: int, body: Seq<char>, other: nat)
    requires
        awaits(state, area),
    ensures
        stream_of(answered(state, area, body).queue, other) == stream_of(state.queue, other) + (
        if other == area {
            sections_of(state, area, body)
        } else {
            Seq::empty()
        }),
{
    let sections = sections_of(state, area, body);
    lemma_stream_of_parts(state.queue, tag_all(area as nat, sections), other);
    lemma_stream_of_answer(area as nat, sections, other);
}

/// An answer queues one section for each sub-area of its area, and the
/// area is not awaited again: every area adds to the queue once at most.
pub proof fn lemma_answer_counts_once(state: RunState, area: int, body: Seq<char>)
    requires
        awaits(state, area),
    ensures
        answered(state, area, body).queue.len() == state.queue.len()
            + state.areas[area].subareas.len(),
        !awaits(answered(state, area, body), area),
{
}

/// The section that the consumer takes is the oldest of its area's stream;
/// the rest of that stream and every other stream stay as they are.
pub proof fn lemma_take_removes_head(state: RunState, other: nat)
    requires
        offers(state),
    ensures
        stream_of(state.queue, other) == (if state.queue[0].0 == other {
            seq![state.queue[0].1]
        } else {
            Seq::empty()
        }) + stream_of(taken(state).queue, other),
{
    let head = seq![state.queue[0]];
    assert(state.queue =~= head + state.queue.drop_first());
    lemma_stream_of_parts(head, state.queue.drop_first(), other);
    assert(head.drop_last() =~= Seq::empty());
    assert(stream_of(head.drop_last(), other) =~= Seq::empty());
    match of_area(other)(state.queue[0]) {
        Some(section) => {
            assert(stream_of(head, other) =~= seq![section]);
        },
        None => {
            assert(stream_of(head, other) =~= Seq::empty());
        },
    }
}

} // verus!
