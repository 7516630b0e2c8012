//! The course of one scrape run, as a state machine without I/O.
//!
//! The caller posts the forms that the machine hands out and feeds the
//! answers back in whatever order they arrive. The machine groups the ports
//! of each answer and queues the sections for the consumer. The queue is one
//! bounded channel shared by all areas: what does not fit stays parked with
//! its producer, in order, until the consumer has made room.

use crate::error::ErrorEnum;
use crate::extract::{extract_ports, ports_of, PortTable};
use crate::form::{list_ports_fields, list_ports_form, login_fields, login_form, Form};
use crate::model::{
    area_views, subarea_views, Area, AreaDescriptor, DocomoId, HtmlSource, SessionIdentity,
    SubArea, SubAreaResult,
};
use crate::scrape::{group_ports, login, login_outcome, section_of, select};
use std::collections::VecDeque;
use vstd::prelude::*;

verus! {

/// The number of sections that the channel holds when nothing else is asked
/// for.
pub const CHANNEL_CAPACITY: usize = 100;

/// Where a run stands.
#[derive(Debug, Clone, Copy, PartialEq, Eq)]
pub enum Phase {
    /// Nothing has been asked of the portal.
    NotStarted,
    /// The login form is out and its answer is awaited.
    LoggingIn,
    /// The answer of at least one area is awaited.
    Scraping,
    /// Every area has answered and sections wait for the consumer.
    Draining,
    /// Every section has been handed out.
    Done,
    /// The run was given up.
    Failed,
}

/// The sections that wait for the consumer, oldest first, each with the
/// index of the area that it belongs to.
pub type Queue = Seq<(nat, SubAreaResult)>;

/// A run as the contracts see it.
pub struct RunState {
    /// The areas to scrape.
    pub areas: Seq<AreaDescriptor>,
    /// The number of sections that the channel can hold.
    pub capacity: nat,
    pub phase: Phase,
    /// The session identity, once the login has succeeded.
    pub session: Option<SessionIdentity>,
    /// For each area, whether its answer is awaited.
    pub waiting: Seq<bool>,
    /// The sections not yet handed out.
    pub queue: Queue,
    /// How many of them, from the front, are in the channel; the rest is
    /// parked with the producers.
    pub in_channel: nat,
    /// Why the run failed, if it did.
    pub failure: Option<ErrorEnum>,
}

/// The sections of one area's answer, marked with the area's index.
pub open spec fn tag_all(area: nat, results: Seq<SubAreaResult>) -> Queue {
    results.map_values(|result: SubAreaResult| (area, result))
}

/// The answer of some area is awaited.
pub open spec fn any_waiting(waiting: Seq<bool>) -> bool {
    exists|i: int| 0 <= i < waiting.len() && waiting[i]
}

/// The number of areas whose answer is awaited.
pub open spec fn count_waiting(waiting: Seq<bool>) -> nat
    decreases waiting.len(),
{
    if waiting.len() == 0 {
        0
    } else {
        count_waiting(waiting.drop_last()) + if waiting.last() {
            1nat
        } else {
            0nat
        }
    }
}

/// The phase of a run that is logged in and has not failed.
pub open spec fn phase_of(waiting: Seq<bool>, queue: Queue) -> Phase {
    if any_waiting(waiting) {
        Phase::Scraping
    } else if queue.len() > 0 {
        Phase::Draining
    } else {
        Phase::Done
    }
}

/// How many of `queued` sections a channel of `capacity` holds: as many as
/// fit.
pub open spec fn channel_share(capacity: nat, queued: nat) -> nat {
    if queued < capacity {
        queued
    } else {
        capacity
    }
}

/// A run before its start.
pub open spec fn initial(areas: Seq<AreaDescriptor>, capacity: nat) -> RunState {
    RunState {
        areas,
        capacity,
        phase: Phase::NotStarted,
        session: None,
        waiting: Seq::new(areas.len(), |i: int| false),
        queue: Seq::empty(),
        in_channel: 0,
        failure: None,
    }
}

/// The run with its phase and its channel brought up to date.
pub open spec fn settled(state: RunState) -> RunState {
    RunState {
        phase: phase_of(state.waiting, state.queue),
        in_channel: channel_share(state.capacity, state.queue.len()),
        ..state
    }
}

/// The run given up because of `error`: nothing is awaited and nothing is
/// handed out any more.
pub open spec fn failed(state: RunState, error: ErrorEnum) -> RunState {
    RunState {
        phase: Phase::Failed,
        waiting: Seq::new(state.areas.len(), |i: int| false),
        queue: Seq::empty(),
        in_channel: 0,
        failure: Some(error),
        ..state
    }
}

/// The run after the caller asked to start it.
pub open spec fn started(state: RunState) -> RunState {
    if state.phase is NotStarted {
        RunState { phase: Phase::LoggingIn, ..state }
    } else {
        state
    }
}

/// The run after the answer to the login arrived.
pub open spec fn logged_in(state: RunState, body: Seq<char>) -> RunState {
    if state.phase is LoggingIn {
        match login_outcome(body) {
            Ok(id) => settled(
                RunState {
                    session: Some(id),
                    waiting: Seq::new(state.areas.len(), |i: int| true),
                    ..state
                },
            ),
            Err(error) => failed(state, error),
        }
    } else {
        state
    }
}

/// Whether the answer of the area with index `area` is awaited.
pub open spec fn awaits(state: RunState, area: int) -> bool {
    state.phase is Scraping && 0 <= area < state.waiting.len() && state.waiting[area]
}

/// The sections that the answer `body` of the area with index `area` gives.
pub open spec fn sections_of(state: RunState, area: int, body: Seq<char>) -> Seq<SubAreaResult> {
    group_ports(ports_of(body), state.areas[area].subareas)
}

/// The run after the answer of the area with index `area` arrived. An answer
/// that is not awaited changes nothing.
pub open spec fn answered(state: RunState, area: int, body: Seq<char>) -> RunState {
    if awaits(state, area) {
        settled(
            RunState {
                waiting: state.waiting.update(area, false),
                queue: state.queue + tag_all(area as nat, sections_of(state, area, body)),
                ..state
            },
        )
    } else {
        state
    }
}

/// The run after a request failed in transport. Only a run with a request
/// out can fail so.
pub open spec fn broken(state: RunState) -> RunState {
    if state.phase is LoggingIn || state.phase is Scraping {
        failed(state, ErrorEnum::TransportError)
    } else {
        state
    }
}

/// Whether the consumer can take a section.
pub open spec fn offers(state: RunState) -> bool {
    state.queue.len() > 0
}

/// The run after the consumer took the oldest section.
pub open spec fn taken(state: RunState) -> RunState {
    if offers(state) {
        settled(RunState { queue: state.queue.drop_first(), ..state })
    } else {
        state
    }
}

/// What holds of a run at every moment.
pub open spec fn run_invariant(state: RunState) -> bool {
    &&& state.waiting.len() == state.areas.len()
    &&& state.in_channel == channel_share(state.capacity, state.queue.len())
    &&& forall|i: int| 0 <= i < state.queue.len() ==> (#[trigger] state.queue[i]).0 < state.areas.len()
    &&& match state.phase {
        Phase::NotStarted | Phase::LoggingIn => {
            &&& state.session is None
            &&& state.failure is None
            &&& !any_waiting(state.waiting)
            &&& state.queue.len() == 0
        },
        Phase::Failed => {
            &&& state.failure is Some
            &&& !any_waiting(state.waiting)
            &&& state.queue.len() == 0
        },
        _ => {
            &&& state.session is Some
            &&& state.failure is None
            &&& state.phase == phase_of(state.waiting, state.queue)
        },
    }
}

/// The views of the sections that the machine holds.
pub open spec fn tagged_views(items: Seq<(usize, HtmlSource)>) -> Queue {
    items.map_values(|item: (usize, HtmlSource)| (item.0 as nat, item.1@))
}

/// The view of a session that may not be there yet.
pub open spec fn session_view(session: Option<DocomoId>) -> Option<SessionIdentity> {
    match session {
        Some(id) => Some(id@),
        None => None,
    }
}

/// One scrape run.
pub struct Orchestrator {
    areas: Vec<Area>,
    capacity: usize,
    phase: Phase,
    session: Option<DocomoId>,
    waiting: Vec<bool>,
    channel: VecDeque<(usize, HtmlSource)>,
    parked: VecDeque<(usize, HtmlSource)>,
    failure: Option<ErrorEnum>,
}

impl View for Orchestrator {
    type V = RunState;

    closed spec fn view(&self) -> RunState {
        RunState {
            areas: area_views(self.areas@),
            capacity: self.capacity as nat,
            phase: self.phase,
            session: session_view(self.session),
            waiting: self.waiting@,
            queue: tagged_views(self.channel@ + self.parked@),
            in_channel: self.channel@.len(),
            failure: self.failure,
        }
    }
}

/// `n` flags, all `value`.
fn flags(n: usize, value: bool) -> (all: Vec<bool>)
    ensures
        all@ == Seq::new(n as nat, |i: int| value),
{
    let mut all: Vec<bool> = Vec::new();
    let mut i: usize = 0;
    while i < n
        invariant
            i <= n,
            all@.len() == i,
            forall|j: int| 0 <= j < i ==> all@[j] == value,
        decreases n - i,
    {
        all.push(value);
        i = i + 1;
    }
    assert(all@ =~= Seq::new(n as nat, |i: int| value));
    all
}

/// Builds the sections of the sub-areas from `table` and parks them, marked
/// with `area`, behind what is parked already.
fn park_sections(
    parked: &mut VecDeque<(usize, HtmlSource)>,
    area: usize,
    table: &PortTable,
    subareas: &Vec<SubArea>,
)
    ensures
        tagged_views(final(parked)@) == tagged_views(old(parked)@) + tag_all(
            area as nat,
            group_ports(table@, subarea_views(subareas@)),
        ),
        final(parked)@.len() == old(parked)@.len() + subareas@.len(),
        forall|j: int| 0 <= j < old(parked)@.len() ==> final(parked)@[j] == old(parked)@[j],
        forall|j: int|
            old(parked)@.len() <= j < final(parked)@.len() ==> (#[trigger] final(parked)@[j]).0
                == area,
{
    let ghost before = parked@;
    let mut i: usize = 0;
    while i < subareas.len()
        invariant
            i <= subareas.len(),
            parked@.len() == before.len() + i,
            forall|j: int| 0 <= j < before.len() ==> parked@[j] == before[j],
            forall|j: int|
                0 <= j < i ==> (#[trigger] parked@[before.len() + j]).0 == area && parked@[before.len()
                    + j].1@ == section_of(table@, subareas@[j]@),
        decreases subareas.len() - i,
    {
        let source = select(table, &subareas[i]);
        parked.push_back((area, source));
        i = i + 1;
    }
    assert(tagged_views(parked@) =~= tagged_views(before) + tag_all(
        area as nat,
        group_ports(table@, subarea_views(subareas@)),
    )) by {
        let added = tag_all(area as nat, group_ports(table@, subarea_views(subareas@)));
        assert forall|j: int| 0 <= j < parked@.len() implies tagged_views(parked@)[j] == (
        tagged_views(before) + added)[j] by {
            if j >= before.len() {
                let k = j - before.len();
                assert(parked@[before.len() + k].0 == area);
            }
        }
    }
    assert forall|j: int| before.len() <= j < parked@.len() implies (#[trigger] parked@[j]).0
        == area by {
        let k = j - before.len();
        assert(parked@[before.len() + k].0 == area);
    }
}

impl Orchestrator {
    /// What holds of the machine between any two calls.
    pub open spec fn wf(&self) -> bool {
        run_invariant(self@)
    }

    /// A run over `areas` with a channel of `CHANNEL_CAPACITY` sections.
    pub fn new(areas: Vec<Area>) -> (run: Self)
        ensures
            run.wf(),
            run@ == initial(area_views(areas@), CHANNEL_CAPACITY as nat),
    {
        Orchestrator::with_capacity(areas, CHANNEL_CAPACITY)
    }

    /// A run over `areas` with a channel of `capacity` sections.
    pub fn with_capacity(areas: Vec<Area>, capacity: usize) -> (run: Self)
        ensures
            run.wf(),
            run@ == initial(area_views(areas@), capacity as nat),
    {
        let waiting = flags(areas.len(), false);
        let run = Orchestrator {
            areas,
            capacity,
            phase: Phase::NotStarted,
            session: None,
            waiting,
            channel: VecDeque::new(),
            parked: VecDeque::new(),
            failure: None,
        };
        assert(run.channel@ + run.parked@ =~= Seq::empty());
        assert(run@.queue =~= Seq::empty());
        assert(run@.waiting =~= Seq::new(run@.areas.len(), |i: int| false));
        run
    }

    /// Where the run stands.
    pub fn phase(&self) -> (phase: Phase)
        ensures
            phase == self@.phase,
    {
        self.phase
    }

    /// The session identity, once the login has succeeded.
    pub fn session(&self) -> (session: Option<&DocomoId>)
        ensures
            match session {
                Some(id) => self@.session == Some(id@),
                None => self@.session is None,
            },
    {
        match &self.session {
            Some(id) => Some(id),
            None => None,
        }
    }

    /// Why the run failed, if it did.
    pub fn failure(&self) -> (failure: Option<ErrorEnum>)
        ensures
            failure == self@.failure,
    {
        self.failure
    }

    /// The number of sections in the channel.
    pub fn channel_len(&self) -> (n: usize)
        ensures
            n == self@.in_channel,
    {
        self.channel.len()
    }

    /// The number of sections that are parked because the channel is full.
    pub fn parked_len(&self) -> (n: usize)
        ensures
            n == self@.queue.len() - self@.in_channel,
    {
        self.parked.len()
    }

    /// The number of areas whose answer is awaited.
    pub fn in_flight(&self) -> (n: usize)
        ensures
            n == count_waiting(self@.waiting),
    {
        let mut n: usize = 0;
        let mut i: usize = 0;
        while i < self.waiting.len()
            invariant
                i <= self.waiting.len(),
                n <= i,
                n == count_waiting(self.waiting@.take(i as int)),
            decreases self.waiting.len() - i,
        {
            proof {
                assert(self.waiting@.take(i + 1).drop_last() =~= self.waiting@.take(i as int));
            }
            if self.waiting[i] {
                n = n + 1;
            }
            i = i + 1;
        }
        proof {
            assert(self.waiting@.take(i as int) =~= self.waiting@);
        }
        n
    }

    /// Whether the answer of some area is awaited.
    fn some_waiting(&self) -> (some: bool)
        ensures
            some == any_waiting(self.waiting@),
    {
        let mut i: usize = 0;
        while i < self.waiting.len()
            invariant
                i <= self.waiting.len(),
                forall|j: int| 0 <= j < i ==> !self.waiting@[j],
            decreases self.waiting.len() - i,
        {
            if self.waiting[i] {
                return true;
            }
            i = i + 1;
        }
        false
    }

    /// Moves parked sections into the channel while it has room, oldest
    /// first, and brings the phase up to date.
    fn settle(&mut self)
        requires
            old(self).channel@.len() <= old(self).capacity,
        ensures
            final(self)@ == settled(old(self)@),
            final(self).channel@ + final(self).parked@ == old(self).channel@ + old(self).parked@,
    {
        let ghost all = self.channel@ + self.parked@;
        while self.channel.len() < self.capacity && self.parked.len() > 0
            invariant
                self.channel@ + self.parked@ == all,
                self.channel@.len() <= self.capacity,
                self.areas == old(self).areas,
                self.capacity == old(self).capacity,
                self.session == old(self).session,
                self.waiting == old(self).waiting,
                self.failure == old(self).failure,
            decreases self.parked@.len(),
        {
            let ghost channel = self.channel@;
            let ghost parked = self.parked@;
            match self.parked.pop_front() {
                Some(item) => {
                    self.channel.push_back(item);
                },
                None => {},
            }
            assert(self.channel@ + self.parked@ =~= channel + parked);
        }
        self.phase = if self.some_waiting() {
            Phase::Scraping
        } else if self.channel.len() > 0 || self.parked.len() > 0 {
            Phase::Draining
        } else {
            Phase::Done
        };
        proof {
            assert(tagged_views(all).len() == all.len());
        }
    }

    /// Gives the run up because of `error`.
    fn fail(&mut self, error: ErrorEnum)
        ensures
            final(self)@ == failed(old(self)@, error),
    {
        self.phase = Phase::Failed;
        self.failure = Some(error);
        self.waiting = flags(self.areas.len(), false);
        self.channel.clear();
        self.parked.clear();
        assert(self.channel@ + self.parked@ =~= Seq::empty());
        assert(self@.queue =~= Seq::empty());
    }

    /// Starts the run: hands out the login form. A run that was started
    /// before hands out nothing and stays as it is.
    pub fn start(&mut self, user_id: &str, password: &str) -> (form: Option<Form>)
        requires
            old(self).wf(),
        ensures
            final(self).wf(),
            final(self)@ == started(old(self)@),
            match form {
                Some(f) => old(self)@.phase is NotStarted && f@ == login_fields(
                    user_id@,
                    password@,
                ),
                None => !(old(self)@.phase is NotStarted),
            },
    {
        match self.phase {
            Phase::NotStarted => {
                self.phase = Phase::LoggingIn;
                Some(login_form(user_id, password))
            },
            _ => None,
        }
    }

    /// The forms that ask for the ports of each area, in the order of the
    /// areas.
    fn area_forms(&self, id: &DocomoId) -> (forms: Vec<Form>)
        ensures
            forms@.len() == self.areas@.len(),
            forall|i: int|
                0 <= i < forms@.len() ==> (#[trigger] forms@[i])@ == list_ports_fields(
                    id@,
                    self.areas@[i]@.id,
                ),
    {
        let mut forms: Vec<Form> = Vec::new();
        let mut i: usize = 0;
        while i < self.areas.len()
            invariant
                i <= self.areas.len(),
                forms@.len() == i,
                forall|j: int|
                    0 <= j < i ==> (#[trigger] forms@[j])@ == list_ports_fields(
                        id@,
                        self.areas@[j]@.id,
                    ),
            decreases self.areas.len() - i,
        {
            forms.push(list_ports_form(id, self.areas[i].id));
            i = i + 1;
        }
        forms
    }

    /// Takes the answer to the login. On success the run goes on to the
    /// areas and hands out one form for each, in the order of the areas; on
    /// failure it is given up and hands out nothing. An answer that is not
    /// awaited changes nothing.
    pub fn login_response(&mut self, body: &str) -> (forms: Vec<Form>)
        requires
            old(self).wf(),
        ensures
            final(self).wf(),
            final(self)@ == logged_in(old(self)@, body@),
            forms@.len() == if final(self)@.session is Some && old(self)@.phase is LoggingIn {
                final(self)@.areas.len()
            } else {
                0
            },
            forall|i: int|
                0 <= i < forms@.len() ==> (#[trigger] forms@[i])@ == list_ports_fields(
                    final(self)@.session->0,
                    final(self)@.areas[i].id,
                ),
    {
        match self.phase {
            Phase::LoggingIn => {},
            _ => {
                return Vec::new();
            },
        }
        match login(body) {
            Ok(id) => {
                let forms = self.area_forms(&id);
                self.session = Some(id);
                self.waiting = flags(self.areas.len(), true);
                proof {
                    assert(self.channel@ + self.parked@ =~= Seq::empty());
                }
                self.settle();
                proof {
                    assert(self@.waiting =~= Seq::new(old(self)@.areas.len(), |i: int| true));
                    if self@.areas.len() > 0 {
                        assert(self@.waiting[0]);
                    }
                }
                forms
            },
            Err(error) => {
                self.fail(error);
                Vec::new()
            },
        }
    }

    /// Takes the answer of the area with index `area`: groups its ports by
    /// the area's sub-areas and queues the sections, in the order of the
    /// sub-areas, behind what is queued. An answer that is not awaited
    /// changes nothing.
    pub fn area_response(&mut self, area: usize, body: &str)
        requires
            old(self).wf(),
        ensures
            final(self).wf(),
            final(self)@ == answered(old(self)@, area as int, body@),
    {
        match self.phase {
            Phase::Scraping => {},
            _ => {
                return ;
            },
        }
        if area >= self.waiting.len() || !self.waiting[area] {
            return ;
        }
        let table = extract_ports(body);
        let ghost channel = self.channel@;
        let ghost parked = self.parked@;
        park_sections(&mut self.parked, area, &table, &self.areas[area].subarea);
        self.waiting.set(area, false);
        proof {
            let added = tag_all(area as nat, sections_of(old(self)@, area as int, body@));
            assert(tagged_views(channel + self.parked@) =~= tagged_views(channel + parked)
                + added) by {
                assert(tagged_views(channel + self.parked@) =~= tagged_views(channel)
                    + tagged_views(self.parked@));
                assert(tagged_views(channel + parked) =~= tagged_views(channel) + tagged_views(
                    parked,
                ));
            }
        }
        let ghost items = channel + self.parked@;
        self.settle();
        proof {
            let queue = self@.queue;
            assert forall|i: int| 0 <= i < queue.len() implies (#[trigger] queue[i]).0
                < self@.areas.len() by {
                assert(queue[i] == (items[i].0 as nat, items[i].1@));
                if i < (channel + parked).len() {
                    assert(old(self)@.queue[i].0 < old(self)@.areas.len());
                }
            }
        }
    }

    /// Takes note that a request could not be sent or its answer could not
    /// be read: a run that awaits an answer is given up.
    pub fn transport_failed(&mut self)
        requires
            old(self).wf(),
        ensures
            final(self).wf(),
            final(self)@ == broken(old(self)@),
    {
        match self.phase {
            Phase::LoggingIn | Phase::Scraping => {
                self.fail(ErrorEnum::TransportError);
            },
            _ => {},
        }
    }

    /// Hands the oldest section to the consumer, `None` when nothing waits.
    /// The room that this makes in the channel goes to the parked sections.
    pub fn next(&mut self) -> (section: Option<HtmlSource>)
        requires
            old(self).wf(),
        ensures
            final(self).wf(),
            final(self)@ == taken(old(self)@),
            match section {
                Some(source) => offers(old(self)@) && source@ == old(self)@.queue[0].1,
                None => !offers(old(self)@),
            },
    {
        let ghost channel = self.channel@;
        let ghost parked = self.parked@;
        let first = match self.channel.pop_front() {
            Some(item) => Some(item),
            None => self.parked.pop_front(),
        };
        match first {
            Some(item) => {
                proof {
                    assert(self.channel@ + self.parked@ =~= (channel + parked).drop_first());
                    assert(tagged_views((channel + parked).drop_first()) =~= tagged_views(
                        channel + parked,
                    ).drop_first());
                }
                self.settle();
                Some(item.1)
            },
            None => {
                proof {
                    assert(channel + parked =~= Seq::empty());
                }
                None
            },
        }
    }
}

} // verus!
