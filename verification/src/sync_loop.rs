//! The synchronization loop as a state machine.
//!
//! The machine never touches the outside world. Each state waits for the
//! answer to one request: a query to the container runtime, an access to the
//! hosts file, or the next container event. Whoever drives the machine
//! carries out the request and hands back what happened as an event;
//! [`step`] then says which state follows and what to do next.
//!
//! The first pass over the hosts file is the bootstrap: any failure in it
//! stops the machine. Later passes run while watching: a failure abandons
//! the pass, and the machine goes back to waiting for the next event.

use vstd::prelude::*;
use vstd::string::*;
use crate::docker_host::{DockerHost, HostRecord};
use crate::error::{Error, ErrorView};
use crate::file_text::{update_hosts_text, updated_text};
use crate::inventory::{
    ContainerMetadata,
    ContainerView,
    container_host,
    host_on_network,
    hosts_on,
    present_names,
    present_names_of,
};

verus! {

/// Whether the hosts file has been written once.
#[derive(Clone, Copy, Debug, PartialEq, Eq, Structural)]
pub enum Phase {
    /// The first pass: a failure ends the run.
    Bootstrap,
    /// Every later pass: a failure is reported and the run goes on.
    Watching,
}

/// What the machine is waiting for.
#[derive(Debug, Clone, PartialEq, Eq)]
pub enum SyncState {
    /// For the runtime's networks, to check the requested one against them.
    SelectingNetwork { requested: Option<String> },
    /// For the running containers.
    ListingContainers { network: String, phase: Phase },
    /// For the metadata of the container `current`; those in `waiting` come
    /// after it, and `hosts` holds the records found so far.
    InspectingContainer {
        network: String,
        phase: Phase,
        current: String,
        waiting: Vec<String>,
        hosts: Vec<DockerHost>,
    },
    /// For the text of the hosts file.
    ReadingFile { network: String, phase: Phase, hosts: Vec<DockerHost> },
    /// For write access to the hosts file, before it is first written.
    Escalating { network: String, contents: String },
    /// For the hosts file to be written.
    WritingFile { network: String, phase: Phase, contents: String },
    /// For a container to start or stop.
    Watching { network: String },
    /// For nothing: the run is over.
    Stopped,
}

/// What happened outside, as an answer to the last request.
#[derive(Debug, Clone, PartialEq, Eq)]
pub enum SyncEvent {
    /// The runtime listed its networks, each with its name if it has one.
    NetworksListed(Vec<Option<String>>),
    /// The runtime listed the running containers, each with its identifier
    /// if it has one.
    ContainersListed(Vec<Option<String>>),
    /// The runtime gave the metadata of the container asked for.
    ContainerInspected(ContainerMetadata),
    /// A query to the runtime failed.
    QueryFailed(String),
    /// The hosts file was read; here is its text.
    FileRead(String),
    /// The hosts file could not be read.
    ReadFailed(String),
    /// Write access to the hosts file is granted.
    Escalated,
    /// Write access to the hosts file was refused.
    EscalationFailed(String),
    /// The hosts file was written.
    FileWritten,
    /// The hosts file could not be written.
    WriteFailed(String),
    /// A container started or stopped.
    ContainerChanged,
    /// The runtime closed its stream of events.
    StreamClosed,
}

/// What to do next.
#[derive(Debug, Clone, PartialEq, Eq)]
pub enum SyncAction {
    /// List the runtime's networks.
    ListNetworks,
    /// List the running containers.
    ListContainers,
    /// Inspect the container with this identifier.
    InspectContainer(String),
    /// Read the hosts file.
    ReadFile,
    /// Obtain write access to the hosts file.
    Escalate,
    /// Replace the text of the hosts file by this one.
    WriteFile(String),
    /// Wait for a container to start or stop. A `failure` is that of the
    /// pass just abandoned, to be reported first.
    AwaitEvent { failure: Option<Error> },
    /// End the run, with the failure that ended it if there is one.
    Stop { failure: Option<Error> },
}

/// What a [`SyncState`] stands for.
pub enum StateView {
    SelectingNetwork { requested: Option<Seq<char>> },
    ListingContainers { network: Seq<char>, phase: Phase },
    InspectingContainer {
        network: Seq<char>,
        phase: Phase,
        current: Seq<char>,
        waiting: Seq<Seq<char>>,
        hosts: Seq<HostRecord>,
    },
    ReadingFile { network: Seq<char>, phase: Phase, hosts: Seq<HostRecord> },
    Escalating { network: Seq<char>, contents: Seq<char> },
    WritingFile { network: Seq<char>, phase: Phase, contents: Seq<char> },
    Watching { network: Seq<char> },
    Stopped,
}

/// What a [`SyncEvent`] stands for.
pub enum EventView {
    NetworksListed(Seq<Option<Seq<char>>>),
    ContainersListed(Seq<Option<Seq<char>>>),
    ContainerInspected(ContainerView),
    QueryFailed(Seq<char>),
    FileRead(Seq<char>),
    ReadFailed(Seq<char>),
    Escalated,
    EscalationFailed(Seq<char>),
    FileWritten,
    WriteFailed(Seq<char>),
    ContainerChanged,
    StreamClosed,
}

/// What a [`SyncAction`] stands for.
pub enum ActionView {
    ListNetworks,
    ListContainers,
    InspectContainer(Seq<char>),
    ReadFile,
    Escalate,
    WriteFile(Seq<char>),
    AwaitEvent { failure: Option<ErrorView> },
    Stop { failure: Option<ErrorView> },
}

impl View for SyncState {
    type V = StateView;

    open spec fn view(&self) -> StateView {
        match self {
            SyncState::SelectingNetwork { requested } => StateView::SelectingNetwork {
                requested: requested.deep_view(),
            },
            SyncState::ListingContainers { network, phase } => StateView::ListingContainers {
                network: network@,
                phase: *phase,
            },
            SyncState::InspectingContainer { network, phase, current, waiting, hosts } => {
                StateView::InspectingContainer {
                    network: network@,
                    phase: *phase,
                    current: current@,
                    waiting: waiting.deep_view(),
                    hosts: hosts.deep_view(),
                }
            },
            SyncState::ReadingFile { network, phase, hosts } => StateView::ReadingFile {
                network: network@,
                phase: *phase,
                hosts: hosts.deep_view(),
            },
            SyncState::Escalating { network, contents } => StateView::Escalating {
                network: network@,
                contents: contents@,
            },
            SyncState::WritingFile { network, phase, contents } => StateView::WritingFile {
                network: network@,
                phase: *phase,
                contents: contents@,
            },
            SyncState::Watching { network } => StateView::Watching { network: network@ },
            SyncState::Stopped => StateView::Stopped,
        }
    }
}

impl View for SyncEvent {
    type V = EventView;

    open spec fn view(&self) -> EventView {
        match self {
            SyncEvent::NetworksListed(listed) => EventView::NetworksListed(listed.deep_view()),
            SyncEvent::ContainersListed(listed) => EventView::ContainersListed(
                listed.deep_view(),
            ),
            SyncEvent::ContainerInspected(container) => EventView::ContainerInspected(container@),
            SyncEvent::QueryFailed(message) => EventView::QueryFailed(message@),
            SyncEvent::FileRead(text) => EventView::FileRead(text@),
            SyncEvent::ReadFailed(message) => EventView::ReadFailed(message@),
            SyncEvent::Escalated => EventView::Escalated,
            SyncEvent::EscalationFailed(message) => EventView::EscalationFailed(message@),
            SyncEvent::FileWritten => EventView::FileWritten,
            SyncEvent::WriteFailed(message) => EventView::WriteFailed(message@),
            SyncEvent::ContainerChanged => EventView::ContainerChanged,
            SyncEvent::StreamClosed => EventView::StreamClosed,
        }
    }
}

impl View for SyncAction {
    type V = ActionView;

    open spec fn view(&self) -> ActionView {
        match self {
            SyncAction::ListNetworks => ActionView::ListNetworks,
            SyncAction::ListContainers => ActionView::ListContainers,
            SyncAction::InspectContainer(id) => ActionView::InspectContainer(id@),
            SyncAction::ReadFile => ActionView::ReadFile,
            SyncAction::Escalate => ActionView::Escalate,
            SyncAction::WriteFile(contents) => ActionView::WriteFile(contents@),
            SyncAction::AwaitEvent { failure } => ActionView::AwaitEvent {
                failure: failure.deep_view(),
            },
            SyncAction::Stop { failure } => ActionView::Stop { failure: failure.deep_view() },
        }
    }
}

/// The network to synchronize, chosen among the runtime's networks.
///
/// Without a request there is no choice, and the networks are handed back
/// to choose from. A request is granted when the runtime has a network of
/// that name, and refused otherwise.
pub open spec fn selection(requested: Option<Seq<char>>, networks: Seq<Seq<char>>) -> Result<
    Seq<char>,
    ErrorView,
> {
    match requested {
        None => Err(ErrorView::NetworkNotSelect(networks)),
        Some(name) => if networks.contains(name) {
            Ok(name)
        } else {
            Err(ErrorView::NetworkInvalidChoice { selected_network: name, networks })
        },
    }
}

/// The request that a state waits on.
pub open spec fn awaited(state: StateView) -> ActionView {
    match state {
        StateView::SelectingNetwork { .. } => ActionView::ListNetworks,
        StateView::ListingContainers { .. } => ActionView::ListContainers,
        StateView::InspectingContainer { current, .. } => ActionView::InspectContainer(current),
        StateView::ReadingFile { .. } => ActionView::ReadFile,
        StateView::Escalating { .. } => ActionView::Escalate,
        StateView::WritingFile { contents, .. } => ActionView::WriteFile(contents),
        StateView::Watching { .. } => ActionView::AwaitEvent { failure: None },
        StateView::Stopped => ActionView::Stop { failure: None },
    }
}

/// Where a failed pass leaves the machine: stopped if the pass was the
/// bootstrap, waiting for the next event otherwise.
pub open spec fn abandon(network: Seq<char>, phase: Phase, failure: ErrorView) -> (
    StateView,
    ActionView,
) {
    match phase {
        Phase::Bootstrap => (StateView::Stopped, ActionView::Stop { failure: Some(failure) }),
        Phase::Watching => (
            StateView::Watching { network },
            ActionView::AwaitEvent { failure: Some(failure) },
        ),
    }
}

/// The inspections that a pass makes: the first of `ids`, with the others
/// waiting, or none where `ids` is empty, and then the hosts file is read.
pub open spec fn inspect_next(
    network: Seq<char>,
    phase: Phase,
    ids: Seq<Seq<char>>,
    hosts: Seq<HostRecord>,
) -> (StateView, ActionView) {
    if ids.len() == 0 {
        (StateView::ReadingFile { network, phase, hosts }, ActionView::ReadFile)
    } else {
        (
            StateView::InspectingContainer {
                network,
                phase,
                current: ids.first(),
                waiting: ids.drop_first(),
                hosts,
            },
            ActionView::InspectContainer(ids.first()),
        )
    }
}

/// The state that follows `state` on `event`, and what to do next.
///
/// An event that is no answer to what the state waits on changes nothing:
/// the state stays, and its request is made again.
pub open spec fn transition(state: StateView, event: EventView) -> (StateView, ActionView) {
    match (state, event) {
        (StateView::SelectingNetwork { requested }, EventView::NetworksListed(listed)) => {
            match selection(requested, present_names_of(listed)) {
                Ok(network) => (
                    StateView::ListingContainers { network, phase: Phase::Bootstrap },
                    ActionView::ListContainers,
                ),
                Err(failure) => (StateView::Stopped, ActionView::Stop { failure: Some(failure) }),
            }
        },
        (StateView::SelectingNetwork { .. }, EventView::QueryFailed(message)) => (
            StateView::Stopped,
            ActionView::Stop { failure: Some(ErrorView::Docker(message)) },
        ),
        (
            StateView::ListingContainers { network, phase },
            EventView::ContainersListed(listed),
        ) => inspect_next(network, phase, present_names_of(listed), Seq::empty()),
        (StateView::ListingContainers { network, phase }, EventView::QueryFailed(message)) => {
            abandon(network, phase, ErrorView::Docker(message))
        },
        (
            StateView::InspectingContainer { network, phase, waiting, hosts, .. },
            EventView::ContainerInspected(container),
        ) => inspect_next(network, phase, waiting, hosts + hosts_on(seq![container], network)),
        (
            StateView::InspectingContainer { network, phase, .. },
            EventView::QueryFailed(message),
        ) => abandon(network, phase, ErrorView::Docker(message)),
        (StateView::ReadingFile { network, phase, hosts }, EventView::FileRead(text)) => {
            let contents = updated_text(text, hosts);
            match phase {
                Phase::Bootstrap => (
                    StateView::Escalating { network, contents },
                    ActionView::Escalate,
                ),
                Phase::Watching => (
                    StateView::WritingFile { network, phase, contents },
                    ActionView::WriteFile(contents),
                ),
            }
        },
        (StateView::ReadingFile { network, phase, .. }, EventView::ReadFailed(message)) => {
            abandon(network, phase, ErrorView::ReadFile(message))
        },
        (StateView::Escalating { network, contents }, EventView::Escalated) => (
            StateView::WritingFile { network, phase: Phase::Bootstrap, contents },
            ActionView::WriteFile(contents),
        ),
        (StateView::Escalating { .. }, EventView::EscalationFailed(message)) => (
            StateView::Stopped,
            ActionView::Stop { failure: Some(ErrorView::Sudo(message)) },
        ),
        (StateView::WritingFile { network, .. }, EventView::FileWritten) => (
            StateView::Watching { network },
            ActionView::AwaitEvent { failure: None },
        ),
        (StateView::WritingFile { network, phase, .. }, EventView::WriteFailed(message)) => {
            abandon(network, phase, ErrorView::WriteFile(message))
        },
        (StateView::Watching { network }, EventView::ContainerChanged) => (
            StateView::ListingContainers { network, phase: Phase::Watching },
            ActionView::ListContainers,
        ),
        (StateView::Watching { .. }, EventView::StreamClosed) => (
            StateView::Stopped,
            ActionView::Stop { failure: None },
        ),
        (state, _) => (state, awaited(state)),
    }
}

/// The filters of the subscription to the runtime's events, each a key with
/// the values it admits: of all events those of containers, and of these
/// the starts and the stops.
pub open spec fn event_filters_of() -> Seq<(Seq<char>, Seq<Seq<char>>)> {
    seq![("event"@, seq!["start"@, "stop"@]), ("type"@, seq!["container"@])]
}

/// The filters under which the machine waits for events.
pub fn event_filters() -> (filters: Vec<(String, Vec<String>)>)
    ensures
        filters.deep_view() == event_filters_of(),
{
    let mut events: Vec<String> = Vec::new();
    events.push(String::from_str("start"));
    events.push(String::from_str("stop"));
    let mut types: Vec<String> = Vec::new();
    types.push(String::from_str("container"));
    assert(events.deep_view() =~= seq!["start"@, "stop"@]);
    assert(types.deep_view() =~= seq!["container"@]);
    let mut filters: Vec<(String, Vec<String>)> = Vec::new();
    filters.push((String::from_str("event"), events));
    filters.push((String::from_str("type"), types));
    filters
}

/// Whether `name` is among `networks`.
fn is_listed(networks: &Vec<String>, name: &String) -> (listed: bool)
    ensures
        listed == networks.deep_view().contains(name@),
{
    let mut at: usize = 0;
    while at < networks.len()
        invariant
            at <= networks@.len(),
            forall|j: int| 0 <= j < at ==> networks.deep_view()[j] != name@,
        decreases networks@.len() - at,
    {
        if networks[at] == *name {
            assert(networks.deep_view()[at as int] == name@);
            return true;
        }
        at = at + 1;
    }
    false
}

/// Chooses the network to synchronize among the runtime's networks.
pub fn select_network(requested: Option<String>, networks: Vec<String>) -> (chosen: Result<
    String,
    Error,
>)
    ensures
        match chosen {
            Ok(network) => selection(requested.deep_view(), networks.deep_view()) == Ok::<
                Seq<char>,
                ErrorView,
            >(network@),
            Err(failure) => selection(requested.deep_view(), networks.deep_view()) == Err::<
                Seq<char>,
                ErrorView,
            >(failure@),
        },
{
    match requested {
        None => Err(Error::NetworkNotSelect(networks)),
        Some(selected_network) => {
            if is_listed(&networks, &selected_network) {
                Ok(selected_network)
            } else {
                Err(Error::NetworkInvalidChoice { selected_network, networks })
            }
        },
    }
}

/// Where a failed pass leaves the machine.
fn abandon_pass(network: String, phase: Phase, failure: Error) -> (next: (SyncState, SyncAction))
    ensures
        (next.0@, next.1@) == abandon(network@, phase, failure@),
{
    match phase {
        Phase::Bootstrap => (SyncState::Stopped, SyncAction::Stop { failure: Some(failure) }),
        Phase::Watching => (
            SyncState::Watching { network },
            SyncAction::AwaitEvent { failure: Some(failure) },
        ),
    }
}

/// Goes on to the next container to inspect, or to the hosts file when none
/// is left.
fn inspect_next_container(
    network: String,
    phase: Phase,
    ids: Vec<String>,
    hosts: Vec<DockerHost>,
) -> (next: (SyncState, SyncAction))
    ensures
        (next.0@, next.1@) == inspect_next(network@, phase, ids.deep_view(), hosts.deep_view()),
{
    let mut waiting = ids;
    if waiting.len() == 0 {
        (SyncState::ReadingFile { network, phase, hosts }, SyncAction::ReadFile)
    } else {
        let current = waiting.remove(0);
        let action = SyncAction::InspectContainer(current.clone());
        assert(waiting.deep_view() =~= ids.deep_view().drop_first());
        (SyncState::InspectingContainer { network, phase, current, waiting, hosts }, action)
    }
}

impl SyncState {
    /// The request that this state waits on.
    pub fn pending_action(&self) -> (action: SyncAction)
        ensures
            action@ == awaited(self@),
    {
        match self {
            SyncState::SelectingNetwork { .. } => SyncAction::ListNetworks,
            SyncState::ListingContainers { .. } => SyncAction::ListContainers,
            SyncState::InspectingContainer { current, .. } => SyncAction::InspectContainer(
                current.clone(),
            ),
            SyncState::ReadingFile { .. } => SyncAction::ReadFile,
            SyncState::Escalating { .. } => SyncAction::Escalate,
            SyncState::WritingFile { contents, .. } => SyncAction::WriteFile(contents.clone()),
            SyncState::Watching { .. } => SyncAction::AwaitEvent { failure: None },
            SyncState::Stopped => SyncAction::Stop { failure: None },
        }
    }
}

/// The machine at the start of a run: it asks for the runtime's networks, to
/// check the requested network against them.
pub fn start(requested: Option<String>) -> (first: (SyncState, SyncAction))
    ensures
        first.0@ == (StateView::SelectingNetwork { requested: requested.deep_view() }),
        first.1@ == ActionView::ListNetworks,
{
    (SyncState::SelectingNetwork { requested }, SyncAction::ListNetworks)
}

/// Takes the machine from `state` to the next state on `event`, and says
/// what to do next.
pub fn step(state: SyncState, event: SyncEvent) -> (next: (SyncState, SyncAction))
    ensures
        (next.0@, next.1@) == transition(state@, event@),
{
    match (state, event) {
        (SyncState::SelectingNetwork { requested }, SyncEvent::NetworksListed(listed)) => {
            match select_network(requested, present_names(listed)) {
                Ok(network) => (
                    SyncState::ListingContainers { network, phase: Phase::Bootstrap },
                    SyncAction::ListContainers,
                ),
                Err(failure) => (SyncState::Stopped, SyncAction::Stop { failure: Some(failure) }),
            }
        },
        (SyncState::SelectingNetwork { .. }, SyncEvent::QueryFailed(message)) => (
            SyncState::Stopped,
            SyncAction::Stop { failure: Some(Error::Docker(message)) },
        ),
        (
            SyncState::ListingContainers { network, phase },
            SyncEvent::ContainersListed(listed),
        ) => {
            let hosts: Vec<DockerHost> = Vec::new();
            assert(hosts.deep_view() =~= Seq::empty());
            inspect_next_container(network, phase, present_names(listed), hosts)
        },
        (SyncState::ListingContainers { network, phase }, SyncEvent::QueryFailed(message)) => {
            abandon_pass(network, phase, Error::Docker(message))
        },
        (
            SyncState::InspectingContainer { network, phase, waiting, hosts, .. },
            SyncEvent::ContainerInspected(container),
        ) => {
            let mut hosts = hosts;
            let ghost found = hosts.deep_view();
            proof {
                Seq::lemma_filter_map_singleton(container@, host_on_network(network@));
            }
            if let Some(host) = container_host(&container, network.as_str()) {
                hosts.push(host);
                assert(hosts.deep_view() =~= found + hosts_on(seq![container@], network@));
            }
            inspect_next_container(network, phase, waiting, hosts)
        },
        (
            SyncState::InspectingContainer { network, phase, .. },
            SyncEvent::QueryFailed(message),
        ) => abandon_pass(network, phase, Error::Docker(message)),
        (SyncState::ReadingFile { network, phase, hosts }, SyncEvent::FileRead(text)) => {
            let contents = update_hosts_text(text.as_str(), hosts.as_slice());
            match phase {
                Phase::Bootstrap => (
                    SyncState::Escalating { network, contents },
                    SyncAction::Escalate,
                ),
                Phase::Watching => {
                    let action = SyncAction::WriteFile(contents.clone());
                    (SyncState::WritingFile { network, phase, contents }, action)
                },
            }
        },
        (SyncState::ReadingFile { network, phase, .. }, SyncEvent::ReadFailed(message)) => {
            abandon_pass(network, phase, Error::ReadFile(message))
        },
        (SyncState::Escalating { network, contents }, SyncEvent::Escalated) => {
            let action = SyncAction::WriteFile(contents.clone());
            (SyncState::WritingFile { network, phase: Phase::Bootstrap, contents }, action)
        },
        (SyncState::Escalating { .. }, SyncEvent::EscalationFailed(message)) => (
            SyncState::Stopped,
            SyncAction::Stop { failure: Some(Error::Sudo(message)) },
        ),
        (SyncState::WritingFile { network, .. }, SyncEvent::FileWritten) => (
            SyncState::Watching { network },
            SyncAction::AwaitEvent { failure: None },
        ),
        (SyncState::WritingFile { network, phase, .. }, SyncEvent::WriteFailed(message)) => {
            abandon_pass(network, phase, Error::WriteFile(message))
        },
        (SyncState::Watching { network }, SyncEvent::ContainerChanged) => (
            SyncState::ListingContainers { network, phase: Phase::Watching },
            SyncAction::ListContainers,
        ),
        (SyncState::Watching { .. }, SyncEvent::StreamClosed) => (
            SyncState::Stopped,
            SyncAction::Stop { failure: None },
        ),
        (state, _) => {
            let action = state.pending_action();
            (state, action)
        },
    }
}

} // verus!
