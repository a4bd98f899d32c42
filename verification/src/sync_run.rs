//! What holds of every run of the synchronization machine.

use vstd::prelude::*;
use crate::docker_host::HostRecord;
use crate::error::ErrorView;
use crate::file_text::updated_text;
use crate::inventory::{ContainerView, hosts_on, lemma_hosts_on_concat, present_names_of};
use crate::sync_loop::{
    ActionView,
    EventView,
    Phase,
    StateView,
    awaited,
    inspect_next,
    transition,
};

verus! {

/// The phase that a state belongs to; a stopped machine is in none.
pub open spec fn phase_of(state: StateView) -> Option<Phase> {
    match state {
        StateView::SelectingNetwork { .. } => Some(Phase::Bootstrap),
        StateView::ListingContainers { phase, .. } => Some(phase),
        StateView::InspectingContainer { phase, .. } => Some(phase),
        StateView::ReadingFile { phase, .. } => Some(phase),
        StateView::Escalating { .. } => Some(Phase::Bootstrap),
        StateView::WritingFile { phase, .. } => Some(phase),
        StateView::Watching { .. } => Some(Phase::Watching),
        StateView::Stopped => None,
    }
}

/// The network that a state synchronizes, once it is chosen.
pub open spec fn network_of(state: StateView) -> Option<Seq<char>> {
    match state {
        StateView::SelectingNetwork { .. } => None,
        StateView::ListingContainers { network, .. } => Some(network),
        StateView::InspectingContainer { network, .. } => Some(network),
        StateView::ReadingFile { network, .. } => Some(network),
        StateView::Escalating { network, .. } => Some(network),
        StateView::WritingFile { network, .. } => Some(network),
        StateView::Watching { network } => Some(network),
        StateView::Stopped => None,
    }
}

/// Whether a state is in the middle of a pass over the hosts file.
pub open spec fn in_pass(state: StateView) -> bool {
    state is ListingContainers || state is InspectingContainer || state is ReadingFile
        || state is Escalating || state is WritingFile
}

/// The failure that an event reports, if it reports one.
pub open spec fn failure_of(event: EventView) -> Option<ErrorView> {
    match event {
        EventView::QueryFailed(message) => Some(ErrorView::Docker(message)),
        EventView::ReadFailed(message) => Some(ErrorView::ReadFile(message)),
        EventView::EscalationFailed(message) => Some(ErrorView::Sudo(message)),
        EventView::WriteFailed(message) => Some(ErrorView::WriteFile(message)),
        _ => None,
    }
}

/// Whether `event` is an answer to the request that `state` waits on.
pub open spec fn answers(state: StateView, event: EventView) -> bool {
    match state {
        StateView::SelectingNetwork { .. } => event is NetworksListed || event is QueryFailed,
        StateView::ListingContainers { .. } => event is ContainersListed || event is QueryFailed,
        StateView::InspectingContainer { .. } => event is ContainerInspected
            || event is QueryFailed,
        StateView::ReadingFile { .. } => event is FileRead || event is ReadFailed,
        StateView::Escalating { .. } => event is Escalated || event is EscalationFailed,
        StateView::WritingFile { .. } => event is FileWritten || event is WriteFailed,
        StateView::Watching { .. } => event is ContainerChanged || event is StreamClosed,
        StateView::Stopped => false,
    }
}

/// The state that a machine in `state` reaches through `events`, taken in
/// their order.
pub open spec fn run(state: StateView, events: Seq<EventView>) -> StateView
    decreases events.len(),
{
    if events.len() == 0 {
        state
    } else {
        run(transition(state, events.first()).0, events.drop_first())
    }
}

/// The answers of the runtime to the inspection of `containers`, one after
/// the other.
pub open spec fn inspections(containers: Seq<ContainerView>) -> Seq<EventView> {
    containers.map_values(|container: ContainerView| EventView::ContainerInspected(container))
}

/// An event that answers nothing is ignored: the state stays as it is and
/// its request is made again.
pub proof fn lemma_unanswered_request_stays(state: StateView, event: EventView)
    requires
        !answers(state, event),
    ensures
        transition(state, event) == (state, awaited(state)),
{
}

/// What the machine asks for is what its next state waits on. Only the
/// report of a failure comes on top, when the machine stops or goes back to
/// watching.
pub proof fn lemma_action_is_awaited(state: StateView, event: EventView)
    ensures
        ({
            let (next, action) = transition(state, event);
            ||| action == awaited(next)
            ||| next is Watching && action is AwaitEvent && in_pass(state)
                && action->AwaitEvent_failure == failure_of(event)
            ||| next is Stopped && action is Stop
        }),
{
}

/// A failure during the bootstrap ends the run, and the run ends with that
/// failure.
pub proof fn lemma_bootstrap_failure_stops(state: StateView, event: EventView)
    requires
        phase_of(state) == Some(Phase::Bootstrap),
        answers(state, event),
        failure_of(event) is Some,
    ensures
        transition(state, event) == (
            StateView::Stopped,
            ActionView::Stop { failure: failure_of(event) },
        ),
{
}

/// A network that cannot be chosen ends the run before any pass: with no
/// request, or with one that names none of the runtime's networks.
pub proof fn lemma_wrong_network_stops(
    requested: Option<Seq<char>>,
    listed: Seq<Option<Seq<char>>>,
)
    requires
        requested matches Some(name) ==> !present_names_of(listed).contains(name),
    ensures
        transition(
            StateView::SelectingNetwork { requested },
            EventView::NetworksListed(listed),
        ) == (
            StateView::Stopped,
            ActionView::Stop {
                failure: Some(
                    match requested {
                        None => ErrorView::NetworkNotSelect(present_names_of(listed)),
                        Some(name) => ErrorView::NetworkInvalidChoice {
                            selected_network: name,
                            networks: present_names_of(listed),
                        },
                    },
                ),
            },
        ),
{
}

/// A failure while watching costs the pass it occurs in and no more: it is
/// reported, and the machine waits for the next event on the same network.
pub proof fn lemma_watching_failure_is_reported(state: StateView, event: EventView)
    requires
        phase_of(state) == Some(Phase::Watching),
        answers(state, event),
        failure_of(event) is Some,
    ensures
        transition(state, event) == (
            StateView::Watching { network: network_of(state).unwrap() },
            ActionView::AwaitEvent { failure: failure_of(event) },
        ),
{
}

/// The network is chosen once: no step changes it.
pub proof fn lemma_network_stays(state: StateView, event: EventView)
    requires
        network_of(state) is Some,
        network_of(transition(state, event).0) is Some,
    ensures
        network_of(transition(state, event).0) == network_of(state),
{
}

/// The bootstrap is never gone back to: once a state is watching, so is
/// every state after it, until the machine stops.
pub proof fn lemma_watching_is_kept(state: StateView, event: EventView)
    requires
        phase_of(state) == Some(Phase::Watching),
    ensures
        phase_of(transition(state, event).0) == Some(Phase::Watching) || transition(
            state,
            event,
        ).0 is Stopped,
{
}

/// A stopped machine stays stopped.
pub proof fn lemma_stopped_stays(event: EventView)
    ensures
        transition(StateView::Stopped, event) == (
            StateView::Stopped,
            ActionView::Stop { failure: None },
        ),
{
}

/// A pass begins on one event and on nothing else: when the network has
/// been chosen, and each time a container starts or stops while the machine
/// is waiting. In the middle of a pass no other pass begins.
pub proof fn lemma_pass_begins_on_event(state: StateView, event: EventView)
    requires
        transition(state, event).0 is ListingContainers,
        !(state is ListingContainers),
    ensures
        (state is Watching && event is ContainerChanged) || (state is SelectingNetwork
            && event is NetworksListed),
        transition(state, event).1 == ActionView::ListContainers,
{
}

/// While the machine waits, every start or stop of a container begins a
/// pass, and the end of the event stream ends the run without a failure.
pub proof fn lemma_watching_reacts(network: Seq<char>)
    ensures
        transition(StateView::Watching { network }, EventView::ContainerChanged) == (
            StateView::ListingContainers { network, phase: Phase::Watching },
            ActionView::ListContainers,
        ),
        transition(StateView::Watching { network }, EventView::StreamClosed) == (
            StateView::Stopped,
            ActionView::Stop { failure: None },
        ),
{
}

/// Write access is asked for once, before the hosts file is first written:
/// when the bootstrap has the new text of the file, and at no other time.
/// No text is written during the bootstrap before access is granted.
pub proof fn lemma_access_before_first_write(state: StateView, event: EventView)
    ensures
        transition(state, event).0 is Escalating && !(state is Escalating) ==> state is ReadingFile
            && phase_of(state) == Some(Phase::Bootstrap) && event is FileRead,
        transition(state, event).0 is WritingFile && phase_of(transition(state, event).0) == Some(
            Phase::Bootstrap,
        ) && !(state is WritingFile) ==> state is Escalating && event is Escalated,
{
}

/// Running through two lists of events in a row is running through the one
/// and, from where it ends, through the other.
pub proof fn lemma_run_concat(state: StateView, first: Seq<EventView>, then_on: Seq<EventView>)
    ensures
        run(state, first + then_on) == run(run(state, first), then_on),
    decreases first.len(),
{
    if first.len() > 0 {
        assert((first + then_on).drop_first() =~= first.drop_first() + then_on);
        lemma_run_concat(transition(state, first.first()).0, first.drop_first(), then_on);
    }
}

/// Inspecting the containers of a pass one by one gathers their host
/// records: once each container has been inspected, the machine goes on to
/// read the hosts file, with the records found before and those of the
/// containers, in the containers' order.
pub proof fn lemma_inspections_collect_hosts(
    network: Seq<char>,
    phase: Phase,
    ids: Seq<Seq<char>>,
    hosts: Seq<HostRecord>,
    containers: Seq<ContainerView>,
)
    requires
        containers.len() == ids.len(),
    ensures
        run(inspect_next(network, phase, ids, hosts).0, inspections(containers))
            == (StateView::ReadingFile {
            network,
            phase,
            hosts: hosts + hosts_on(containers, network),
        }),
    decreases containers.len(),
{
    if containers.len() > 0 {
        let found = hosts + hosts_on(seq![containers.first()], network);
        lemma_inspections_collect_hosts(
            network,
            phase,
            ids.drop_first(),
            found,
            containers.drop_first(),
        );
        lemma_hosts_on_concat(seq![containers.first()], containers.drop_first(), network);
        assert(seq![containers.first()] + containers.drop_first() =~= containers);
        assert(found + hosts_on(containers.drop_first(), network) =~= hosts + hosts_on(
            containers,
            network,
        ));
        assert(inspections(containers).drop_first() =~= inspections(containers.drop_first()));
    }
}

/// A pass that meets no failure writes the hosts file rewritten for the
/// containers that it inspected. After a container event, the list of the
/// running containers, the metadata of each and the text of the hosts file,
/// the machine is about to write that text with its managed block replaced
/// by the records of those containers on the chosen network.
pub proof fn lemma_watching_pass_rewrites_file(
    network: Seq<char>,
    listed: Seq<Option<Seq<char>>>,
    containers: Seq<ContainerView>,
    text: Seq<char>,
)
    requires
        containers.len() == present_names_of(listed).len(),
    ensures
        run(
            StateView::Watching { network },
            seq![EventView::ContainerChanged, EventView::ContainersListed(listed)] + inspections(
                containers,
            ) + seq![EventView::FileRead(text)],
        ) == (StateView::WritingFile {
            network,
            phase: Phase::Watching,
            contents: updated_text(text, hosts_on(containers, network)),
        }),
{
    let begin = seq![EventView::ContainerChanged, EventView::ContainersListed(listed)];
    let end = seq![EventView::FileRead(text)];
    let listing = StateView::ListingContainers { network, phase: Phase::Watching };
    let inspecting = inspect_next(
        network,
        Phase::Watching,
        present_names_of(listed),
        Seq::empty(),
    ).0;
    let reading = StateView::ReadingFile {
        network,
        phase: Phase::Watching,
        hosts: hosts_on(containers, network),
    };
    assert(run(StateView::Watching { network }, begin) == inspecting) by {
        assert(run(inspecting, begin.drop_first().drop_first()) == inspecting);
        assert(run(listing, begin.drop_first()) == inspecting);
    }
    assert(run(inspecting, inspections(containers)) == reading) by {
        lemma_inspections_collect_hosts(
            network,
            Phase::Watching,
            present_names_of(listed),
            Seq::empty(),
            containers,
        );
    }
    assert(run(reading, end) == transition(reading, EventView::FileRead(text)).0) by {
        assert(run(transition(reading, end.first()).0, end.drop_first()) == transition(
            reading,
            end.first(),
        ).0);
    }
    lemma_run_concat(StateView::Watching { network }, begin, inspections(containers));
    lemma_run_concat(StateView::Watching { network }, begin + inspections(containers), end);
}

/// The bootstrap that meets no failure ends with the machine watching. With
/// a request for one of the runtime's networks, the first pass rewrites the
/// hosts file for the containers on that network, asks for write access
/// before it writes, and once the file is written the machine waits for
/// events.
pub proof fn lemma_bootstrap_pass_rewrites_file(
    network: Seq<char>,
    networks: Seq<Option<Seq<char>>>,
    listed: Seq<Option<Seq<char>>>,
    containers: Seq<ContainerView>,
    text: Seq<char>,
)
    requires
        present_names_of(networks).contains(network),
        containers.len() == present_names_of(listed).len(),
    ensures
        run(
            StateView::SelectingNetwork { requested: Some(network) },
            seq![EventView::NetworksListed(networks), EventView::ContainersListed(listed)]
                + inspections(containers) + seq![EventView::FileRead(text)],
        ) == (StateView::Escalating {
            network,
            contents: updated_text(text, hosts_on(containers, network)),
        }),
        run(
            StateView::Escalating {
                network,
                contents: updated_text(text, hosts_on(containers, network)),
            },
            seq![EventView::Escalated],
        ) == (StateView::WritingFile {
            network,
            phase: Phase::Bootstrap,
            contents: updated_text(text, hosts_on(containers, network)),
        }),
        run(
            StateView::WritingFile {
                network,
                phase: Phase::Bootstrap,
                contents: updated_text(text, hosts_on(containers, network)),
            },
            seq![EventView::FileWritten],
        ) == (StateView::Watching { network }),
{
    let selecting = StateView::SelectingNetwork { requested: Some(network) };
    let begin = seq![EventView::NetworksListed(networks), EventView::ContainersListed(listed)];
    let end = seq![EventView::FileRead(text)];
    let listing = StateView::ListingContainers { network, phase: Phase::Bootstrap };
    let inspecting = inspect_next(
        network,
        Phase::Bootstrap,
        present_names_of(listed),
        Seq::empty(),
    ).0;
    let contents = updated_text(text, hosts_on(containers, network));
    let reading = StateView::ReadingFile {
        network,
        phase: Phase::Bootstrap,
        hosts: hosts_on(containers, network),
    };
    let escalating = StateView::Escalating { network, contents };
    let writing = StateView::WritingFile { network, phase: Phase::Bootstrap, contents };
    assert(run(selecting, begin) == inspecting) by {
        assert(run(inspecting, begin.drop_first().drop_first()) == inspecting);
        assert(run(listing, begin.drop_first()) == inspecting);
    }
    assert(run(inspecting, inspections(containers)) == reading) by {
        lemma_inspections_collect_hosts(
            network,
            Phase::Bootstrap,
            present_names_of(listed),
            Seq::empty(),
            containers,
        );
    }
    assert(run(reading, end) == escalating) by {
        assert(run(escalating, end.drop_first()) == escalating);
    }
    lemma_run_concat(selecting, begin, inspections(containers));
    lemma_run_concat(selecting, begin + inspections(containers), end);
    assert(run(escalating, seq![EventView::Escalated]) == writing) by {
        let events = seq![EventView::Escalated];
        assert(run(writing, events.drop_first()) == writing);
    }
    assert(run(writing, seq![EventView::FileWritten]) == (StateView::Watching { network })) by {
        let events = seq![EventView::FileWritten];
        assert(run(StateView::Watching { network }, events.drop_first()) == (
            StateView::Watching { network }
        ));
    }
}

} // verus!
