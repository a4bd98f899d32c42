use docker_hosts::docker_host::DockerHost;
use docker_hosts::error::Error;
use docker_hosts::inventory::ContainerMetadata;
use docker_hosts::sync_loop::{
    event_filters, select_network, start, step, Phase, SyncAction, SyncEvent, SyncState,
};

fn some(text: &str) -> Option<String> {
    Some(text.to_string())
}

fn names(list: &[&str]) -> Vec<String> {
    list.iter().map(|n| n.to_string()).collect()
}

fn listed(list: &[&str]) -> Vec<Option<String>> {
    list.iter().map(|n| Some(n.to_string())).collect()
}

fn container(hostname: Option<&str>, network: &str, ip_address: Option<&str>) -> ContainerMetadata {
    let mut metadata = ContainerMetadata::new(hostname.map(|h| h.to_string()));
    metadata.attach(network.to_string(), ip_address.map(|ip| ip.to_string()));
    metadata
}

fn host(hostname: &str, ip_address: &str) -> DockerHost {
    DockerHost {
        hostname: hostname.into(),
        ip_address: ip_address.into(),
    }
}

fn watching() -> SyncState {
    SyncState::Watching {
        network: "bridge".to_string(),
    }
}

fn listing(phase: Phase) -> SyncState {
    SyncState::ListingContainers {
        network: "bridge".to_string(),
        phase,
    }
}

fn wait() -> SyncAction {
    SyncAction::AwaitEvent { failure: None }
}

#[test]
fn select_network_without_request_lists_the_choices() {
    assert_eq!(
        select_network(None, names(&["bridge", "host"])),
        Err(Error::NetworkNotSelect(names(&["bridge", "host"])))
    );
    assert_eq!(
        select_network(None, vec![]),
        Err(Error::NetworkNotSelect(vec![]))
    );
}

#[test]
fn select_network_refuses_an_unknown_name() {
    assert_eq!(
        select_network(some("backend"), names(&["bridge", "host"])),
        Err(Error::NetworkInvalidChoice {
            selected_network: "backend".to_string(),
            networks: names(&["bridge", "host"]),
        })
    );
    assert_eq!(
        select_network(some("bridge"), vec![]),
        Err(Error::NetworkInvalidChoice {
            selected_network: "bridge".to_string(),
            networks: vec![],
        })
    );
    assert_eq!(
        select_network(some("Bridge"), names(&["bridge"])),
        Err(Error::NetworkInvalidChoice {
            selected_network: "Bridge".to_string(),
            networks: names(&["bridge"]),
        })
    );
}

#[test]
fn select_network_grants_a_known_name() {
    assert_eq!(
        select_network(some("host"), names(&["bridge", "host"])),
        Ok("host".to_string())
    );
    assert_eq!(
        select_network(some("bridge"), names(&["bridge"])),
        Ok("bridge".to_string())
    );
}

#[test]
fn event_filters_ask_for_container_starts_and_stops() {
    assert_eq!(
        event_filters(),
        vec![
            ("event".to_string(), names(&["start", "stop"])),
            ("type".to_string(), names(&["container"])),
        ]
    );
}

#[test]
fn start_asks_for_the_networks() {
    let (state, action) = start(some("bridge"));
    assert_eq!(
        state,
        SyncState::SelectingNetwork {
            requested: some("bridge")
        }
    );
    assert_eq!(action, SyncAction::ListNetworks);
    let (state, action) = start(None);
    assert_eq!(state, SyncState::SelectingNetwork { requested: None });
    assert_eq!(action, SyncAction::ListNetworks);
}

#[test]
fn bootstrap_without_request_stops() {
    let (state, _) = start(None);
    let (state, action) = step(
        state,
        SyncEvent::NetworksListed(vec![some("bridge"), None, some("host")]),
    );
    assert_eq!(state, SyncState::Stopped);
    assert_eq!(
        action,
        SyncAction::Stop {
            failure: Some(Error::NetworkNotSelect(names(&["bridge", "host"])))
        }
    );
}

#[test]
fn bootstrap_with_unknown_network_stops() {
    let (state, _) = start(some("backend"));
    let (state, action) = step(state, SyncEvent::NetworksListed(listed(&["bridge", "host"])));
    assert_eq!(state, SyncState::Stopped);
    assert_eq!(
        action,
        SyncAction::Stop {
            failure: Some(Error::NetworkInvalidChoice {
                selected_network: "backend".to_string(),
                networks: names(&["bridge", "host"]),
            })
        }
    );
}

#[test]
fn bootstrap_stops_when_networks_cannot_be_listed() {
    let (state, _) = start(some("bridge"));
    let (state, action) = step(state, SyncEvent::QueryFailed("no socket".to_string()));
    assert_eq!(state, SyncState::Stopped);
    assert_eq!(
        action,
        SyncAction::Stop {
            failure: Some(Error::Docker("no socket".to_string()))
        }
    );
}

#[test]
fn bootstrap_runs_one_pass_and_then_watches() {
    let (state, action) = start(some("bridge"));
    assert_eq!(action, SyncAction::ListNetworks);

    let (state, action) = step(state, SyncEvent::NetworksListed(listed(&["bridge", "host"])));
    assert_eq!(state, listing(Phase::Bootstrap));
    assert_eq!(action, SyncAction::ListContainers);

    let (state, action) = step(
        state,
        SyncEvent::ContainersListed(vec![some("c1"), None, some("c2"), some("c3")]),
    );
    assert_eq!(
        state,
        SyncState::InspectingContainer {
            network: "bridge".to_string(),
            phase: Phase::Bootstrap,
            current: "c1".to_string(),
            waiting: names(&["c2", "c3"]),
            hosts: vec![],
        }
    );
    assert_eq!(action, SyncAction::InspectContainer("c1".to_string()));

    let (state, action) = step(
        state,
        SyncEvent::ContainerInspected(container(Some("host1"), "bridge", Some("1.2.3.4"))),
    );
    assert_eq!(action, SyncAction::InspectContainer("c2".to_string()));

    let (state, action) = step(
        state,
        SyncEvent::ContainerInspected(container(Some("other"), "backend", Some("9.9.9.9"))),
    );
    assert_eq!(
        state,
        SyncState::InspectingContainer {
            network: "bridge".to_string(),
            phase: Phase::Bootstrap,
            current: "c3".to_string(),
            waiting: vec![],
            hosts: vec![host("host1", "1.2.3.4")],
        }
    );
    assert_eq!(action, SyncAction::InspectContainer("c3".to_string()));

    let (state, action) = step(
        state,
        SyncEvent::ContainerInspected(container(Some("host2"), "bridge", Some("1.2.3.4"))),
    );
    assert_eq!(
        state,
        SyncState::ReadingFile {
            network: "bridge".to_string(),
            phase: Phase::Bootstrap,
            hosts: vec![host("host1", "1.2.3.4"), host("host2", "1.2.3.4")],
        }
    );
    assert_eq!(action, SyncAction::ReadFile);

    let contents =
        "a\nb\nc\n# BEGIN DOCKER HOSTS\n1.2.3.4         host1\n1.2.3.4         host2\n# END DOCKER HOSTS";
    let (state, action) = step(state, SyncEvent::FileRead("a\nb\nc".to_string()));
    assert_eq!(
        state,
        SyncState::Escalating {
            network: "bridge".to_string(),
            contents: contents.to_string(),
        }
    );
    assert_eq!(action, SyncAction::Escalate);

    let (state, action) = step(state, SyncEvent::Escalated);
    assert_eq!(
        state,
        SyncState::WritingFile {
            network: "bridge".to_string(),
            phase: Phase::Bootstrap,
            contents: contents.to_string(),
        }
    );
    assert_eq!(action, SyncAction::WriteFile(contents.to_string()));

    let (state, action) = step(state, SyncEvent::FileWritten);
    assert_eq!(state, watching());
    assert_eq!(action, wait());
}

#[test]
fn pass_without_containers_reads_the_file_at_once() {
    let (state, action) = step(listing(Phase::Watching), SyncEvent::ContainersListed(vec![]));
    assert_eq!(
        state,
        SyncState::ReadingFile {
            network: "bridge".to_string(),
            phase: Phase::Watching,
            hosts: vec![],
        }
    );
    assert_eq!(action, SyncAction::ReadFile);
    let (state, action) = step(listing(Phase::Watching), SyncEvent::ContainersListed(vec![None]));
    assert!(matches!(state, SyncState::ReadingFile { .. }));
    assert_eq!(action, SyncAction::ReadFile);
}

#[test]
fn watching_pass_writes_without_asking_for_access() {
    let (state, action) = step(watching(), SyncEvent::ContainerChanged);
    assert_eq!(state, listing(Phase::Watching));
    assert_eq!(action, SyncAction::ListContainers);

    let (state, action) = step(state, SyncEvent::ContainersListed(listed(&["c1"])));
    assert_eq!(action, SyncAction::InspectContainer("c1".to_string()));

    let (state, action) = step(
        state,
        SyncEvent::ContainerInspected(container(Some("host3"), "bridge", Some("3.3.3.3"))),
    );
    assert_eq!(action, SyncAction::ReadFile);

    let text = "a\n# BEGIN DOCKER HOSTS\n1.1.1.1         host1\n# END DOCKER HOSTS\nd";
    let contents = "a\nd\n# BEGIN DOCKER HOSTS\n3.3.3.3         host3\n# END DOCKER HOSTS";
    let (state, action) = step(state, SyncEvent::FileRead(text.to_string()));
    assert_eq!(
        state,
        SyncState::WritingFile {
            network: "bridge".to_string(),
            phase: Phase::Watching,
            contents: contents.to_string(),
        }
    );
    assert_eq!(action, SyncAction::WriteFile(contents.to_string()));

    let (state, action) = step(state, SyncEvent::FileWritten);
    assert_eq!(state, watching());
    assert_eq!(action, wait());
}

#[test]
fn watching_ends_when_the_stream_closes() {
    let (state, action) = step(watching(), SyncEvent::StreamClosed);
    assert_eq!(state, SyncState::Stopped);
    assert_eq!(action, SyncAction::Stop { failure: None });
}

#[test]
fn bootstrap_failures_stop_the_run() {
    let (state, action) = step(
        listing(Phase::Bootstrap),
        SyncEvent::QueryFailed("list".to_string()),
    );
    assert_eq!(state, SyncState::Stopped);
    assert_eq!(
        action,
        SyncAction::Stop {
            failure: Some(Error::Docker("list".to_string()))
        }
    );

    let inspecting = SyncState::InspectingContainer {
        network: "bridge".to_string(),
        phase: Phase::Bootstrap,
        current: "c2".to_string(),
        waiting: names(&["c3"]),
        hosts: vec![host("host1", "1.2.3.4")],
    };
    let (state, action) = step(inspecting, SyncEvent::QueryFailed("gone".to_string()));
    assert_eq!(state, SyncState::Stopped);
    assert_eq!(
        action,
        SyncAction::Stop {
            failure: Some(Error::Docker("gone".to_string()))
        }
    );

    let reading = SyncState::ReadingFile {
        network: "bridge".to_string(),
        phase: Phase::Bootstrap,
        hosts: vec![],
    };
    let (state, action) = step(reading, SyncEvent::ReadFailed("missing".to_string()));
    assert_eq!(state, SyncState::Stopped);
    assert_eq!(
        action,
        SyncAction::Stop {
            failure: Some(Error::ReadFile("missing".to_string()))
        }
    );

    let escalating = SyncState::Escalating {
        network: "bridge".to_string(),
        contents: "x".to_string(),
    };
    let (state, action) = step(escalating, SyncEvent::EscalationFailed("no sudo".to_string()));
    assert_eq!(state, SyncState::Stopped);
    assert_eq!(
        action,
        SyncAction::Stop {
            failure: Some(Error::Sudo("no sudo".to_string()))
        }
    );

    let writing = SyncState::WritingFile {
        network: "bridge".to_string(),
        phase: Phase::Bootstrap,
        contents: "x".to_string(),
    };
    let (state, action) = step(writing, SyncEvent::WriteFailed("read-only".to_string()));
    assert_eq!(state, SyncState::Stopped);
    assert_eq!(
        action,
        SyncAction::Stop {
            failure: Some(Error::WriteFile("read-only".to_string()))
        }
    );
}

#[test]
fn watching_failures_are_reported_and_the_run_goes_on() {
    let (state, action) = step(
        listing(Phase::Watching),
        SyncEvent::QueryFailed("list".to_string()),
    );
    assert_eq!(state, watching());
    assert_eq!(
        action,
        SyncAction::AwaitEvent {
            failure: Some(Error::Docker("list".to_string()))
        }
    );

    let inspecting = SyncState::InspectingContainer {
        network: "bridge".to_string(),
        phase: Phase::Watching,
        current: "c2".to_string(),
        waiting: names(&["c3"]),
        hosts: vec![host("host1", "1.2.3.4")],
    };
    let (state, action) = step(inspecting, SyncEvent::QueryFailed("gone".to_string()));
    assert_eq!(state, watching());
    assert_eq!(
        action,
        SyncAction::AwaitEvent {
            failure: Some(Error::Docker("gone".to_string()))
        }
    );

    let reading = SyncState::ReadingFile {
        network: "bridge".to_string(),
        phase: Phase::Watching,
        hosts: vec![],
    };
    let (state, action) = step(reading, SyncEvent::ReadFailed("missing".to_string()));
    assert_eq!(state, watching());
    assert_eq!(
        action,
        SyncAction::AwaitEvent {
            failure: Some(Error::ReadFile("missing".to_string()))
        }
    );

    let writing = SyncState::WritingFile {
        network: "bridge".to_string(),
        phase: Phase::Watching,
        contents: "x".to_string(),
    };
    let (state, action) = step(writing, SyncEvent::WriteFailed("read-only".to_string()));
    assert_eq!(state, watching());
    assert_eq!(
        action,
        SyncAction::AwaitEvent {
            failure: Some(Error::WriteFile("read-only".to_string()))
        }
    );

    let (state, action) = step(state, SyncEvent::ContainerChanged);
    assert_eq!(state, listing(Phase::Watching));
    assert_eq!(action, SyncAction::ListContainers);
}

#[test]
fn events_that_answer_nothing_repeat_the_request() {
    let (state, action) = step(watching(), SyncEvent::FileWritten);
    assert_eq!(state, watching());
    assert_eq!(action, wait());

    let (state, action) = step(listing(Phase::Watching), SyncEvent::ContainerChanged);
    assert_eq!(state, listing(Phase::Watching));
    assert_eq!(action, SyncAction::ListContainers);

    let inspecting = SyncState::InspectingContainer {
        network: "bridge".to_string(),
        phase: Phase::Watching,
        current: "c2".to_string(),
        waiting: names(&["c3"]),
        hosts: vec![host("host1", "1.2.3.4")],
    };
    let (state, action) = step(inspecting.clone(), SyncEvent::FileRead("x".to_string()));
    assert_eq!(state, inspecting);
    assert_eq!(action, SyncAction::InspectContainer("c2".to_string()));

    let writing = SyncState::WritingFile {
        network: "bridge".to_string(),
        phase: Phase::Watching,
        contents: "x".to_string(),
    };
    let (state, action) = step(writing.clone(), SyncEvent::ReadFailed("late".to_string()));
    assert_eq!(state, writing);
    assert_eq!(action, SyncAction::WriteFile("x".to_string()));

    let (state, action) = start(some("bridge"));
    assert_eq!(action, SyncAction::ListNetworks);
    let (state, action) = step(state, SyncEvent::ContainersListed(vec![]));
    assert_eq!(
        state,
        SyncState::SelectingNetwork {
            requested: some("bridge")
        }
    );
    assert_eq!(action, SyncAction::ListNetworks);
}

#[test]
fn stopped_machine_stays_stopped() {
    for event in [
        SyncEvent::ContainerChanged,
        SyncEvent::StreamClosed,
        SyncEvent::FileWritten,
        SyncEvent::QueryFailed("x".to_string()),
        SyncEvent::NetworksListed(vec![]),
    ] {
        let (state, action) = step(SyncState::Stopped, event);
        assert_eq!(state, SyncState::Stopped);
        assert_eq!(action, SyncAction::Stop { failure: None });
    }
}

#[test]
fn pending_action_is_the_request_of_the_state() {
    assert_eq!(
        SyncState::SelectingNetwork { requested: None }.pending_action(),
        SyncAction::ListNetworks
    );
    assert_eq!(
        listing(Phase::Bootstrap).pending_action(),
        SyncAction::ListContainers
    );
    assert_eq!(
        SyncState::InspectingContainer {
            network: "bridge".to_string(),
            phase: Phase::Watching,
            current: "c1".to_string(),
            waiting: vec![],
            hosts: vec![],
        }
        .pending_action(),
        SyncAction::InspectContainer("c1".to_string())
    );
    assert_eq!(
        SyncState::ReadingFile {
            network: "bridge".to_string(),
            phase: Phase::Watching,
            hosts: vec![],
        }
        .pending_action(),
        SyncAction::ReadFile
    );
    assert_eq!(
        SyncState::Escalating {
            network: "bridge".to_string(),
            contents: "x".to_string(),
        }
        .pending_action(),
        SyncAction::Escalate
    );
    assert_eq!(
        SyncState::WritingFile {
            network: "bridge".to_string(),
            phase: Phase::Watching,
            contents: "x".to_string(),
        }
        .pending_action(),
        SyncAction::WriteFile("x".to_string())
    );
    assert_eq!(watching().pending_action(), wait());
    assert_eq!(
        SyncState::Stopped.pending_action(),
        SyncAction::Stop { failure: None }
    );
}
