//! What the container runtime reports of its containers, and the host
//! records that follow from it for one network.

use vstd::prelude::*;
use vstd::string::*;
use crate::docker_host::{DockerHost, HostRecord, construct};

verus! {

/// A container's attachment to one network.
#[derive(Debug, Clone, PartialEq, Eq)]
pub struct NetworkEndpoint {
    /// The name of the network.
    pub network: String,
    /// The container's address on that network, once it has one.
    pub ip_address: Option<String>,
}

/// What an inspection tells of one container: its configured hostname, and
/// its attachments to networks.
///
/// The attachments are looked up by network name, as in a map. An endpoint
/// further back in `endpoints` replaces an earlier one for the same network.
#[derive(Debug, Clone, PartialEq, Eq)]
pub struct ContainerMetadata {
    pub hostname: Option<String>,
    pub endpoints: Vec<NetworkEndpoint>,
}

/// What a [`NetworkEndpoint`] stands for.
pub struct EndpointView {
    pub network: Seq<char>,
    pub ip_address: Option<Seq<char>>,
}

/// What a [`ContainerMetadata`] stands for: the hostname, and for each
/// network that the container is attached to, its address there if any.
pub struct ContainerView {
    pub hostname: Option<Seq<char>>,
    pub addresses: Map<Seq<char>, Option<Seq<char>>>,
}

/// The map that a list of endpoints makes, later entries replacing earlier
/// ones for the same network.
pub open spec fn addresses_of(endpoints: Seq<EndpointView>) -> Map<Seq<char>, Option<Seq<char>>>
    decreases endpoints.len(),
{
    if endpoints.len() == 0 {
        Map::empty()
    } else {
        addresses_of(endpoints.drop_last()).insert(
            endpoints.last().network,
            endpoints.last().ip_address,
        )
    }
}

impl ContainerView {
    /// The container's address on `network`: none where the container is not
    /// attached to it, or is attached without an address.
    pub open spec fn ip_on(self, network: Seq<char>) -> Option<Seq<char>> {
        if self.addresses.dom().contains(network) {
            self.addresses[network]
        } else {
            None
        }
    }

    /// The host record of the container on `network`, if it has a hostname
    /// and a non-empty address there.
    pub open spec fn host_on(self, network: Seq<char>) -> Option<HostRecord> {
        construct(self.hostname, self.ip_on(network))
    }
}

/// Maps a container to its host record on `network`.
pub open spec fn host_on_network(network: Seq<char>) -> spec_fn(ContainerView) -> Option<
    HostRecord,
> {
    |container: ContainerView| container.host_on(network)
}

/// The host records of `containers` on `network`, in the order of the
/// containers. A container without a record is left out; the others stay.
pub open spec fn hosts_on(containers: Seq<ContainerView>, network: Seq<char>) -> Seq<HostRecord> {
    containers.filter_map(host_on_network(network))
}

/// Keeps a name that is there.
pub open spec fn present_name() -> spec_fn(Option<Seq<char>>) -> Option<Seq<char>> {
    |name: Option<Seq<char>>| name
}

/// The names that are present in `listed`, in their order.
pub open spec fn present_names_of(listed: Seq<Option<Seq<char>>>) -> Seq<Seq<char>> {
    listed.filter_map(present_name())
}

impl View for NetworkEndpoint {
    type V = EndpointView;

    open spec fn view(&self) -> EndpointView {
        EndpointView { network: self.network@, ip_address: self.ip_address.deep_view() }
    }
}

impl DeepView for NetworkEndpoint {
    type V = EndpointView;

    open spec fn deep_view(&self) -> EndpointView {
        self@
    }
}

impl View for ContainerMetadata {
    type V = ContainerView;

    open spec fn view(&self) -> ContainerView {
        ContainerView {
            hostname: self.hostname.deep_view(),
            addresses: addresses_of(self.endpoints.deep_view()),
        }
    }
}

impl DeepView for ContainerMetadata {
    type V = ContainerView;

    open spec fn deep_view(&self) -> ContainerView {
        self@
    }
}

/// The endpoint for `network` that no later endpoint replaces gives the
/// address on that network.
pub proof fn lemma_address_found(endpoints: Seq<EndpointView>, network: Seq<char>, at: int)
    requires
        0 <= at < endpoints.len(),
        endpoints[at].network == network,
        forall|j: int| at < j < endpoints.len() ==> endpoints[j].network != network,
    ensures
        addresses_of(endpoints).dom().contains(network),
        addresses_of(endpoints)[network] == endpoints[at].ip_address,
    decreases endpoints.len(),
{
    if at < endpoints.len() - 1 {
        lemma_address_found(endpoints.drop_last(), network, at);
    }
}

/// A network that no endpoint names is not in the map.
pub proof fn lemma_address_missing(endpoints: Seq<EndpointView>, network: Seq<char>)
    requires
        forall|j: int| 0 <= j < endpoints.len() ==> endpoints[j].network != network,
    ensures
        !addresses_of(endpoints).dom().contains(network),
    decreases endpoints.len(),
{
    if endpoints.len() > 0 {
        lemma_address_missing(endpoints.drop_last(), network);
    }
}

/// A copy of a string that may be missing.
fn copy_optional(value: &Option<String>) -> (copy: Option<String>)
    ensures
        copy.deep_view() == value.deep_view(),
{
    match value {
        Some(text) => Some(text.clone()),
        None => None,
    }
}

impl ContainerMetadata {
    /// A container with the given hostname and no attachment yet.
    pub fn new(hostname: Option<String>) -> (container: Self)
        ensures
            container@.hostname == hostname.deep_view(),
            container@.addresses == Map::<Seq<char>, Option<Seq<char>>>::empty(),
    {
        Self { hostname, endpoints: Vec::new() }
    }

    /// Attaches the container to `network` with the given address, in place
    /// of what was recorded for that network before.
    pub fn attach(&mut self, network: String, ip_address: Option<String>)
        ensures
            final(self)@.hostname == old(self)@.hostname,
            final(self)@.addresses == old(self)@.addresses.insert(
                network@,
                ip_address.deep_view(),
            ),
    {
        let ghost before = self.endpoints.deep_view();
        self.endpoints.push(NetworkEndpoint { network, ip_address });
        proof {
            let after = self.endpoints.deep_view();
            assert(after.drop_last() =~= before);
        }
    }
}

/// The hostname that the container is configured with.
pub fn extract_hostname(container: &ContainerMetadata) -> (hostname: Option<String>)
    ensures
        hostname.deep_view() == container@.hostname,
{
    copy_optional(&container.hostname)
}

/// The container's address on the network of the given name.
pub fn extract_ip(container: &ContainerMetadata, network_name: &str) -> (ip_address: Option<
    String,
>)
    ensures
        ip_address.deep_view() == container@.ip_on(network_name@),
{
    let wanted = String::from_str(network_name);
    let mut at: usize = container.endpoints.len();
    while at > 0
        invariant
            at <= container.endpoints@.len(),
            wanted@ == network_name@,
            forall|j: int|
                at <= j < container.endpoints@.len() ==> container.endpoints.deep_view()[j].network
                    != network_name@,
        decreases at,
    {
        at = at - 1;
        if container.endpoints[at].network == wanted {
            proof {
                lemma_address_found(container.endpoints.deep_view(), network_name@, at as int);
            }
            return copy_optional(&container.endpoints[at].ip_address);
        }
    }
    proof {
        lemma_address_missing(container.endpoints.deep_view(), network_name@);
    }
    None
}

/// The host record of one container on the network of the given name.
pub fn container_host(container: &ContainerMetadata, network_name: &str) -> (host: Option<
    DockerHost,
>)
    ensures
        host.deep_view() == container@.host_on(network_name@),
        host matches Some(h) ==> h.well_formed(),
{
    let hostname = extract_hostname(container);
    let ip_address = extract_ip(container, network_name);
    DockerHost::new(hostname, ip_address)
}

/// The host records of the containers on the network of the given name.
///
/// A container that lacks a hostname, or a non-empty address on that
/// network, gives no record; the others give theirs, in the containers'
/// order.
pub fn collect_hosts(containers: &[ContainerMetadata], network_name: &str) -> (hosts: Vec<
    DockerHost,
>)
    ensures
        hosts.deep_view() == hosts_on(containers.deep_view(), network_name@),
        forall|i: int| 0 <= i < hosts@.len() ==> hosts@[i].well_formed(),
{
    let mut hosts: Vec<DockerHost> = Vec::new();
    let mut at: usize = 0;
    while at < containers.len()
        invariant
            at <= containers@.len(),
            hosts.deep_view() == hosts_on(containers.deep_view().take(at as int), network_name@),
            forall|i: int| 0 <= i < hosts@.len() ==> hosts@[i].well_formed(),
        decreases containers@.len() - at,
    {
        proof {
            containers.deep_view().lemma_filter_map_take_succ(
                host_on_network(network_name@),
                at as int,
            );
        }
        if let Some(host) = container_host(&containers[at], network_name) {
            hosts.push(host);
        }
        at = at + 1;
    }
    assert(containers.deep_view().take(at as int) =~= containers.deep_view());
    hosts
}

/// The names that are present among those listed, in their order.
pub fn present_names(listed: Vec<Option<String>>) -> (names: Vec<String>)
    ensures
        names.deep_view() == present_names_of(listed.deep_view()),
{
    let ghost all = listed.deep_view();
    let mut names: Vec<String> = Vec::new();
    for entry in entries: listed
        invariant
            entries.seq() == listed@,
            all == listed.deep_view(),
            names.deep_view() == present_names_of(all.take(entries.index())),
    {
        proof {
            all.lemma_filter_map_take_succ(present_name(), entries.index());
        }
        if let Some(name) = entry {
            names.push(name);
        }
    }
    assert(all.take(all.len() as int) =~= all);
    names
}

/// A record is among the hosts of a network exactly when one of the
/// containers gives it: no record is made up, and none that a container
/// gives is lost to the containers around it.
pub proof fn lemma_hosts_on_contains(
    containers: Seq<ContainerView>,
    network: Seq<char>,
    record: HostRecord,
)
    ensures
        hosts_on(containers, network).contains(record) <==> exists|i: int|
            0 <= i < containers.len() && (#[trigger] containers[i]).host_on(network) == Some(
                record,
            ),
    decreases containers.len(),
{
    if containers.len() > 0 {
        let rest = containers.drop_last();
        let found = hosts_on(rest, network);
        let whole = hosts_on(containers, network);
        lemma_hosts_on_contains(rest, network, record);
        if whole.contains(record) {
            let at = choose|at: int| 0 <= at < whole.len() && whole[at] == record;
            if at < found.len() {
                assert(found[at] == record);
                let i = choose|i: int|
                    0 <= i < rest.len() && (#[trigger] rest[i]).host_on(network) == Some(record);
                assert(containers[i] == rest[i]);
            } else {
                assert(containers[containers.len() - 1].host_on(network) == Some(record));
            }
        }
        if exists|i: int|
            0 <= i < containers.len() && (#[trigger] containers[i]).host_on(network) == Some(
                record,
            ) {
            let i = choose|i: int|
                0 <= i < containers.len() && (#[trigger] containers[i]).host_on(network) == Some(
                    record,
                );
            if i < rest.len() {
                assert(rest[i] == containers[i]);
                let at = choose|at: int| 0 <= at < found.len() && found[at] == record;
                assert(whole[at] == record);
            } else {
                assert(whole[whole.len() - 1] == record);
            }
        }
    }
}

/// Leaving a container out leaves the records of the others as they are:
/// the hosts of a list are those of its front, then those of its back.
pub proof fn lemma_hosts_on_concat(
    front: Seq<ContainerView>,
    back: Seq<ContainerView>,
    network: Seq<char>,
)
    ensures
        hosts_on(front + back, network) == hosts_on(front, network) + hosts_on(back, network),
    decreases back.len(),
{
    if back.len() > 0 {
        lemma_hosts_on_concat(front, back.drop_last(), network);
        assert((front + back).drop_last() =~= front + back.drop_last());
    }
}

} // verus!
