//! The data that describes a network, an attachment request and its result.

use vstd::prelude::*;
use crate::address::{IpAddress, IpNetwork};

verus! {

/// An address range of a network, with the gateway that serves it.
#[derive(Clone, Copy, Debug, PartialEq, Eq)]
pub struct Subnet {
    pub subnet: IpNetwork,
    pub gateway: Option<IpAddress>,
}

/// A bridge-backed network: the host bridge and the subnets it carries, in the
/// order in which static addresses are matched to them.
#[derive(Clone, Debug, PartialEq, Eq)]
pub struct Network {
    pub network_interface: String,
    pub subnets: Vec<Subnet>,
}

impl Network {
    /// Every subnet is a valid CIDR range.
    pub open spec fn wf(self) -> bool {
        forall|i: int| 0 <= i < self.subnets@.len() ==> (#[trigger] self.subnets@[i]).subnet.wf()
    }

    /// Tells whether every subnet is a valid CIDR range.
    pub fn is_valid(&self) -> (r: bool)
        ensures
            r == self.wf(),
    {
        let mut i: usize = 0;
        while i < self.subnets.len()
            invariant
                i <= self.subnets@.len(),
                forall|k: int| 0 <= k < i ==> (#[trigger] self.subnets@[k]).subnet.wf(),
            decreases self.subnets@.len() - i,
        {
            if !self.subnets[i].subnet.is_valid() {
                return false;
            }
            i = i + 1;
        }
        true
    }
}

/// The parameters of one attachment to one network: the name of the interface
/// to create in the container, and one static address per subnet of the
/// network, in subnet order.
#[derive(Clone, Debug, PartialEq, Eq)]
pub struct PerNetworkOptions {
    pub interface_name: String,
    pub static_ips: Vec<IpAddress>,
}

/// The attachments of one container, by network name, with the description of
/// each network. Both lists are keyed by the name in the first place of each
/// entry; a lookup takes the first entry of that name.
#[derive(Clone, Debug, PartialEq, Eq)]
pub struct NetworkOptions {
    pub networks: Vec<(String, PerNetworkOptions)>,
    pub network_info: Vec<(String, Network)>,
}

/// The position of the first entry named `name` at or after `from`.
pub open spec fn spec_find<T>(entries: Seq<(String, T)>, name: Seq<char>, from: int) -> Option<int>
    decreases entries.len() - from,
{
    if from < 0 || from >= entries.len() {
        None
    } else if entries[from].0@ == name {
        Some(from)
    } else {
        spec_find(entries, name, from + 1)
    }
}

/// No two entries bear the same name.
pub open spec fn names_distinct<T>(entries: Seq<(String, T)>) -> bool {
    forall|i: int, j: int|
        0 <= i < j < entries.len() ==> (#[trigger] entries[i]).0@ != (#[trigger] entries[j]).0@
}

/// The list after `value` was filed under `name`: in the place of the entry of
/// that name where there is one, at the end where there is none.
pub open spec fn spec_put<T>(entries: Seq<(String, T)>, name: String, value: T) -> Seq<
    (String, T),
> {
    match spec_find(entries, name@, 0) {
        Some(i) => entries.update(i, (name, value)),
        None => entries.push((name, value)),
    }
}

/// What `spec_find` finds is the first entry of the name from `from` on, and
/// it finds nothing only where no entry from `from` on bears the name.
pub proof fn lemma_find<T>(entries: Seq<(String, T)>, name: Seq<char>, from: int)
    requires
        0 <= from,
    ensures
        match spec_find(entries, name, from) {
            Some(i) => from <= i < entries.len() && entries[i].0@ == name && forall|j: int|
                from <= j < i ==> (#[trigger] entries[j]).0@ != name,
            None => forall|j: int| from <= j < entries.len() ==> (#[trigger] entries[j]).0@ != name,
        },
    decreases entries.len() - from,
{
    if from < entries.len() && entries[from].0@ != name {
        lemma_find(entries, name, from + 1);
    }
}

/// Looks up the entry filed under `name`.
pub fn find_entry<T>(entries: &Vec<(String, T)>, name: &String) -> (r: Option<usize>)
    ensures
        match r {
            Some(i) => spec_find(entries@, name@, 0) == Some(i as int) && i < entries@.len(),
            None => spec_find(entries@, name@, 0) is None,
        },
{
    let mut i: usize = 0;
    while i < entries.len()
        invariant
            i <= entries@.len(),
            spec_find(entries@, name@, 0) == spec_find(entries@, name@, i as int),
        decreases entries@.len() - i,
    {
        if entries[i].0 == *name {
            return Some(i);
        }
        i = i + 1;
    }
    None
}

/// Files `value` under `name`, in the place of an entry of that name if there
/// is one.
pub fn put_entry<T>(entries: &mut Vec<(String, T)>, name: String, value: T)
    requires
        names_distinct(old(entries)@),
    ensures
        final(entries)@ == spec_put(old(entries)@, name, value),
        names_distinct(final(entries)@),
        spec_find(final(entries)@, name@, 0) is Some,
        final(entries)@[spec_find(final(entries)@, name@, 0)->Some_0].1 == value,
{
    proof {
        lemma_find(entries@, name@, 0);
    }
    let ghost at: int = match spec_find(entries@, name@, 0) {
        Some(i) => i,
        None => entries@.len() as int,
    };
    match find_entry(entries, &name) {
        Some(i) => {
            entries.set(i, (name, value));
        },
        None => {
            entries.push((name, value));
        },
    }
    proof {
        assert(entries@[at].0@ == name@);
        lemma_find(entries@, name@, 0);
    }
}

/// Tells whether no two entries bear the same name.
pub fn names_are_distinct<T>(entries: &Vec<(String, T)>) -> (r: bool)
    ensures
        r == names_distinct(entries@),
{
    let n: usize = entries.len();
    let mut i: usize = 0;
    while i < n
        invariant
            n == entries@.len(),
            i <= n,
            forall|a: int, b: int|
                0 <= a < i && a < b < n ==> (#[trigger] entries@[a]).0@
                    != (#[trigger] entries@[b]).0@,
        decreases n - i,
    {
        let mut j: usize = i + 1;
        while j < n
            invariant
                n == entries@.len(),
                i < j <= n,
                forall|b: int| i < b < j ==> entries@[i as int].0@ != (#[trigger] entries@[b]).0@,
            decreases n - j,
        {
            if entries[i].0 == entries[j].0 {
                assert(!names_distinct(entries@)) by {
                    assert(entries@[i as int].0@ == entries@[j as int].0@);
                }
                return false;
            }
            j = j + 1;
        }
        i = i + 1;
    }
    true
}

impl NetworkOptions {
    /// Each list holds at most one entry of a name.
    pub open spec fn wf(&self) -> bool {
        names_distinct(self.networks@) && names_distinct(self.network_info@)
    }

    /// Tells whether each list holds at most one entry of a name.
    pub fn is_valid(&self) -> (r: bool)
        ensures
            r == self.wf(),
    {
        names_are_distinct(&self.networks) && names_are_distinct(&self.network_info)
    }

    /// A request that names no network.
    pub fn new() -> (r: NetworkOptions)
        ensures
            r.wf(),
            r.networks@.len() == 0,
            r.network_info@.len() == 0,
    {
        NetworkOptions { networks: Vec::new(), network_info: Vec::new() }
    }

    /// Files the attachment parameters of the network `name`.
    pub fn insert_network(&mut self, name: String, options: PerNetworkOptions)
        requires
            old(self).wf(),
        ensures
            final(self).wf(),
            final(self).networks@ == spec_put(old(self).networks@, name, options),
            final(self).network_info == old(self).network_info,
    {
        put_entry(&mut self.networks, name, options);
    }

    /// Files the description of the network `name`.
    pub fn insert_network_info(&mut self, name: String, network: Network)
        requires
            old(self).wf(),
        ensures
            final(self).wf(),
            final(self).network_info@ == spec_put(old(self).network_info@, name, network),
            final(self).networks == old(self).networks,
    {
        put_entry(&mut self.network_info, name, network);
    }
}

/// An address bound to a container interface: the address with the prefix
/// length of its subnet, and the gateway of that subnet.
#[derive(Clone, Copy, Debug, PartialEq, Eq)]
pub struct NetAddress {
    pub subnet: IpNetwork,
    pub gateway: IpAddress,
}

/// A configured container interface.
#[derive(Clone, Debug, PartialEq, Eq)]
pub struct NetInterface {
    pub mac_address: String,
    pub networks: Vec<NetAddress>,
}

/// The outcome of a successful attachment. The two DNS lists are always empty
/// here; `interfaces` maps the name of each container interface to its
/// description.
#[derive(Clone, Debug, PartialEq, Eq)]
pub struct StatusBlock {
    pub dns_search_domains: Vec<String>,
    pub dns_server_ips: Vec<IpAddress>,
    pub interfaces: Vec<(String, NetInterface)>,
}

/// Why an attachment or a detachment failed.
#[derive(Clone, Debug, PartialEq, Eq)]
pub enum CoreError {
    /// The request holds another number of static addresses than the network
    /// has subnets.
    AddressCountMismatch { addresses: usize, subnets: usize },
    /// The subnet at `index` has no gateway.
    MissingGateway { index: usize },
    /// The static address at `index` cannot carry the prefix length of its
    /// subnet.
    InvalidAddress { index: usize },
    /// A described network has no attachment parameters.
    MissingNetworkOptions { network: String },
    /// The host bridge could not be configured.
    Bridge { bridge: String, cause: String },
    /// The veth pair could not be created.
    Veth { host_veth: String, container_veth: String, cause: String },
    /// The namespace file could not be opened.
    NamespaceOpen { netns: String, cause: String },
    /// An operation on `ifname` inside the namespace failed.
    Configure { ifname: String, netns: String, cause: String },
    /// The loopback interface of the namespace could not be brought up.
    Loopback { netns: String, cause: String },
    /// The interface could not be removed from the namespace.
    Remove { ifname: String, netns: String, cause: String },
    /// The worker that had entered the namespace ended without a result.
    WorkerFailed { netns: String, cause: String },
}

impl CoreError {
    /// The request itself is at fault, and nothing on the host was touched.
    pub open spec fn spec_is_configuration(&self) -> bool {
        self is AddressCountMismatch || self is MissingGateway || self is InvalidAddress
            || self is MissingNetworkOptions
    }

    /// Tells whether the request itself is at fault.
    #[verifier::when_used_as_spec(spec_is_configuration)]
    pub fn is_configuration(&self) -> (r: bool)
        ensures
            r == self.spec_is_configuration(),
    {
        match self {
            CoreError::AddressCountMismatch { .. } => true,
            CoreError::MissingGateway { .. } => true,
            CoreError::InvalidAddress { .. } => true,
            CoreError::MissingNetworkOptions { .. } => true,
            _ => false,
        }
    }

    /// The worker died, as opposed to an operation that reported a failure.
    pub fn is_worker_failure(&self) -> (r: bool)
        ensures
            r == (self is WorkerFailed),
    {
        match self {
            CoreError::WorkerFailed { .. } => true,
            _ => false,
        }
    }
}

/// What the caller reports after it has performed an operation.
#[derive(Clone, Debug, PartialEq, Eq)]
pub enum Event {
    /// The operation succeeded. The text is what it returned: the MAC address
    /// for a MAC read, and of no account for the other operations.
    Completed(String),
    /// The operation reported a failure, with its reason.
    Failed(String),
    /// The worker thread ended abnormally, with what is known of the reason.
    WorkerDied(String),
}

} // verus!
