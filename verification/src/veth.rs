//! Provisioning of one veth pair on a bridge, as a state machine.
//!
//! A session holds the parameters of the provisioning and the stage it has
//! reached. The stage names the operation to perform next; the caller
//! performs it, in the namespace the operation belongs to, and reports the
//! outcome to `advance`.

use vstd::prelude::*;
use vstd::string::*;
use crate::address::IpAddress;
use crate::types::{CoreError, Event};
use crate::naming::{host_veth_name, spec_host_veth_name};

verus! {

/// How far a provisioning has come.
#[derive(Clone, Debug, PartialEq, Eq)]
pub enum Stage {
    /// The host bridge is to be configured.
    Bridge,
    /// The veth pair is to be created.
    Veth,
    /// The container's namespace is to be entered.
    Entering,
    /// The static addresses are to be assigned to the container interface.
    Addresses,
    /// The loopback interface of the namespace is to be brought up.
    Loopback,
    /// The MAC address of the container interface is to be read.
    Mac,
    /// A step after the bridge failed: the host-side peer is to be removed
    /// before the error is handed out.
    Cleanup(CoreError),
    /// The provisioning succeeded, with this MAC address.
    Done(String),
    /// The provisioning failed, with this first failure.
    Failed(CoreError),
}

/// The operation a session asks its caller to perform.
#[derive(Clone, Copy, Debug, PartialEq, Eq, Structural)]
pub enum Action {
    /// On the host: configure the bridge with the gateways and their masks.
    ConfigureBridge,
    /// On the host: create the pair, attach the host-side peer to the bridge
    /// and move the other peer into the container's namespace.
    CreateVeth,
    /// Open the namespace file and dedicate a new thread to the namespace.
    EnterNamespace,
    /// In the namespace: assign each address with its mask to the container
    /// interface, in order.
    AssignAddresses,
    /// In the namespace: bring the loopback interface up.
    LoopbackUp,
    /// In the namespace: read the MAC address of the container interface.
    ReadMac,
    /// On the host: remove the host-side peer. A failure of this operation is
    /// reported like a success: the session keeps the first error.
    RemoveHostVeth,
    /// Nothing: the session is finished.
    Finish,
}

impl Action {
    /// The operation must run on the thread that has entered the container's
    /// namespace.
    pub open spec fn spec_in_namespace(&self) -> bool {
        *self == Action::AssignAddresses || *self == Action::LoopbackUp || *self == Action::ReadMac
    }

    /// Tells whether the operation belongs to the namespace phase.
    #[verifier::when_used_as_spec(spec_in_namespace)]
    pub fn in_namespace(&self) -> (r: bool)
        ensures
            r == self.spec_in_namespace(),
    {
        match self {
            Action::AssignAddresses => true,
            Action::LoopbackUp => true,
            Action::ReadMac => true,
            _ => false,
        }
    }

    /// The operation changes or reads the host's own interfaces.
    pub open spec fn spec_on_host(&self) -> bool {
        *self == Action::ConfigureBridge || *self == Action::CreateVeth || *self
            == Action::RemoveHostVeth
    }

    /// Tells whether the operation acts on the host's own interfaces.
    #[verifier::when_used_as_spec(spec_on_host)]
    pub fn on_host(&self) -> (r: bool)
        ensures
            r == self.spec_on_host(),
    {
        match self {
            Action::ConfigureBridge => true,
            Action::CreateVeth => true,
            Action::RemoveHostVeth => true,
            _ => false,
        }
    }
}

impl Stage {
    /// The operation to perform in this stage.
    pub open spec fn spec_action(&self) -> Action {
        match self {
            Stage::Bridge => Action::ConfigureBridge,
            Stage::Veth => Action::CreateVeth,
            Stage::Entering => Action::EnterNamespace,
            Stage::Addresses => Action::AssignAddresses,
            Stage::Loopback => Action::LoopbackUp,
            Stage::Mac => Action::ReadMac,
            Stage::Cleanup(_) => Action::RemoveHostVeth,
            Stage::Done(_) => Action::Finish,
            Stage::Failed(_) => Action::Finish,
        }
    }

    /// The veth pair may exist on the host and the provisioning is not over.
    pub open spec fn holds_host_veth(&self) -> bool {
        self is Veth || self is Entering || self is Addresses || self is Loopback || self is Mac
    }
}

/// The provisioning of one veth pair: its parameters and its stage.
#[derive(Clone, Debug, PartialEq, Eq)]
pub struct VethSession {
    pub bridge: String,
    pub host_veth: String,
    pub container_veth: String,
    pub netns: String,
    pub addresses: Vec<IpAddress>,
    pub netmasks: Vec<IpAddress>,
    pub gateways: Vec<IpAddress>,
    pub stage: Stage,
}

impl VethSession {
    /// The error that a failure in the current stage stands for.
    pub open spec fn failure(&self, cause: String, died: bool) -> CoreError {
        match self.stage {
            Stage::Bridge => CoreError::Bridge { bridge: self.bridge, cause },
            Stage::Veth => CoreError::Veth {
                host_veth: self.host_veth,
                container_veth: self.container_veth,
                cause,
            },
            _ => if died {
                CoreError::WorkerFailed { netns: self.netns, cause }
            } else {
                match self.stage {
                    Stage::Entering => CoreError::NamespaceOpen { netns: self.netns, cause },
                    Stage::Loopback => CoreError::Loopback { netns: self.netns, cause },
                    _ => CoreError::Configure {
                        ifname: self.container_veth,
                        netns: self.netns,
                        cause,
                    },
                }
            },
        }
    }

    /// The stage that follows the current one on the given outcome.
    ///
    /// A success leads to the next operation, and the MAC read to the end. A
    /// failure of the bridge ends the session with its error. A failure of any
    /// later operation leads to the removal of the host-side peer, and from
    /// there, whatever the removal reports, to the end with that first error.
    pub open spec fn next_stage(&self, event: Event) -> Stage {
        match self.stage {
            Stage::Done(mac) => Stage::Done(mac),
            Stage::Failed(e) => Stage::Failed(e),
            Stage::Cleanup(e) => Stage::Failed(e),
            Stage::Bridge => match event {
                Event::Completed(_) => Stage::Veth,
                Event::Failed(c) => Stage::Failed(self.failure(c, false)),
                Event::WorkerDied(c) => Stage::Failed(self.failure(c, true)),
            },
            _ => match event {
                Event::Failed(c) => Stage::Cleanup(self.failure(c, false)),
                Event::WorkerDied(c) => Stage::Cleanup(self.failure(c, true)),
                Event::Completed(text) => match self.stage {
                    Stage::Veth => Stage::Entering,
                    Stage::Entering => Stage::Addresses,
                    Stage::Addresses => Stage::Loopback,
                    Stage::Loopback => Stage::Mac,
                    _ => Stage::Done(text),
                },
            },
        }
    }

    /// The session after the given outcome: the same parameters, in the next
    /// stage.
    pub open spec fn spec_advance(self, event: Event) -> VethSession {
        VethSession { stage: self.next_stage(event), ..self }
    }

    /// The operation that the session asks for: that of its stage.
    pub open spec fn spec_action(&self) -> Action {
        self.stage.spec_action()
    }

    /// The result of a finished session: the MAC address or the first
    /// failure. A session that is not finished has none.
    pub open spec fn spec_result(&self) -> Option<Result<String, CoreError>> {
        match self.stage {
            Stage::Done(mac) => Some(Ok(mac)),
            Stage::Failed(e) => Some(Err(e)),
            _ => None,
        }
    }

    /// What `start` yields for the given parameters.
    pub open spec fn is_start_of(
        &self,
        bridge: Seq<char>,
        addresses: Seq<IpAddress>,
        netmasks: Seq<IpAddress>,
        gateways: Seq<IpAddress>,
        container_veth: Seq<char>,
        netns: Seq<char>,
        suffix: u32,
    ) -> bool {
        &&& self.bridge@ == bridge
        &&& self.host_veth@ == spec_host_veth_name(suffix)
        &&& self.container_veth@ == container_veth
        &&& self.netns@ == netns
        &&& self.addresses@ == addresses
        &&& self.netmasks@ == netmasks
        &&& self.gateways@ == gateways
        &&& self.stage == Stage::Bridge
    }

    /// A session at its first stage, whose host-side peer is named after the
    /// given suffix.
    pub fn start(
        br_name: &str,
        netns_ipaddr: Vec<IpAddress>,
        netns_ipaddr_mask: Vec<IpAddress>,
        gw_ipaddr: Vec<IpAddress>,
        container_veth_name: &str,
        netns: &str,
        suffix: u32,
    ) -> (session: VethSession)
        ensures
            session.is_start_of(
                br_name@,
                netns_ipaddr@,
                netns_ipaddr_mask@,
                gw_ipaddr@,
                container_veth_name@,
                netns@,
                suffix,
            ),
    {
        VethSession {
            bridge: String::from_str(br_name),
            host_veth: host_veth_name(suffix),
            container_veth: String::from_str(container_veth_name),
            netns: String::from_str(netns),
            addresses: netns_ipaddr,
            netmasks: netns_ipaddr_mask,
            gateways: gw_ipaddr,
            stage: Stage::Bridge,
        }
    }

    /// The operation to perform next.
    #[verifier::when_used_as_spec(spec_action)]
    pub fn action(&self) -> (r: Action)
        ensures
            r == self.spec_action(),
    {
        match &self.stage {
            Stage::Bridge => Action::ConfigureBridge,
            Stage::Veth => Action::CreateVeth,
            Stage::Entering => Action::EnterNamespace,
            Stage::Addresses => Action::AssignAddresses,
            Stage::Loopback => Action::LoopbackUp,
            Stage::Mac => Action::ReadMac,
            Stage::Cleanup(_) => Action::RemoveHostVeth,
            Stage::Done(_) => Action::Finish,
            Stage::Failed(_) => Action::Finish,
        }
    }

    /// Builds the error for a failure in the current stage.
    fn make_failure(&self, cause: String, died: bool) -> (e: CoreError)
        ensures
            e == self.failure(cause, died),
    {
        match &self.stage {
            Stage::Bridge => CoreError::Bridge { bridge: self.bridge.clone(), cause },
            Stage::Veth => CoreError::Veth {
                host_veth: self.host_veth.clone(),
                container_veth: self.container_veth.clone(),
                cause,
            },
            _ => if died {
                CoreError::WorkerFailed { netns: self.netns.clone(), cause }
            } else {
                match &self.stage {
                    Stage::Entering => CoreError::NamespaceOpen { netns: self.netns.clone(), cause },
                    Stage::Loopback => CoreError::Loopback { netns: self.netns.clone(), cause },
                    _ => CoreError::Configure {
                        ifname: self.container_veth.clone(),
                        netns: self.netns.clone(),
                        cause,
                    },
                }
            },
        }
    }

    /// Takes the outcome of the operation that `action` named and moves to the
    /// next stage.
    #[verifier::when_used_as_spec(spec_advance)]
    pub fn advance(self, event: Event) -> (next: VethSession)
        ensures
            next == self.spec_advance(event),
    {
        let failed: Option<CoreError> = match &self.stage {
            Stage::Done(_) => None,
            Stage::Failed(_) => None,
            Stage::Cleanup(_) => None,
            _ => match &event {
                Event::Completed(_) => None,
                Event::Failed(c) => Some(self.make_failure(c.clone(), false)),
                Event::WorkerDied(c) => Some(self.make_failure(c.clone(), true)),
            },
        };
        let VethSession {
            bridge,
            host_veth,
            container_veth,
            netns,
            addresses,
            netmasks,
            gateways,
            stage,
        } = self;
        let stage = match stage {
            Stage::Done(mac) => Stage::Done(mac),
            Stage::Failed(e) => Stage::Failed(e),
            Stage::Cleanup(e) => Stage::Failed(e),
            Stage::Bridge => match failed {
                Some(e) => Stage::Failed(e),
                None => Stage::Veth,
            },
            other => match failed {
                Some(e) => Stage::Cleanup(e),
                None => match event {
                    Event::Completed(text) => match other {
                        Stage::Veth => Stage::Entering,
                        Stage::Entering => Stage::Addresses,
                        Stage::Addresses => Stage::Loopback,
                        Stage::Loopback => Stage::Mac,
                        _ => Stage::Done(text),
                    },
                    _ => other,
                },
            },
        };
        VethSession {
            bridge,
            host_veth,
            container_veth,
            netns,
            addresses,
            netmasks,
            gateways,
            stage,
        }
    }

    /// The final result, once the session is finished.
    pub fn into_result(self) -> (r: Option<Result<String, CoreError>>)
        ensures
            r == self.spec_result(),
    {
        match self.stage {
            Stage::Done(mac) => Some(Ok(mac)),
            Stage::Failed(e) => Some(Err(e)),
            _ => None,
        }
    }
}

} // verus!
