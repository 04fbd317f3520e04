//! The entry points: attach a container to a bridge network, detach it.

use vstd::prelude::*;
use vstd::string::*;
use crate::address::IpAddress;
use crate::attach::{plan_error, AttachPlan, AttachSession};
use crate::detach::{first_unknown, interfaces_of, DetachSession};
use crate::naming::random_suffix;
use crate::types::{find_entry, CoreError, Network, NetworkOptions, PerNetworkOptions};
use crate::veth::VethSession;

verus! {

/// The attachment and detachment of containers on bridge networks.
pub struct Core {
    pub networkns: String,
}

impl Core {
    /// Opens the attachment of a container to `network`: checks the request,
    /// matches each static address to its subnet, and hands back the session
    /// that provisions the bridge and the veth pair, at its first stage.
    ///
    /// Fails with a configuration error exactly when no plan exists for the
    /// request; no operation has been asked for then. The name of the
    /// host-side peer is drawn at random.
    pub fn bridge_per_podman_network(
        per_network_opts: &PerNetworkOptions,
        network: &Network,
        netns: &str,
    ) -> (r: Result<AttachSession, CoreError>)
        requires
            network.wf(),
        ensures
            per_network_opts.static_ips@.len() != network.subnets@.len() ==> r == Err::<
                AttachSession,
                CoreError,
            >(
                CoreError::AddressCountMismatch {
                    addresses: per_network_opts.static_ips@.len() as usize,
                    subnets: network.subnets@.len() as usize,
                },
            ),
            match r {
                Ok(session) => plan_error(per_network_opts.static_ips@, network.subnets@) is None
                    && exists|suffix: u32|
                    session.is_start_of(*per_network_opts, *network, netns@, suffix),
                Err(e) => plan_error(per_network_opts.static_ips@, network.subnets@) == Some(e)
                    && e.spec_is_configuration(),
            },
    {
        match AttachPlan::build(per_network_opts, network) {
            Err(e) => Err(e),
            Ok(plan) => {
                let AttachPlan { addresses, netmasks, gateways, net_addresses } = plan;
                let veth = Core::add_bridge_and_veth(
                    network.network_interface.as_str(),
                    addresses,
                    netmasks,
                    gateways,
                    per_network_opts.interface_name.as_str(),
                    netns,
                );
                let session = AttachSession { veth, net_addresses };
                proof {
                    let suffix = choose|suffix: u32|
                        session.veth.is_start_of(
                            network.network_interface@,
                            addresses@,
                            netmasks@,
                            gateways@,
                            per_network_opts.interface_name@,
                            netns@,
                            suffix,
                        );
                    assert(session.is_start_of(*per_network_opts, *network, netns@, suffix));
                }
                Ok(session)
            },
        }
    }

    /// Opens the provisioning of a veth pair on the bridge `br_name`, with the
    /// container-side peer `container_veth_name` in the namespace `netns`. The
    /// session stands at its first stage. The host-side peer is named after a
    /// suffix drawn at random: nothing rules out that the name is in use on the
    /// host already, in which case the creation of the pair fails.
    pub fn add_bridge_and_veth(
        br_name: &str,
        netns_ipaddr: Vec<IpAddress>,
        netns_ipaddr_mask: Vec<IpAddress>,
        gw_ipaddr: Vec<IpAddress>,
        container_veth_name: &str,
        netns: &str,
    ) -> (session: VethSession)
        ensures
            exists|suffix: u32|
                session.is_start_of(
                    br_name@,
                    netns_ipaddr@,
                    netns_ipaddr_mask@,
                    gw_ipaddr@,
                    container_veth_name@,
                    netns@,
                    suffix,
                ),
    {
        let suffix = random_suffix();
        VethSession::start(
            br_name,
            netns_ipaddr,
            netns_ipaddr_mask,
            gw_ipaddr,
            container_veth_name,
            netns,
            suffix,
        )
    }

    /// Opens the detachment of a container: the session removes from the
    /// namespace `netns` the container interface of every entry of the
    /// attachment parameters in `network_opts`, in their order, whether or
    /// not the network of an entry is described.
    ///
    /// A described network without attachment parameters has nothing to
    /// remove and is a fault of the request: the call fails with a
    /// configuration error at the first such description, exactly when there
    /// is one, and no operation has been asked for then.
    pub fn remove_interface_per_podman_network(network_opts: &NetworkOptions, netns: &str) -> (r:
        Result<DetachSession, CoreError>)
        requires
            network_opts.wf(),
        ensures
            match r {
                Ok(session) => first_unknown(*network_opts, 0) is None && session.is_start_of(
                    *network_opts,
                    netns@,
                ) && session.wf(),
                Err(e) => first_unknown(*network_opts, 0) is Some && e == (
                CoreError::MissingNetworkOptions {
                    network: network_opts.network_info@[first_unknown(*network_opts, 0)->Some_0].0,
                }),
            },
    {
        let mut k: usize = 0;
        while k < network_opts.network_info.len()
            invariant
                k <= network_opts.network_info@.len(),
                first_unknown(*network_opts, 0) == first_unknown(*network_opts, k as int),
            decreases network_opts.network_info@.len() - k,
        {
            let name: &String = &network_opts.network_info[k].0;
            if find_entry(&network_opts.networks, name).is_none() {
                return Err(CoreError::MissingNetworkOptions { network: name.clone() });
            }
            k = k + 1;
        }
        let mut interfaces: Vec<String> = Vec::new();
        let mut i: usize = 0;
        while i < network_opts.networks.len()
            invariant
                i <= network_opts.networks@.len(),
                interfaces@ == Seq::new(
                    i as nat,
                    |j: int| network_opts.networks@[j].1.interface_name,
                ),
            decreases network_opts.networks@.len() - i,
        {
            interfaces.push(network_opts.networks[i].1.interface_name.clone());
            i = i + 1;
            proof {
                assert(interfaces@ =~= Seq::new(
                    i as nat,
                    |j: int| network_opts.networks@[j].1.interface_name,
                ));
            }
        }
        proof {
            assert(interfaces@ =~= interfaces_of(*network_opts));
        }
        Ok(
            DetachSession {
                netns: String::from_str(netns),
                interfaces,
                removed: 0,
                entered: false,
                failure: None,
            },
        )
    }
}

} // verus!
