//! Planning an attachment, and the session that carries it out.

use vstd::prelude::*;
use crate::address::{IpAddress, IpNetwork};
use crate::types::{CoreError, Event, NetAddress, NetInterface, Network, PerNetworkOptions, StatusBlock, Subnet};
use crate::veth::{Action, Stage, VethSession};

verus! {

/// What is wrong with the pairing of one static address and its subnet, if
/// anything: the subnet lacks a gateway, or the address cannot carry the
/// subnet's prefix length.
pub open spec fn subnet_problem(ip: IpAddress, subnet: Subnet, index: int) -> Option<CoreError> {
    if subnet.gateway is None {
        Some(CoreError::MissingGateway { index: index as usize })
    } else if IpNetwork::spec_new(ip, subnet.subnet.prefix_len) is None {
        Some(CoreError::InvalidAddress { index: index as usize })
    } else {
        None
    }
}

/// The problem of the first faulty pairing at or after position `from`.
pub open spec fn first_problem(ips: Seq<IpAddress>, subnets: Seq<Subnet>, from: int) -> Option<
    CoreError,
>
    decreases subnets.len() - from,
{
    if from < 0 || from >= subnets.len() {
        None
    } else if subnet_problem(ips[from], subnets[from], from) is Some {
        subnet_problem(ips[from], subnets[from], from)
    } else {
        first_problem(ips, subnets, from + 1)
    }
}

/// Why no attachment can be planned for these addresses on these subnets, if
/// so: the counts differ, or else the first faulty pairing.
pub open spec fn plan_error(ips: Seq<IpAddress>, subnets: Seq<Subnet>) -> Option<CoreError> {
    if ips.len() != subnets.len() {
        Some(
            CoreError::AddressCountMismatch {
                addresses: ips.len() as usize,
                subnets: subnets.len() as usize,
            },
        )
    } else {
        first_problem(ips, subnets, 0)
    }
}

/// The static address bound into its subnet: the address itself with the
/// subnet's prefix length, and the subnet's gateway.
pub open spec fn bound_address(ip: IpAddress, subnet: Subnet) -> NetAddress {
    NetAddress {
        subnet: IpNetwork { addr: ip, prefix_len: subnet.subnet.prefix_len },
        gateway: subnet.gateway->Some_0,
    }
}

/// What an attachment hands to the network operations, position by position
/// in subnet order.
#[derive(Clone, Debug, PartialEq, Eq)]
pub struct AttachPlan {
    pub addresses: Vec<IpAddress>,
    pub netmasks: Vec<IpAddress>,
    pub gateways: Vec<IpAddress>,
    pub net_addresses: Vec<NetAddress>,
}

/// The four sequences planned for these addresses on these subnets.
pub open spec fn planned(
    ips: Seq<IpAddress>,
    subnets: Seq<Subnet>,
    addresses: Seq<IpAddress>,
    netmasks: Seq<IpAddress>,
    gateways: Seq<IpAddress>,
    net_addresses: Seq<NetAddress>,
) -> bool {
    &&& addresses == ips
    &&& netmasks == Seq::new(subnets.len(), |i: int| subnets[i].subnet.spec_netmask())
    &&& gateways == Seq::new(subnets.len(), |i: int| subnets[i].gateway->Some_0)
    &&& net_addresses == Seq::new(subnets.len(), |i: int| bound_address(ips[i], subnets[i]))
}

impl AttachPlan {
    /// The plan holds what is planned for these addresses on these subnets.
    pub open spec fn is_plan_of(&self, ips: Seq<IpAddress>, subnets: Seq<Subnet>) -> bool {
        planned(
            ips,
            subnets,
            self.addresses@,
            self.netmasks@,
            self.gateways@,
            self.net_addresses@,
        )
    }

    /// Matches each static address to the subnet at its position. Fails when
    /// the counts differ, and else at the first subnet without a gateway or
    /// the first address that cannot carry its subnet's prefix length.
    pub fn build(per_network_opts: &PerNetworkOptions, network: &Network) -> (r: Result<
        AttachPlan,
        CoreError,
    >)
        requires
            network.wf(),
        ensures
            match r {
                Ok(plan) => plan_error(per_network_opts.static_ips@, network.subnets@) is None
                    && plan.is_plan_of(per_network_opts.static_ips@, network.subnets@),
                Err(e) => plan_error(per_network_opts.static_ips@, network.subnets@) == Some(e)
                    && e.spec_is_configuration(),
            },
    {
        let n: usize = network.subnets.len();
        if per_network_opts.static_ips.len() != n {
            return Err(
                CoreError::AddressCountMismatch {
                    addresses: per_network_opts.static_ips.len(),
                    subnets: n,
                },
            );
        }
        let ghost ips = per_network_opts.static_ips@;
        let ghost subnets = network.subnets@;
        let mut addresses: Vec<IpAddress> = Vec::new();
        let mut netmasks: Vec<IpAddress> = Vec::new();
        let mut gateways: Vec<IpAddress> = Vec::new();
        let mut net_addresses: Vec<NetAddress> = Vec::new();
        let mut i: usize = 0;
        while i < n
            invariant
                i <= n,
                n == subnets.len(),
                n == ips.len(),
                ips == per_network_opts.static_ips@,
                subnets == network.subnets@,
                network.wf(),
                first_problem(ips, subnets, 0) == first_problem(ips, subnets, i as int),
                addresses@ == ips.subrange(0, i as int),
                netmasks@ == Seq::new(i as nat, |k: int| subnets[k].subnet.spec_netmask()),
                gateways@ == Seq::new(i as nat, |k: int| subnets[k].gateway->Some_0),
                net_addresses@ == Seq::new(i as nat, |k: int| bound_address(ips[k], subnets[k])),
            decreases n - i,
        {
            let subnet: Subnet = network.subnets[i];
            let ip: IpAddress = per_network_opts.static_ips[i];
            let gateway: IpAddress = match subnet.gateway {
                Some(g) => g,
                None => {
                    return Err(CoreError::MissingGateway { index: i });
                },
            };
            let bound: IpNetwork = match IpNetwork::new(ip, subnet.subnet.prefix_len()) {
                Some(net) => net,
                None => {
                    return Err(CoreError::InvalidAddress { index: i });
                },
            };
            let mask: IpAddress = subnet.subnet.netmask();
            addresses.push(ip);
            netmasks.push(mask);
            gateways.push(gateway);
            net_addresses.push(NetAddress { subnet: bound, gateway });
            i = i + 1;
            proof {
                assert(addresses@ =~= ips.subrange(0, i as int));
                assert(netmasks@ =~= Seq::new(i as nat, |k: int| subnets[k].subnet.spec_netmask()));
                assert(gateways@ =~= Seq::new(i as nat, |k: int| subnets[k].gateway->Some_0));
                assert(net_addresses@ =~= Seq::new(
                    i as nat,
                    |k: int| bound_address(ips[k], subnets[k]),
                ));
            }
        }
        proof {
            assert(addresses@ =~= ips);
        }
        Ok(AttachPlan { addresses, netmasks, gateways, net_addresses })
    }
}

/// One attachment under way: the provisioning of its veth pair, and the
/// addresses that the result will report.
#[derive(Clone, Debug, PartialEq, Eq)]
pub struct AttachSession {
    pub veth: VethSession,
    pub net_addresses: Vec<NetAddress>,
}

/// The status block of an attachment: no DNS data, and the one interface
/// under its name, with its MAC address and its bound addresses.
pub open spec fn is_status_of(
    status: StatusBlock,
    ifname: String,
    mac: String,
    net_addresses: Vec<NetAddress>,
) -> bool {
    &&& status.dns_search_domains@.len() == 0
    &&& status.dns_server_ips@.len() == 0
    &&& status.interfaces@.len() == 1
    &&& status.interfaces@[0].0 == ifname
    &&& status.interfaces@[0].1 == (NetInterface { mac_address: mac, networks: net_addresses })
}

impl AttachSession {
    /// The session stands at its first stage and holds what was planned for
    /// the request, with a host-side peer named after `suffix`.
    pub open spec fn is_start_of(
        &self,
        opts: PerNetworkOptions,
        network: Network,
        netns: Seq<char>,
        suffix: u32,
    ) -> bool {
        &&& self.veth.bridge@ == network.network_interface@
        &&& self.veth.host_veth@ == crate::naming::spec_host_veth_name(suffix)
        &&& self.veth.container_veth@ == opts.interface_name@
        &&& self.veth.netns@ == netns
        &&& self.veth.stage == Stage::Bridge
        &&& planned(
            opts.static_ips@,
            network.subnets@,
            self.veth.addresses@,
            self.veth.netmasks@,
            self.veth.gateways@,
            self.net_addresses@,
        )
    }

    /// The operation that the session asks for: that of its provisioning.
    pub open spec fn spec_action(&self) -> Action {
        self.veth.spec_action()
    }

    /// The session after the given outcome: the provisioning moves on, the
    /// addresses to report stay.
    pub open spec fn spec_advance(self, event: Event) -> AttachSession {
        AttachSession { veth: self.veth.spec_advance(event), ..self }
    }

    /// Plans the attachment and opens its session, with a host-side peer
    /// named after `suffix`. Fails exactly when no plan exists.
    pub fn start(
        per_network_opts: &PerNetworkOptions,
        network: &Network,
        netns: &str,
        suffix: u32,
    ) -> (r: Result<AttachSession, CoreError>)
        requires
            network.wf(),
        ensures
            match r {
                Ok(session) => plan_error(per_network_opts.static_ips@, network.subnets@) is None
                    && session.is_start_of(*per_network_opts, *network, netns@, suffix),
                Err(e) => plan_error(per_network_opts.static_ips@, network.subnets@) == Some(e),
            },
    {
        match AttachPlan::build(per_network_opts, network) {
            Err(e) => Err(e),
            Ok(plan) => {
                let AttachPlan { addresses, netmasks, gateways, net_addresses } = plan;
                let veth = VethSession::start(
                    network.network_interface.as_str(),
                    addresses,
                    netmasks,
                    gateways,
                    per_network_opts.interface_name.as_str(),
                    netns,
                    suffix,
                );
                Ok(AttachSession { veth, net_addresses })
            },
        }
    }

    /// The operation to perform next.
    #[verifier::when_used_as_spec(spec_action)]
    pub fn action(&self) -> (r: Action)
        ensures
            r == self.spec_action(),
    {
        self.veth.action()
    }

    /// Takes the outcome of the operation that `action` named and moves to the
    /// next stage.
    #[verifier::when_used_as_spec(spec_advance)]
    pub fn advance(self, event: Event) -> (next: AttachSession)
        ensures
            next == self.spec_advance(event),
    {
        let AttachSession { veth, net_addresses } = self;
        AttachSession { veth: veth.advance(event), net_addresses }
    }

    /// The final result, once the session is finished: the status block of
    /// the attachment, or the first failure.
    pub fn into_result(self) -> (r: Option<Result<StatusBlock, CoreError>>)
        ensures
            match self.veth.stage {
                Stage::Done(mac) => r is Some && r->Some_0 is Ok && is_status_of(
                    r->Some_0->Ok_0,
                    self.veth.container_veth,
                    mac,
                    self.net_addresses,
                ),
                Stage::Failed(e) => r == Some(Err::<StatusBlock, CoreError>(e)),
                _ => r is None,
            },
    {
        let AttachSession { veth, net_addresses } = self;
        let VethSession { container_veth, stage, .. } = veth;
        match stage {
            Stage::Done(mac) => {
                let mut interfaces: Vec<(String, NetInterface)> = Vec::new();
                interfaces.push(
                    (container_veth, NetInterface { mac_address: mac, networks: net_addresses }),
                );
                Some(
                    Ok(
                        StatusBlock {
                            dns_search_domains: Vec::new(),
                            dns_server_ips: Vec::new(),
                            interfaces,
                        },
                    ),
                )
            },
            Stage::Failed(e) => Some(Err(e)),
            _ => None,
        }
    }
}

} // verus!
