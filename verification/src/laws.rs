//! What holds of every attachment and every detachment, whatever the
//! operations report.

use vstd::prelude::*;
use crate::address::IpAddress;
use crate::attach::{bound_address, plan_error, AttachSession};
use crate::detach::{DetachAction, DetachSession};
use crate::types::{
    lemma_find, names_distinct, spec_find, CoreError, Event, Network, NetworkOptions,
    PerNetworkOptions, Subnet,
};
use crate::veth::{Action, Stage, VethSession};

verus! {

/// The attachment session after the first `k` of the given outcomes.
pub open spec fn attach_after(start: AttachSession, events: Seq<Event>, k: int) -> AttachSession
    decreases k,
{
    if k <= 0 {
        start
    } else {
        attach_after(start, events, k - 1).spec_advance(events[k - 1])
    }
}

/// The detachment session after the first `k` of the given outcomes.
pub open spec fn detach_after(start: DetachSession, events: Seq<Event>, k: int) -> DetachSession
    decreases k,
{
    if k <= 0 {
        start
    } else {
        detach_after(start, events, k - 1).spec_advance(events[k - 1])
    }
}

/// A request with another number of static addresses than the network has
/// subnets is refused with a configuration error that gives both counts.
pub proof fn count_mismatch_is_refused(ips: Seq<IpAddress>, subnets: Seq<Subnet>)
    requires
        ips.len() != subnets.len(),
    ensures
        plan_error(ips, subnets) == Some(
            CoreError::AddressCountMismatch {
                addresses: ips.len() as usize,
                subnets: subnets.len() as usize,
            },
        ),
        plan_error(ips, subnets)->Some_0.spec_is_configuration(),
{
}

/// Through every run of an attachment the parameters stay what was planned:
/// one reported address per subnet, the address at each position being the
/// static address of that position with the prefix length and the gateway of
/// the subnet of that position.
pub proof fn reported_addresses_match_request(
    start: AttachSession,
    opts: PerNetworkOptions,
    network: Network,
    netns: Seq<char>,
    suffix: u32,
    events: Seq<Event>,
    k: int,
)
    requires
        start.is_start_of(opts, network, netns, suffix),
        opts.static_ips@.len() == network.subnets@.len(),
        0 <= k <= events.len(),
    ensures
        attach_after(start, events, k).net_addresses == start.net_addresses,
        attach_after(start, events, k).veth.container_veth == start.veth.container_veth,
        attach_after(start, events, k).veth.host_veth == start.veth.host_veth,
        attach_after(start, events, k).veth.addresses == start.veth.addresses,
        attach_after(start, events, k).veth.netmasks == start.veth.netmasks,
        attach_after(start, events, k).veth.gateways == start.veth.gateways,
        start.net_addresses@.len() == network.subnets@.len(),
        forall|i: int|
            0 <= i < network.subnets@.len() ==> {
                &&& (#[trigger] start.net_addresses@[i]).subnet.addr == opts.static_ips@[i]
                &&& start.net_addresses@[i].subnet.prefix_len
                    == network.subnets@[i].subnet.prefix_len
                &&& start.net_addresses@[i].gateway == network.subnets@[i].gateway->Some_0
                &&& start.veth.addresses@[i] == opts.static_ips@[i]
                &&& start.veth.netmasks@[i] == network.subnets@[i].subnet.spec_netmask()
            },
    decreases k,
{
    if k > 0 {
        reported_addresses_match_request(start, opts, network, netns, suffix, events, k - 1);
    }
}

/// One step never enters the namespace by itself: an operation inside the
/// namespace is asked for only after the namespace was entered with success,
/// or after another operation inside it succeeded.
pub proof fn namespace_step(s: VethSession, event: Event)
    ensures
        s.spec_advance(event).spec_action().spec_in_namespace() ==> event is Completed && (
        s.spec_action() == Action::EnterNamespace || s.spec_action().spec_in_namespace()),
        s.spec_action().spec_in_namespace() && !(event is Completed) ==> s.spec_advance(
            event,
        ).spec_action() == Action::RemoveHostVeth,
{
}

/// In every run of an attachment, each operation inside the namespace comes
/// after an entering of the namespace that succeeded, with nothing between
/// the two but operations inside the namespace that succeeded.
pub proof fn namespace_operations_follow_entering(
    start: AttachSession,
    events: Seq<Event>,
    k: int,
) -> (j: int)
    requires
        start.veth.stage == Stage::Bridge,
        0 <= k <= events.len(),
        attach_after(start, events, k).spec_action().spec_in_namespace(),
    ensures
        0 <= j < k,
        attach_after(start, events, j).spec_action() == Action::EnterNamespace,
        forall|m: int| j <= m < k ==> (#[trigger] events[m]) is Completed,
        forall|m: int|
            j < m <= k ==> (#[trigger] attach_after(
                start,
                events,
                m,
            )).spec_action().spec_in_namespace(),
    decreases k,
{
    if k <= 0 {
        0
    } else {
        let prev = attach_after(start, events, k - 1);
        namespace_step(prev.veth, events[k - 1]);
        if prev.spec_action() == Action::EnterNamespace {
            k - 1
        } else {
            namespace_operations_follow_entering(start, events, k - 1)
        }
    }
}

/// In every run of an attachment the namespace is entered only as the third
/// operation, after the bridge was configured and the veth pair created, both
/// on the host and both with success.
pub proof fn entering_follows_bridge_and_veth(start: AttachSession, events: Seq<Event>, k: int)
    requires
        start.veth.stage == Stage::Bridge,
        0 <= k <= events.len(),
        attach_after(start, events, k).spec_action() == Action::EnterNamespace,
    ensures
        k == 2,
        attach_after(start, events, 0).spec_action() == Action::ConfigureBridge,
        attach_after(start, events, 1).spec_action() == Action::CreateVeth,
        attach_after(start, events, 0).spec_action().spec_on_host(),
        attach_after(start, events, 1).spec_action().spec_on_host(),
        events[0] is Completed,
        events[1] is Completed,
{
    reveal_with_fuel(attach_after, 4);
    assert(k >= 1);
    let veth_stage = attach_after(start, events, k - 1);
    assert(veth_stage.veth.stage is Veth);
    assert(k >= 2);
    let bridge_stage = attach_after(start, events, k - 2);
    assert(bridge_stage.veth.stage is Bridge);
    if k > 2 {
        let before = attach_after(start, events, k - 3);
        assert(bridge_stage == before.spec_advance(events[k - 3]));
    }
}

/// Once the veth pair may exist, a failure of any operation is answered by
/// the removal of the host-side peer, and no result is handed out before it.
/// After the removal, whatever it reports, the session ends with the error of
/// that first failure.
pub proof fn cleanup_precedes_error(s: VethSession, failed: Event, cleanup: Event)
    requires
        s.stage.holds_host_veth(),
        !(failed is Completed),
    ensures
        s.spec_advance(failed).spec_action() == Action::RemoveHostVeth,
        s.spec_advance(failed).spec_result() is None,
        s.spec_advance(failed).spec_advance(cleanup).spec_action() == Action::Finish,
        s.spec_advance(failed).spec_advance(cleanup).spec_result() == Some(
            Err::<String, CoreError>(
                match failed {
                    Event::WorkerDied(cause) => s.failure(cause, true),
                    Event::Failed(cause) => s.failure(cause, false),
                    Event::Completed(cause) => s.failure(cause, false),
                },
            ),
        ),
{
}

/// A session ends in failure only from the removal of the host-side peer or
/// from the bridge stage, where no veth pair exists yet. A finished session
/// stays as it is.
pub proof fn failure_only_after_cleanup(s: VethSession, event: Event)
    ensures
        s.spec_advance(event).stage is Failed ==> s.stage is Failed || s.stage is Cleanup
            || s.stage is Bridge,
        s.spec_result() is Some ==> s.spec_advance(event) == s,
        s.stage is Bridge && !(event is Completed) ==> s.spec_advance(event).stage is Failed,
{
}

/// While every operation succeeds, a detachment enters the namespace and
/// removes an interface in turn, for the interfaces of its list one after the
/// other, each once, and ends in success when the last is gone.
pub proof fn detach_removes_in_order(start: DetachSession, events: Seq<Event>, k: int)
    requires
        start.wf(),
        start.removed == 0,
        !start.entered,
        start.failure is None,
        0 <= k <= start.interfaces@.len(),
        2 * k <= events.len(),
        forall|m: int| 0 <= m < 2 * k ==> (#[trigger] events[m]) is Completed,
    ensures
        detach_after(start, events, 2 * k) == (DetachSession { removed: k as usize, ..start }),
        k < start.interfaces@.len() ==> detach_after(start, events, 2 * k).spec_action() == (
        DetachAction::EnterNamespace { index: k as usize }),
        k > 0 ==> detach_after(start, events, 2 * k - 1).spec_action() == (DetachAction::Remove {
            index: (k - 1) as usize,
        }),
        k == start.interfaces@.len() ==> detach_after(start, events, 2 * k).spec_action()
            == DetachAction::Finish && detach_after(start, events, 2 * k).spec_result() == Some(
            Ok::<(), CoreError>(()),
        ),
    decreases k,
{
    if k > 0 {
        detach_removes_in_order(start, events, k - 1);
        let before = detach_after(start, events, 2 * (k - 1));
        let inside = detach_after(start, events, 2 * k - 1);
        assert(events[2 * k - 2] is Completed);
        assert(events[2 * k - 1] is Completed);
        assert(inside == before.spec_advance(events[2 * k - 2]));
        assert(detach_after(start, events, 2 * k) == inside.spec_advance(events[2 * k - 1]));
    }
}

/// A removal is asked for only in answer to an entering of the namespace that
/// succeeded, and for the same interface.
pub proof fn removal_follows_entering(s: DetachSession, event: Event)
    requires
        s.spec_advance(event).spec_action() is Remove,
        !(s.spec_action() is Remove),
    ensures
        event is Completed,
        s.spec_action() == (DetachAction::EnterNamespace { index: s.removed }),
        s.spec_advance(event).spec_action() == (DetachAction::Remove { index: s.removed }),
{
}

/// A namespace that cannot be opened ends the detachment with an error that
/// names the namespace; neither the pending removal nor any later operation
/// is asked for, whatever is reported afterwards.
pub proof fn detach_stops_when_namespace_cannot_be_opened(
    s: DetachSession,
    cause: String,
    later: Event,
)
    requires
        s.active(),
        !s.entered,
    ensures
        s.spec_advance(Event::Failed(cause)).spec_action() == DetachAction::Finish,
        s.spec_advance(Event::Failed(cause)).spec_result() == Some(
            Err::<(), CoreError>(CoreError::NamespaceOpen { netns: s.netns, cause }),
        ),
        s.spec_advance(Event::Failed(cause)).spec_advance(later) == s.spec_advance(
            Event::Failed(cause),
        ),
        s.spec_advance(Event::Failed(cause)).removed == s.removed,
{
}

/// A removal that fails ends the detachment with an error that names the
/// interface and the namespace; no further removal is asked for, whatever is
/// reported afterwards.
pub proof fn detach_stops_at_first_failure(s: DetachSession, cause: String, later: Event)
    requires
        s.active(),
        s.entered,
    ensures
        s.spec_advance(Event::Failed(cause)).spec_action() == DetachAction::Finish,
        s.spec_advance(Event::Failed(cause)).spec_result() == Some(
            Err::<(), CoreError>(
                CoreError::Remove {
                    ifname: s.interfaces@[s.removed as int],
                    netns: s.netns,
                    cause,
                },
            ),
        ),
        s.spec_advance(Event::Failed(cause)).spec_advance(later) == s.spec_advance(
            Event::Failed(cause),
        ),
        s.spec_advance(Event::Failed(cause)).removed == s.removed,
{
}

/// In a list without repeated names, a lookup finds the one entry of the
/// name: the list stands for a map from names to values.
pub proof fn lookup_finds_the_only_entry<T>(entries: Seq<(String, T)>, i: int)
    requires
        names_distinct(entries),
        0 <= i < entries.len(),
    ensures
        spec_find(entries, entries[i].0@, 0) == Some(i),
{
    lemma_find(entries, entries[i].0@, 0);
}

/// The interfaces of a detachment are those that the attachment parameters
/// name, one per entry and in their order; with no name filed twice, each
/// network gives one removal.
pub proof fn detach_names_the_attached_interfaces(
    s: DetachSession,
    opts: NetworkOptions,
    netns: Seq<char>,
    k: int,
)
    requires
        opts.wf(),
        s.is_start_of(opts, netns),
        0 <= k < opts.networks@.len(),
    ensures
        s.interfaces@.len() == opts.networks@.len(),
        s.interfaces@[k] == opts.networks@[k].1.interface_name,
        spec_find(opts.networks@, opts.networks@[k].0@, 0) == Some(k),
{
    lookup_finds_the_only_entry(opts.networks@, k);
}

} // verus!
