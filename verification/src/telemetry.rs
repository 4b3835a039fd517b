//! What is published to the platform, and where.
//!
//! Two things are published: once, during startup, the inventories of the
//! operating system, the hardware and the runtime; and afterwards, whenever
//! the telemetry subsystem produces one, a payload. The data itself is the
//! host's; this module fixes the interface and path of each publish and the
//! order of the initial ones.

use vstd::prelude::*;

verus! {

/// The interface of the periodic system status.
pub const SYSTEM_STATUS_INTERFACE: &'static str = "io.edgehog.devicemanager.SystemStatus";

/// The path of the periodic system status.
pub const SYSTEM_STATUS_PATH: &'static str = "/systemStatus";

/// The interface of the operating system's inventory.
pub const OS_INFO_INTERFACE: &'static str = "io.edgehog.devicemanager.OSInfo";

/// The interface of the hardware's inventory.
pub const HARDWARE_INFO_INTERFACE: &'static str = "io.edgehog.devicemanager.HardwareInfo";

/// The interface of the runtime's inventory.
pub const RUNTIME_INFO_INTERFACE: &'static str = "io.edgehog.devicemanager.RuntimeInfo";

/// What the telemetry subsystem produces.
#[derive(Debug, Clone, PartialEq, Eq)]
pub enum TelemetryPayload<S> {
    SystemStatus(S),
}

/// One publish over the transport.
#[derive(Debug, Clone, PartialEq, Eq)]
pub struct Publish<D> {
    pub interface: String,
    pub path: String,
    pub data: D,
}

/// The mathematical value of a [`Publish`].
pub struct PublishView<D> {
    pub interface: Seq<char>,
    pub path: Seq<char>,
    pub data: D,
}

impl<D> View for Publish<D> {
    type V = PublishView<D>;

    open spec fn view(&self) -> PublishView<D> {
        PublishView { interface: self.interface@, path: self.path@, data: self.data }
    }
}

impl<D> DeepView for Publish<D> {
    type V = PublishView<D>;

    open spec fn deep_view(&self) -> PublishView<D> {
        self@
    }
}

/// Where a telemetry payload is published.
pub open spec fn telemetry_target<S>(payload: TelemetryPayload<S>) -> PublishView<S> {
    match payload {
        TelemetryPayload::SystemStatus(status) => PublishView {
            interface: SYSTEM_STATUS_INTERFACE@,
            path: SYSTEM_STATUS_PATH@,
            data: status,
        },
    }
}

/// The publishes of one inventory: one for each field, at the field's path,
/// in the order of the fields.
pub open spec fn inventory_publishes<V>(interface: Seq<char>, fields: Seq<(String, V)>) -> Seq<PublishView<V>> {
    Seq::new(fields.len(), |i: int| PublishView { interface, path: fields[i].0@, data: fields[i].1 })
}

/// The publishes of the initial telemetry: the operating system's inventory
/// first, then the hardware's, then the runtime's.
pub open spec fn initial_telemetry<V>(
    os_info: Seq<(String, V)>,
    hardware_info: Seq<(String, V)>,
    runtime_info: Seq<(String, V)>,
) -> Seq<PublishView<V>> {
    inventory_publishes(OS_INFO_INTERFACE@, os_info) + inventory_publishes(HARDWARE_INFO_INTERFACE@, hardware_info)
        + inventory_publishes(RUNTIME_INFO_INTERFACE@, runtime_info)
}

/// Says where a telemetry payload is published.
pub fn telemetry_publish<S>(payload: TelemetryPayload<S>) -> (publish: Publish<S>)
    ensures
        publish@ == telemetry_target(payload),
{
    match payload {
        TelemetryPayload::SystemStatus(status) => Publish {
            interface: SYSTEM_STATUS_INTERFACE.to_string(),
            path: SYSTEM_STATUS_PATH.to_string(),
            data: status,
        },
    }
}

/// Appends the publishes of one inventory to a plan.
fn plan_inventory<V>(plan: &mut Vec<Publish<V>>, interface: &str, fields: Vec<(String, V)>)
    ensures
        final(plan).deep_view() == old(plan).deep_view() + inventory_publishes(interface@, fields@),
{
    let ghost before = plan.deep_view();
    assert(plan.deep_view() =~= before + inventory_publishes(interface@, fields@).take(0));
    for field in remaining: fields.into_iter()
        invariant
            remaining.seq() == fields@,
            plan.deep_view() == before + inventory_publishes(interface@, fields@).take(remaining.index() as int),
    {
        let ghost planned = plan.deep_view();
        let (path, data) = field;
        plan.push(Publish { interface: interface.to_string(), path, data });
        assert(plan.deep_view() =~= planned.push(inventory_publishes(interface@, fields@)[remaining.index() as int]));
        assert(plan.deep_view() =~= before + inventory_publishes(interface@, fields@).take(
            remaining.index() + 1 as int,
        ));
    }
    assert(inventory_publishes(interface@, fields@).take(fields@.len() as int) =~= inventory_publishes(
        interface@,
        fields@,
    ));
}

/// Plans the initial telemetry: every field of the three inventories, each
/// under the interface of its inventory, in order.
pub fn initial_telemetry_plan<V>(
    os_info: Vec<(String, V)>,
    hardware_info: Vec<(String, V)>,
    runtime_info: Vec<(String, V)>,
) -> (plan: Vec<Publish<V>>)
    ensures
        plan.deep_view() == initial_telemetry(os_info@, hardware_info@, runtime_info@),
{
    let mut plan: Vec<Publish<V>> = Vec::new();
    assert(plan.deep_view() =~= Seq::<PublishView<V>>::empty());
    plan_inventory(&mut plan, OS_INFO_INTERFACE, os_info);
    plan_inventory(&mut plan, HARDWARE_INFO_INTERFACE, hardware_info);
    plan_inventory(&mut plan, RUNTIME_INFO_INTERFACE, runtime_info);
    assert(plan.deep_view() =~= initial_telemetry(os_info@, hardware_info@, runtime_info@));
    plan
}

} // verus!
