//! The task supervisor's startup plan.
//!
//! One execution context runs many cooperative tasks; the supervisor
//! spawns each exactly once at startup and never respawns anything. Every
//! task is non-returning, so a task that ends is a fatal condition for the
//! whole device — there is no restart policy. The plan fixes which tasks
//! exist, how many web handlers the fixed pool holds, and the order they
//! are brought up in.

use crate::web::WEB_TASK_POOL_SIZE;
use vstd::prelude::*;

verus! {

/// One cooperative task of the device.
#[derive(Clone, Copy, PartialEq, Eq, Structural, Debug)]
pub enum Task {
    /// The liveness blinker.
    Blinker,
    /// The USB device state machine over the shared transceiver.
    UsbDevice,
    /// The virtual-Ethernet function's runner.
    UsbEthernet,
    /// The network stack's runner.
    NetworkStack,
    /// The address-assignment responder.
    DhcpServer,
    /// The name-resolution responder.
    MdnsResponder,
    /// One slot of the web-handler pool.
    WebHandler(u8),
    /// The HID control-request loop.
    HidResponder,
    /// The sampling and report loop.
    JoystickLoop,
}

/// The plan the supervisor follows at startup.
pub open spec fn startup_plan_spec() -> Seq<Task> {
    seq![
        Task::Blinker,
        Task::UsbDevice,
        Task::UsbEthernet,
        Task::NetworkStack,
        Task::DhcpServer,
        Task::MdnsResponder,
        Task::WebHandler(0),
        Task::WebHandler(1),
        Task::WebHandler(2),
        Task::HidResponder,
        Task::JoystickLoop,
    ]
}

/// The startup plan: the USB device and its functions first, then the
/// network services, then one web handler per pool slot, then the two
/// joystick-side loops. No entry repeats — each task is spawned exactly
/// once for the life of the device.
pub fn startup_plan() -> (plan: Vec<Task>)
    ensures
        plan@ == startup_plan_spec(),
        plan@.len() == 8 + WEB_TASK_POOL_SIZE,
        forall|i: int, j: int| 0 <= i < j < plan@.len() ==> plan@[i] != plan@[j],
{
    let mut plan: Vec<Task> = Vec::new();
    plan.push(Task::Blinker);
    plan.push(Task::UsbDevice);
    plan.push(Task::UsbEthernet);
    plan.push(Task::NetworkStack);
    plan.push(Task::DhcpServer);
    plan.push(Task::MdnsResponder);
    plan.push(Task::WebHandler(0));
    plan.push(Task::WebHandler(1));
    plan.push(Task::WebHandler(2));
    plan.push(Task::HidResponder);
    plan.push(Task::JoystickLoop);
    proof {
        assert(plan@ =~= startup_plan_spec());
    }
    plan
}

} // verus!
