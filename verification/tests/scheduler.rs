use control_panel::scheduler::{startup_plan, Task};
use control_panel::web::WEB_TASK_POOL_SIZE;

#[test]
fn startup_plan_spawns_each_task_once() {
    let plan = startup_plan();
    assert_eq!(plan.len(), 8 + WEB_TASK_POOL_SIZE);
    for i in 0..plan.len() {
        for j in (i + 1)..plan.len() {
            assert_ne!(plan[i], plan[j]);
        }
    }
}

#[test]
fn startup_plan_order_and_pool() {
    let plan = startup_plan();
    assert_eq!(plan[0], Task::Blinker);
    assert_eq!(plan[1], Task::UsbDevice);
    assert_eq!(plan[2], Task::UsbEthernet);
    assert_eq!(plan[3], Task::NetworkStack);
    assert_eq!(plan[4], Task::DhcpServer);
    assert_eq!(plan[5], Task::MdnsResponder);
    let pool = plan
        .iter()
        .filter(|t| matches!(t, Task::WebHandler(_)))
        .count();
    assert_eq!(pool, WEB_TASK_POOL_SIZE);
    assert_eq!(plan[plan.len() - 2], Task::HidResponder);
    assert_eq!(plan[plan.len() - 1], Task::JoystickLoop);
}
