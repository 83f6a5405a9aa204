use device_dashboard::device::{CheckMethod, Device, Interface, InterfaceStatus};
use device_dashboard::devices::{device_row, Devices, DevicesAction, DevicesMsg};
use device_dashboard::RootModel;

fn iface(addr: &str, status: InterfaceStatus) -> Interface {
    Interface {
        check_method: CheckMethod::Ping,
        interface: addr.to_string(),
        status,
    }
}

fn fetched_device() -> Device {
    Device {
        node_id: 42,
        name: "core".to_string(),
        location: "dc1".to_string(),
        interfaces: vec![
            iface("10.0.0.1", InterfaceStatus::Up),
            iface("10.0.0.2", InterfaceStatus::Down),
        ],
    }
}

#[test]
fn create_starts_empty_with_a_fetch_in_flight() {
    let (store, action) = Devices::create();
    assert!(store.devices.is_empty());
    assert!(!store.modal_visible);
    assert!(store.current_device.is_none());
    assert!(store.fetch_pending);
    assert!(!store.fetch_failed);
    assert_eq!(action, DevicesAction::FetchDevices);
}

#[test]
fn fetch_ok_installs_the_devices() {
    let (mut store, _) = Devices::create();
    let rerender = store.update(DevicesMsg::FetchOk(vec![fetched_device()]));
    assert!(rerender);
    assert_eq!(store.devices.len(), 1);
    assert!(!store.fetch_pending);
    assert!(!store.fetch_failed);
}

#[test]
fn fetch_failure_keeps_the_list_empty_and_shows_an_error() {
    let (mut store, _) = Devices::create();
    let rerender = store.update(DevicesMsg::FetchFail);
    assert!(rerender);
    assert!(store.devices.is_empty());
    assert!(!store.fetch_pending);
    assert!(store.fetch_failed);
    assert!(store.render().error_visible);
}

#[test]
fn fetched_row_shows_one_of_two_up() {
    let (mut store, _) = Devices::create();
    store.update(DevicesMsg::FetchOk(vec![fetched_device()]));
    let r = store.render();
    assert_eq!(r.rows.len(), 1);
    assert_eq!(r.rows[0].node_id, 42);
    assert_eq!(r.rows[0].name, "core");
    assert_eq!(r.rows[0].location, "dc1");
    assert_eq!(r.rows[0].state, "1/2");
}

#[test]
fn row_summary_renders_multi_digit_counts() {
    let mut interfaces = Vec::new();
    for i in 0..12 {
        let status = if i < 10 {
            InterfaceStatus::Up
        } else {
            InterfaceStatus::Down
        };
        interfaces.push(iface(&format!("10.0.0.{}", i), status));
    }
    let d = Device {
        node_id: 7,
        name: "big".to_string(),
        location: "dc3".to_string(),
        interfaces,
    };
    let row = device_row(&d);
    assert_eq!(row.state, "10/12");
}

#[test]
fn selecting_a_device_opens_the_modal() {
    let (mut store, _) = Devices::create();
    store.update(DevicesMsg::FetchOk(vec![fetched_device()]));
    let rerender = store.update(DevicesMsg::ShowDeviceModal(fetched_device()));
    assert!(rerender);
    assert!(store.modal_visible);
    assert_eq!(store.current_device.as_ref().map(|d| d.node_id), Some(42));
    assert!(store.render().modal_open);
}

#[test]
fn closing_the_modal_clears_visibility_and_selection() {
    let (mut store, _) = Devices::create();
    store.update(DevicesMsg::ShowDeviceModal(fetched_device()));
    let rerender = store.update(DevicesMsg::HideDeviceModal);
    assert!(rerender);
    assert!(!store.modal_visible);
    assert!(store.current_device.is_none());
    assert!(!store.render().modal_open);
}

#[test]
fn add_node_is_a_stub_that_changes_nothing() {
    let (mut store, _) = Devices::create();
    store.update(DevicesMsg::FetchOk(vec![fetched_device()]));
    let rerender = store.update(DevicesMsg::AddDeviceModal);
    assert!(rerender);
    assert_eq!(store.devices.len(), 1);
    assert!(!store.modal_visible);
    assert!(store.current_device.is_none());
}

#[test]
fn root_shell_renders_its_heading() {
    let mut root = RootModel::create();
    assert!(root.update());
    assert_eq!(root.render(), "My nodes");
}
