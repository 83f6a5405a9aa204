//! The device list store: holds the fetched device collection, the current
//! selection and the modal's visibility flag, reduces the messages that
//! drive them, and renders the table rows with their up/total summary.

use crate::device::{up_count, Device, DeviceModel};
use crate::text::{dec_rep, dec_string};
use vstd::prelude::*;

verus! {

/// The device list page: the fetched devices, the modal handshake state,
/// and what the one outstanding fetch is up to.
#[derive(Debug, Clone)]
pub struct Devices {
    pub devices: Vec<Device>,
    pub modal_visible: bool,
    pub current_device: Option<Device>,
    pub fetch_pending: bool,
    pub fetch_failed: bool,
}

/// The messages the list store reacts to.
#[derive(Debug, Clone)]
pub enum DevicesMsg {
    FetchOk(Vec<Device>),
    FetchFail,
    ShowDeviceModal(Device),
    HideDeviceModal,
    AddDeviceModal,
}

/// What the store asks its owner to do when it is created.
#[derive(Debug, Clone, Copy, PartialEq, Eq, Structural)]
pub enum DevicesAction {
    /// Fetch the device collection and report the outcome back as
    /// `FetchOk` or `FetchFail`.
    FetchDevices,
}

/// Mathematical model of the list store.
pub struct DevicesModel {
    pub devices: Seq<DeviceModel>,
    pub modal_visible: bool,
    pub current_device: Option<DeviceModel>,
    pub fetch_pending: bool,
    pub fetch_failed: bool,
}

/// The events of the store's reducer.
pub enum DevicesEvent {
    FetchOk(Seq<DeviceModel>),
    FetchFail,
    ShowDeviceModal(DeviceModel),
    HideDeviceModal,
    AddDeviceModal,
}

impl View for Devices {
    type V = DevicesModel;

    open spec fn view(&self) -> DevicesModel {
        DevicesModel {
            devices: self.devices@.map_values(|d: Device| d@),
            modal_visible: self.modal_visible,
            current_device: match self.current_device {
                Some(d) => Some(d@),
                None => None,
            },
            fetch_pending: self.fetch_pending,
            fetch_failed: self.fetch_failed,
        }
    }
}

impl View for DevicesMsg {
    type V = DevicesEvent;

    open spec fn view(&self) -> DevicesEvent {
        match self {
            DevicesMsg::FetchOk(devices) => DevicesEvent::FetchOk(
                devices@.map_values(|d: Device| d@),
            ),
            DevicesMsg::FetchFail => DevicesEvent::FetchFail,
            DevicesMsg::ShowDeviceModal(d) => DevicesEvent::ShowDeviceModal(d@),
            DevicesMsg::HideDeviceModal => DevicesEvent::HideDeviceModal,
            DevicesMsg::AddDeviceModal => DevicesEvent::AddDeviceModal,
        }
    }
}

/// The store a fresh page starts from: nothing fetched yet, the modal
/// hidden, no selection, and the initial fetch in flight.
pub open spec fn initial_devices() -> DevicesModel {
    DevicesModel {
        devices: Seq::empty(),
        modal_visible: false,
        current_device: None,
        fetch_pending: false,
        fetch_failed: false,
    }
}

/// One step of the store's reducer: the next state and whether the page
/// must re-render. A fetch failure keeps the empty list but records the
/// failure so the page can show it; hiding the modal clears the selection,
/// completing the select/close handshake; the add-node affordance is a
/// stub that changes nothing.
pub open spec fn devices_step(s: DevicesModel, e: DevicesEvent) -> (DevicesModel, bool) {
    match e {
        DevicesEvent::FetchOk(devices) => (
            DevicesModel {
                devices: devices,
                modal_visible: s.modal_visible,
                current_device: s.current_device,
                fetch_pending: false,
                fetch_failed: false,
            },
            true,
        ),
        DevicesEvent::FetchFail => (
            DevicesModel {
                devices: s.devices,
                modal_visible: s.modal_visible,
                current_device: s.current_device,
                fetch_pending: false,
                fetch_failed: true,
            },
            true,
        ),
        DevicesEvent::ShowDeviceModal(d) => (
            DevicesModel {
                devices: s.devices,
                modal_visible: true,
                current_device: Some(d),
                fetch_pending: s.fetch_pending,
                fetch_failed: s.fetch_failed,
            },
            true,
        ),
        DevicesEvent::HideDeviceModal => (
            DevicesModel {
                devices: s.devices,
                modal_visible: false,
                current_device: None,
                fetch_pending: s.fetch_pending,
                fetch_failed: s.fetch_failed,
            },
            true,
        ),
        DevicesEvent::AddDeviceModal => (s, true),
    }
}

impl Devices {
    /// A fresh store; the caller must perform the returned action (the one
    /// startup fetch) and feed its outcome back in as a message.
    pub fn create() -> (r: (Devices, DevicesAction))
        ensures
            r.0@ == (DevicesModel { fetch_pending: true, ..initial_devices() }),
            (r.1 == DevicesAction::FetchDevices),
    {
        let store = Devices {
            devices: Vec::new(),
            modal_visible: false,
            current_device: None,
            fetch_pending: true,
            fetch_failed: false,
        };
        proof {
            assert(store@.devices =~= Seq::<DeviceModel>::empty());
        }
        (store, DevicesAction::FetchDevices)
    }

    /// Applies one message and says whether the page must re-render.
    pub fn update(&mut self, msg: DevicesMsg) -> (r: bool)
        ensures
            final(self)@ == devices_step(old(self)@, msg@).0,
            r == devices_step(old(self)@, msg@).1,
    {
        match msg {
            DevicesMsg::FetchOk(devices) => {
                self.devices = devices;
                self.fetch_pending = false;
                self.fetch_failed = false;
                true
            },
            DevicesMsg::FetchFail => {
                self.fetch_pending = false;
                self.fetch_failed = true;
                true
            },
            DevicesMsg::ShowDeviceModal(d) => {
                self.modal_visible = true;
                self.current_device = Some(d);
                true
            },
            DevicesMsg::HideDeviceModal => {
                self.modal_visible = false;
                self.current_device = None;
                true
            },
            DevicesMsg::AddDeviceModal => true,
        }
    }
}

/// The state-column text for a device: `"<up>/<total>"`.
pub open spec fn summary_text(up: nat, total: nat) -> Seq<char> {
    dec_rep(up) + seq!['/'] + dec_rep(total)
}

/// One table row of the device list.
#[derive(Debug, Clone)]
pub struct DeviceRowRender {
    pub node_id: u128,
    pub name: String,
    pub location: String,
    pub state: String,
}

/// Everything the device list page shows, free of markup.
#[derive(Debug, Clone)]
pub struct DevicesRender {
    pub rows: Vec<DeviceRowRender>,
    pub modal_open: bool,
    pub error_visible: bool,
}

impl Devices {
    /// Renders the table: one row per fetched device in order, each with
    /// its up/total state text; the modal is mounted open exactly when a
    /// device is selected and the visibility flag is set.
    pub fn render(&self) -> (r: DevicesRender)
        ensures
            r.rows@.len() == self@.devices.len(),
            forall|i: int|
                0 <= i < r.rows@.len() ==> {
                    &&& (#[trigger] r.rows@[i]).node_id == self@.devices[i].node_id
                    &&& r.rows@[i].name@ == self@.devices[i].name
                    &&& r.rows@[i].location@ == self@.devices[i].location
                    &&& r.rows@[i].state@ == summary_text(
                        up_count(self@.devices[i].interfaces) as nat,
                        self@.devices[i].interfaces.len(),
                    )
                },
            r.modal_open == (self@.modal_visible && self@.current_device is Some),
            r.error_visible == self@.fetch_failed,
    {
        let total = self.devices.len();
        let mut rows: Vec<DeviceRowRender> = Vec::new();
        let mut i: usize = 0;
        while i < total
            invariant
                i <= total,
                total == self.devices@.len(),
                rows@.len() == i,
                forall|j: int|
                    0 <= j < i ==> {
                        &&& (#[trigger] rows@[j]).node_id == self@.devices[j].node_id
                        &&& rows@[j].name@ == self@.devices[j].name
                        &&& rows@[j].location@ == self@.devices[j].location
                        &&& rows@[j].state@ == summary_text(
                            up_count(self@.devices[j].interfaces) as nat,
                            self@.devices[j].interfaces.len(),
                        )
                    },
            decreases total - i,
        {
            let row = device_row(&self.devices[i]);
            rows.push(row);
            i = i + 1;
        }
        DevicesRender {
            rows,
            modal_open: self.modal_visible && self.current_device.is_some(),
            error_visible: self.fetch_failed,
        }
    }
}

/// Renders one device's table row.
pub fn device_row(d: &Device) -> (r: DeviceRowRender)
    ensures
        r.node_id == d@.node_id,
        r.name@ == d@.name,
        r.location@ == d@.location,
        r.state@ == summary_text(up_count(d@.interfaces) as nat, d@.interfaces.len()),
{
    let (up, total) = d.interface_summary();
    let mut state = dec_string(up);
    state.append("/");
    let tail = dec_string(total);
    state.append(tail.as_str());
    proof {
        reveal_strlit("/");
        assert("/"@ =~= seq!['/']);
        assert(state@ =~= summary_text(up_count(d@.interfaces) as nat, d@.interfaces.len()));
    }
    DeviceRowRender {
        node_id: d.node_id,
        name: d.name.clone(),
        location: d.location.clone(),
        state,
    }
}

} // verus!
