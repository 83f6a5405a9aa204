//! The device modal: a state machine over one device snapshot that toggles
//! between read-only viewing and editing, decodes the submitted form, and
//! asks its owner to perform the network effects it cannot do itself.

use crate::device::{
    check_method_text, decoded_device, status_text, Device, DeviceModel, FormModel, FormSnapshot,
    Interface,
};
use vstd::prelude::*;

verus! {

/// Where the modal stands: hidden, showing a device read-only, editing it,
/// or waiting for a submit round-trip to finish.
#[derive(Debug, Clone, Copy, PartialEq, Eq, Structural)]
pub enum ModalMode {
    Hidden,
    Viewing,
    Editing,
    Submitting,
}

/// What the owner hands the modal when it mounts it.
#[derive(Debug, Clone)]
pub struct DeviceModalProps {
    pub device: Device,
    pub visible: bool,
}

/// The messages the modal reacts to.
#[derive(Debug, Clone)]
pub enum DeviceModalMsg {
    HideModal,
    EditDevice,
    FinishEdit,
    SubmitDevice(FormSnapshot),
    SubmitSuccess,
    SubmitFail,
}

/// What a step of the modal asks its owner to do.
#[derive(Debug, Clone)]
pub enum ModalEffect {
    /// Nothing to do.
    NoEffect,
    /// Send this device in an upsert request, then report the outcome back
    /// as `SubmitSuccess` or `SubmitFail`.
    SubmitRequest(Device),
    /// Tell the owner the modal closed, so it can drop its own visibility
    /// flag and selection.
    NotifyClosed,
}

/// Mathematical model of the modal's state.
pub struct ModalModel {
    pub device: DeviceModel,
    pub mode: ModalMode,
    pub submit_error: bool,
}

/// The events of the modal's transition table.
pub enum ModalEvent {
    Open(DeviceModel),
    Close,
    RequestEdit,
    FinishEdit,
    Submit(FormModel),
    SubmitSucceeded,
    SubmitFailed,
}

/// Mathematical model of a [`ModalEffect`].
pub enum ModalEffectModel {
    NoEffect,
    SubmitRequest(DeviceModel),
    NotifyClosed,
}

/// One step of the modal state machine: the next state and the effect the
/// owner must perform. Events that the current mode does not admit (for
/// example a stale submit reply outside `Submitting`) leave the state
/// unchanged and ask for nothing.
pub open spec fn modal_step(m: ModalModel, e: ModalEvent) -> (ModalModel, ModalEffectModel) {
    match e {
        ModalEvent::Open(d) => (
            ModalModel { device: d, mode: ModalMode::Viewing, submit_error: false },
            ModalEffectModel::NoEffect,
        ),
        ModalEvent::Close => if m.mode == ModalMode::Hidden {
            (m, ModalEffectModel::NoEffect)
        } else {
            (
                ModalModel { device: m.device, mode: ModalMode::Hidden, submit_error: m.submit_error },
                ModalEffectModel::NotifyClosed,
            )
        },
        ModalEvent::RequestEdit => if m.mode == ModalMode::Viewing {
            (
                ModalModel { device: m.device, mode: ModalMode::Editing, submit_error: m.submit_error },
                ModalEffectModel::NoEffect,
            )
        } else {
            (m, ModalEffectModel::NoEffect)
        },
        ModalEvent::FinishEdit => if m.mode == ModalMode::Editing {
            (
                ModalModel { device: m.device, mode: ModalMode::Viewing, submit_error: m.submit_error },
                ModalEffectModel::NoEffect,
            )
        } else {
            (m, ModalEffectModel::NoEffect)
        },
        ModalEvent::Submit(f) => if m.mode == ModalMode::Editing {
            (
                ModalModel { device: m.device, mode: ModalMode::Submitting, submit_error: false },
                ModalEffectModel::SubmitRequest(decoded_device(m.device.node_id, f)),
            )
        } else {
            (m, ModalEffectModel::NoEffect)
        },
        ModalEvent::SubmitSucceeded => if m.mode == ModalMode::Submitting {
            (
                ModalModel { device: m.device, mode: ModalMode::Viewing, submit_error: false },
                ModalEffectModel::NoEffect,
            )
        } else {
            (m, ModalEffectModel::NoEffect)
        },
        ModalEvent::SubmitFailed => if m.mode == ModalMode::Submitting {
            (
                ModalModel { device: m.device, mode: ModalMode::Viewing, submit_error: true },
                ModalEffectModel::NoEffect,
            )
        } else {
            (m, ModalEffectModel::NoEffect)
        },
    }
}

/// The detail/edit overlay for a single selected device.
#[derive(Debug, Clone)]
pub struct DeviceModal {
    pub device: Device,
    pub mode: ModalMode,
    pub submit_error: bool,
}

impl View for DeviceModal {
    type V = ModalModel;

    open spec fn view(&self) -> ModalModel {
        ModalModel { device: self.device@, mode: self.mode, submit_error: self.submit_error }
    }
}

impl View for DeviceModalMsg {
    type V = ModalEvent;

    open spec fn view(&self) -> ModalEvent {
        match self {
            DeviceModalMsg::HideModal => ModalEvent::Close,
            DeviceModalMsg::EditDevice => ModalEvent::RequestEdit,
            DeviceModalMsg::FinishEdit => ModalEvent::FinishEdit,
            DeviceModalMsg::SubmitDevice(f) => ModalEvent::Submit(f@),
            DeviceModalMsg::SubmitSuccess => ModalEvent::SubmitSucceeded,
            DeviceModalMsg::SubmitFail => ModalEvent::SubmitFailed,
        }
    }
}

impl View for ModalEffect {
    type V = ModalEffectModel;

    open spec fn view(&self) -> ModalEffectModel {
        match self {
            ModalEffect::NoEffect => ModalEffectModel::NoEffect,
            ModalEffect::SubmitRequest(d) => ModalEffectModel::SubmitRequest(d@),
            ModalEffect::NotifyClosed => ModalEffectModel::NotifyClosed,
        }
    }
}

impl DeviceModal {
    /// Mounts the modal over the device given by its properties; editing
    /// always starts switched off.
    pub fn create(props: DeviceModalProps) -> (m: DeviceModal)
        ensures
            m@.device == props.device@,
            m@.mode == (if props.visible {
                ModalMode::Viewing
            } else {
                ModalMode::Hidden
            }),
            !m@.submit_error,
    {
        let mode = if props.visible {
            ModalMode::Viewing
        } else {
            ModalMode::Hidden
        };
        DeviceModal { device: props.device, mode, submit_error: false }
    }

    /// Loads a device snapshot and shows it read-only. Visibility is driven
    /// by the owner: the modal never opens itself.
    pub fn open(&mut self, device: Device)
        ensures
            final(self)@ == modal_step(old(self)@, ModalEvent::Open(device@)).0,
    {
        self.device = device;
        self.mode = ModalMode::Viewing;
        self.submit_error = false;
    }

    /// Applies one message and returns the effect the owner must perform.
    /// A submitted form is decoded under the identity of the device being
    /// edited, so saving an edit keeps the device's key. A successful
    /// submit only returns the modal to viewing; it does not push the saved
    /// copy back into the list store, whose row stays as fetched until the
    /// owner refetches.
    pub fn update(&mut self, msg: DeviceModalMsg) -> (eff: ModalEffect)
        ensures
            final(self)@ == modal_step(old(self)@, msg@).0,
            eff@ == modal_step(old(self)@, msg@).1,
    {
        match msg {
            DeviceModalMsg::HideModal => {
                if self.mode == ModalMode::Hidden {
                    ModalEffect::NoEffect
                } else {
                    self.mode = ModalMode::Hidden;
                    ModalEffect::NotifyClosed
                }
            },
            DeviceModalMsg::EditDevice => {
                if self.mode == ModalMode::Viewing {
                    self.mode = ModalMode::Editing;
                }
                ModalEffect::NoEffect
            },
            DeviceModalMsg::FinishEdit => {
                if self.mode == ModalMode::Editing {
                    self.mode = ModalMode::Viewing;
                }
                ModalEffect::NoEffect
            },
            DeviceModalMsg::SubmitDevice(form) => {
                if self.mode == ModalMode::Editing {
                    let upsert = Device::decode_form_with_id(self.device.node_id, &form);
                    self.mode = ModalMode::Submitting;
                    self.submit_error = false;
                    ModalEffect::SubmitRequest(upsert)
                } else {
                    ModalEffect::NoEffect
                }
            },
            DeviceModalMsg::SubmitSuccess => {
                if self.mode == ModalMode::Submitting {
                    self.mode = ModalMode::Viewing;
                    self.submit_error = false;
                }
                ModalEffect::NoEffect
            },
            DeviceModalMsg::SubmitFail => {
                if self.mode == ModalMode::Submitting {
                    self.mode = ModalMode::Viewing;
                    self.submit_error = true;
                }
                ModalEffect::NoEffect
            },
        }
    }
}

/// How one interface row renders inside the modal. The status has no
/// editable flag on purpose: it is observed, never user-settable.
#[derive(Debug, Clone)]
pub struct InterfaceRowRender {
    pub address: String,
    pub address_editable: bool,
    pub check_method: String,
    pub check_method_editable: bool,
    pub status: String,
}

/// The buttons the modal's footer offers.
#[derive(Debug, Clone)]
pub struct FooterRender {
    pub edit_button: bool,
    pub finish_edit_button: bool,
    pub cancel_button: bool,
}

/// Everything the modal shows, free of markup: the field values, which of
/// them are editable right now, and whether a submit action is exposed.
#[derive(Debug, Clone)]
pub struct ModalRender {
    pub visible: bool,
    pub title: String,
    pub name: String,
    pub name_editable: bool,
    pub location: String,
    pub location_editable: bool,
    pub rows: Vec<InterfaceRowRender>,
    pub submit_enabled: bool,
    pub footer: FooterRender,
    pub error_visible: bool,
}

impl DeviceModal {
    /// Renders one interface row: address and check method become editable
    /// inputs exactly while editing, the status stays read-only text.
    pub fn render_interface(&self, row: &Interface) -> (r: InterfaceRowRender)
        ensures
            r.address@ == row@.interface,
            r.address_editable == (self@.mode == ModalMode::Editing),
            r.check_method@ == check_method_text(row@.check_method),
            r.check_method_editable == (self@.mode == ModalMode::Editing),
            r.status@ == status_text(row@.status),
    {
        let editing = self.mode == ModalMode::Editing;
        InterfaceRowRender {
            address: row.interface.clone(),
            address_editable: editing,
            check_method: String::from_str(row.check_method.format()),
            check_method_editable: editing,
            status: String::from_str(row.status.format()),
        }
    }

    /// Renders the footer: an edit button outside editing, a finish-edit
    /// button while editing, and a cancel button always.
    pub fn render_footer(&self) -> (r: FooterRender)
        ensures
            r.edit_button == (self@.mode != ModalMode::Editing),
            r.finish_edit_button == (self@.mode == ModalMode::Editing),
            r.cancel_button,
    {
        let editing = self.mode == ModalMode::Editing;
        FooterRender { edit_button: !editing, finish_edit_button: editing, cancel_button: true }
    }

    /// Renders the whole modal: visible unless hidden, the device's fields
    /// editable exactly while editing, one row per interface in order, and
    /// a submit action exposed only while editing.
    pub fn render(&self) -> (r: ModalRender)
        ensures
            r.visible == (self@.mode != ModalMode::Hidden),
            r.title@ == self@.device.name,
            r.name@ == self@.device.name,
            r.name_editable == (self@.mode == ModalMode::Editing),
            r.location@ == self@.device.location,
            r.location_editable == (self@.mode == ModalMode::Editing),
            r.submit_enabled == (self@.mode == ModalMode::Editing),
            r.footer.edit_button == (self@.mode != ModalMode::Editing),
            r.footer.finish_edit_button == (self@.mode == ModalMode::Editing),
            r.footer.cancel_button,
            r.error_visible == self@.submit_error,
            r.rows@.len() == self@.device.interfaces.len(),
            forall|i: int|
                0 <= i < r.rows@.len() ==> {
                    &&& (#[trigger] r.rows@[i]).address@ == self@.device.interfaces[i].interface
                    &&& r.rows@[i].address_editable == (self@.mode == ModalMode::Editing)
                    &&& r.rows@[i].check_method@ == check_method_text(
                        self@.device.interfaces[i].check_method,
                    )
                    &&& r.rows@[i].check_method_editable == (self@.mode == ModalMode::Editing)
                    &&& r.rows@[i].status@ == status_text(self@.device.interfaces[i].status)
                },
    {
        let editing = self.mode == ModalMode::Editing;
        let total = self.interfaces_len();
        let mut rows: Vec<InterfaceRowRender> = Vec::new();
        let mut i: usize = 0;
        while i < total
            invariant
                i <= total,
                total == self.device.interfaces@.len(),
                rows@.len() == i,
                forall|j: int|
                    0 <= j < i ==> {
                        &&& (#[trigger] rows@[j]).address@ == self@.device.interfaces[j].interface
                        &&& rows@[j].address_editable == (self@.mode == ModalMode::Editing)
                        &&& rows@[j].check_method@ == check_method_text(
                            self@.device.interfaces[j].check_method,
                        )
                        &&& rows@[j].check_method_editable == (self@.mode == ModalMode::Editing)
                        &&& rows@[j].status@ == status_text(self@.device.interfaces[j].status)
                    },
            decreases total - i,
        {
            let row = self.render_interface(&self.device.interfaces[i]);
            rows.push(row);
            i = i + 1;
        }
        ModalRender {
            visible: self.mode != ModalMode::Hidden,
            title: self.device.name.clone(),
            name: self.device.name.clone(),
            name_editable: editing,
            location: self.device.location.clone(),
            location_editable: editing,
            rows,
            submit_enabled: editing,
            footer: self.render_footer(),
            error_visible: self.submit_error,
        }
    }

    /// How many interface rows the held device has.
    fn interfaces_len(&self) -> (n: usize)
        ensures
            n == self@.device.interfaces.len(),
    {
        self.device.interfaces.len()
    }
}

/// The modal's transition table, read off the state machine: opening shows
/// the device for viewing; requesting an edit switches to editing; a submit
/// goes through `Submitting` carrying the decoded device under the edited
/// device's identity, and its completion returns to viewing; finishing an
/// edit returns to viewing without asking for any effect.
pub proof fn lemma_modal_transition_table(m: ModalModel, d: DeviceModel, f: FormModel)
    requires
        m.mode == ModalMode::Hidden,
    ensures
        ({
            let (viewing, e_open) = modal_step(m, ModalEvent::Open(d));
            let (editing, e_edit) = modal_step(viewing, ModalEvent::RequestEdit);
            let (submitting, e_submit) = modal_step(editing, ModalEvent::Submit(f));
            let (after_ok, e_ok) = modal_step(submitting, ModalEvent::SubmitSucceeded);
            let (reverted, e_finish) = modal_step(editing, ModalEvent::FinishEdit);
            &&& viewing.mode == ModalMode::Viewing && viewing.device == d
            &&& e_open == ModalEffectModel::NoEffect
            &&& editing.mode == ModalMode::Editing && editing.device == d
            &&& e_edit == ModalEffectModel::NoEffect
            &&& submitting.mode == ModalMode::Submitting
            &&& e_submit == ModalEffectModel::SubmitRequest(decoded_device(d.node_id, f))
            &&& after_ok.mode == ModalMode::Viewing && after_ok.device == d
            &&& e_ok == ModalEffectModel::NoEffect
            &&& reverted.mode == ModalMode::Viewing && reverted.device == d
            &&& e_finish == ModalEffectModel::NoEffect
        }),
{
}

} // verus!
