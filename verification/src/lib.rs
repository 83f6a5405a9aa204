//! A verified core for a network-device dashboard: the device/interface
//! domain model, the form decoder, the modal view/edit state machine and
//! the device list store, each written as pure data plus reducers so that
//! a rendering shell can drive them.

pub mod device;
pub mod device_modal;
pub mod devices;
pub mod text;

use vstd::prelude::*;

verus! {

/// The root of the dashboard: a shell that holds the device list page.
pub struct RootModel;

impl RootModel {
    /// Builds the root shell.
    pub fn create() -> (r: RootModel) {
        RootModel
    }

    /// The root has no messages of its own; any message asks for a re-render.
    pub fn update(&mut self) -> (r: bool)
        ensures
            r,
    {
        true
    }

    /// The heading the root shell renders above the device table.
    pub fn render(&self) -> (r: &'static str)
        ensures
            r@ == "My nodes"@,
    {
        "My nodes"
    }
}

} // verus!
