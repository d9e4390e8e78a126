//! The dialog for choosing an input device.

use vstd::prelude::*;
use vstd::string::*;

verus! {

/// State for the device selection dialog.
#[derive(Debug, Clone)]
pub struct DeviceDialogState {
    /// Currently selected device index in the dialog
    pub selected_index: usize,
    /// List of available devices
    pub devices: Vec<String>,
    /// Index of the currently active device
    pub current_device_index: usize,
}

impl DeviceDialogState {
    /// The dialog with the active device selected.
    pub fn new(devices: Vec<String>, current_device_index: usize) -> (state: Self)
        ensures
            state.selected_index == current_device_index,
            state.devices == devices,
            state.current_device_index == current_device_index,
    {
        Self { selected_index: current_device_index, devices, current_device_index }
    }

    /// Moves the selection up, unless the first device is selected.
    pub fn select_previous(&mut self)
        ensures
            final(self).selected_index == if old(self).selected_index > 0 {
                (old(self).selected_index - 1) as usize
            } else {
                old(self).selected_index
            },
            final(self).devices == old(self).devices,
            final(self).current_device_index == old(self).current_device_index,
    {
        if self.selected_index > 0 {
            self.selected_index -= 1;
        }
    }

    /// Moves the selection down, unless the last device is selected.
    pub fn select_next(&mut self)
        ensures
            final(self).selected_index == if old(self).selected_index + 1 < old(
                self,
            ).devices@.len() {
                (old(self).selected_index + 1) as usize
            } else {
                old(self).selected_index
            },
            final(self).devices == old(self).devices,
            final(self).current_device_index == old(self).current_device_index,
    {
        let count = self.devices.len();
        if self.selected_index < count && self.selected_index + 1 < count {
            self.selected_index += 1;
        }
    }

    /// The index of the selected device.
    pub fn selected(&self) -> (index: usize)
        ensures
            index == self.selected_index,
    {
        self.selected_index
    }

    /// How many rows the dialog takes on a screen of the given height: one
    /// for each device and four more, but four rows of the screen stay free.
    pub fn dialog_height(&self, screen_height: u16) -> (rows: u16)
        ensures
            rows == dialog_rows(self.devices@.len(), screen_height),
    {
        let room: u16 = if screen_height >= 4 {
            screen_height - 4
        } else {
            0
        };
        let count = self.devices.len();
        if count >= 65531 {
            room
        } else {
            let wanted: u16 = count as u16 + 4;
            if wanted < room {
                wanted
            } else {
                room
            }
        }
    }
}

/// The rows of the device dialog for a number of devices.
pub open spec fn dialog_rows(devices: nat, screen_height: u16) -> u16 {
    let room = if screen_height >= 4 {
        (screen_height - 4) as u16
    } else {
        0u16
    };
    if devices + 4 < room {
        (devices + 4) as u16
    } else {
        room
    }
}

/// The offset that centres a span of `inner` within one of `outer`.
pub open spec fn centred(outer: u16, inner: u16) -> u16 {
    if outer >= inner {
        ((outer - inner) / 2) as u16
    } else {
        0
    }
}

/// The offset that centres a dialog on the screen.
pub fn centre_offset(outer: u16, inner: u16) -> (offset: u16)
    ensures
        offset == centred(outer, inner),
{
    if outer >= inner {
        (outer - inner) / 2
    } else {
        0
    }
}

} // verus!
