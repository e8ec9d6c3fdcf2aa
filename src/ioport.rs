//! Pin multiplexing: the pin table and its driver handle.

use vstd::prelude::*;

use crate::fsp::{fsp_result, spec_fsp_result};

verus! {

/// The word that the firmware stores in an open pin-configuration control block.
pub const IOPORT_OPEN: u32 = 0x494F_5254;

/// The setting of one pin.
#[derive(Clone, Copy, Debug, PartialEq, Eq, Structural)]
pub struct IoPortPinCfg {
    pub pin_cfg: u32,
    pub pin: u16,
}

/// The part of the pin-configuration control block that the driver reads.
#[derive(Clone, Copy, Debug, PartialEq, Eq, Structural)]
pub struct IoPortCtrl {
    pub open: u32,
}

/// A pin-configuration driver handle, bound to one control block.
pub struct IoPortInstance {
    ctrl: IoPortCtrl,
}

/// The pin table as an application writes it.
pub struct IoPortConfig(pub Vec<IoPortPinCfg>);

/// The pin table in the layout that the firmware reads.
pub struct IoPortCfg {
    pub number_of_pins: u16,
    pub pin_cfg_data: Vec<IoPortPinCfg>,
}

/// A pin-configuration instance bound to its table.
pub struct IoPortHandle {
    pub cfg: IoPortCfg,
}

/// The control block after an open call that returned `code`.
pub open spec fn ioport_ctrl_after_open(ctrl: IoPortCtrl, code: u32) -> IoPortCtrl {
    if code == 0 {
        IoPortCtrl { open: IOPORT_OPEN }
    } else {
        ctrl
    }
}

/// The control block after a close call that returned `code`.
pub open spec fn ioport_ctrl_after_close(ctrl: IoPortCtrl, code: u32) -> IoPortCtrl {
    if code == 0 {
        IoPortCtrl { open: 0 }
    } else {
        ctrl
    }
}

/// The operations shared by pin-configuration drivers. `code` is what the
/// firmware returned for the call.
pub trait IoPort: Sized {
    spec fn spec_ctrl(&self) -> IoPortCtrl;

    fn open(&mut self, conf: &IoPortCfg, code: u32) -> (r: Result<(), u32>)
        ensures
            r == spec_fsp_result(code),
            final(self).spec_ctrl() == ioport_ctrl_after_open(old(self).spec_ctrl(), code),
    ;

    fn close(&mut self, code: u32) -> (r: Result<(), u32>)
        ensures
            r == spec_fsp_result(code),
            final(self).spec_ctrl() == ioport_ctrl_after_close(old(self).spec_ctrl(), code),
    ;

    fn c_dyn(&self, conf: IoPortCfg) -> (r: IoPortHandle)
        ensures
            r.cfg == conf,
    ;
}

/// Binds a pin-configuration instance to its table.
pub fn c_dyn(this: &IoPortInstance, conf: IoPortCfg) -> (r: IoPortHandle)
    ensures
        r.cfg == conf,
{
    IoPortHandle { cfg: conf }
}

impl IoPort for IoPortInstance {
    closed spec fn spec_ctrl(&self) -> IoPortCtrl {
        self.ctrl
    }

    fn open(&mut self, conf: &IoPortCfg, code: u32) -> (r: Result<(), u32>) {
        if code == 0 {
            self.ctrl.open = IOPORT_OPEN;
        }
        fsp_result(code)
    }

    fn close(&mut self, code: u32) -> (r: Result<(), u32>) {
        if code == 0 {
            self.ctrl.open = 0;
        }
        fsp_result(code)
    }

    fn c_dyn(&self, conf: IoPortCfg) -> (r: IoPortHandle) {
        c_dyn(self, conf)
    }
}

impl IoPortInstance {
    /// A closed instance: firmware calls other than open fail on it.
    pub fn new() -> (r: Self)
        ensures
            r.spec_ctrl() == (IoPortCtrl { open: 0 }),
    {
        IoPortInstance { ctrl: IoPortCtrl { open: 0 } }
    }

    /// The control block.
    pub fn ptr(&self) -> (r: &IoPortCtrl)
        ensures
            *r == self.spec_ctrl(),
    {
        &self.ctrl
    }
}

impl IoPortConfig {
    pub fn new(data: Vec<IoPortPinCfg>) -> (r: Self)
        ensures
            r.0@ == data@,
    {
        IoPortConfig(data)
    }

    /// The table in the firmware's layout. The pin count is a 16-bit field,
    /// so the table holds at most 65535 pins.
    pub fn c_conf(self) -> (r: IoPortCfg)
        requires
            self.0@.len() <= u16::MAX,
        ensures
            r.number_of_pins as int == self.0@.len(),
            r.pin_cfg_data@ == self.0@,
    {
        let n = self.0.len() as u16;
        IoPortCfg { number_of_pins: n, pin_cfg_data: self.0 }
    }
}

} // verus!
