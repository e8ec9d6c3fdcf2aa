//! The PHY transceiver: its configuration and its driver handle.

use vstd::prelude::*;

use crate::fsp::{fsp_result, spec_fsp_result};

verus! {

/// The word that the firmware stores in an open PHY control block.
pub const ETHER_PHY_OPEN: u32 = 0x4554_4850;

/// The media-independent interface between MAC and PHY.
#[derive(Clone, Copy, Debug, PartialEq, Eq, Structural)]
pub enum EtherPhyMiiType {
    Mii,
    Rmii,
}

/// The part of the PHY control block that the driver reads.
#[derive(Clone, Copy, Debug, PartialEq, Eq, Structural)]
pub struct EtherPhyCtrl {
    pub open: u32,
}

/// A PHY driver handle, bound to one control block.
pub struct EtherPhyInstance {
    ctrl: EtherPhyCtrl,
}

/// The PHY settings as an application writes them.
#[derive(Clone, Copy, Debug)]
pub struct EtherPhyConfig {
    pub channel: u8,
    pub phy_lsi_address: u8,
    pub phy_reset_wait_time: u32,
    pub mii_bit_access_wait_time: i32,
    pub phy_lsi_type: u32,
    pub flow_control: bool,
    pub mii_type: EtherPhyMiiType,
}

/// The PHY settings in the layout that the firmware reads.
#[derive(Clone, Copy, Debug, PartialEq, Eq, Structural)]
pub struct EtherPhyCfg {
    pub channel: u8,
    pub phy_lsi_address: u8,
    pub phy_reset_wait_time: u32,
    pub mii_bit_access_wait_time: i32,
    pub phy_lsi_type: u32,
    pub flow_control: u32,
    pub mii_type: EtherPhyMiiType,
}

/// A PHY instance as the MAC configuration refers to it: the settings it
/// was bound with.
#[derive(Clone, Copy, Debug, PartialEq, Eq, Structural)]
pub struct EtherPhyHandle {
    pub cfg: EtherPhyCfg,
}

/// The control block after an open call that returned `code`.
pub open spec fn phy_ctrl_after_open(ctrl: EtherPhyCtrl, code: u32) -> EtherPhyCtrl {
    if code == 0 {
        EtherPhyCtrl { open: ETHER_PHY_OPEN }
    } else {
        ctrl
    }
}

/// The control block after a close call that returned `code`.
pub open spec fn phy_ctrl_after_close(ctrl: EtherPhyCtrl, code: u32) -> EtherPhyCtrl {
    if code == 0 {
        EtherPhyCtrl { open: 0 }
    } else {
        ctrl
    }
}

/// The operations shared by PHY drivers. `code` is what the firmware
/// returned for the call.
pub trait EtherPhy: Sized {
    spec fn spec_ctrl(&self) -> EtherPhyCtrl;

    fn open(&mut self, conf: &EtherPhyCfg, code: u32) -> (r: Result<(), u32>)
        ensures
            r == spec_fsp_result(code),
            final(self).spec_ctrl() == phy_ctrl_after_open(old(self).spec_ctrl(), code),
    ;

    fn close(&mut self, code: u32) -> (r: Result<(), u32>)
        ensures
            r == spec_fsp_result(code),
            final(self).spec_ctrl() == phy_ctrl_after_close(old(self).spec_ctrl(), code),
    ;

    fn c_dyn(&self, conf: EtherPhyCfg) -> (r: EtherPhyHandle)
        ensures
            r.cfg == conf,
    ;
}

/// Binds a PHY instance to its settings, as the MAC configuration needs it.
pub fn c_dyn(this: &EtherPhyInstance, conf: EtherPhyCfg) -> (r: EtherPhyHandle)
    ensures
        r.cfg == conf,
{
    EtherPhyHandle { cfg: conf }
}

impl EtherPhy for EtherPhyInstance {
    closed spec fn spec_ctrl(&self) -> EtherPhyCtrl {
        self.ctrl
    }

    fn open(&mut self, conf: &EtherPhyCfg, code: u32) -> (r: Result<(), u32>) {
        if code == 0 {
            self.ctrl.open = ETHER_PHY_OPEN;
        }
        fsp_result(code)
    }

    fn close(&mut self, code: u32) -> (r: Result<(), u32>) {
        if code == 0 {
            self.ctrl.open = 0;
        }
        fsp_result(code)
    }

    fn c_dyn(&self, conf: EtherPhyCfg) -> (r: EtherPhyHandle) {
        c_dyn(self, conf)
    }
}

impl EtherPhyInstance {
    /// A closed instance: firmware calls other than open fail on it.
    pub fn new() -> (r: Self)
        ensures
            r.spec_ctrl() == (EtherPhyCtrl { open: 0 }),
    {
        EtherPhyInstance { ctrl: EtherPhyCtrl { open: 0 } }
    }

    /// The control block.
    pub fn ptr(&self) -> (r: &EtherPhyCtrl)
        ensures
            *r == self.spec_ctrl(),
    {
        &self.ctrl
    }
}

impl EtherPhyConfig {
    /// The settings in the firmware's layout; flow control becomes 1 or 0.
    pub fn c_conf(self) -> (r: EtherPhyCfg)
        ensures
            r == (EtherPhyCfg {
                channel: self.channel,
                phy_lsi_address: self.phy_lsi_address,
                phy_reset_wait_time: self.phy_reset_wait_time,
                mii_bit_access_wait_time: self.mii_bit_access_wait_time,
                phy_lsi_type: self.phy_lsi_type,
                flow_control: if self.flow_control { 1u32 } else { 0u32 },
                mii_type: self.mii_type,
            }),
    {
        EtherPhyCfg {
            channel: self.channel,
            phy_lsi_address: self.phy_lsi_address,
            phy_reset_wait_time: self.phy_reset_wait_time,
            mii_bit_access_wait_time: self.mii_bit_access_wait_time,
            phy_lsi_type: self.phy_lsi_type,
            flow_control: if self.flow_control { 1 } else { 0 },
            mii_type: self.mii_type,
        }
    }
}

} // verus!
