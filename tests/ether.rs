use ra_fsp::ether::{
    interrupt_cause, Buffer, Buffers, ConfigError, Descriptor, EtherCallbackArgs, EtherConfig,
    EtherInstance, EtherPadding, TxRequest, ETHER_EVENT_INTERRUPT, ETHER_EVENT_LINK_OFF,
    ETHER_EVENT_LINK_ON, ETHER_EVENT_WAKEON_LAN, ETHER_OPEN, ETHER_TD0_TACT,
};
use ra_fsp::ether_phy::{c_dyn, EtherPhyConfig, EtherPhyHandle, EtherPhyInstance, EtherPhyMiiType};
use ra_fsp::fsp::{FSP_ERR_ASSERTION, FSP_ERR_ETHER_ERROR_LINK, FSP_ERR_ETHER_ERROR_NO_DATA};
use ra_fsp::r_ether;

const FR: u32 = 1 << 18;
const TC: u32 = 1 << 21;
const BUF: usize = 1536 / 2;

fn args(event: u32, status_eesr: u32) -> EtherCallbackArgs {
    EtherCallbackArgs { channel: 0, event, status_ecsr: 0, status_eesr }
}

fn phy() -> EtherPhyHandle {
    let inst = EtherPhyInstance::new();
    let conf = EtherPhyConfig {
        channel: 0,
        phy_lsi_address: 5,
        phy_reset_wait_time: 0x20000,
        mii_bit_access_wait_time: 8,
        phy_lsi_type: 0,
        flow_control: false,
        mii_type: EtherPhyMiiType::Rmii,
    };
    c_dyn(&inst, conf.c_conf())
}

fn descriptors(n: usize) -> Vec<Descriptor<BUF>> {
    (0..n).map(|_| Descriptor::new()).collect()
}

fn buffers(base: usize, n: usize) -> Vec<Buffer<BUF>> {
    (0..n).map(|i| Buffer::new(base + 0x1000 * i)).collect()
}

/// A valid zero-copy configuration with `n` descriptors in each ring.
fn zerocopy_config(n: usize) -> EtherConfig<BUF> {
    EtherConfig::new(phy())
        .zerocopy()
        .tx_descriptors(descriptors(n))
        .rx_descriptors(descriptors(n))
        .buffers(Buffers::<BUF, 2, 2>::new(buffers(0x2000_0000, 2), buffers(0x3000_0000, 2)))
}

fn open_zerocopy() -> EtherInstance<BUF> {
    let mut conf = zerocopy_config(2);
    assert_eq!(conf.validate(), Ok(()));
    let mut inst = EtherInstance::new();
    assert_eq!(inst.open(&mut conf, 0), Ok(()));
    inst
}

fn open_copying() -> EtherInstance<BUF> {
    let mut conf = EtherConfig::new(phy())
        .tx_descriptors(descriptors(1))
        .rx_descriptors(descriptors(1))
        .buffers(Buffers::<BUF, 1, 1>::new(buffers(0x2000_0000, 1), buffers(0x3000_0000, 1)));
    assert_eq!(conf.validate(), Ok(()));
    let mut inst = EtherInstance::new();
    assert_eq!(inst.open(&mut conf, 0), Ok(()));
    inst
}

#[test]
fn classifies_receive_only() {
    let c = interrupt_cause(&args(ETHER_EVENT_INTERRUPT, FR));
    assert!(c.receive);
    assert!(!c.transmits);
    assert!(!c.went_up);
    assert!(!c.went_down);
}

#[test]
fn classifies_link_off() {
    let c = interrupt_cause(&args(ETHER_EVENT_LINK_OFF, FR | TC));
    assert!(c.went_down);
    assert!(!c.went_up);
    assert!(!c.receive);
    assert!(!c.transmits);
}

#[test]
fn classifies_receive_and_transmit_together() {
    let c = interrupt_cause(&args(ETHER_EVENT_INTERRUPT, FR | TC | 1));
    assert!(c.receive);
    assert!(c.transmits);
    assert!(!c.went_up);
    assert!(!c.went_down);
}

#[test]
fn classifies_link_on_and_other_events() {
    let up = interrupt_cause(&args(ETHER_EVENT_LINK_ON, 0));
    assert!(up.went_up && !up.went_down && !up.receive && !up.transmits);
    for event in [ETHER_EVENT_WAKEON_LAN, 7, u32::MAX] {
        let c = interrupt_cause(&args(event, FR | TC));
        assert!(!c.went_up && !c.went_down && !c.receive && !c.transmits);
    }
    let none = interrupt_cause(&args(ETHER_EVENT_INTERRUPT, !(FR | TC)));
    assert!(!none.receive && !none.transmits);
}

#[test]
fn consumed_event_is_classified_once() {
    let mut a = args(ETHER_EVENT_INTERRUPT, FR);
    let first = r_ether::interrupt_cause(&mut a);
    assert!(first.receive);
    assert_eq!(a.event, r_ether::EVENT_TAKEN);
    assert_eq!(a.status_eesr, FR);
    let second = r_ether::interrupt_cause(&mut a);
    assert!(!second.receive && !second.transmits && !second.went_up && !second.went_down);
}

#[test]
fn descriptor_availability() {
    let mut d = Descriptor::<BUF>::new();
    assert!(d.is_available());
    assert!(d.is_unused());
    d.status = ETHER_TD0_TACT | 3;
    assert!(!d.is_available());
    assert!(!d.is_unused());
    d.status = 0;
    d.buffer_size = 64;
    assert!(d.is_available());
    assert!(!d.is_unused());
}

#[test]
fn config_rejects_recorded_buffer_size() {
    let mut rx = descriptors(2);
    rx[1].buffer_size = 1;
    let conf = EtherConfig::<BUF>::new(phy()).tx_descriptors(descriptors(2)).rx_descriptors(rx);
    assert!(matches!(conf.validate(), Err(ConfigError::DescriptorInUse)));
    let mut tx = descriptors(1);
    tx[0].buffer_size = 1514;
    let conf = EtherConfig::<BUF>::new(phy()).tx_descriptors(tx).rx_descriptors(descriptors(1));
    assert!(matches!(conf.validate(), Err(ConfigError::DescriptorInUse)));
}

#[test]
fn config_rejects_hardware_owned_descriptor() {
    let mut tx = descriptors(3);
    tx[2].status = ETHER_TD0_TACT;
    let conf = EtherConfig::<BUF>::new(phy()).tx_descriptors(tx).rx_descriptors(descriptors(1));
    assert!(matches!(conf.validate(), Err(ConfigError::DescriptorInUse)));
}

#[test]
fn config_rejects_ring_sizes() {
    let conf = EtherConfig::<BUF>::new(phy()).tx_descriptors(descriptors(1));
    assert!(matches!(conf.validate(), Err(ConfigError::EmptyRing)));
    let conf = EtherConfig::<BUF>::new(phy()).rx_descriptors(descriptors(1));
    assert!(matches!(conf.validate(), Err(ConfigError::EmptyRing)));
    let conf = EtherConfig::<BUF>::new(phy()).tx_descriptors(descriptors(5)).rx_descriptors(descriptors(1));
    assert!(matches!(conf.validate(), Err(ConfigError::TooManyDescriptors)));
    let conf = EtherConfig::<BUF>::new(phy()).tx_descriptors(descriptors(4)).rx_descriptors(descriptors(4));
    assert_eq!(conf.validate(), Ok(()));
}

#[test]
fn config_checks_pool_size() {
    let conf = EtherConfig::<BUF>::new(phy())
        .tx_descriptors(descriptors(2))
        .rx_descriptors(descriptors(3))
        .ether_buffers(buffers(0x4000_0000, 4));
    assert!(matches!(conf.validate(), Err(ConfigError::BufferCountMismatch)));
    let conf = EtherConfig::<BUF>::new(phy())
        .tx_descriptors(descriptors(2))
        .rx_descriptors(descriptors(3))
        .ether_buffers(buffers(0x4000_0000, 5));
    assert_eq!(conf.validate(), Ok(()));
    let conf = EtherConfig::<BUF>::new(phy())
        .zerocopy()
        .tx_descriptors(descriptors(2))
        .rx_descriptors(descriptors(3))
        .ether_buffers(buffers(0x4000_0000, 5));
    assert!(matches!(conf.validate(), Err(ConfigError::BufferCountMismatch)));
    let conf = EtherConfig::<BUF>::new(phy())
        .zerocopy()
        .tx_descriptors(descriptors(2))
        .rx_descriptors(descriptors(3))
        .ether_buffers(buffers(0x4000_0000, 3));
    assert_eq!(conf.validate(), Ok(()));
}

#[test]
fn config_rejects_shared_buffer() {
    let tx = vec![Buffer::<BUF>::new(0x2000_0000), Buffer::new(0x2000_0020)];
    let rx = vec![Buffer::<BUF>::new(0x3000_0000), Buffer::new(0x2000_0020)];
    let conf = EtherConfig::<BUF>::new(phy())
        .zerocopy()
        .tx_descriptors(descriptors(2))
        .rx_descriptors(descriptors(2))
        .buffers(Buffers::<BUF, 2, 2>::new(tx, rx));
    assert!(matches!(conf.validate(), Err(ConfigError::SharedBuffer)));
    let tx = vec![Buffer::<BUF>::new(0x2000_0040), Buffer::new(0x2000_0040)];
    let rx = vec![Buffer::<BUF>::new(0x3000_0000)];
    let conf = EtherConfig::<BUF>::new(phy())
        .tx_descriptors(descriptors(2))
        .rx_descriptors(descriptors(1))
        .buffers(Buffers::<BUF, 2, 1>::new(tx, rx));
    assert!(matches!(conf.validate(), Err(ConfigError::SharedBuffer)));
}

#[test]
fn config_layout() {
    let conf = EtherConfig::<BUF>::new(phy())
        .channel(1)
        .multicast()
        .promiscuous()
        .flow_control()
        .padding(EtherPadding::TwoBytes, 14)
        .broadcast_filter(9)
        .mac([0x02, 0, 0, 0, 0, 0x11])
        .irq(40)
        .irq_priority(12)
        .callback(0x1234)
        .tx_descriptors(descriptors(2))
        .rx_descriptors(descriptors(4))
        .ether_buffers(buffers(0x4000_0000, 6));
    assert_eq!(conf.validate(), Ok(()));
    let c = conf.c_conf();
    assert_eq!(c.channel, 1);
    assert!(!c.zerocopy && c.multicast && c.promiscuous && c.flow_control);
    assert_eq!(c.padding, EtherPadding::TwoBytes);
    assert_eq!(c.padding_offset, 14);
    assert_eq!(c.broadcast_filter, 9);
    assert_eq!(c.mac_address, [0x02, 0, 0, 0, 0, 0x11]);
    assert_eq!(c.num_tx_descriptors, 2);
    assert_eq!(c.num_rx_descriptors, 4);
    assert_eq!(c.ether_buffer_size, BUF as u32);
    assert_eq!(c.irq, 40);
    assert_eq!(c.interrupt_priority, 12);
    assert_eq!(c.callback, Some(0x1234));
    assert_eq!(c.ether_phy_instance, phy());
    let pool: Vec<usize> = (0..6).map(|i| 0x4000_0000 + 0x1000 * i).collect();
    assert_eq!(c.ether_buffers, Some(pool));
}

#[test]
fn open_moves_buffers_out_of_the_config() {
    let mut conf = zerocopy_config(2);
    let mut inst = EtherInstance::new();
    assert_eq!(inst.get_open(), 0);
    assert_eq!(inst.open(&mut conf, 0), Ok(()));
    assert_eq!(inst.get_open(), ETHER_OPEN);
    assert!(conf.tx_buffers.is_empty());
    assert!(conf.rx_buffers.is_empty());
    assert_eq!(inst.close(FSP_ERR_ASSERTION), Err(FSP_ERR_ASSERTION));
    assert_eq!(inst.get_open(), ETHER_OPEN);
    assert_eq!(inst.close(0), Ok(()));
    assert_eq!(inst.get_open(), 0);
}

#[test]
fn failed_open_leaves_handle_closed() {
    let mut conf = zerocopy_config(2);
    let mut inst = EtherInstance::new();
    assert_eq!(inst.open(&mut conf, FSP_ERR_ETHER_ERROR_LINK), Err(FSP_ERR_ETHER_ERROR_LINK));
    assert_eq!(inst.get_open(), 0);
    assert_eq!(inst.read_zerocopy(), Err(FSP_ERR_ASSERTION));
}

#[test]
fn take_tx_buf_needs_free_descriptor_and_slot() {
    let mut inst = open_zerocopy();
    assert!(inst.take_tx_buf(0, ETHER_TD0_TACT).is_none());
    let b = inst.take_tx_buf(0, 0).unwrap();
    assert_eq!(b.addr(), 0x2000_0000);
    assert!(inst.take_tx_buf(0, 0).is_none());
    let other = inst.take_tx_buf(1, 0x40).unwrap();
    assert_eq!(other.addr(), 0x2000_1000);
    assert!(inst.take_tx_buf(1, 0).is_none());
}

#[test]
fn take_write_round_trip() {
    let mut inst = open_zerocopy();
    let b = inst.take_tx_buf(1, 0).unwrap();
    assert_eq!(inst.write_zerocopy(b, 100), Ok(TxRequest { addr: 0x2000_1000, len: 100 }));
    // The DMA engine owns the descriptor until the frame is out.
    assert!(inst.take_tx_buf(1, ETHER_TD0_TACT).is_none());
    assert!(inst.take_tx_buf(1, ETHER_TD0_TACT | 7).is_none());
    let again = inst.take_tx_buf(1, 0).unwrap();
    assert_eq!(again.addr(), 0x2000_1000);
}

#[test]
fn write_zerocopy_clamps_length() {
    let mut inst = open_zerocopy();
    let b = inst.take_tx_buf(0, 0).unwrap();
    assert_eq!(inst.write_zerocopy(b, 5000), Ok(TxRequest { addr: 0x2000_0000, len: BUF }));
}

#[test]
fn tx_buffer_update_unknown_buffer() {
    let mut inst = open_zerocopy();
    let taken = inst.take_tx_buf(0, 0).unwrap();
    let stranger = Buffer::<BUF>::new(0x5000_0000);
    let back = inst.tx_buffer_update(stranger).unwrap();
    assert_eq!(back.addr(), 0x5000_0000);
    // Slot 0 is still checked out, slot 1 still free.
    assert!(inst.take_tx_buf(0, 0).is_none());
    assert!(inst.take_tx_buf(1, 0).is_some());
    assert!(inst.tx_buffer_update(taken).is_none());
    assert!(inst.take_tx_buf(0, 0).is_some());
}

#[test]
fn zerocopy_calls_in_copying_mode_fail() {
    let mut inst = open_copying();
    assert_eq!(inst.read_zerocopy(), Err(FSP_ERR_ASSERTION));
    let b = inst.take_tx_buf(0, 0).unwrap();
    assert_eq!(inst.write_zerocopy(b, 60), Err(FSP_ERR_ASSERTION));
    // The buffer was given up with the failed call: the slot stays checked out.
    assert!(inst.take_tx_buf(0, 0).is_none());
    assert_eq!(inst.read_non_zerocopy(), Ok(()));
    assert_eq!(inst.write_non_zerocopy(&[1, 2, 3]), Ok(3));
    assert_eq!(inst.write_non_zerocopy(&vec![0u8; 4000]), Ok(BUF));
}

#[test]
fn copying_calls_in_zerocopy_mode_fail() {
    let inst = open_zerocopy();
    assert_eq!(inst.read_zerocopy(), Ok(()));
    assert_eq!(inst.read_non_zerocopy(), Err(FSP_ERR_ASSERTION));
    assert_eq!(inst.write_non_zerocopy(&[1, 2, 3]), Err(FSP_ERR_ASSERTION));
}

#[test]
fn update_rx_buffers_only_on_link_up() {
    let inst = open_zerocopy();
    let down = interrupt_cause(&args(ETHER_EVENT_LINK_OFF, 0));
    assert!(inst.update_rx_buffers(down).is_empty());
    let rx = interrupt_cause(&args(ETHER_EVENT_INTERRUPT, FR));
    assert!(inst.update_rx_buffers(rx).is_empty());
    let up = interrupt_cause(&args(ETHER_EVENT_LINK_ON, 0));
    assert_eq!(inst.update_rx_buffers(up), vec![0x3000_0000, 0x3000_1000]);
}

#[test]
fn read_zerocopy_complete_outcomes() {
    let inst = open_zerocopy();
    assert!(matches!(
        inst.read_zerocopy_complete(FSP_ERR_ETHER_ERROR_NO_DATA, 0x3000_0000, 0),
        Err(FSP_ERR_ETHER_ERROR_NO_DATA)
    ));
    assert!(matches!(inst.read_zerocopy_complete(0, 0, 60), Err(FSP_ERR_ASSERTION)));
    assert!(matches!(inst.read_zerocopy_complete(0, 0x3000_0010, 60), Err(FSP_ERR_ASSERTION)));
    let (b, len) = inst.read_zerocopy_complete(0, 0x3000_1000, 342).unwrap();
    assert_eq!(b.addr(), 0x3000_1000);
    assert_eq!(len, 342);
    assert_eq!(inst.rx_buffer_update(b), 0x3000_1000);
}

#[test]
fn read_non_zerocopy_complete_outcomes() {
    let inst = open_copying();
    assert_eq!(inst.read_non_zerocopy_complete(0, 128), Ok(128));
    assert_eq!(
        inst.read_non_zerocopy_complete(FSP_ERR_ETHER_ERROR_NO_DATA, 128),
        Err(FSP_ERR_ETHER_ERROR_NO_DATA)
    );
}

#[test]
fn pass_through_results() {
    let inst = open_zerocopy();
    assert_eq!(inst.link_process(0), Ok(()));
    assert_eq!(inst.link_process(FSP_ERR_ETHER_ERROR_LINK), Err(FSP_ERR_ETHER_ERROR_LINK));
    assert_eq!(inst.wake_on_lan_enable(0), Ok(()));
    assert_eq!(inst.wake_on_lan_enable(9), Err(9));
    assert_eq!(inst.tx_status_get(0), Ok(()));
    assert_eq!(inst.tx_status_get(4003), Err(4003));
    assert_eq!(inst.callback_set(0), Ok(()));
    assert_eq!(inst.callback_set(2), Err(2));
}
