//! The Ethernet MAC: interrupt classification, descriptors, buffers, the
//! configuration builder and the driver handle.
//!
//! The driver handle never calls the firmware itself. An operation either
//! decides what the caller may hand to the firmware (a buffer address, a
//! frame length, or a usage error instead of any call), or takes the result
//! code that the firmware returned and settles the handle's state from it.
//! Descriptor status words are read by the caller and passed in, since the
//! DMA engine changes them at any time.

use vstd::prelude::*;

use crate::ether_phy::EtherPhyHandle;
use crate::fsp::{fsp_result, spec_fsp_result, FSP_ERR_ASSERTION};

verus! {

// ---------------------------------------------------------------------------
// Interrupt classification
// ---------------------------------------------------------------------------

/// Event category: a magic packet was detected.
pub const ETHER_EVENT_WAKEON_LAN: u32 = 0;

/// Event category: the link came up.
pub const ETHER_EVENT_LINK_ON: u32 = 1;

/// Event category: the link went down.
pub const ETHER_EVENT_LINK_OFF: u32 = 2;

/// Event category: a DMA interrupt, described by the status word.
pub const ETHER_EVENT_INTERRUPT: u32 = 3;

/// Status bit: all pending transmissions are complete (bit 21).
pub const ETHER_EDMAC_INTERRUPT_FACTOR_TC: u32 = 0x0020_0000;

/// Status bit: a frame was received (bit 18).
pub const ETHER_EDMAC_INTERRUPT_FACTOR_FR: u32 = 0x0004_0000;

/// The record that the vendor interrupt service routine hands to the callback.
#[derive(Clone, Copy, Debug)]
pub struct EtherCallbackArgs {
    pub channel: u32,
    pub event: u32,
    pub status_ecsr: u32,
    pub status_eesr: u32,
}

/// The causes of one callback invocation, each independent of the others.
#[derive(Clone, Copy, Debug, PartialEq, Eq, Structural)]
#[non_exhaustive]
pub struct InterruptCause {
    pub went_up: bool,
    pub went_down: bool,
    pub receive: bool,
    pub transmits: bool,
}

/// Whether every bit of `mask` is set in `status`.
pub open spec fn has_bits(status: u32, mask: u32) -> bool {
    status & mask == mask
}

/// The classification of an event category and a status word.
pub open spec fn spec_interrupt_cause(event: u32, status_eesr: u32) -> InterruptCause {
    InterruptCause {
        went_up: event == ETHER_EVENT_LINK_ON,
        went_down: event == ETHER_EVENT_LINK_OFF,
        receive: event == ETHER_EVENT_INTERRUPT && has_bits(status_eesr, ETHER_EDMAC_INTERRUPT_FACTOR_FR),
        transmits: event == ETHER_EVENT_INTERRUPT && has_bits(status_eesr, ETHER_EDMAC_INTERRUPT_FACTOR_TC),
    }
}

/// The record with no cause set.
pub open spec fn no_cause() -> InterruptCause {
    InterruptCause { went_up: false, went_down: false, receive: false, transmits: false }
}

/// Classifies one callback invocation. Categories other than the three
/// known ones give the record with no cause set.
pub fn interrupt_cause(args: &EtherCallbackArgs) -> (r: InterruptCause)
    ensures
        r == spec_interrupt_cause(args.event, args.status_eesr),
{
    let mut cause = InterruptCause { went_up: false, went_down: false, receive: false, transmits: false };
    if args.event == ETHER_EVENT_INTERRUPT {
        let receive_mask = ETHER_EDMAC_INTERRUPT_FACTOR_FR;
        let transmit_mask = ETHER_EDMAC_INTERRUPT_FACTOR_TC;
        if receive_mask == (args.status_eesr & receive_mask) {
            cause.receive = true;
        }
        if transmit_mask == (args.status_eesr & transmit_mask) {
            cause.transmits = true;
        }
    } else if args.event == ETHER_EVENT_LINK_ON {
        cause.went_up = true;
    } else if args.event == ETHER_EVENT_LINK_OFF {
        // Once the link is re-established the firmware resets every
        // descriptor, so receive buffers must then be handed out again.
        cause.went_down = true;
    }
    cause
}

/// The classifier on the cases that callers rely on: a receive status alone
/// reports a reception only, a link loss reports only that, and receive and
/// transmit status together report both.
pub proof fn lemma_interrupt_cause_cases(status_eesr: u32)
    ensures
        has_bits(status_eesr, ETHER_EDMAC_INTERRUPT_FACTOR_FR) && !has_bits(status_eesr, ETHER_EDMAC_INTERRUPT_FACTOR_TC)
            ==> spec_interrupt_cause(ETHER_EVENT_INTERRUPT, status_eesr) == (InterruptCause {
                went_up: false,
                went_down: false,
                receive: true,
                transmits: false,
            }),
        spec_interrupt_cause(ETHER_EVENT_LINK_OFF, status_eesr) == (InterruptCause {
            went_up: false,
            went_down: true,
            receive: false,
            transmits: false,
        }),
        has_bits(status_eesr, ETHER_EDMAC_INTERRUPT_FACTOR_FR) && has_bits(status_eesr, ETHER_EDMAC_INTERRUPT_FACTOR_TC)
            ==> spec_interrupt_cause(ETHER_EVENT_INTERRUPT, status_eesr).receive
                && spec_interrupt_cause(ETHER_EVENT_INTERRUPT, status_eesr).transmits,
{
}

// ---------------------------------------------------------------------------
// Descriptors and buffers
// ---------------------------------------------------------------------------

/// Descriptor status bit: the DMA engine owns the descriptor (TD0/RD0 TACT).
pub const ETHER_TD0_TACT: u32 = 0x8000_0000;

/// The alignment that the DMA engine requires of a buffer.
pub const BUFFER_ALIGN: usize = 32;

/// The largest number of descriptors in one ring.
pub const MAX_DESCRIPTORS: usize = 4;

/// One slot of a hardware descriptor ring, as last read from memory.
#[derive(Clone, Copy, Debug)]
pub struct Descriptor<const BUF_SIZE: usize> {
    pub status: u32,
    pub size: u16,
    pub buffer_size: u16,
    pub buffer: usize,
    pub next: usize,
}

/// Whether the DMA engine owns a descriptor with this status word.
pub open spec fn hw_owned(status: u32) -> bool {
    status & ETHER_TD0_TACT != 0
}

impl<const BUF_SIZE: usize> Descriptor<BUF_SIZE> {
    /// A descriptor that no one has used: every field zero.
    pub fn new() -> (r: Self)
        ensures
            r == (Descriptor::<BUF_SIZE> { status: 0, size: 0, buffer_size: 0, buffer: 0, next: 0 }),
    {
        Descriptor { status: 0, size: 0, buffer_size: 0, buffer: 0, next: 0 }
    }

    pub open spec fn spec_unused(self) -> bool {
        self.buffer_size == 0 && !hw_owned(self.status)
    }

    /// Whether software owns the descriptor.
    pub fn is_available(&self) -> (r: bool)
        ensures
            r == !hw_owned(self.status),
    {
        self.status & ETHER_TD0_TACT == 0
    }

    /// Whether the descriptor may start a ring: software owns it and no
    /// buffer size has been recorded in it.
    pub fn is_unused(&self) -> (r: bool)
        ensures
            r == self.spec_unused(),
    {
        self.buffer_size == 0 && self.is_available()
    }
}

/// An ownership token for one DMA buffer of `BUF_SIZE` bytes, named by its
/// address. Whoever holds the token may use the memory; the driver hands
/// tokens out and takes them back.
#[derive(Debug)]
pub struct Buffer<const BUF_SIZE: usize> {
    addr: usize,
}

impl<const BUF_SIZE: usize> View for Buffer<BUF_SIZE> {
    type V = usize;

    closed spec fn view(&self) -> usize {
        self.addr
    }
}

/// Whether a buffer may live at `addr`: not null, and aligned as the DMA
/// engine needs.
pub open spec fn valid_buffer_addr(addr: usize) -> bool {
    addr != 0 && addr % BUFFER_ALIGN == 0
}

/// The addresses of a sequence of buffers.
pub open spec fn buffer_addrs<const BUF_SIZE: usize>(s: Seq<Buffer<BUF_SIZE>>) -> Seq<usize> {
    s.map_values(|b: Buffer<BUF_SIZE>| b@)
}

impl<const BUF_SIZE: usize> Buffer<BUF_SIZE> {
    /// The token for the buffer at `addr`.
    pub fn new(addr: usize) -> (r: Self)
        requires
            valid_buffer_addr(addr),
        ensures
            r@ == addr,
    {
        Buffer { addr }
    }

    pub fn addr(&self) -> (r: usize)
        ensures
            r == self@,
    {
        self.addr
    }
}

/// The addresses of a vector of buffers.
fn addrs_of<const BUF_SIZE: usize>(v: &Vec<Buffer<BUF_SIZE>>) -> (r: Vec<usize>)
    ensures
        r@ == buffer_addrs(v@),
{
    let mut r: Vec<usize> = Vec::new();
    let mut i: usize = 0;
    while i < v.len()
        invariant
            i <= v@.len(),
            r@ == buffer_addrs(v@.subrange(0, i as int)),
        decreases v@.len() - i,
    {
        r.push(v[i].addr());
        proof {
            assert(v@.subrange(0, i + 1) == v@.subrange(0, i as int).push(v@[i as int]));
        }
        i = i + 1;
    }
    proof {
        assert(v@.subrange(0, v@.len() as int) == v@);
    }
    r
}

/// The transmit and receive buffers of one driver, `TX` and `RX` of them.
pub struct Buffers<const BUF_SIZE: usize, const TX: usize, const RX: usize> {
    tx_buffers: Vec<Buffer<BUF_SIZE>>,
    rx_buffers: Vec<Buffer<BUF_SIZE>>,
}

impl<const BUF_SIZE: usize, const TX: usize, const RX: usize> Buffers<BUF_SIZE, TX, RX> {
    pub closed spec fn spec_tx(&self) -> Seq<usize> {
        buffer_addrs(self.tx_buffers@)
    }

    pub closed spec fn spec_rx(&self) -> Seq<usize> {
        buffer_addrs(self.rx_buffers@)
    }

    /// `TX` transmit buffers and `RX` receive buffers.
    pub open spec fn wf(&self) -> bool {
        self.spec_tx().len() == TX && self.spec_rx().len() == RX
    }

    pub fn new(tx_buffers: Vec<Buffer<BUF_SIZE>>, rx_buffers: Vec<Buffer<BUF_SIZE>>) -> (r: Self)
        requires
            tx_buffers@.len() == TX,
            rx_buffers@.len() == RX,
        ensures
            r.spec_tx() == buffer_addrs(tx_buffers@),
            r.spec_rx() == buffer_addrs(rx_buffers@),
            r.wf(),
    {
        Buffers { tx_buffers, rx_buffers }
    }
}

// ---------------------------------------------------------------------------
// Configuration
// ---------------------------------------------------------------------------

/// The smallest buffer size the MAC accepts.
pub const MIN_BUF_SIZE: usize = 60;

/// The largest buffer size the MAC accepts.
pub const MAX_BUF_SIZE: usize = 1514;

/// Padding that the MAC inserts in front of received frames.
#[derive(Clone, Copy, Debug, PartialEq, Eq, Structural)]
pub enum EtherPadding {
    Disable,
    OneByte,
    TwoBytes,
    ThreeBytes,
}

/// Why a configuration was refused.
#[derive(Clone, Copy, Debug, PartialEq, Eq, Structural)]
pub enum ConfigError {
    /// A descriptor is owned by the DMA engine or has a buffer size recorded.
    DescriptorInUse,
    /// A descriptor ring has no entry.
    EmptyRing,
    /// A descriptor ring has more than four entries.
    TooManyDescriptors,
    /// The buffer pool does not give each descriptor exactly one buffer.
    BufferCountMismatch,
    /// Two of the driver's transmit and receive buffers are one buffer.
    SharedBuffer,
}

/// The settings of one MAC channel, built up step by step.
pub struct EtherConfig<const BUF_SIZE: usize> {
    pub channel: u8,
    pub zerocopy: bool,
    pub multicast: bool,
    pub promiscuous: bool,
    pub flow_control: bool,
    pub padding: EtherPadding,
    pub padding_offset: u32,
    pub broadcast_filter: u32,
    pub p_mac_address: [u8; 6],
    pub pp_ether_buffers: Option<Vec<Buffer<BUF_SIZE>>>,
    /// The interrupt vector number.
    pub irq: u16,
    pub interrupt_priority: u32,
    pub p_ether_phy_instance: EtherPhyHandle,
    /// The entry address of the routine that receives callbacks.
    pub callback: Option<usize>,
    pub tx_descriptors: Vec<Descriptor<BUF_SIZE>>,
    pub rx_descriptors: Vec<Descriptor<BUF_SIZE>>,
    pub tx_buffers: Vec<Buffer<BUF_SIZE>>,
    pub rx_buffers: Vec<Buffer<BUF_SIZE>>,
}

/// The settings of one MAC channel in the layout that the firmware reads.
pub struct EtherCfg {
    pub channel: u8,
    pub zerocopy: bool,
    pub multicast: bool,
    pub promiscuous: bool,
    pub flow_control: bool,
    pub padding: EtherPadding,
    pub padding_offset: u32,
    pub broadcast_filter: u32,
    pub mac_address: [u8; 6],
    pub ether_buffers: Option<Vec<usize>>,
    pub num_tx_descriptors: u8,
    pub num_rx_descriptors: u8,
    pub ether_buffer_size: u32,
    pub irq: u16,
    pub interrupt_priority: u32,
    pub callback: Option<usize>,
    pub ether_phy_instance: EtherPhyHandle,
}

/// Whether every descriptor of a ring is unused.
pub open spec fn ring_unused<const BUF_SIZE: usize>(ring: Seq<Descriptor<BUF_SIZE>>) -> bool {
    forall|i: int| 0 <= i < ring.len() ==> (#[trigger] ring[i]).spec_unused()
}

/// How many buffers a pool must hold: one per receive descriptor in
/// zero-copy mode, one per descriptor otherwise.
pub open spec fn required_buffers(zerocopy: bool, n_tx: nat, n_rx: nat) -> nat {
    if zerocopy {
        n_rx
    } else {
        n_tx + n_rx
    }
}

/// The first check that rings of these descriptors, a pool of this many
/// buffers and driver buffers at these addresses fail, if any.
pub open spec fn spec_config_error<const BUF_SIZE: usize>(
    zerocopy: bool,
    tx: Seq<Descriptor<BUF_SIZE>>,
    rx: Seq<Descriptor<BUF_SIZE>>,
    pool: Option<nat>,
    buffers: Seq<usize>,
) -> Option<ConfigError> {
    if !ring_unused(tx) || !ring_unused(rx) {
        Some(ConfigError::DescriptorInUse)
    } else if tx.len() == 0 || rx.len() == 0 {
        Some(ConfigError::EmptyRing)
    } else if tx.len() > MAX_DESCRIPTORS || rx.len() > MAX_DESCRIPTORS {
        Some(ConfigError::TooManyDescriptors)
    } else if pool.is_some() && pool.unwrap() != required_buffers(zerocopy, tx.len(), rx.len()) {
        Some(ConfigError::BufferCountMismatch)
    } else if !buffers.no_duplicates() {
        Some(ConfigError::SharedBuffer)
    } else {
        None
    }
}

/// Whether no value occurs twice in `v`.
fn all_distinct(v: &Vec<usize>) -> (r: bool)
    ensures
        r == v@.no_duplicates(),
{
    let mut i: usize = 0;
    while i < v.len()
        invariant
            i <= v@.len(),
            forall|p: int, q: int| 0 <= p < q < v@.len() && p < i ==> v@[p] != v@[q],
        decreases v@.len() - i,
    {
        let mut j: usize = i + 1;
        while j < v.len()
            invariant
                i < v@.len(),
                i < j <= v@.len(),
                forall|p: int, q: int| 0 <= p < q < v@.len() && p < i ==> v@[p] != v@[q],
                forall|q: int| i < q < j ==> v@[i as int] != v@[q],
            decreases v@.len() - j,
        {
            if v[i] == v[j] {
                return false;
            }
            j = j + 1;
        }
        i = i + 1;
    }
    assert forall|p: int, q: int| 0 <= p < v@.len() && 0 <= q < v@.len() && p != q implies v@[p] != v@[q] by {
        if q < p {
            assert(v@[q] != v@[p]);
        }
    }
    true
}

/// The addresses of the transmit buffers followed by those of the receive buffers.
fn tx_rx_addrs<const BUF_SIZE: usize>(tx: &Vec<Buffer<BUF_SIZE>>, rx: &Vec<Buffer<BUF_SIZE>>) -> (r: Vec<usize>)
    ensures
        r@ == buffer_addrs(tx@) + buffer_addrs(rx@),
{
    let mut r = addrs_of(tx);
    let rx_addrs = addrs_of(rx);
    let mut i: usize = 0;
    while i < rx_addrs.len()
        invariant
            i <= rx_addrs@.len(),
            rx_addrs@ == buffer_addrs(rx@),
            r@ == buffer_addrs(tx@) + rx_addrs@.subrange(0, i as int),
        decreases rx_addrs@.len() - i,
    {
        r.push(rx_addrs[i]);
        proof {
            assert(rx_addrs@.subrange(0, i + 1) == rx_addrs@.subrange(0, i as int).push(rx_addrs@[i as int]));
        }
        i = i + 1;
    }
    assert(rx_addrs@.subrange(0, rx_addrs@.len() as int) == rx_addrs@);
    r
}

/// Checks every descriptor of a ring.
fn check_ring<const BUF_SIZE: usize>(ring: &Vec<Descriptor<BUF_SIZE>>) -> (r: bool)
    ensures
        r == ring_unused(ring@),
{
    let mut i: usize = 0;
    while i < ring.len()
        invariant
            i <= ring@.len(),
            forall|j: int| 0 <= j < i ==> (#[trigger] ring@[j]).spec_unused(),
        decreases ring@.len() - i,
    {
        if !ring[i].is_unused() {
            return false;
        }
        i = i + 1;
    }
    true
}

impl<const BUF_SIZE: usize> EtherConfig<BUF_SIZE> {
    /// The number of buffers in the pool, if one was given.
    pub open spec fn spec_pool_len(&self) -> Option<nat> {
        match self.pp_ether_buffers {
            Some(v) => Some(v@.len()),
            None => None,
        }
    }

    pub open spec fn spec_config_error(&self) -> Option<ConfigError> {
        spec_config_error(
            self.zerocopy,
            self.tx_descriptors@,
            self.rx_descriptors@,
            self.spec_pool_len(),
            buffer_addrs(self.tx_buffers@) + buffer_addrs(self.rx_buffers@),
        )
    }

    /// A configuration for channel 0 in copying mode, with every option off,
    /// no descriptors and no buffers.
    pub fn new(p_ether_phy_instance: EtherPhyHandle) -> (r: Self)
        requires
            MIN_BUF_SIZE <= BUF_SIZE <= MAX_BUF_SIZE,
        ensures
            r.channel == 0,
            !r.zerocopy,
            !r.multicast,
            !r.promiscuous,
            !r.flow_control,
            r.padding == EtherPadding::Disable,
            r.padding_offset == 0,
            r.broadcast_filter == 0,
            r.p_mac_address@ == seq![0u8; 6],
            r.pp_ether_buffers.is_none(),
            r.irq == 0,
            r.interrupt_priority == 0,
            r.p_ether_phy_instance == p_ether_phy_instance,
            r.callback.is_none(),
            r.tx_descriptors@.len() == 0,
            r.rx_descriptors@.len() == 0,
            r.tx_buffers@.len() == 0,
            r.rx_buffers@.len() == 0,
    {
        let r = EtherConfig {
            channel: 0,
            zerocopy: false,
            multicast: false,
            promiscuous: false,
            flow_control: false,
            padding: EtherPadding::Disable,
            padding_offset: 0,
            broadcast_filter: 0,
            p_mac_address: [0u8; 6],
            pp_ether_buffers: None,
            irq: 0,
            interrupt_priority: 0,
            p_ether_phy_instance,
            callback: None,
            tx_descriptors: Vec::new(),
            rx_descriptors: Vec::new(),
            tx_buffers: Vec::new(),
            rx_buffers: Vec::new(),
        };
        assert(r.p_mac_address@ =~= seq![0u8; 6]);
        r
    }

    pub fn channel(self, channel: u8) -> (r: Self)
        ensures
            r == (EtherConfig { channel, ..self }),
    {
        EtherConfig { channel, ..self }
    }

    /// Selects zero-copy mode: buffers are exchanged with the DMA engine by address.
    pub fn zerocopy(self) -> (r: Self)
        ensures
            r == (EtherConfig { zerocopy: true, ..self }),
    {
        EtherConfig { zerocopy: true, ..self }
    }

    pub fn multicast(self) -> (r: Self)
        ensures
            r == (EtherConfig { multicast: true, ..self }),
    {
        EtherConfig { multicast: true, ..self }
    }

    pub fn promiscuous(self) -> (r: Self)
        ensures
            r == (EtherConfig { promiscuous: true, ..self }),
    {
        EtherConfig { promiscuous: true, ..self }
    }

    pub fn flow_control(self) -> (r: Self)
        ensures
            r == (EtherConfig { flow_control: true, ..self }),
    {
        EtherConfig { flow_control: true, ..self }
    }

    pub fn padding(self, padding: EtherPadding, offset: u32) -> (r: Self)
        ensures
            r == (EtherConfig { padding, padding_offset: offset, ..self }),
    {
        EtherConfig { padding, padding_offset: offset, ..self }
    }

    pub fn broadcast_filter(self, filter: u32) -> (r: Self)
        ensures
            r == (EtherConfig { broadcast_filter: filter, ..self }),
    {
        EtherConfig { broadcast_filter: filter, ..self }
    }

    pub fn mac(self, mac: [u8; 6]) -> (r: Self)
        ensures
            r == (EtherConfig { p_mac_address: mac, ..self }),
    {
        EtherConfig { p_mac_address: mac, ..self }
    }

    pub fn irq(self, irq: u16) -> (r: Self)
        ensures
            r == (EtherConfig { irq, ..self }),
    {
        EtherConfig { irq, ..self }
    }

    pub fn irq_priority(self, priority: u32) -> (r: Self)
        ensures
            r == (EtherConfig { interrupt_priority: priority, ..self }),
    {
        EtherConfig { interrupt_priority: priority, ..self }
    }

    pub fn callback(self, callback: usize) -> (r: Self)
        ensures
            r == (EtherConfig { callback: Some(callback), ..self }),
    {
        EtherConfig { callback: Some(callback), ..self }
    }

    /// The pool of buffers that the firmware copies through in copying mode.
    pub fn ether_buffers(self, buffers: Vec<Buffer<BUF_SIZE>>) -> (r: Self)
        ensures
            r == (EtherConfig { pp_ether_buffers: Some(buffers), ..self }),
    {
        EtherConfig { pp_ether_buffers: Some(buffers), ..self }
    }

    pub fn rx_descriptors(self, descriptors: Vec<Descriptor<BUF_SIZE>>) -> (r: Self)
        ensures
            r == (EtherConfig { rx_descriptors: descriptors, ..self }),
    {
        EtherConfig { rx_descriptors: descriptors, ..self }
    }

    pub fn tx_descriptors(self, descriptors: Vec<Descriptor<BUF_SIZE>>) -> (r: Self)
        ensures
            r == (EtherConfig { tx_descriptors: descriptors, ..self }),
    {
        EtherConfig { tx_descriptors: descriptors, ..self }
    }

    /// Hands the driver's transmit and receive buffers to the configuration.
    pub fn buffers<const TX: usize, const RX: usize>(self, buffers: Buffers<BUF_SIZE, TX, RX>) -> (r: Self)
        requires
            buffers.wf(),
        ensures
            r.tx_buffers@.len() == TX,
            r.rx_buffers@.len() == RX,
            buffer_addrs(r.tx_buffers@) == buffers.spec_tx(),
            buffer_addrs(r.rx_buffers@) == buffers.spec_rx(),
            r == (EtherConfig { tx_buffers: r.tx_buffers, rx_buffers: r.rx_buffers, ..self }),
    {
        EtherConfig { tx_buffers: buffers.tx_buffers, rx_buffers: buffers.rx_buffers, ..self }
    }

    /// Hands the driver's transmit and receive buffers to the configuration, in place.
    pub fn set_buffers<const TX: usize, const RX: usize>(&mut self, buffers: Buffers<BUF_SIZE, TX, RX>)
        requires
            buffers.wf(),
        ensures
            final(self).tx_buffers@.len() == TX,
            final(self).rx_buffers@.len() == RX,
            buffer_addrs(final(self).tx_buffers@) == buffers.spec_tx(),
            buffer_addrs(final(self).rx_buffers@) == buffers.spec_rx(),
            *final(self) == (EtherConfig {
                tx_buffers: final(self).tx_buffers,
                rx_buffers: final(self).rx_buffers,
                ..*old(self)
            }),
    {
        self.tx_buffers = buffers.tx_buffers;
        self.rx_buffers = buffers.rx_buffers;
    }

    /// Whether `c` is this configuration in the firmware's layout.
    pub open spec fn spec_c_conf(&self, c: EtherCfg) -> bool {
        &&& c.channel == self.channel
        &&& c.zerocopy == self.zerocopy
        &&& c.multicast == self.multicast
        &&& c.promiscuous == self.promiscuous
        &&& c.flow_control == self.flow_control
        &&& c.padding == self.padding
        &&& c.padding_offset == self.padding_offset
        &&& c.broadcast_filter == self.broadcast_filter
        &&& c.mac_address == self.p_mac_address
        &&& match self.pp_ether_buffers {
            Some(v) => c.ether_buffers.is_some() && c.ether_buffers.unwrap()@ == buffer_addrs(v@),
            None => c.ether_buffers.is_none(),
        }
        &&& c.num_tx_descriptors as nat == self.tx_descriptors@.len()
        &&& c.num_rx_descriptors as nat == self.rx_descriptors@.len()
        &&& c.ether_buffer_size as nat == BUF_SIZE as nat
        &&& c.irq == self.irq
        &&& c.interrupt_priority == self.interrupt_priority
        &&& c.callback == self.callback
        &&& c.ether_phy_instance == self.p_ether_phy_instance
    }

    /// Validates the configuration: the build step that can fail, to be
    /// passed before the configuration is laid out or opened.
    ///
    /// Refused, in this order of checks: a descriptor that the DMA engine
    /// owns or that has a buffer size recorded; an empty ring; a ring of more
    /// than four descriptors; a buffer pool whose size is not one buffer per
    /// receive descriptor (zero-copy) or per descriptor (copying); one buffer
    /// given twice among the transmit and receive buffers.
    pub fn validate(&self) -> (r: Result<(), ConfigError>)
        ensures
            r == match self.spec_config_error() {
                Some(e) => Err(e),
                None => Ok(()),
            },
            (exists|i: int| 0 <= i < self.tx_descriptors@.len() && self.tx_descriptors@[i].buffer_size != 0)
                || (exists|i: int| 0 <= i < self.rx_descriptors@.len() && self.rx_descriptors@[i].buffer_size != 0)
                ==> r == Err::<(), ConfigError>(ConfigError::DescriptorInUse),
    {
        if !check_ring(&self.tx_descriptors) || !check_ring(&self.rx_descriptors) {
            return Err(ConfigError::DescriptorInUse);
        }
        let num_tx = self.tx_descriptors.len();
        let num_rx = self.rx_descriptors.len();
        if num_tx == 0 || num_rx == 0 {
            return Err(ConfigError::EmptyRing);
        }
        if num_tx > MAX_DESCRIPTORS || num_rx > MAX_DESCRIPTORS {
            return Err(ConfigError::TooManyDescriptors);
        }
        match &self.pp_ether_buffers {
            Some(pool) => {
                let required = if self.zerocopy { num_rx } else { num_tx + num_rx };
                if pool.len() != required {
                    return Err(ConfigError::BufferCountMismatch);
                }
            },
            None => {},
        }
        if !all_distinct(&tx_rx_addrs(&self.tx_buffers, &self.rx_buffers)) {
            return Err(ConfigError::SharedBuffer);
        }
        Ok(())
    }

    /// Lays a validated configuration out for the firmware. A configuration
    /// that `validate` refuses is a programming error, ruled out here.
    pub fn c_conf(&self) -> (r: EtherCfg)
        requires
            MIN_BUF_SIZE <= BUF_SIZE <= MAX_BUF_SIZE,
            self.spec_config_error().is_none(),
        ensures
            self.spec_c_conf(r),
    {
        let num_tx = self.tx_descriptors.len();
        let num_rx = self.rx_descriptors.len();
        let ether_buffers = match &self.pp_ether_buffers {
            Some(pool) => Some(addrs_of(pool)),
            None => None,
        };
        EtherCfg {
            channel: self.channel,
            zerocopy: self.zerocopy,
            multicast: self.multicast,
            promiscuous: self.promiscuous,
            flow_control: self.flow_control,
            padding: self.padding,
            padding_offset: self.padding_offset,
            broadcast_filter: self.broadcast_filter,
            mac_address: self.p_mac_address,
            ether_buffers,
            num_tx_descriptors: num_tx as u8,
            num_rx_descriptors: num_rx as u8,
            ether_buffer_size: BUF_SIZE as u32,
            irq: self.irq,
            interrupt_priority: self.interrupt_priority,
            callback: self.callback,
            ether_phy_instance: self.p_ether_phy_instance,
        }
    }
}

// ---------------------------------------------------------------------------
// The driver handle
// ---------------------------------------------------------------------------

/// The word that the firmware stores in an open MAC control block.
pub const ETHER_OPEN: u32 = 0x4554_4852;

/// The control block's link status word while the link is established.
pub const ETHER_LINK_ESTABLISH_STATUS_UP: u32 = 1;

/// A frame that the firmware is to send: the buffer's address and the
/// number of bytes.
#[derive(Clone, Copy, Debug, PartialEq, Eq, Structural)]
pub struct TxRequest {
    pub addr: usize,
    pub len: usize,
}

/// The driver handle of one MAC channel.
///
/// It holds the transmit and receive buffers that were moved out of the
/// configuration at open time, and for each transmit slot whether its buffer
/// is checked out to the caller.
pub struct EtherInstance<const BUF_SIZE: usize> {
    open: bool,
    zerocopy: bool,
    tx_buffers: Vec<Buffer<BUF_SIZE>>,
    rx_buffers: Vec<Buffer<BUF_SIZE>>,
    tx_taken: Vec<bool>,
}

/// What a driver handle is: whether it is open, its transfer mode, the
/// addresses of its buffers, and which transmit buffers are checked out.
pub struct EtherView {
    pub open: bool,
    pub zerocopy: bool,
    pub tx_buffers: Seq<usize>,
    pub rx_buffers: Seq<usize>,
    pub tx_taken: Seq<bool>,
}

impl<const BUF_SIZE: usize> View for EtherInstance<BUF_SIZE> {
    type V = EtherView;

    closed spec fn view(&self) -> EtherView {
        EtherView {
            open: self.open,
            zerocopy: self.zerocopy,
            tx_buffers: buffer_addrs(self.tx_buffers@),
            rx_buffers: buffer_addrs(self.rx_buffers@),
            tx_taken: self.tx_taken@,
        }
    }
}

/// One checked-out flag per transmit buffer, and no buffer held twice:
/// transmit addresses differ from one another and from every receive address.
pub open spec fn ether_wf(v: EtherView) -> bool {
    &&& v.tx_taken.len() == v.tx_buffers.len()
    &&& (v.tx_buffers + v.rx_buffers).no_duplicates()
}

/// Whether slot `i`'s buffer can be taken while its descriptor has status
/// `status`: the DMA engine does not own the descriptor and the buffer is
/// not checked out already.
pub open spec fn tx_available(v: EtherView, i: int, status: u32) -> bool {
    !hw_owned(status) && !v.tx_taken[i]
}

/// Taking the buffer of the current transmit slot `i`: the new state and
/// the address handed to the caller, if any.
pub open spec fn spec_take_tx_buf(v: EtherView, i: int, status: u32) -> (EtherView, Option<usize>) {
    if tx_available(v, i, status) {
        (EtherView { tx_taken: v.tx_taken.update(i, true), ..v }, Some(v.tx_buffers[i]))
    } else {
        (v, None)
    }
}

/// The first position of `x` in `s`, if it occurs.
pub open spec fn first_index(s: Seq<usize>, x: usize) -> Option<int>
    decreases s.len(),
{
    if s.len() == 0 {
        None
    } else if s[0] == x {
        Some(0)
    } else {
        match first_index(s.drop_first(), x) {
            Some(i) => Some(i + 1),
            None => None,
        }
    }
}

/// `first_index` finds the earliest occurrence, and finds none only when
/// there is none.
pub proof fn lemma_first_index(s: Seq<usize>, x: usize)
    ensures
        match first_index(s, x) {
            Some(i) => 0 <= i < s.len() && s[i] == x && forall|j: int| 0 <= j < i ==> s[j] != x,
            None => !s.contains(x),
        },
    decreases s.len(),
{
    if s.len() > 0 && s[0] != x {
        lemma_first_index(s.drop_first(), x);
        match first_index(s.drop_first(), x) {
            Some(i) => {
                assert forall|j: int| 0 <= j < i + 1 implies s[j] != x by {
                    if j > 0 {
                        assert(s[j] == s.drop_first()[j - 1]);
                    }
                }
            },
            None => {
                if s.contains(x) {
                    let k = choose|k: int| 0 <= k < s.len() && s[k] == x;
                    assert(s.drop_first()[k - 1] == x);
                }
            },
        }
    }
}

/// Returning the buffer at `addr` to the transmit pool: the slot of its
/// first occurrence is no longer checked out. An unknown address changes
/// nothing.
pub open spec fn spec_tx_buffer_update(v: EtherView, addr: usize) -> EtherView {
    match first_index(v.tx_buffers, addr) {
        Some(i) => EtherView { tx_taken: v.tx_taken.update(i, false), ..v },
        None => v,
    }
}

/// A call that needs the transfer mode `zerocopy` on a handle in mode `mode`.
pub open spec fn spec_mode_check(mode: bool, zerocopy: bool) -> Result<(), u32> {
    if mode == zerocopy {
        Ok(())
    } else {
        Err(FSP_ERR_ASSERTION)
    }
}

/// Submitting a transmit buffer in zero-copy mode: the new state and what
/// the firmware is asked to send.
pub open spec fn spec_write_zerocopy(v: EtherView, addr: usize, len: usize, buf_size: usize) -> (
    EtherView,
    Result<TxRequest, u32>,
) {
    if v.zerocopy {
        (
            spec_tx_buffer_update(v, addr),
            Ok(TxRequest { addr, len: if len < buf_size { len } else { buf_size } }),
        )
    } else {
        (v, Err(FSP_ERR_ASSERTION))
    }
}

/// A zero-copy read as the firmware reported it: its result code, the
/// address of the received buffer and the frame length.
pub open spec fn spec_read_zerocopy_complete(code: u32, p_buf: usize, len: u32) -> Result<(usize, usize), u32> {
    if code != 0 {
        Err(code)
    } else if !valid_buffer_addr(p_buf) {
        Err(FSP_ERR_ASSERTION)
    } else {
        Ok((p_buf, len as usize))
    }
}

/// The checked-out flags of a freshly opened handle.
pub open spec fn none_taken(n: nat) -> Seq<bool> {
    Seq::new(n, |i: int| false)
}

fn all_false(n: usize) -> (r: Vec<bool>)
    ensures
        r@ == none_taken(n as nat),
{
    let mut r: Vec<bool> = Vec::new();
    let mut i: usize = 0;
    while i < n
        invariant
            i <= n,
            r@ == none_taken(i as nat),
        decreases n - i,
    {
        r.push(false);
        i = i + 1;
        assert(r@ =~= none_taken(i as nat));
    }
    r
}

impl<const BUF_SIZE: usize> EtherInstance<BUF_SIZE> {
    pub open spec fn wf(&self) -> bool {
        ether_wf(self@)
    }

    /// A closed handle with no buffers.
    pub fn new() -> (r: Self)
        ensures
            r.wf(),
            !r@.open,
            !r@.zerocopy,
            r@.tx_buffers.len() == 0,
            r@.rx_buffers.len() == 0,
    {
        EtherInstance {
            open: false,
            zerocopy: false,
            tx_buffers: Vec::new(),
            rx_buffers: Vec::new(),
            tx_taken: Vec::new(),
        }
    }

    /// Whether the link is established, from the control block's link
    /// status word.
    pub fn is_up(&self, link_establish_status: u32) -> (r: bool)
        ensures
            r == (link_establish_status == ETHER_LINK_ESTABLISH_STATUS_UP),
    {
        link_establish_status == ETHER_LINK_ESTABLISH_STATUS_UP
    }

    /// The open word of the control block: `ETHER_OPEN` while open, else zero.
    pub fn get_open(&self) -> (r: u32)
        ensures
            r == if self@.open { ETHER_OPEN } else { 0 },
    {
        if self.open {
            ETHER_OPEN
        } else {
            0
        }
    }

    /// Takes the buffer of the current transmit slot `current`, whose
    /// descriptor has status word `status`. There is none while the DMA
    /// engine owns the descriptor or the buffer is checked out already;
    /// otherwise the buffer is marked checked out and handed over.
    pub fn take_tx_buf(&mut self, current: usize, status: u32) -> (r: Option<Buffer<BUF_SIZE>>)
        requires
            old(self).wf(),
            current < old(self)@.tx_buffers.len(),
        ensures
            final(self).wf(),
            r.is_some() <==> tx_available(old(self)@, current as int, status),
            final(self)@ == spec_take_tx_buf(old(self)@, current as int, status).0,
            match spec_take_tx_buf(old(self)@, current as int, status).1 {
                Some(addr) => r.is_some() && r.unwrap()@ == addr,
                None => r.is_none(),
            },
    {
        if status & ETHER_TD0_TACT != 0 {
            return None;
        }
        if self.tx_taken[current] {
            return None;
        }
        self.tx_taken.set(current, true);
        let addr = self.tx_buffers[current].addr;
        proof {
            assert(self@.tx_taken =~= old(self)@.tx_taken.update(current as int, true));
        }
        Some(Buffer { addr })
    }

    /// The addresses of the receive buffers to hand back to the DMA engine
    /// for this cause: all of them when the link came up, which resets every
    /// descriptor, and none otherwise.
    pub fn update_rx_buffers(&self, cause: InterruptCause) -> (r: Vec<usize>)
        ensures
            r@ == if cause.went_up { self@.rx_buffers } else { Seq::<usize>::empty() },
    {
        if !cause.went_up {
            return Vec::new();
        }
        addrs_of(&self.rx_buffers)
    }

    /// Returns a checked-out buffer to the transmit pool. The slot is found
    /// by address; a buffer whose address is unknown is handed back as it
    /// came, and nothing changes.
    pub fn tx_buffer_update(&mut self, buffer: Buffer<BUF_SIZE>) -> (r: Option<Buffer<BUF_SIZE>>)
        requires
            old(self).wf(),
        ensures
            final(self).wf(),
            final(self)@ == spec_tx_buffer_update(old(self)@, buffer@),
            r.is_none() <==> old(self)@.tx_buffers.contains(buffer@),
            !old(self)@.tx_buffers.contains(buffer@) ==> r == Some(buffer) && final(self)@ == old(self)@,
    {
        let ghost addrs = self@.tx_buffers;
        let mut i: usize = 0;
        while i < self.tx_buffers.len()
            invariant
                self@ == old(self)@,
                self.wf(),
                addrs == self@.tx_buffers,
                i <= addrs.len(),
                forall|j: int| 0 <= j < i ==> addrs[j] != buffer@,
            decreases addrs.len() - i,
        {
            if self.tx_buffers[i].addr == buffer.addr {
                proof {
                    assert(addrs[i as int] == buffer@);
                    assert(addrs.contains(buffer@));
                    lemma_first_index(addrs, buffer@);
                    let k = first_index(addrs, buffer@).unwrap();
                    assert(k == i) by {
                        if k < i {
                            assert(addrs[k] != buffer@);
                        }
                        if k > i {
                            assert(addrs[i as int] != buffer@);
                        }
                    }
                }
                self.tx_taken.set(i, false);
                proof {
                    assert(self@.tx_taken =~= old(self)@.tx_taken.update(i as int, false));
                }
                return None;
            }
            i = i + 1;
        }
        proof {
            lemma_first_index(addrs, buffer@);
            if addrs.contains(buffer@) {
                let k = choose|k: int| 0 <= k < addrs.len() && addrs[k] == buffer@;
                assert(addrs[k] != buffer@);
            }
        }
        Some(buffer)
    }
}

impl<const BUF_SIZE: usize> EtherInstance<BUF_SIZE> {
    /// Binds a validated configuration to the handle. The transmit and
    /// receive buffers move out of `conf` into the handle, none checked out;
    /// `code` is what the firmware's open returned for `conf`. On success
    /// the handle is open in the configuration's transfer mode.
    pub fn open(&mut self, conf: &mut EtherConfig<BUF_SIZE>, code: u32) -> (r: Result<(), u32>)
        requires
            old(conf).spec_config_error().is_none(),
        ensures
            final(self).wf(),
            r == spec_fsp_result(code),
            final(self)@.open == (old(self)@.open || code == 0),
            final(self)@.zerocopy == if code == 0 { old(conf).zerocopy } else { old(self)@.zerocopy },
            final(self)@.tx_buffers == buffer_addrs(old(conf).tx_buffers@),
            final(self)@.rx_buffers == buffer_addrs(old(conf).rx_buffers@),
            final(self)@.tx_taken == none_taken(old(conf).tx_buffers@.len()),
            final(conf).tx_buffers@.len() == 0,
            final(conf).rx_buffers@.len() == 0,
            *final(conf) == (EtherConfig {
                tx_buffers: final(conf).tx_buffers,
                rx_buffers: final(conf).rx_buffers,
                ..*old(conf)
            }),
    {
        let mut tx_buffers: Vec<Buffer<BUF_SIZE>> = Vec::new();
        let mut rx_buffers: Vec<Buffer<BUF_SIZE>> = Vec::new();
        std::mem::swap(&mut conf.tx_buffers, &mut tx_buffers);
        std::mem::swap(&mut conf.rx_buffers, &mut rx_buffers);
        self.tx_taken = all_false(tx_buffers.len());
        self.tx_buffers = tx_buffers;
        self.rx_buffers = rx_buffers;
        if code == 0 {
            self.open = true;
            self.zerocopy = conf.zerocopy;
        }
        fsp_result(code)
    }

    /// Records the firmware's close: on success the handle is closed.
    /// Buffers stay where they are.
    pub fn close(&mut self, code: u32) -> (r: Result<(), u32>)
        requires
            old(self).wf(),
        ensures
            final(self).wf(),
            r == spec_fsp_result(code),
            final(self)@ == (EtherView { open: old(self)@.open && code != 0, ..old(self)@ }),
    {
        if code == 0 {
            self.open = false;
        }
        fsp_result(code)
    }

    /// Whether a zero-copy read may be issued: only in zero-copy mode.
    pub fn read_zerocopy(&self) -> (r: Result<(), u32>)
        ensures
            r == spec_mode_check(self@.zerocopy, true),
            !self@.zerocopy ==> r == Err::<(), u32>(FSP_ERR_ASSERTION),
    {
        if self.zerocopy {
            Ok(())
        } else {
            Err(FSP_ERR_ASSERTION)
        }
    }

    /// The outcome of a zero-copy read from what the firmware returned: its
    /// code, the address of the received buffer and the frame length. A
    /// null or misaligned address is refused. The caller owns the buffer
    /// until it re-arms a receive descriptor with a buffer.
    pub fn read_zerocopy_complete(&self, code: u32, p_buf: usize, len: u32) -> (r: Result<(Buffer<BUF_SIZE>, usize), u32>)
        ensures
            match spec_read_zerocopy_complete(code, p_buf, len) {
                Ok((addr, n)) => r.is_ok() && r.unwrap().0@ == addr && r.unwrap().1 == n,
                Err(e) => r == Err::<(Buffer<BUF_SIZE>, usize), u32>(e),
            },
    {
        if code != 0 {
            return Err(code);
        }
        if p_buf == 0 || p_buf % BUFFER_ALIGN != 0 {
            return Err(FSP_ERR_ASSERTION);
        }
        Ok((Buffer { addr: p_buf }, len as usize))
    }

    /// Whether a copying read may be issued: only in copying mode.
    pub fn read_non_zerocopy(&self) -> (r: Result<(), u32>)
        ensures
            r == spec_mode_check(self@.zerocopy, false),
    {
        if !self.zerocopy {
            Ok(())
        } else {
            Err(FSP_ERR_ASSERTION)
        }
    }

    /// The outcome of a copying read: the frame length on success.
    pub fn read_non_zerocopy_complete(&self, code: u32, len: u32) -> (r: Result<usize, u32>)
        ensures
            r == if code == 0 { Ok::<usize, u32>(len as usize) } else { Err(code) },
    {
        match fsp_result(code) {
            Ok(()) => Ok(len as usize),
            Err(e) => Err(e),
        }
    }

    /// Re-arms the current receive descriptor with `buffer`: the token is
    /// given up, and its address is what the firmware is handed.
    pub fn rx_buffer_update(&self, buffer: Buffer<BUF_SIZE>) -> (r: usize)
        ensures
            r == buffer@,
    {
        buffer.addr
    }

    /// Submits a checked-out buffer in zero-copy mode. The buffer returns to
    /// the transmit pool and the request names its address and the length,
    /// at most `BUF_SIZE`. In copying mode this is a usage error and nothing
    /// changes.
    pub fn write_zerocopy(&mut self, buffer: Buffer<BUF_SIZE>, len: usize) -> (r: Result<TxRequest, u32>)
        requires
            old(self).wf(),
        ensures
            final(self).wf(),
            final(self)@ == spec_write_zerocopy(old(self)@, buffer@, len, BUF_SIZE).0,
            r == spec_write_zerocopy(old(self)@, buffer@, len, BUF_SIZE).1,
            !old(self)@.zerocopy ==> r == Err::<TxRequest, u32>(FSP_ERR_ASSERTION) && final(self)@ == old(self)@,
    {
        if !self.zerocopy {
            return Err(FSP_ERR_ASSERTION);
        }
        let addr = buffer.addr;
        let len = if len < BUF_SIZE { len } else { BUF_SIZE };
        // Whether or not the firmware accepts the frame, the buffer is back
        // in the pool: on success the descriptor then belongs to the DMA
        // engine, on failure the caller may take the buffer again.
        let _ = self.tx_buffer_update(buffer);
        Ok(TxRequest { addr, len })
    }

    /// The number of bytes of `buffer` that a copying write sends, at most
    /// `BUF_SIZE`. In zero-copy mode this is a usage error.
    pub fn write_non_zerocopy(&self, buffer: &[u8]) -> (r: Result<usize, u32>)
        ensures
            r == match spec_mode_check(self@.zerocopy, false) {
                Ok(_) => Ok::<usize, u32>(if buffer@.len() < BUF_SIZE { buffer@.len() as usize } else { BUF_SIZE }),
                Err(e) => Err(e),
            },
    {
        if self.zerocopy {
            return Err(FSP_ERR_ASSERTION);
        }
        let n = buffer.len();
        Ok(if n < BUF_SIZE { n } else { BUF_SIZE })
    }

    /// The result of the firmware's link processing.
    pub fn link_process(&self, code: u32) -> (r: Result<(), u32>)
        ensures
            r == spec_fsp_result(code),
    {
        fsp_result(code)
    }

    /// The result of the firmware's wake-on-LAN switch.
    pub fn wake_on_lan_enable(&self, code: u32) -> (r: Result<(), u32>)
        ensures
            r == spec_fsp_result(code),
    {
        fsp_result(code)
    }

    /// The result of the firmware's transmit status query.
    pub fn tx_status_get(&self, code: u32) -> (r: Result<(), u32>)
        ensures
            r == spec_fsp_result(code),
    {
        fsp_result(code)
    }

    /// The result of the firmware's callback registration.
    pub fn callback_set(&self, code: u32) -> (r: Result<(), u32>)
        ensures
            r == spec_fsp_result(code),
    {
        fsp_result(code)
    }
}

/// A transmit buffer is never checked out twice: after one take, a second
/// take, of any slot, hands out another buffer or none.
pub proof fn lemma_take_never_shares(v: EtherView, i: int, status: u32, j: int, later: u32)
    requires
        ether_wf(v),
        0 <= i < v.tx_buffers.len(),
        0 <= j < v.tx_buffers.len(),
    ensures
        ({
            let (taken, first) = spec_take_tx_buf(v, i, status);
            let second = spec_take_tx_buf(taken, j, later).1;
            first.is_some() && second.is_some() ==> first.unwrap() != second.unwrap()
        }),
{
    let (taken, first) = spec_take_tx_buf(v, i, status);
    let second = spec_take_tx_buf(taken, j, later).1;
    if first.is_some() && second.is_some() && i != j {
        assert((v.tx_buffers + v.rx_buffers)[i] == v.tx_buffers[i]);
        assert((v.tx_buffers + v.rx_buffers)[j] == v.tx_buffers[j]);
    }
}

/// Taking a transmit buffer and submitting it in zero-copy mode leaves its
/// slot no longer checked out, so the slot can be taken again exactly when
/// its descriptor is seen back in software's hands.
pub proof fn lemma_take_write_round_trip(v: EtherView, i: int, status: u32, len: usize, buf_size: usize, later: u32)
    requires
        ether_wf(v),
        0 <= i < v.tx_buffers.len(),
        v.zerocopy,
        spec_take_tx_buf(v, i, status).1.is_some(),
    ensures
        ({
            let (taken, addr) = spec_take_tx_buf(v, i, status);
            let (written, req) = spec_write_zerocopy(taken, addr.unwrap(), len, buf_size);
            &&& req.is_ok()
            &&& !written.tx_taken[i]
            &&& written.tx_taken == v.tx_taken
            &&& (spec_take_tx_buf(written, i, later).1.is_some() <==> !hw_owned(later))
        }),
{
    let (taken, addr) = spec_take_tx_buf(v, i, status);
    let a = addr.unwrap();
    assert(a == v.tx_buffers[i]);
    assert forall|j: int| 0 <= j < i implies v.tx_buffers[j] != a by {
        assert((v.tx_buffers + v.rx_buffers)[j] == v.tx_buffers[j]);
        assert((v.tx_buffers + v.rx_buffers)[i] == v.tx_buffers[i]);
    }
    lemma_first_index(taken.tx_buffers, a);
    let k = first_index(taken.tx_buffers, a).unwrap();
    assert(k == i);
    let written = spec_write_zerocopy(taken, a, len, buf_size).0;
    assert(written.tx_taken =~= v.tx_taken);
}

} // verus!
