//! The I2C slave bus controller: a serial block that answers the read
//! requests of a bus controller, one byte for each interrupt.
//!
//! The holder stages a reply; the interrupt path drains it. Between the two
//! stand the transmit buffer and its two cursors, and nothing guards them:
//! a reply staged while another is being drained replaces it from its
//! first byte, and what was sent stays sent.

use crate::sequencer::{Access, Poll, Run, Sequencer, Verdict};
use vstd::prelude::*;

verus! {

/// The number of bytes that a staged reply can hold.
pub const TX_CAPACITY: usize = 128;

/// The byte that is sent when the staged reply is used up.
pub const FILLER: u8 = 0xFF;

/// The bus state that is forced at the end of the setup: idle.
pub const BUS_STATE_IDLE: u8 = 1;

/// The command that, with the acknowledge action, releases the bus for the
/// next address or byte.
pub const COMMAND_CONTINUE: u8 = 0x03;

/// The errors of the bus controller.
#[derive(Clone, Copy, PartialEq, Eq, Debug, Structural)]
pub enum I2CSlaveError {
    /// The block lost the bus while it was sending.
    Collision,
}

/// The interrupt sources of the block that the controller uses.
#[derive(Clone, Copy, PartialEq, Eq, Debug, Structural)]
pub enum Interrupt {
    /// A stop condition was received.
    Stop,
    /// The address on the bus is the block's own.
    AddressMatch,
    /// The data register can take the next byte.
    DataReady,
}

/// The synchronisation-busy bits that the setup waits for.
#[derive(Clone, Copy, PartialEq, Eq, Debug, Structural)]
pub enum SyncBusy {
    /// A system operation is being synchronised.
    SystemOperation,
    /// The enable bit is being synchronised.
    Enable,
}

/// One access to the serial block or to its bus-clock gate.
#[derive(Clone, Copy, PartialEq, Eq, Debug, Structural)]
pub enum SlaveOp {
    /// Power manager: set the block's bit in the bus-clock mask.
    EnableBusClock,
    /// Control A: set the software-reset bit.
    SoftwareReset,
    /// Read the two bits that are set while a reset runs: the reset bit of
    /// the synchronisation-busy register and that of control A.
    ReadResetBusy,
    /// Control A: select the I2C slave mode.
    SelectSlaveMode,
    /// Synchronisation busy: read one bit.
    ReadSyncBusy(SyncBusy),
    /// Address register: write the address field.
    WriteAddress(u16),
    /// Address register: write the address-mask field.
    WriteAddressMask(u16),
    /// Interrupt enable set: enable one source.
    EnableInterrupt(Interrupt),
    /// Control A: set the enable bit.
    Enable,
    /// Status: write the bus-state field.
    ForceBusState(u8),
    /// Control B: clear the acknowledge action, so that an acknowledge is
    /// sent.
    Acknowledge,
    /// Control B: write the command field.
    WriteCommand(u8),
    /// Data register: write one byte.
    WriteData(u8),
}

/// What an access to the serial block returned.
#[derive(Clone, Copy, PartialEq, Eq, Debug, Structural)]
pub enum SlaveReply {
    /// A write was made; it returns nothing.
    Done,
    /// The bit that was read.
    Bit(bool),
    /// The two bits that `ReadResetBusy` reads.
    Reset {
        /// The reset bit of the synchronisation-busy register.
        synchronising: bool,
        /// The reset bit of control A.
        resetting: bool,
    },
}

impl Access for SlaveOp {
    type Reply = SlaveReply;

    /// The wait for a reset is settled when both of its bits are read
    /// clear, a wait for synchronisation when its bit is read clear. A
    /// write has nothing to wait for. Nothing aborts.
    open spec fn verdict(self, reply: SlaveReply) -> Verdict {
        match self {
            SlaveOp::ReadResetBusy => if reply == (SlaveReply::Reset {
                synchronising: false,
                resetting: false,
            }) {
                Verdict::Proceed
            } else {
                Verdict::Repeat
            },
            SlaveOp::ReadSyncBusy(_) => if reply == SlaveReply::Bit(false) {
                Verdict::Proceed
            } else {
                Verdict::Repeat
            },
            _ => Verdict::Proceed,
        }
    }

    fn judge(self, reply: SlaveReply) -> (v: Verdict) {
        match self {
            SlaveOp::ReadResetBusy => match reply {
                SlaveReply::Reset { synchronising: false, resetting: false } => Verdict::Proceed,
                _ => Verdict::Repeat,
            },
            SlaveOp::ReadSyncBusy(_) => match reply {
                SlaveReply::Bit(false) => Verdict::Proceed,
                _ => Verdict::Repeat,
            },
            _ => Verdict::Proceed,
        }
    }
}

/// The accesses that set the block up as a slave at `address`, in order:
/// the bus-clock gate, a software reset, the slave mode, the address with
/// an empty mask (so that this address alone is answered), the three
/// interrupt sources, the enable bit, and the bus state, which the block
/// does not find by itself after a cold start.
pub open spec fn setup_script(address: u8) -> Seq<SlaveOp> {
    Seq::empty()
        .push(SlaveOp::EnableBusClock)
        .push(SlaveOp::SoftwareReset)
        .push(SlaveOp::ReadResetBusy)
        .push(SlaveOp::SelectSlaveMode)
        .push(SlaveOp::ReadSyncBusy(SyncBusy::SystemOperation))
        .push(SlaveOp::WriteAddress(address as u16))
        .push(SlaveOp::WriteAddressMask(0))
        .push(SlaveOp::EnableInterrupt(Interrupt::Stop))
        .push(SlaveOp::EnableInterrupt(Interrupt::AddressMatch))
        .push(SlaveOp::EnableInterrupt(Interrupt::DataReady))
        .push(SlaveOp::ReadSyncBusy(SyncBusy::SystemOperation))
        .push(SlaveOp::Enable)
        .push(SlaveOp::ReadSyncBusy(SyncBusy::Enable))
        .push(SlaveOp::ForceBusState(BUS_STATE_IDLE))
        .push(SlaveOp::ReadSyncBusy(SyncBusy::SystemOperation))
}

/// The interrupt flags of the block, as one read of them found them.
#[derive(Clone, Copy, PartialEq, Eq, Debug, Structural)]
pub struct InterruptFlags {
    /// A stop condition is pending.
    pub stop: bool,
    /// An address match is pending.
    pub address_match: bool,
    /// The data register is ready for a byte.
    pub data_ready: bool,
}

/// What the interrupt handler has to do on the bus.
#[derive(Clone, Copy, PartialEq, Eq, Debug, Structural)]
pub enum Response {
    /// Acknowledge and release the bus for the next address or byte.
    Rearm,
    /// Send this byte.
    Transmit(u8),
    /// Nothing: no interrupt of the controller's was pending.
    Idle,
}

impl Response {
    /// The writes that carry the response out, in order.
    pub open spec fn accesses(self) -> Seq<SlaveOp> {
        match self {
            Response::Rearm => Seq::empty().push(SlaveOp::Acknowledge).push(
                SlaveOp::WriteCommand(COMMAND_CONTINUE),
            ),
            Response::Transmit(byte) => Seq::empty().push(SlaveOp::WriteData(byte)),
            Response::Idle => Seq::empty(),
        }
    }

    /// The writes that carry the response out, in order: two at most.
    pub fn writes(&self) -> (writes: Vec<SlaveOp>)
        ensures
            writes@ == self.accesses(),
            writes@.len() <= 2,
    {
        match *self {
            Response::Rearm => prepare_address_match(),
            Response::Transmit(byte) => write_byte(byte),
            Response::Idle => Vec::new(),
        }
    }

    /// What the interrupt handler tells its caller, as far as the response
    /// decides it: after a re-arm, that the interrupt was handled; where
    /// nothing was pending, that it was not. After a byte was sent the
    /// handler tells `transmit_failed` of what the block shows then.
    pub fn outcome(&self) -> (handled: Option<bool>)
        ensures
            handled == match *self {
                Response::Rearm => Some(true),
                Response::Transmit(_) => None::<bool>,
                Response::Idle => Some(false),
            },
    {
        match *self {
            Response::Rearm => Some(true),
            Response::Transmit(_) => None,
            Response::Idle => Some(false),
        }
    }
}

/// The writes that re-arm the block.
fn prepare_address_match() -> (writes: Vec<SlaveOp>)
    ensures
        writes@ == Response::Rearm.accesses(),
{
    let mut writes: Vec<SlaveOp> = Vec::new();
    writes.push(SlaveOp::Acknowledge);
    writes.push(SlaveOp::WriteCommand(COMMAND_CONTINUE));
    writes
}

/// The write that sends `val`.
fn write_byte(val: u8) -> (writes: Vec<SlaveOp>)
    ensures
        writes@ == Response::Transmit(val).accesses(),
{
    let mut writes: Vec<SlaveOp> = Vec::new();
    writes.push(SlaveOp::WriteData(val));
    writes
}

/// What the block shows right after a byte was written to it.
#[derive(Clone, Copy, PartialEq, Eq, Debug, Structural)]
pub struct TransmitStatus {
    /// The data-ready flag.
    pub data_ready: bool,
    /// The bus controller did not acknowledge.
    pub nack: bool,
}

/// Whether the block took a byte badly: the data register did not come
/// ready again at once, or the bus controller did not acknowledge. The
/// transfer goes on either way.
pub fn transmit_failed(status: TransmitStatus) -> (failed: bool)
    ensures
        failed == (!status.data_ready || status.nack),
{
    !status.data_ready || status.nack
}

/// The flags of an interrupt that finds the data register ready and
/// nothing else.
pub open spec fn data_ready_alone() -> InterruptFlags {
    InterruptFlags { stop: false, address_match: false, data_ready: true }
}

/// What the controller holds: its address, the staged reply and how much
/// of it has been sent.
pub struct SlaveState {
    pub address: u8,
    /// The bytes of the staged reply.
    pub staged: Seq<u8>,
    /// How many of them have been sent.
    pub sent: nat,
}

impl SlaveState {
    /// No more is sent than is staged, and no more staged than fits.
    pub open spec fn wf(self) -> bool {
        self.sent <= self.staged.len() <= TX_CAPACITY
    }

    /// A controller that has nothing staged.
    pub open spec fn fresh(address: u8) -> Self {
        SlaveState { address, staged: Seq::empty(), sent: 0 }
    }

    /// The state once `bytes` are staged.
    pub open spec fn stage(self, bytes: Seq<u8>) -> Self {
        SlaveState { staged: bytes, sent: 0, ..self }
    }

    /// The byte that the next data-ready interrupt sends: the next of the
    /// staged reply, and the filler once the reply is used up.
    pub open spec fn next_byte(self) -> u8 {
        if self.sent < self.staged.len() {
            self.staged[self.sent as int]
        } else {
            FILLER
        }
    }

    /// The response to an interrupt that finds `flags`. A stop comes before
    /// an address match, and an address match before a ready data
    /// register.
    pub open spec fn response(self, flags: InterruptFlags) -> Response {
        if flags.stop || flags.address_match {
            Response::Rearm
        } else if flags.data_ready {
            Response::Transmit(self.next_byte())
        } else {
            Response::Idle
        }
    }

    /// The state after an interrupt that finds `flags`. A stop drops the
    /// staged reply; a ready data register takes one byte of it, if one is
    /// left; anything else leaves the state as it is.
    pub open spec fn service(self, flags: InterruptFlags) -> Self {
        if flags.stop {
            SlaveState { staged: Seq::empty(), sent: 0, ..self }
        } else if flags.address_match {
            self
        } else if flags.data_ready && self.sent < self.staged.len() {
            SlaveState { sent: self.sent + 1, ..self }
        } else {
            self
        }
    }
}

impl SlaveState {
    /// The state after `count` interrupts that each find the data register
    /// ready and nothing else.
    pub open spec fn drain(self, count: nat) -> Self
        decreases count,
    {
        if count == 0 {
            self
        } else {
            self.drain((count - 1) as nat).service(data_ready_alone())
        }
    }
}

/// No interrupt takes the cursor past the staged reply, and none but a
/// stop changes what is staged.
pub proof fn lemma_service_keeps_wf(state: SlaveState, flags: InterruptFlags)
    requires
        state.wf(),
    ensures
        state.service(flags).wf(),
        state.service(flags).address == state.address,
        !flags.stop ==> state.service(flags).staged == state.staged,
{
}

/// A staged reply is drained byte for byte and in order. After `count`
/// data-ready interrupts the next one sends the byte at `count`, and the
/// filler once the reply is used up: at once where the reply is empty.
pub proof fn lemma_reply_drains_in_order(state: SlaveState, bytes: Seq<u8>, count: nat)
    requires
        bytes.len() <= TX_CAPACITY,
    ensures
        ({
            let drained = state.stage(bytes).drain(count);
            &&& drained.wf()
            &&& drained.address == state.address
            &&& drained.staged == bytes
            &&& drained.sent == if count <= bytes.len() {
                count
            } else {
                bytes.len()
            }
            &&& drained.response(data_ready_alone()) == Response::Transmit(
                if count < bytes.len() {
                    bytes[count as int]
                } else {
                    FILLER
                },
            )
        }),
    decreases count,
{
    if count > 0 {
        lemma_reply_drains_in_order(state, bytes, (count - 1) as nat);
    }
}

/// The controller of a serial block that is set up as an I2C slave.
#[derive(PartialEq, Eq, Debug)]
pub struct I2CSlave {
    address: u8,
    tx_buffer: [u8; 128],
    tx_index: usize,
    tx_size: usize,
}

impl View for I2CSlave {
    type V = SlaveState;

    closed spec fn view(&self) -> SlaveState {
        SlaveState {
            address: self.address,
            staged: self.tx_buffer@.take(self.tx_size as int),
            sent: self.tx_index as nat,
        }
    }
}

/// The setup of a controller, under way.
pub struct SlaveSetup {
    sequencer: Sequencer<SlaveOp>,
    address: u8,
}

impl View for SlaveSetup {
    type V = Run<SlaveOp>;

    closed spec fn view(&self) -> Run<SlaveOp> {
        self.sequencer@
    }
}

impl SlaveSetup {
    #[verifier::type_invariant]
    spec fn inv(self) -> bool {
        &&& self.sequencer@.wf()
        &&& self.sequencer@.script == setup_script(self.address)
        &&& !self.sequencer@.aborted
    }

    /// The address that this setup gives the block.
    pub closed spec fn address(&self) -> u8 {
        self.address
    }

    /// What to do next: an access to make, or, once every access is
    /// settled, the controller, with nothing staged.
    pub fn poll(&self) -> (next: Poll<SlaveOp, I2CSlave>)
        ensures
            self@.wf(),
            self@.script == setup_script(self.address()),
            !self@.aborted,
            match next {
                Poll::Perform(access) => self@.pending() == Some(access),
                Poll::Ready(slave) => self@.finished() && slave@ == SlaveState::fresh(
                    self.address(),
                ),
            },
    {
        proof {
            use_type_invariant(self);
        }
        match self.sequencer.pending() {
            Some(access) => Poll::Perform(access),
            None => {
                let slave = I2CSlave {
                    address: self.address,
                    tx_buffer: [0u8;128],
                    tx_index: 0,
                    tx_size: 0,
                };
                assert(slave@.staged == Seq::<u8>::empty());
                Poll::Ready(slave)
            },
        }
    }

    /// Takes the reply to the access that `poll` asked for.
    pub fn report(self, reply: SlaveReply) -> (next: Self)
        ensures
            next@ == self@.after(reply),
            next.address() == self.address(),
    {
        proof {
            use_type_invariant(&self);
        }
        let SlaveSetup { sequencer, address } = self;
        SlaveSetup { sequencer: sequencer.report(reply), address }
    }
}

impl I2CSlave {
    #[verifier::type_invariant]
    spec fn inv(self) -> bool {
        self.tx_index <= self.tx_size <= TX_CAPACITY
    }

    /// Begins the setup of a block as a slave that answers to `address`
    /// alone. Nothing has been accessed yet: the setup that is returned
    /// says what to do.
    pub fn new(address: u8) -> (setup: SlaveSetup)
        ensures
            setup@ == Run::start(setup_script(address)),
            setup.address() == address,
    {
        let mut script: Vec<SlaveOp> = Vec::new();
        script.push(SlaveOp::EnableBusClock);
        script.push(SlaveOp::SoftwareReset);
        script.push(SlaveOp::ReadResetBusy);
        script.push(SlaveOp::SelectSlaveMode);
        script.push(SlaveOp::ReadSyncBusy(SyncBusy::SystemOperation));
        script.push(SlaveOp::WriteAddress(address as u16));
        script.push(SlaveOp::WriteAddressMask(0));
        script.push(SlaveOp::EnableInterrupt(Interrupt::Stop));
        script.push(SlaveOp::EnableInterrupt(Interrupt::AddressMatch));
        script.push(SlaveOp::EnableInterrupt(Interrupt::DataReady));
        script.push(SlaveOp::ReadSyncBusy(SyncBusy::SystemOperation));
        script.push(SlaveOp::Enable);
        script.push(SlaveOp::ReadSyncBusy(SyncBusy::Enable));
        script.push(SlaveOp::ForceBusState(BUS_STATE_IDLE));
        script.push(SlaveOp::ReadSyncBusy(SyncBusy::SystemOperation));
        SlaveSetup { sequencer: Sequencer::new(script), address }
    }

    /// The address that the block answers to.
    pub fn address(&self) -> (address: u8)
        ensures
            address == self@.address,
    {
        self.address
    }

    /// How many bytes of the staged reply have been sent.
    pub fn tx_index(&self) -> (index: usize)
        ensures
            index == self@.sent,
            self@.wf(),
    {
        proof {
            use_type_invariant(self);
        }
        self.tx_index
    }

    /// How many bytes the staged reply holds.
    pub fn tx_size(&self) -> (size: usize)
        ensures
            size == self@.staged.len(),
            self@.wf(),
    {
        proof {
            use_type_invariant(self);
        }
        self.tx_size
    }

    /// Whether `flags` hold an address match.
    fn is_address_match(flags: InterruptFlags) -> (pending: bool)
        ensures
            pending == flags.address_match,
    {
        flags.address_match
    }

    /// Whether `flags` hold a ready data register.
    fn is_data_ready(flags: InterruptFlags) -> (pending: bool)
        ensures
            pending == flags.data_ready,
    {
        flags.data_ready
    }

    /// Whether `flags` hold a stop.
    fn is_stop_detected(flags: InterruptFlags) -> (pending: bool)
        ensures
            pending == flags.stop,
    {
        flags.stop
    }

    /// Takes the byte to send next, and moves the cursor past it if it is
    /// one of the staged reply.
    fn write_next(&mut self) -> (byte: u8)
        ensures
            byte == old(self)@.next_byte(),
            final(self)@ == old(self)@.service(data_ready_alone()),
    {
        proof {
            use_type_invariant(&*self);
        }
        if self.tx_index >= self.tx_size {
            FILLER
        } else {
            let byte = self.tx_buffer[self.tx_index];
            self.tx_index += 1;
            byte
        }
    }

    /// Stages `bytes` as the reply to the next read request, in place of
    /// what was staged before, and sets the cursor to its first byte.
    pub fn stage_reply(&mut self, bytes: &[u8])
        requires
            bytes@.len() <= TX_CAPACITY,
        ensures
            final(self)@ == old(self)@.stage(bytes@),
    {
        proof {
            use_type_invariant(&*self);
        }
        let mut i: usize = 0;
        while i < bytes.len()
            invariant
                i <= bytes@.len() <= TX_CAPACITY,
                self.tx_index <= self.tx_size <= TX_CAPACITY,
                self.address == old(self).address,
                self.tx_index == old(self).tx_index,
                self.tx_size == old(self).tx_size,
                self.tx_buffer@.take(i as int) == bytes@.take(i as int),
            decreases bytes@.len() - i,
        {
            self.tx_buffer[i] = bytes[i];
            i += 1;
        }
        self.tx_index = 0;
        self.tx_size = bytes.len();
        assert(bytes@.take(bytes@.len() as int) == bytes@);
    }

    /// Whether the bus controller has asked to read: an address match is
    /// pending.
    pub fn is_read_request(&self, flags: InterruptFlags) -> (pending: bool)
        ensures
            pending == flags.address_match,
    {
        Self::is_address_match(flags)
    }

    /// Decides one interrupt from the flags that it found. A stop re-arms
    /// the block and drops the staged reply. An address match without a
    /// stop re-arms the block and leaves the reply and its cursor alone. A
    /// ready data register, without either, sends the next staged byte, or
    /// the filler when none is left. Without any of the three nothing
    /// happens.
    pub fn service_interrupt(&mut self, flags: InterruptFlags) -> (response: Response)
        ensures
            response == old(self)@.response(flags),
            final(self)@ == old(self)@.service(flags),
            old(self)@.wf(),
            final(self)@.wf(),
            flags.stop ==> {
                &&& response == Response::Rearm
                &&& final(self)@.sent == 0
                &&& final(self)@.staged.len() == 0
            },
            flags.address_match && !flags.stop ==> {
                &&& response == Response::Rearm
                &&& *final(self) == *old(self)
            },
            !flags.stop && !flags.address_match && !flags.data_ready ==> {
                &&& response == Response::Idle
                &&& *final(self) == *old(self)
            },
    {
        proof {
            use_type_invariant(&*self);
        }
        if Self::is_stop_detected(flags) {
            self.tx_index = 0;
            self.tx_size = 0;
            assert(self@.staged == Seq::<u8>::empty());
            Response::Rearm
        } else if Self::is_address_match(flags) {
            Response::Rearm
        } else if Self::is_data_ready(flags) {
            Response::Transmit(self.write_next())
        } else {
            Response::Idle
        }
    }
}

/// The place where the interrupt handler of a block finds the controller of
/// that block. It is empty until the controller is put in, once, at
/// startup; from then on the controller is reached through it alone, to
/// stage a reply and to serve an interrupt.
pub struct InterruptSlot {
    slave: Option<I2CSlave>,
}

impl View for InterruptSlot {
    type V = Option<SlaveState>;

    closed spec fn view(&self) -> Option<SlaveState> {
        match self.slave {
            Some(slave) => Some(slave@),
            None => None,
        }
    }
}

impl InterruptSlot {
    /// A slot that holds no controller.
    pub fn empty() -> (slot: InterruptSlot)
        ensures
            slot@ is None,
    {
        InterruptSlot { slave: None }
    }

    /// Puts the controller into the slot if the slot is empty. A slot that
    /// holds a controller keeps it and hands the new one back.
    pub fn install(&mut self, slave: I2CSlave) -> (refused: Option<I2CSlave>)
        ensures
            old(self)@ is None ==> final(self)@ == Some(slave@) && refused is None,
            old(self)@ is Some ==> final(self)@ == old(self)@ && refused == Some(slave),
    {
        if self.slave.is_some() {
            Some(slave)
        } else {
            self.slave = Some(slave);
            None
        }
    }

    /// Stages `bytes` with the controller in the slot. Tells whether there
    /// was one.
    pub fn stage_reply(&mut self, bytes: &[u8]) -> (staged: bool)
        requires
            bytes@.len() <= TX_CAPACITY,
        ensures
            staged == old(self)@ is Some,
            final(self)@ == match old(self)@ {
                Some(state) => Some(state.stage(bytes@)),
                None => None,
            },
    {
        match self.slave.take() {
            Some(slave) => {
                let mut slave = slave;
                slave.stage_reply(bytes);
                self.slave = Some(slave);
                true
            },
            None => false,
        }
    }

    /// Whether there is a controller in the slot and an address match is
    /// pending for it.
    pub fn is_read_request(&self, flags: InterruptFlags) -> (pending: bool)
        ensures
            pending == (self@ is Some && flags.address_match),
    {
        match &self.slave {
            Some(slave) => slave.is_read_request(flags),
            None => false,
        }
    }

    /// Serves one interrupt with the controller in the slot. Without a
    /// controller there is nothing to do on the bus.
    pub fn service_interrupt(&mut self, flags: InterruptFlags) -> (response: Response)
        ensures
            response == match old(self)@ {
                Some(state) => state.response(flags),
                None => Response::Idle,
            },
            final(self)@ == match old(self)@ {
                Some(state) => Some(state.service(flags)),
                None => None,
            },
    {
        match self.slave.take() {
            Some(slave) => {
                let mut slave = slave;
                let response = slave.service_interrupt(flags);
                self.slave = Some(slave);
                response
            },
            None => Response::Idle,
        }
    }
}

} // verus!
