use atsamd21_hal::i2c_slave::{
    transmit_failed, I2CSlave, I2CSlaveError, Interrupt, InterruptFlags, InterruptSlot, Response,
    SlaveOp, SlaveReply, SyncBusy, TransmitStatus, BUS_STATE_IDLE, COMMAND_CONTINUE, FILLER,
    TX_CAPACITY,
};
use atsamd21_hal::sequencer::Poll;

/// A serial block made of plain variables.
struct SimulatedBlock {
    reset_polls: u32,
    busy_polls: u32,

    reset_left: u32,
    busy_left: u32,
    address: Option<u16>,
    mask: Option<u16>,
    enabled_interrupts: Vec<Interrupt>,
    slave_mode: bool,
    enabled: bool,
    bus_state: Option<u8>,
    acknowledges: u32,
    commands: Vec<u8>,
    sent: Vec<u8>,
    log: Vec<SlaveOp>,
}

impl SimulatedBlock {
    fn new() -> SimulatedBlock {
        SimulatedBlock {
            reset_polls: 0,
            busy_polls: 0,
            reset_left: 0,
            busy_left: 0,
            address: None,
            mask: None,
            enabled_interrupts: Vec::new(),
            slave_mode: false,
            enabled: false,
            bus_state: None,
            acknowledges: 0,
            commands: Vec::new(),
            sent: Vec::new(),
            log: Vec::new(),
        }
    }

    fn perform(&mut self, op: SlaveOp) -> SlaveReply {
        self.log.push(op);
        match op {
            SlaveOp::EnableBusClock => SlaveReply::Done,
            SlaveOp::SoftwareReset => {
                self.reset_left = self.reset_polls;
                self.address = None;
                self.mask = None;
                self.enabled = false;
                self.slave_mode = false;
                SlaveReply::Done
            }
            SlaveOp::ReadResetBusy => {
                if self.reset_left > 0 {
                    self.reset_left -= 1;
                    SlaveReply::Reset {
                        synchronising: self.reset_left % 2 == 0,
                        resetting: true,
                    }
                } else {
                    SlaveReply::Reset { synchronising: false, resetting: false }
                }
            }
            SlaveOp::ReadSyncBusy(_) => {
                if self.busy_left > 0 {
                    self.busy_left -= 1;
                    SlaveReply::Bit(true)
                } else {
                    SlaveReply::Bit(false)
                }
            }
            SlaveOp::SelectSlaveMode => {
                self.slave_mode = true;
                self.busy_left = self.busy_polls;
                SlaveReply::Done
            }
            SlaveOp::WriteAddress(address) => {
                self.address = Some(address);
                SlaveReply::Done
            }
            SlaveOp::WriteAddressMask(mask) => {
                self.mask = Some(mask);
                SlaveReply::Done
            }
            SlaveOp::EnableInterrupt(source) => {
                self.enabled_interrupts.push(source);
                self.busy_left = self.busy_polls;
                SlaveReply::Done
            }
            SlaveOp::Enable => {
                self.enabled = true;
                self.busy_left = self.busy_polls;
                SlaveReply::Done
            }
            SlaveOp::ForceBusState(state) => {
                self.bus_state = Some(state);
                self.busy_left = self.busy_polls;
                SlaveReply::Done
            }
            SlaveOp::Acknowledge => {
                self.acknowledges += 1;
                SlaveReply::Done
            }
            SlaveOp::WriteCommand(command) => {
                self.commands.push(command);
                SlaveReply::Done
            }
            SlaveOp::WriteData(byte) => {
                self.sent.push(byte);
                SlaveReply::Done
            }
        }
    }

    /// One interrupt, as a handler would serve it.
    fn interrupt(&mut self, slave: &mut I2CSlave, flags: InterruptFlags) -> bool {
        let response = slave.service_interrupt(flags);
        for op in response.writes() {
            self.perform(op);
        }
        match response.outcome() {
            Some(handled) => handled,
            None => transmit_failed(TransmitStatus { data_ready: true, nack: false }),
        }
    }
}

fn set_up(block: &mut SimulatedBlock, address: u8) -> I2CSlave {
    let mut setup = I2CSlave::new(address);
    loop {
        match setup.poll() {
            Poll::Perform(op) => {
                let reply = block.perform(op);
                setup = setup.report(reply);
            }
            Poll::Ready(slave) => return slave,
        }
    }
}

const NONE: InterruptFlags = InterruptFlags { stop: false, address_match: false, data_ready: false };
const STOP: InterruptFlags = InterruptFlags { stop: true, address_match: false, data_ready: false };
const ADDRESS_MATCH: InterruptFlags =
    InterruptFlags { stop: false, address_match: true, data_ready: false };
const DATA_READY: InterruptFlags =
    InterruptFlags { stop: false, address_match: false, data_ready: true };

#[test]
fn slave_setup_makes_its_accesses_in_order() {
    let mut block = SimulatedBlock::new();
    let slave = set_up(&mut block, 0x21);
    assert_eq!(
        block.log,
        vec![
            SlaveOp::EnableBusClock,
            SlaveOp::SoftwareReset,
            SlaveOp::ReadResetBusy,
            SlaveOp::SelectSlaveMode,
            SlaveOp::ReadSyncBusy(SyncBusy::SystemOperation),
            SlaveOp::WriteAddress(0x21),
            SlaveOp::WriteAddressMask(0),
            SlaveOp::EnableInterrupt(Interrupt::Stop),
            SlaveOp::EnableInterrupt(Interrupt::AddressMatch),
            SlaveOp::EnableInterrupt(Interrupt::DataReady),
            SlaveOp::ReadSyncBusy(SyncBusy::SystemOperation),
            SlaveOp::Enable,
            SlaveOp::ReadSyncBusy(SyncBusy::Enable),
            SlaveOp::ForceBusState(1),
            SlaveOp::ReadSyncBusy(SyncBusy::SystemOperation),
        ]
    );
    assert_eq!(slave.address(), 0x21);
    assert_eq!(slave.tx_index(), 0);
    assert_eq!(slave.tx_size(), 0);
}

#[test]
fn slave_setup_programs_the_block() {
    let mut block = SimulatedBlock::new();
    block.reset_polls = 5;
    block.busy_polls = 2;
    set_up(&mut block, 0x7F);
    assert!(block.slave_mode);
    assert!(block.enabled);
    assert_eq!(block.address, Some(0x7F));
    assert_eq!(block.mask, Some(0));
    assert_eq!(
        block.enabled_interrupts,
        vec![Interrupt::Stop, Interrupt::AddressMatch, Interrupt::DataReady]
    );
    assert_eq!(block.bus_state, Some(BUS_STATE_IDLE));
    assert_eq!(BUS_STATE_IDLE, 1);
}

#[test]
fn slave_setup_takes_any_address_as_it_is() {
    let mut block = SimulatedBlock::new();
    let slave = set_up(&mut block, 0xF0);
    assert_eq!(block.address, Some(0x00F0));
    assert_eq!(slave.address(), 0xF0);
}

#[test]
fn slave_setup_waits_until_both_reset_bits_are_clear() {
    let setup = I2CSlave::new(0x21).report(SlaveReply::Done).report(SlaveReply::Done);
    assert_eq!(setup.poll(), Poll::Perform(SlaveOp::ReadResetBusy));
    let setup = setup.report(SlaveReply::Reset { synchronising: true, resetting: true });
    assert_eq!(setup.poll(), Poll::Perform(SlaveOp::ReadResetBusy));
    let setup = setup.report(SlaveReply::Reset { synchronising: true, resetting: false });
    assert_eq!(setup.poll(), Poll::Perform(SlaveOp::ReadResetBusy));
    let setup = setup.report(SlaveReply::Reset { synchronising: false, resetting: true });
    assert_eq!(setup.poll(), Poll::Perform(SlaveOp::ReadResetBusy));
    let setup = setup.report(SlaveReply::Bit(false));
    assert_eq!(setup.poll(), Poll::Perform(SlaveOp::ReadResetBusy));
    let setup = setup.report(SlaveReply::Done);
    assert_eq!(setup.poll(), Poll::Perform(SlaveOp::ReadResetBusy));
    let setup = setup.report(SlaveReply::Reset { synchronising: false, resetting: false });
    assert_eq!(setup.poll(), Poll::Perform(SlaveOp::SelectSlaveMode));
}

#[test]
fn slave_setup_polls_until_the_block_is_synchronised() {
    let mut block = SimulatedBlock::new();
    block.reset_polls = 3;
    block.busy_polls = 4;
    set_up(&mut block, 0x21);
    let polls = |op: SlaveOp| block.log.iter().filter(|made| **made == op).count();
    assert_eq!(polls(SlaveOp::ReadResetBusy), 4);
    assert_eq!(polls(SlaveOp::ReadSyncBusy(SyncBusy::SystemOperation)), 3 * 5);
    assert_eq!(polls(SlaveOp::ReadSyncBusy(SyncBusy::Enable)), 5);
    assert_eq!(polls(SlaveOp::SoftwareReset), 1);
    assert_eq!(polls(SlaveOp::Enable), 1);
}

#[test]
fn slave_setup_repeats_a_wait_on_a_reply_of_the_wrong_kind() {
    let mut setup = I2CSlave::new(0x21);
    for _ in 0..2 {
        setup = setup.report(SlaveReply::Done);
    }
    setup = setup.report(SlaveReply::Reset { synchronising: false, resetting: false });
    setup = setup.report(SlaveReply::Done);
    assert_eq!(setup.poll(), Poll::Perform(SlaveOp::ReadSyncBusy(SyncBusy::SystemOperation)));
    let setup = setup.report(SlaveReply::Done);
    assert_eq!(setup.poll(), Poll::Perform(SlaveOp::ReadSyncBusy(SyncBusy::SystemOperation)));
    let setup = setup.report(SlaveReply::Reset { synchronising: false, resetting: false });
    assert_eq!(setup.poll(), Poll::Perform(SlaveOp::ReadSyncBusy(SyncBusy::SystemOperation)));
    let setup = setup.report(SlaveReply::Bit(true));
    assert_eq!(setup.poll(), Poll::Perform(SlaveOp::ReadSyncBusy(SyncBusy::SystemOperation)));
    let setup = setup.report(SlaveReply::Bit(false));
    assert_eq!(setup.poll(), Poll::Perform(SlaveOp::WriteAddress(0x21)));
}

#[test]
fn end_to_end_read_of_two_bytes() {
    let mut block = SimulatedBlock::new();
    let mut slave = set_up(&mut block, 0x21);
    slave.stage_reply(&[0x1c, 0x9a]);

    assert!(slave.is_read_request(ADDRESS_MATCH));
    assert!(block.interrupt(&mut slave, ADDRESS_MATCH));
    assert_eq!(slave.tx_index(), 0);
    assert_eq!(slave.tx_size(), 2);

    block.interrupt(&mut slave, DATA_READY);
    block.interrupt(&mut slave, DATA_READY);
    assert_eq!(block.sent, vec![0x1c, 0x9a]);
    assert_eq!(slave.tx_index(), 2);

    block.interrupt(&mut slave, DATA_READY);
    assert_eq!(block.sent, vec![0x1c, 0x9a, 0xFF]);
    assert_eq!(slave.tx_index(), 2);
    assert_eq!(slave.tx_size(), 2);

    assert!(block.interrupt(&mut slave, STOP));
    assert_eq!(slave.tx_index(), 0);
    assert_eq!(slave.tx_size(), 0);
    assert_eq!(block.acknowledges, 2);
    assert_eq!(block.commands, vec![COMMAND_CONTINUE, COMMAND_CONTINUE]);
}

#[test]
fn reply_staged_on_the_read_request_is_sent() {
    let mut block = SimulatedBlock::new();
    let mut slave = set_up(&mut block, 0x21);
    for _ in 0..2 {
        if slave.is_read_request(ADDRESS_MATCH) {
            slave.stage_reply(&[0x1c, 0x9a]);
        }
        block.interrupt(&mut slave, ADDRESS_MATCH);
        block.interrupt(&mut slave, DATA_READY);
        block.interrupt(&mut slave, DATA_READY);
        block.interrupt(&mut slave, STOP);
    }
    assert_eq!(block.sent, vec![0x1c, 0x9a, 0x1c, 0x9a]);
}

#[test]
fn full_buffer_is_drained_byte_for_byte() {
    let mut slave = set_up(&mut SimulatedBlock::new(), 0x21);
    let reply: Vec<u8> = (0..128u32).map(|i| (i * 2 + 1) as u8).collect();
    assert_eq!(reply.len(), TX_CAPACITY);
    slave.stage_reply(&reply);
    assert_eq!(slave.tx_size(), 128);
    assert_eq!(slave.tx_index(), 0);
    for (i, byte) in reply.iter().enumerate() {
        assert_eq!(slave.tx_index(), i);
        assert_eq!(slave.service_interrupt(DATA_READY), Response::Transmit(*byte));
    }
    assert_eq!(slave.tx_index(), 128);
    assert_eq!(slave.service_interrupt(DATA_READY), Response::Transmit(0xFF));
    assert_eq!(slave.service_interrupt(DATA_READY), Response::Transmit(0xFF));
    assert_eq!(slave.tx_index(), 128);
    assert_eq!(slave.tx_size(), 128);
}

#[test]
fn empty_reply_yields_the_filler_at_once() {
    let mut slave = set_up(&mut SimulatedBlock::new(), 0x21);
    slave.stage_reply(&[]);
    assert_eq!(slave.tx_size(), 0);
    assert_eq!(slave.service_interrupt(DATA_READY), Response::Transmit(0xFF));
    assert_eq!(slave.tx_index(), 0);
    assert_eq!(FILLER, 0xFF);
}

#[test]
fn nothing_staged_yields_the_filler() {
    let mut slave = set_up(&mut SimulatedBlock::new(), 0x21);
    assert_eq!(slave.service_interrupt(DATA_READY), Response::Transmit(0xFF));
    assert_eq!(slave.tx_index(), 0);
    assert_eq!(slave.tx_size(), 0);
}

#[test]
fn stop_wins_over_data_ready() {
    let mut slave = set_up(&mut SimulatedBlock::new(), 0x21);
    slave.stage_reply(&[1, 2, 3]);
    assert_eq!(slave.service_interrupt(DATA_READY), Response::Transmit(1));
    let both = InterruptFlags { stop: true, address_match: false, data_ready: true };
    assert_eq!(slave.service_interrupt(both), Response::Rearm);
    assert_eq!(slave.tx_index(), 0);
    assert_eq!(slave.tx_size(), 0);
    assert_eq!(slave.service_interrupt(DATA_READY), Response::Transmit(0xFF));
}

#[test]
fn stop_wins_over_everything() {
    let mut slave = set_up(&mut SimulatedBlock::new(), 0x21);
    slave.stage_reply(&[1, 2, 3]);
    let all = InterruptFlags { stop: true, address_match: true, data_ready: true };
    assert_eq!(slave.service_interrupt(all), Response::Rearm);
    assert_eq!(slave.tx_index(), 0);
    assert_eq!(slave.tx_size(), 0);
}

#[test]
fn address_match_wins_over_data_ready() {
    let mut slave = set_up(&mut SimulatedBlock::new(), 0x21);
    slave.stage_reply(&[1, 2, 3]);
    let both = InterruptFlags { stop: false, address_match: true, data_ready: true };
    assert_eq!(slave.service_interrupt(both), Response::Rearm);
    assert_eq!(slave.tx_index(), 0);
    assert_eq!(slave.tx_size(), 3);
    assert_eq!(slave.service_interrupt(DATA_READY), Response::Transmit(1));
}

#[test]
fn address_match_leaves_the_cursors() {
    let mut slave = set_up(&mut SimulatedBlock::new(), 0x21);
    slave.stage_reply(&[9, 8, 7, 6]);
    slave.service_interrupt(DATA_READY);
    slave.service_interrupt(DATA_READY);
    let before = (slave.tx_index(), slave.tx_size());
    assert_eq!(before, (2, 4));
    assert_eq!(slave.service_interrupt(ADDRESS_MATCH), Response::Rearm);
    assert_eq!((slave.tx_index(), slave.tx_size()), before);
    assert_eq!(slave.service_interrupt(DATA_READY), Response::Transmit(7));
}

#[test]
fn stop_resets_the_cursors() {
    let mut slave = set_up(&mut SimulatedBlock::new(), 0x21);
    slave.stage_reply(&[9, 8, 7, 6]);
    slave.service_interrupt(DATA_READY);
    assert_eq!(slave.service_interrupt(STOP), Response::Rearm);
    assert_eq!(slave.tx_index(), 0);
    assert_eq!(slave.tx_size(), 0);
}

#[test]
fn no_flag_means_not_handled_and_no_change() {
    let mut block = SimulatedBlock::new();
    let mut slave = set_up(&mut block, 0x21);
    slave.stage_reply(&[5, 6]);
    slave.service_interrupt(DATA_READY);
    let writes = block.log.len();
    for _ in 0..3 {
        assert_eq!(slave.service_interrupt(NONE), Response::Idle);
        assert!(!block.interrupt(&mut slave, NONE));
        assert_eq!(slave.tx_index(), 1);
        assert_eq!(slave.tx_size(), 2);
    }
    assert_eq!(block.log.len(), writes);
    assert_eq!(slave.service_interrupt(DATA_READY), Response::Transmit(6));
}

#[test]
fn staging_again_starts_from_the_first_byte() {
    let mut slave = set_up(&mut SimulatedBlock::new(), 0x21);
    slave.stage_reply(&[1, 2, 3, 4]);
    slave.service_interrupt(DATA_READY);
    slave.service_interrupt(DATA_READY);
    slave.stage_reply(&[7, 8]);
    assert_eq!(slave.tx_index(), 0);
    assert_eq!(slave.tx_size(), 2);
    assert_eq!(slave.service_interrupt(DATA_READY), Response::Transmit(7));
    assert_eq!(slave.service_interrupt(DATA_READY), Response::Transmit(8));
    assert_eq!(slave.service_interrupt(DATA_READY), Response::Transmit(0xFF));
}

#[test]
fn read_request_is_a_pending_address_match() {
    let slave = set_up(&mut SimulatedBlock::new(), 0x21);
    assert!(slave.is_read_request(ADDRESS_MATCH));
    assert!(slave.is_read_request(InterruptFlags {
        stop: true,
        address_match: true,
        data_ready: true
    }));
    assert!(!slave.is_read_request(NONE));
    assert!(!slave.is_read_request(STOP));
    assert!(!slave.is_read_request(DATA_READY));
}

#[test]
fn responses_name_their_writes() {
    assert_eq!(
        Response::Rearm.writes(),
        vec![SlaveOp::Acknowledge, SlaveOp::WriteCommand(0x03)]
    );
    assert_eq!(Response::Transmit(0x42).writes(), vec![SlaveOp::WriteData(0x42)]);
    assert_eq!(Response::Idle.writes(), Vec::<SlaveOp>::new());
}

#[test]
fn responses_decide_what_the_handler_tells() {
    assert_eq!(Response::Rearm.outcome(), Some(true));
    assert_eq!(Response::Idle.outcome(), Some(false));
    assert_eq!(Response::Transmit(0).outcome(), None);
}

#[test]
fn transmit_fails_without_data_ready_or_with_a_nack() {
    assert!(!transmit_failed(TransmitStatus { data_ready: true, nack: false }));
    assert!(transmit_failed(TransmitStatus { data_ready: false, nack: false }));
    assert!(transmit_failed(TransmitStatus { data_ready: true, nack: true }));
    assert!(transmit_failed(TransmitStatus { data_ready: false, nack: true }));
}

#[test]
fn collision_is_an_error_of_its_own() {
    let error = I2CSlaveError::Collision;
    assert_eq!(error, I2CSlaveError::Collision);
    assert_eq!(format!("{:?}", error), "Collision");
}

#[test]
fn empty_slot_serves_nothing() {
    let mut slot = InterruptSlot::empty();
    assert!(!slot.stage_reply(&[1, 2]));
    assert!(!slot.is_read_request(ADDRESS_MATCH));
    assert_eq!(slot.service_interrupt(STOP), Response::Idle);
    assert_eq!(slot.service_interrupt(ADDRESS_MATCH), Response::Idle);
    assert_eq!(slot.service_interrupt(DATA_READY), Response::Idle);
    assert_eq!(slot.service_interrupt(NONE), Response::Idle);
}

#[test]
fn slot_takes_one_controller_and_no_second() {
    let mut slot = InterruptSlot::empty();
    let first = set_up(&mut SimulatedBlock::new(), 0x21);
    let second = set_up(&mut SimulatedBlock::new(), 0x42);
    assert_eq!(slot.install(first), None);
    assert!(slot.stage_reply(&[7]));
    let refused = slot.install(second).unwrap();
    assert_eq!(refused.address(), 0x42);
    assert_eq!(slot.service_interrupt(DATA_READY), Response::Transmit(7));
}

#[test]
fn slot_serves_a_read_as_the_controller_does() {
    let mut slot = InterruptSlot::empty();
    slot.install(set_up(&mut SimulatedBlock::new(), 0x21));
    let mut sent = Vec::new();
    for flags in [ADDRESS_MATCH, DATA_READY, DATA_READY, DATA_READY, STOP, DATA_READY] {
        if slot.is_read_request(flags) {
            assert!(slot.stage_reply(&[0x1c, 0x9a]));
        }
        match slot.service_interrupt(flags) {
            Response::Transmit(byte) => sent.push(byte),
            Response::Rearm => assert!(flags.stop || flags.address_match),
            Response::Idle => panic!("an interrupt was pending"),
        }
    }
    assert_eq!(sent, vec![0x1c, 0x9a, 0xFF, 0xFF]);
}
