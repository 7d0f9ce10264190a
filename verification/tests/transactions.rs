use std::collections::VecDeque;

use tegra_spi::spi::Spi;
use tegra_spi::spi::protocol::Kind;
use tegra_spi::spi::registers::{
    Register, COMMAND_PIO, COMMAND_RX_EN, COMMAND_TX_EN, FIFO_CAPACITY, FIFO_STATUS_ERR,
    FIFO_STATUS_ERRORS, FIFO_STATUS_FLUSH, FIFO_STATUS_RX_FIFO_FLUSH, FIFO_STATUS_RX_FIFO_OVF,
    FIFO_STATUS_TX_FIFO_FLUSH, FIFO_STATUS_TX_FIFO_UNR, TRANSFER_STATUS_RDY,
};
use tegra_spi::spi::transaction::{Error, Request, State, Transaction};

/// A register block in memory, with the two FIFOs as queues of their own and a device
/// on the wire.
struct Mock {
    command: u32,
    transfer_status: u32,
    fifo_status: u32,
    block_size: u32,
    tx_fifo: VecDeque<u32>,
    rx_fifo: VecDeque<u32>,
    /// Words that the device will put into the receive FIFO, one for each byte asked
    /// for.
    answer: VecDeque<u32>,
    /// Whether the device answers with the bytes that were last sent to it.
    echo: bool,
    /// Words that went out on the wire.
    sent: Vec<u32>,
    /// Flags to raise in the FIFO status when the next exchange ends.
    fault: u32,
    /// Reads of the transfer status that still see the controller busy.
    busy_polls: u32,
    /// Reads of the FIFO status that still see the flush under way, and the triggers
    /// they see.
    flush_polls: VecDeque<u32>,
    /// Every request performed, in order.
    requests: Vec<Request>,
}

impl Mock {
    fn fresh() -> Mock {
        Mock {
            command: 0,
            transfer_status: TRANSFER_STATUS_RDY,
            fifo_status: 0,
            block_size: 0,
            tx_fifo: VecDeque::new(),
            rx_fifo: VecDeque::new(),
            answer: VecDeque::new(),
            echo: false,
            sent: Vec::new(),
            fault: 0,
            busy_polls: 0,
            flush_polls: VecDeque::new(),
            requests: Vec::new(),
        }
    }

    fn read(&mut self, register: Register) -> u32 {
        match register {
            Register::Command => self.command,
            Register::TransferStatus => {
                if self.busy_polls > 0 {
                    self.busy_polls -= 1;
                    self.transfer_status & !TRANSFER_STATUS_RDY
                } else {
                    self.transfer_status
                }
            }
            Register::FifoStatus => match self.flush_polls.pop_front() {
                Some(triggers) => self.fifo_status | triggers,
                None => self.fifo_status,
            },
            Register::BlockSize => self.block_size,
            Register::TxFifo => 0,
            Register::RxFifo => self.rx_fifo.pop_front().unwrap_or(0),
        }
    }

    fn write(&mut self, register: Register, word: u32) {
        match register {
            Register::Command => {
                let starts = word & COMMAND_PIO != 0 && self.command & COMMAND_PIO == 0;
                self.command = word;
                if starts {
                    self.exchange();
                }
            }
            Register::TransferStatus => self.transfer_status = word,
            Register::FifoStatus => {
                if word & FIFO_STATUS_TX_FIFO_FLUSH != 0 {
                    self.tx_fifo.clear();
                }
                if word & FIFO_STATUS_RX_FIFO_FLUSH != 0 {
                    self.rx_fifo.clear();
                }
                // The triggers clear themselves when the flush is done.
                self.fifo_status = word & !FIFO_STATUS_FLUSH;
            }
            Register::BlockSize => self.block_size = word,
            Register::TxFifo => self.tx_fifo.push_back(word),
            Register::RxFifo => {}
        }
    }

    /// One exchange on the wire, started by the PIO trigger.
    fn exchange(&mut self) {
        let bytes = self.block_size as usize + 1;
        if self.command & COMMAND_TX_EN != 0 {
            while let Some(word) = self.tx_fifo.pop_front() {
                self.sent.push(word);
                if self.echo {
                    self.answer = word.to_le_bytes().iter().map(|b| u32::from(*b)).collect();
                }
            }
        }
        if self.command & COMMAND_RX_EN != 0 {
            for _ in 0..bytes {
                if let Some(word) = self.answer.pop_front() {
                    self.rx_fifo.push_back(word);
                }
            }
        }
        self.fifo_status |= self.fault;
        self.fault = 0;
        self.transfer_status |= TRANSFER_STATUS_RDY;
        self.command &= !COMMAND_PIO;
    }

    /// Performs the requests of `transaction` until it is over.
    fn run(&mut self, transaction: Transaction) -> (Transaction, Result<(), Error>) {
        let mut transaction = transaction;
        let first = self.requests.len();
        loop {
            assert!(self.requests.len() - first < 10_000, "the transaction does not end");
            let request = transaction.request();
            let value = match request {
                Request::Read(register) => self.read(register),
                Request::Write(register, word) => {
                    self.write(register, word);
                    0
                }
                Request::Delay(_) => 0,
                Request::Done(result) => {
                    assert!(transaction.is_finished());
                    return (transaction, result);
                }
            };
            assert!(!transaction.is_finished());
            self.requests.push(request);
            transaction = transaction.advance(value);
        }
    }

    fn reads_of(&self, register: Register) -> usize {
        self.requests.iter().filter(|r| **r == Request::Read(register)).count()
    }
}

const RDY: u32 = 0x4000_0000;

#[test]
fn flush_waits_sets_both_triggers_and_waits_again() {
    let mut mock = Mock::fresh();
    mock.fifo_status = 0x0000_0005;
    mock.tx_fifo.push_back(1);
    mock.rx_fifo.push_back(2);
    let (transaction, result) = mock.run(Spi::spi_1().flush_fifos());
    assert_eq!(result, Ok(()));
    assert_eq!(transaction.kind(), Kind::Flush);
    assert_eq!(transaction.state(), State::Completed);
    assert_eq!(
        mock.requests,
        vec![
            Request::Read(Register::TransferStatus),
            Request::Read(Register::FifoStatus),
            Request::Write(Register::FifoStatus, 0x0000_c005),
            Request::Read(Register::FifoStatus),
        ]
    );
    assert!(mock.tx_fifo.is_empty());
    assert!(mock.rx_fifo.is_empty());
    assert_ne!(mock.transfer_status & TRANSFER_STATUS_RDY, 0);
    assert_eq!(mock.fifo_status & FIFO_STATUS_FLUSH, 0);
}

#[test]
fn flush_polls_until_the_controller_is_ready() {
    let mut mock = Mock::fresh();
    mock.busy_polls = 3;
    let (_, result) = mock.run(Spi::spi_2().flush_fifos());
    assert_eq!(result, Ok(()));
    assert_eq!(mock.reads_of(Register::TransferStatus), 4);
    assert_eq!(mock.requests[..4], [Request::Read(Register::TransferStatus); 4]);
    assert_eq!(mock.requests[4], Request::Read(Register::FifoStatus));
}

#[test]
fn flush_polls_until_both_triggers_are_clear() {
    let mut mock = Mock::fresh();
    // Both under way, then only the receive side, then only the transmit side.
    mock.flush_polls = VecDeque::from(vec![0, 0xc000, 0x8000, 0x4000]);
    let (_, result) = mock.run(Spi::spi_1().flush_fifos());
    assert_eq!(result, Ok(()));
    // One read for the modification, three that see a trigger, one that sees none.
    assert_eq!(mock.reads_of(Register::FifoStatus), 5);
    assert_eq!(mock.requests.len(), 7);
    assert_eq!(mock.requests[2], Request::Write(Register::FifoStatus, 0x0000_c000));
}

#[test]
fn a_transaction_never_gives_up_polling() {
    let mut transaction = Spi::spi_1().flush_fifos();
    for _ in 0..5_000 {
        assert_eq!(transaction.request(), Request::Read(Register::TransferStatus));
        assert_eq!(transaction.state(), State::Idle);
        transaction = transaction.advance(!RDY);
    }
    transaction = transaction.advance(RDY);
    assert_eq!(transaction.request(), Request::Read(Register::FifoStatus));
}

#[test]
fn init_sets_the_mode_flushes_and_asserts_chip_select_zero() {
    let mut mock = Mock::fresh();
    let (transaction, result) = mock.run(Spi::spi_4().init());
    assert_eq!(result, Ok(()));
    assert_eq!(transaction.kind(), Kind::Init);
    assert_eq!(transaction.controller(), Spi::spi_4());
    assert_eq!(
        mock.requests,
        vec![
            Request::Read(Register::Command),
            Request::Write(Register::Command, 0x0030_0007),
            Request::Read(Register::TransferStatus),
            Request::Read(Register::FifoStatus),
            Request::Write(Register::FifoStatus, 0x0000_c000),
            Request::Read(Register::FifoStatus),
            Request::Read(Register::Command),
            Request::Write(Register::Command, 0x0020_0007),
        ]
    );
    assert_eq!(mock.command, 0x0020_0007);
}

#[test]
fn init_keeps_the_bits_it_does_not_own() {
    let mut mock = Mock::fresh();
    mock.command = 0x7fff_ffff;
    let (_, result) = mock.run(Spi::spi_1().init());
    assert_eq!(result, Ok(()));
    assert_eq!(mock.requests[1], Request::Write(Register::Command, 0x7ffe_ffc7));
    assert_eq!(mock.command, 0x73ee_ffc7);
}

#[test]
fn init_then_flush_leaves_ready_set_and_triggers_clear() {
    let mut mock = Mock::fresh();
    mock.command = 0x1234_5678;
    mock.fifo_status = 0x0000_0003;
    let (_, result) = mock.run(Spi::spi_1().init());
    assert_eq!(result, Ok(()));
    let (_, result) = mock.run(Spi::spi_1().flush_fifos());
    assert_eq!(result, Ok(()));
    assert_ne!(mock.transfer_status & TRANSFER_STATUS_RDY, 0);
    assert_eq!(mock.fifo_status & FIFO_STATUS_FLUSH, 0);
    let once = (mock.command, mock.transfer_status, mock.fifo_status, mock.block_size);
    let (_, result) = mock.run(Spi::spi_1().flush_fifos());
    assert_eq!(result, Ok(()));
    let twice = (mock.command, mock.transfer_status, mock.fifo_status, mock.block_size);
    assert_eq!(once, twice);
}

#[test]
fn send_refuses_any_length_but_four() {
    let spi = Spi::spi_1();
    for length in [0usize, 1, 2, 3, 5, 8, 64, 65] {
        let data = vec![0xa5u8; length];
        assert_eq!(spi.send(&data).err(), Some(Error::InvalidArgument));
    }
    assert!(spi.send(&[1, 2, 3, 4]).is_ok());
}

#[test]
fn receive_refuses_nothing_and_more_than_a_fifo_holds() {
    let spi = Spi::spi_1();
    assert_eq!(spi.receive(0).err(), Some(Error::InvalidArgument));
    assert_eq!(spi.receive(FIFO_CAPACITY + 1).err(), Some(Error::InvalidArgument));
    assert_eq!(spi.receive(usize::MAX).err(), Some(Error::InvalidArgument));
    assert!(spi.receive(1).is_ok());
    assert!(spi.receive(4).is_ok());
    assert!(spi.receive(FIFO_CAPACITY).is_ok());
}

#[test]
fn send_performs_the_protocol_in_order() {
    let mut mock = Mock::fresh();
    mock.command = 0x0020_0007;
    let transaction = Spi::spi_1().send(&[0x01, 0x02, 0x03, 0x04]).unwrap();
    assert_eq!(transaction.kind(), Kind::Send);
    let (transaction, result) = mock.run(transaction);
    assert_eq!(result, Ok(()));
    assert_eq!(transaction.state(), State::Completed);
    assert_eq!(
        mock.requests,
        vec![
            // Flush.
            Request::Read(Register::TransferStatus),
            Request::Read(Register::FifoStatus),
            Request::Write(Register::FifoStatus, 0x0000_c000),
            Request::Read(Register::FifoStatus),
            // Unpacked mode, eight bits.
            Request::Read(Register::Command),
            Request::Write(Register::Command, 0x0020_0007),
            // Four bytes.
            Request::Write(Register::BlockSize, 3),
            // Ready flag cleared.
            Request::Read(Register::TransferStatus),
            Request::Write(Register::TransferStatus, 0),
            // Transmit enabled.
            Request::Read(Register::Command),
            Request::Write(Register::Command, 0x0020_0807),
            Request::Write(Register::TxFifo, 0x0403_0201),
            Request::Delay(2),
            // Go.
            Request::Read(Register::Command),
            Request::Write(Register::Command, 0x8020_0807),
            Request::Delay(1),
            // Dummy read, then wait.
            Request::Read(Register::Command),
            Request::Read(Register::TransferStatus),
            // Transmit disabled.
            Request::Read(Register::Command),
            Request::Write(Register::Command, 0x0020_0007),
            // Error check.
            Request::Read(Register::FifoStatus),
        ]
    );
    assert_eq!(mock.sent, vec![0x0403_0201]);
    assert_eq!(mock.command & COMMAND_TX_EN, 0);
    assert_eq!(mock.fifo_status & FIFO_STATUS_ERR, 0);
}

#[test]
fn send_waits_for_the_exchange_to_end() {
    let mut mock = Mock::fresh();
    let mut transaction = Spi::spi_3().send(&[9, 8, 7, 6]).unwrap();
    // Up to the dummy read.
    for _ in 0..17 {
        let value = match transaction.request() {
            Request::Read(register) => mock.read(register),
            Request::Write(register, word) => {
                mock.write(register, word);
                0
            }
            _ => 0,
        };
        transaction = transaction.advance(value);
    }
    assert_eq!(transaction.state(), State::AwaitingReady);
    for _ in 0..100 {
        assert_eq!(transaction.request(), Request::Read(Register::TransferStatus));
        transaction = transaction.advance(0);
    }
    transaction = transaction.advance(RDY);
    assert_eq!(transaction.request(), Request::Read(Register::Command));
}

#[test]
fn receive_reads_the_fifo_once_for_each_byte() {
    for length in [1usize, 2, 4, 5, 63, 64] {
        let mut mock = Mock::fresh();
        mock.answer = (0..length).map(|i| 0xabcd_0000 + i as u32).collect();
        let (transaction, result) = mock.run(Spi::spi_2().receive(length).unwrap());
        assert_eq!(result, Ok(()));
        assert_eq!(mock.reads_of(Register::RxFifo), length);
        assert_eq!(mock.block_size as usize, length - 1);
        let expected: Vec<u8> = (0..length).map(|i| i as u8).collect();
        assert_eq!(transaction.received(), &expected);
        assert_eq!(mock.command & COMMAND_RX_EN, 0);
        assert!(mock.rx_fifo.is_empty());
    }
}

#[test]
fn receive_performs_the_protocol_in_order() {
    let mut mock = Mock::fresh();
    mock.answer = VecDeque::from(vec![0x11, 0xffff_ff22]);
    let (transaction, result) = mock.run(Spi::spi_1().receive(2).unwrap());
    assert_eq!(result, Ok(()));
    assert_eq!(transaction.kind(), Kind::Receive);
    assert_eq!(
        mock.requests,
        vec![
            Request::Read(Register::TransferStatus),
            Request::Read(Register::FifoStatus),
            Request::Write(Register::FifoStatus, 0x0000_c000),
            Request::Read(Register::FifoStatus),
            Request::Read(Register::Command),
            Request::Write(Register::Command, 0x0000_0007),
            Request::Write(Register::BlockSize, 1),
            Request::Read(Register::TransferStatus),
            Request::Write(Register::TransferStatus, 0),
            Request::Read(Register::Command),
            Request::Write(Register::Command, 0x0000_1007),
            Request::Delay(2),
            Request::Read(Register::Command),
            Request::Write(Register::Command, 0x8000_1007),
            Request::Delay(1),
            Request::Read(Register::Command),
            Request::Read(Register::TransferStatus),
            Request::Read(Register::Command),
            Request::Write(Register::Command, 0x0000_0007),
            Request::Read(Register::FifoStatus),
            Request::Read(Register::RxFifo),
            Request::Read(Register::RxFifo),
        ]
    );
    assert_eq!(transaction.into_received(), vec![0x11, 0x22]);
}

#[test]
fn receive_keeps_the_low_byte_of_each_word() {
    let mut mock = Mock::fresh();
    mock.answer = VecDeque::from(vec![0xffff_ff00, 0x0000_01ff, 0x1234_5678, 0x8000_0080]);
    let (transaction, result) = mock.run(Spi::spi_1().receive(4).unwrap());
    assert_eq!(result, Ok(()));
    assert_eq!(transaction.received(), &vec![0x00, 0xff, 0x78, 0x80]);
}

#[test]
fn an_error_after_a_send_is_reported_and_cleared() {
    let mut mock = Mock::fresh();
    mock.fault = FIFO_STATUS_ERR | FIFO_STATUS_TX_FIFO_UNR;
    mock.fifo_status = 0x0000_000f;
    let (transaction, result) = mock.run(Spi::spi_1().send(&[1, 2, 3, 4]).unwrap());
    assert_eq!(result, Err(Error::Transfer));
    assert_eq!(transaction.state(), State::Errored);
    let count = mock.requests.len();
    assert_eq!(
        mock.requests[count - 3..],
        [
            Request::Read(Register::FifoStatus),
            Request::Read(Register::FifoStatus),
            Request::Write(Register::FifoStatus, 0x0000_000f),
        ]
    );
    assert_eq!(mock.read(Register::FifoStatus) & FIFO_STATUS_ERRORS, 0);
    assert_eq!(mock.fifo_status, 0x0000_000f);
    assert_eq!(mock.command & COMMAND_TX_EN, 0);
}

#[test]
fn an_error_after_a_receive_is_reported_and_nothing_is_read() {
    let mut mock = Mock::fresh();
    mock.fault = FIFO_STATUS_ERR | FIFO_STATUS_RX_FIFO_OVF;
    mock.answer = VecDeque::from(vec![1, 2, 3, 4]);
    let (transaction, result) = mock.run(Spi::spi_1().receive(4).unwrap());
    assert_eq!(result, Err(Error::Transfer));
    assert_eq!(mock.reads_of(Register::RxFifo), 0);
    assert!(transaction.received().is_empty());
    assert_eq!(mock.fifo_status & FIFO_STATUS_ERRORS, 0);
    assert_eq!(mock.command & COMMAND_RX_EN, 0);
}

#[test]
fn overflow_flags_alone_are_no_error() {
    let mut mock = Mock::fresh();
    mock.fault = FIFO_STATUS_RX_FIFO_OVF | FIFO_STATUS_TX_FIFO_UNR;
    let (_, result) = mock.run(Spi::spi_1().send(&[1, 2, 3, 4]).unwrap());
    assert_eq!(result, Ok(()));
    assert_eq!(mock.fifo_status, FIFO_STATUS_RX_FIFO_OVF | FIFO_STATUS_TX_FIFO_UNR);
}

#[test]
fn a_failed_transfer_can_be_tried_again() {
    let mut mock = Mock::fresh();
    mock.fault = FIFO_STATUS_ERR;
    let (_, result) = mock.run(Spi::spi_1().send(&[1, 2, 3, 4]).unwrap());
    assert_eq!(result, Err(Error::Transfer));
    let (_, result) = mock.run(Spi::spi_1().send(&[1, 2, 3, 4]).unwrap());
    assert_eq!(result, Ok(()));
    assert_eq!(mock.sent, vec![0x0403_0201, 0x0403_0201]);
}

#[test]
fn what_is_sent_comes_back_from_an_echoing_device() {
    let mut mock = Mock::fresh();
    mock.echo = true;
    let (_, result) = mock.run(Spi::spi_1().send(&[0x01, 0x02, 0x03, 0x04]).unwrap());
    assert_eq!(result, Ok(()));
    let (transaction, result) = mock.run(Spi::spi_1().receive(4).unwrap());
    assert_eq!(result, Ok(()));
    assert_eq!(transaction.received(), &vec![0x01, 0x02, 0x03, 0x04]);
}

#[test]
fn init_send_and_receive_in_a_row() {
    let mut mock = Mock::fresh();
    let spi = Spi::spi_1();
    let (_, result) = mock.run(spi.init());
    assert_eq!(result, Ok(()));
    let (_, result) = mock.run(spi.send(&[0xde, 0xad, 0xbe, 0xef]).unwrap());
    assert_eq!(result, Ok(()));
    assert_eq!(mock.sent, vec![0xefbe_adde]);
    // The device answers with bytes of its own: the two FIFOs are separate.
    mock.answer = VecDeque::from(vec![0x10, 0x20, 0x30, 0x40]);
    let (transaction, result) = mock.run(spi.receive(4).unwrap());
    assert_eq!(result, Ok(()));
    let mut buffer = [0u8; 4];
    assert_eq!(transaction.deliver(&mut buffer), Ok(()));
    assert_eq!(buffer, [0x10, 0x20, 0x30, 0x40]);
    assert_eq!(mock.command, 0x0020_0007);
}

#[test]
fn deliver_fills_the_front_of_the_buffer() {
    let mut mock = Mock::fresh();
    mock.answer = VecDeque::from(vec![7, 8, 9]);
    let (transaction, result) = mock.run(Spi::spi_1().receive(3).unwrap());
    assert_eq!(result, Ok(()));
    let mut exact = [0xeeu8; 3];
    assert_eq!(transaction.deliver(&mut exact), Ok(()));
    assert_eq!(exact, [7, 8, 9]);
    let mut longer = [0xeeu8; 6];
    assert_eq!(transaction.deliver(&mut longer), Ok(()));
    assert_eq!(longer, [7, 8, 9, 0xee, 0xee, 0xee]);
    let mut shorter = [0xeeu8; 2];
    assert_eq!(transaction.deliver(&mut shorter), Err(Error::InvalidArgument));
    assert_eq!(shorter, [0xee, 0xee]);
}

#[test]
fn deliver_before_the_end_gives_what_has_arrived() {
    let mut transaction = Spi::spi_1().receive(2).unwrap();
    let mut buffer = [0x55u8; 2];
    assert_eq!(transaction.deliver(&mut buffer), Ok(()));
    assert_eq!(buffer, [0x55, 0x55]);
    let mut mock = Mock::fresh();
    mock.answer = VecDeque::from(vec![0xa1, 0xa2]);
    while transaction.request() != Request::Read(Register::RxFifo) {
        let value = match transaction.request() {
            Request::Read(register) => mock.read(register),
            Request::Write(register, word) => {
                mock.write(register, word);
                0
            }
            _ => 0,
        };
        transaction = transaction.advance(value);
    }
    transaction = transaction.advance(mock.read(Register::RxFifo));
    assert!(!transaction.is_finished());
    assert_eq!(transaction.deliver(&mut buffer), Ok(()));
    assert_eq!(buffer, [0xa1, 0x55]);
}

#[test]
fn a_finished_transaction_stays_finished() {
    let mut mock = Mock::fresh();
    let (transaction, result) = mock.run(Spi::spi_1().flush_fifos());
    assert_eq!(result, Ok(()));
    let transaction = transaction.advance(0xffff_ffff);
    assert!(transaction.is_finished());
    assert_eq!(transaction.request(), Request::Done(Ok(())));
    let transaction = transaction.advance(0);
    assert_eq!(transaction.request(), Request::Done(Ok(())));
    assert_eq!(transaction.state(), State::Completed);
}

#[test]
fn a_transfer_goes_through_its_states_in_order() {
    let mut mock = Mock::fresh();
    mock.answer = VecDeque::from(vec![1]);
    let mut transaction = Spi::spi_1().receive(1).unwrap();
    let mut states = vec![transaction.state()];
    while !transaction.is_finished() {
        let value = match transaction.request() {
            Request::Read(register) => mock.read(register),
            Request::Write(register, word) => {
                mock.write(register, word);
                0
            }
            _ => 0,
        };
        transaction = transaction.advance(value);
        if *states.last().unwrap() != transaction.state() {
            states.push(transaction.state());
        }
    }
    assert_eq!(
        states,
        vec![
            State::Idle,
            State::Flushed,
            State::Configured,
            State::Enabled,
            State::Triggered,
            State::AwaitingReady,
            State::Completed,
        ]
    );
}

#[test]
fn the_word_read_is_ignored_after_a_write_or_a_delay() {
    let mut quiet = Spi::spi_1().send(&[1, 2, 3, 4]).unwrap();
    let mut noisy = Spi::spi_1().send(&[1, 2, 3, 4]).unwrap();
    let mut mock = Mock::fresh();
    let mut steps = 0;
    while !quiet.is_finished() {
        let request = quiet.request();
        assert_eq!(noisy.request(), request);
        match request {
            Request::Read(register) => {
                let value = mock.read(register);
                quiet = quiet.advance(value);
                noisy = noisy.advance(value);
            }
            Request::Write(register, word) => {
                mock.write(register, word);
                quiet = quiet.advance(0);
                noisy = noisy.advance(0xffff_ffff);
            }
            _ => {
                quiet = quiet.advance(0);
                noisy = noisy.advance(0xffff_ffff);
            }
        }
        steps += 1;
        assert!(steps < 100);
    }
    assert!(noisy.is_finished());
    assert_eq!(noisy.request(), Request::Done(Ok(())));
}
