//! The register block of one SPI controller: register offsets and bit fields.

use vstd::prelude::*;

verus! {

/// Number of bytes that one FIFO holds in unpacked 8-bit mode.
pub const FIFO_CAPACITY: usize = 64;

/// The registers of the block that the polling protocol touches.
#[derive(Clone, Copy, Debug, PartialEq, Eq, Structural)]
pub enum Register {
    /// `SPI_COMMAND_0`: mode, chip select, enables and the PIO trigger.
    Command,
    /// `SPI_TRANSFER_STATUS_0`: the ready flag.
    TransferStatus,
    /// `SPI_FIFO_STATUS_0`: error flags and flush triggers.
    FifoStatus,
    /// `SPI_DMA_BLK_SIZE_0`: transfer length in bytes, minus one.
    BlockSize,
    /// `SPI_TX_FIFO_0`: write port of the transmit FIFO.
    TxFifo,
    /// `SPI_RX_FIFO_0`: read port of the receive FIFO.
    RxFifo,
}

impl Register {
    /// Byte offset of the register from the controller's base address.
    pub open spec fn spec_offset(self) -> u32 {
        match self {
            Register::Command => 0x000,
            Register::TransferStatus => 0x010,
            Register::FifoStatus => 0x014,
            Register::BlockSize => 0x024,
            Register::TxFifo => 0x108,
            Register::RxFifo => 0x188,
        }
    }

    /// Byte offset of the register from the controller's base address.
    #[verifier::when_used_as_spec(spec_offset)]
    pub fn offset(self) -> (offset: u32)
        ensures
            offset == self.spec_offset(),
    {
        match self {
            Register::Command => 0x000,
            Register::TransferStatus => 0x010,
            Register::FifoStatus => 0x014,
            Register::BlockSize => 0x024,
            Register::TxFifo => 0x108,
            Register::RxFifo => 0x188,
        }
    }
}

/// `SPI_COMMAND_0`, bits 4:0: number of bits per transfer, minus one.
pub const COMMAND_BIT_LENGTH: u32 = 0x0000_001f;

/// `SPI_COMMAND_0`, bit 5: packed mode.
pub const COMMAND_PACKED: u32 = 0x0000_0020;

/// `SPI_COMMAND_0`, bit 11: transmit enable.
pub const COMMAND_TX_EN: u32 = 0x0000_0800;

/// `SPI_COMMAND_0`, bit 12: receive enable.
pub const COMMAND_RX_EN: u32 = 0x0000_1000;

/// `SPI_COMMAND_0`, bit 16: the least significant bit of a word goes first.
pub const COMMAND_LSBI_FE: u32 = 0x0001_0000;

/// `SPI_COMMAND_0`, bit 20: level of the chip-select line under software control.
pub const COMMAND_CS_SW_VAL: u32 = 0x0010_0000;

/// `SPI_COMMAND_0`, bit 21: chip select driven by software.
pub const COMMAND_CS_SW_HW: u32 = 0x0020_0000;

/// `SPI_COMMAND_0`, bits 27:26: the chip-select line in use.
pub const COMMAND_CS_SEL: u32 = 0x0c00_0000;

/// `SPI_COMMAND_0`, bit 31: starts a transaction in programmed-I/O mode.
pub const COMMAND_PIO: u32 = 0x8000_0000;

/// Value of the bit-length field for 8-bit transfers.
pub const BIT_LENGTH_8: u32 = 7;

/// The packed-mode bit and the bit-length field of `SPI_COMMAND_0`.
pub const COMMAND_MODE: u32 = 0x0000_003f;

/// `SPI_TRANSFER_STATUS_0`, bit 30: the controller is ready.
pub const TRANSFER_STATUS_RDY: u32 = 0x4000_0000;

/// `SPI_FIFO_STATUS_0`, bit 4: receive FIFO underrun.
pub const FIFO_STATUS_RX_FIFO_UNR: u32 = 0x0000_0010;

/// `SPI_FIFO_STATUS_0`, bit 5: receive FIFO overflow.
pub const FIFO_STATUS_RX_FIFO_OVF: u32 = 0x0000_0020;

/// `SPI_FIFO_STATUS_0`, bit 6: transmit FIFO underrun.
pub const FIFO_STATUS_TX_FIFO_UNR: u32 = 0x0000_0040;

/// `SPI_FIFO_STATUS_0`, bit 7: transmit FIFO overflow.
pub const FIFO_STATUS_TX_FIFO_OVF: u32 = 0x0000_0080;

/// `SPI_FIFO_STATUS_0`, bit 8: an error occurred.
pub const FIFO_STATUS_ERR: u32 = 0x0000_0100;

/// `SPI_FIFO_STATUS_0`, bit 14: flush the transmit FIFO.
pub const FIFO_STATUS_TX_FIFO_FLUSH: u32 = 0x0000_4000;

/// `SPI_FIFO_STATUS_0`, bit 15: flush the receive FIFO.
pub const FIFO_STATUS_RX_FIFO_FLUSH: u32 = 0x0000_8000;

/// Both flush triggers of `SPI_FIFO_STATUS_0`.
pub const FIFO_STATUS_FLUSH: u32 = 0x0000_c000;

/// All bits of `SPI_FIFO_STATUS_0` but the two flush triggers.
pub const FIFO_STATUS_KEPT: u32 = 0xffff_3fff;

/// The error flag and the four overflow and underrun flags of `SPI_FIFO_STATUS_0`.
pub const FIFO_STATUS_ERRORS: u32 = 0x0000_01f0;

/// The combined masks are the unions of the fields that they are named after.
pub proof fn lemma_combined_masks()
    ensures
        COMMAND_MODE == COMMAND_PACKED | COMMAND_BIT_LENGTH,
        FIFO_STATUS_FLUSH == FIFO_STATUS_TX_FIFO_FLUSH | FIFO_STATUS_RX_FIFO_FLUSH,
        FIFO_STATUS_KEPT == !FIFO_STATUS_FLUSH,
        FIFO_STATUS_ERRORS == FIFO_STATUS_ERR | FIFO_STATUS_TX_FIFO_OVF | FIFO_STATUS_TX_FIFO_UNR
            | FIFO_STATUS_RX_FIFO_OVF | FIFO_STATUS_RX_FIFO_UNR,
{
    assert(0x0000_003fu32 == 0x0000_0020u32 | 0x0000_001fu32) by (bit_vector);
    assert(0x0000_c000u32 == 0x0000_4000u32 | 0x0000_8000u32) by (bit_vector);
    assert(0xffff_3fffu32 == !0x0000_c000u32) by (bit_vector);
    assert(0x0000_01f0u32 == 0x0000_0100u32 | 0x0000_0080u32 | 0x0000_0040u32 | 0x0000_0020u32
        | 0x0000_0010u32) by (bit_vector);
}

} // verus!
