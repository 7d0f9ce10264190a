use tegra_spi::spi::{Spi, SPI_1_BASE, SPI_2_BASE, SPI_3_BASE, SPI_4_BASE};
use tegra_spi::spi::registers::{Register, FIFO_CAPACITY};

#[test]
fn the_four_controllers_have_their_base_addresses() {
    assert_eq!(Spi::spi_1().base_address(), 0x7000_d400);
    assert_eq!(Spi::spi_2().base_address(), 0x7000_d600);
    assert_eq!(Spi::spi_3().base_address(), 0x7000_d800);
    assert_eq!(Spi::spi_4().base_address(), 0x7000_da00);
    assert_eq!(SPI_1_BASE, 0x7000_d400);
    assert_eq!(SPI_2_BASE, 0x7000_d600);
    assert_eq!(SPI_3_BASE, 0x7000_d800);
    assert_eq!(SPI_4_BASE, 0x7000_da00);
}

#[test]
fn handles_are_copied_and_compared_by_controller() {
    let first = Spi::spi_3();
    let second = first;
    assert_eq!(first, second);
    assert_eq!(first, Spi::spi_3());
    assert_ne!(first, Spi::spi_1());
    assert_ne!(Spi::spi_2(), Spi::spi_4());
}

#[test]
fn registers_lie_at_their_offsets() {
    assert_eq!(Register::Command.offset(), 0x000);
    assert_eq!(Register::TransferStatus.offset(), 0x010);
    assert_eq!(Register::FifoStatus.offset(), 0x014);
    assert_eq!(Register::BlockSize.offset(), 0x024);
    assert_eq!(Register::TxFifo.offset(), 0x108);
    assert_eq!(Register::RxFifo.offset(), 0x188);
}

#[test]
fn register_addresses_add_offset_to_base() {
    assert_eq!(Spi::spi_1().register_address(Register::Command), 0x7000_d400);
    assert_eq!(Spi::spi_1().register_address(Register::RxFifo), 0x7000_d588);
    assert_eq!(Spi::spi_2().register_address(Register::FifoStatus), 0x7000_d614);
    assert_eq!(Spi::spi_4().register_address(Register::TxFifo), 0x7000_db08);
    assert_eq!(Spi::spi_4().register_address(Register::BlockSize), 0x7000_da24);
}

#[test]
fn a_fifo_holds_sixty_four_bytes() {
    assert_eq!(FIFO_CAPACITY, 64);
}
