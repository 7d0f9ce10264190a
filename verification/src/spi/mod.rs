//! Driver logic for the Serial Peripheral Interface controllers, in programmed-I/O
//! mode.
//!
//! A [`Spi`] is a handle to one of the four controllers. Its methods begin a
//! [`transaction::Transaction`], which the caller drives to its end.

use crate::spi::registers::Register;
use vstd::prelude::*;

pub mod history;
pub mod laws;
pub mod protocol;
pub mod reachable;
pub mod registers;
pub mod transaction;

verus! {

/// Base address of the register block of SPI controller 1.
pub const SPI_1_BASE: u32 = 0x7000_d400;

/// Base address of the register block of SPI controller 2.
pub const SPI_2_BASE: u32 = 0x7000_d600;

/// Base address of the register block of SPI controller 3.
pub const SPI_3_BASE: u32 = 0x7000_d800;

/// Base address of the register block of SPI controller 4.
pub const SPI_4_BASE: u32 = 0x7000_da00;

/// Whether `address` is the base address of one of the four controllers.
pub open spec fn is_controller_base(address: u32) -> bool {
    address == SPI_1_BASE || address == SPI_2_BASE || address == SPI_3_BASE || address
        == SPI_4_BASE
}

/// A handle to one SPI controller.
///
/// A handle only names a controller; all state lives in the controller's registers.
/// The only handles are those of [`Spi::spi_1`] to [`Spi::spi_4`].
#[derive(Clone, Copy, Debug, PartialEq, Eq, Structural)]
pub struct Spi {
    base: u32,
}

impl Spi {
    /// A handle always names one of the four controllers.
    #[verifier::type_invariant]
    pub closed spec fn wf(self) -> bool {
        is_controller_base(self.base)
    }

    /// The base address of the controller's register block.
    pub closed spec fn spec_base_address(&self) -> u32 {
        self.base
    }

    /// The handle to SPI controller 1.
    pub fn spi_1() -> (spi: Spi)
        ensures
            spi.wf(),
            spi.spec_base_address() == SPI_1_BASE,
    {
        Spi { base: SPI_1_BASE }
    }

    /// The handle to SPI controller 2.
    pub fn spi_2() -> (spi: Spi)
        ensures
            spi.wf(),
            spi.spec_base_address() == SPI_2_BASE,
    {
        Spi { base: SPI_2_BASE }
    }

    /// The handle to SPI controller 3.
    pub fn spi_3() -> (spi: Spi)
        ensures
            spi.wf(),
            spi.spec_base_address() == SPI_3_BASE,
    {
        Spi { base: SPI_3_BASE }
    }

    /// The handle to SPI controller 4.
    pub fn spi_4() -> (spi: Spi)
        ensures
            spi.wf(),
            spi.spec_base_address() == SPI_4_BASE,
    {
        Spi { base: SPI_4_BASE }
    }

    /// The base address of the controller's register block.
    #[verifier::when_used_as_spec(spec_base_address)]
    pub fn base_address(&self) -> (address: u32)
        ensures
            address == self.spec_base_address(),
            is_controller_base(address),
    {
        proof {
            use_type_invariant(self);
        }
        self.base
    }

    /// The address of `register` in the controller's register block.
    pub fn register_address(&self, register: Register) -> (address: u32)
        ensures
            address == self.spec_base_address() + register.spec_offset(),
    {
        proof {
            use_type_invariant(self);
        }
        self.base + register.offset()
    }
}

/// A valid handle names one of the four controllers, and no two controllers share a
/// register.
pub proof fn lemma_register_blocks_disjoint(a: Spi, b: Spi, r: Register, s: Register)
    requires
        a.wf(),
        b.wf(),
        a.base_address() + r.offset() == b.base_address() + s.offset(),
    ensures
        a == b,
        r == s,
{
}

} // verus!
