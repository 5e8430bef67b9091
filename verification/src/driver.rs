//! The driver of the Waveshare 1.43" touch AMOLED panel on a quad SPI bus.
//!
//! The driver owns the bus and knows which controller sits behind it. It
//! frames what is to be sent: one transaction for a command, one for a
//! command with parameters, a stream of bursts for pixels. Putting a
//! transaction on the wire is left to the owner of the hardware.

use vstd::prelude::*;
use crate::chunker::PixelStream;
use crate::init::{InitCommand, Variant, init_sequence, table_view};
use crate::transaction::{Frame, Transaction, control_transaction};

verus! {

/// Most bytes that one pixel transaction may carry: what the bus's transfer
/// engine moves in one go.
pub const DMA_CHUNK_SIZE: usize = 16380;

/// Driver of the panel over the bus `qspi`.
pub struct Ws143TouchAmoledDriver<Q> {
    /// The bus that the panel is on.
    pub qspi: Q,
    variant: Variant,
}

impl<Q> Ws143TouchAmoledDriver<Q> {
    /// The bus that this driver owns.
    pub closed spec fn bus(&self) -> Q {
        self.qspi
    }

    /// The controller that this driver brings up: chosen when the driver is
    /// made, and the same for as long as it lives.
    pub closed spec fn spec_variant(&self) -> Variant {
        self.variant
    }

    /// A driver for a panel with the SH8601 controller.
    pub fn new(qspi: Q) -> (driver: Self)
        ensures
            driver.bus() == qspi,
            driver.spec_variant() == Variant::Primary,
    {
        Ws143TouchAmoledDriver { qspi, variant: Variant::Primary }
    }

    /// Some panels of this kind carry a CO5300 in place of the SH8601. It
    /// needs another bring-up sequence and works with this driver otherwise.
    pub fn use_co5300_init_cmds(self) -> (driver: Self)
        ensures
            driver.bus() == self.bus(),
            driver.spec_variant() == Variant::Alternate,
    {
        Ws143TouchAmoledDriver { qspi: self.qspi, variant: Variant::Alternate }
    }

    /// The controller that this driver brings up.
    #[verifier::when_used_as_spec(spec_variant)]
    pub fn variant(&self) -> (variant: Variant)
        ensures
            variant == self.spec_variant(),
    {
        self.variant
    }

    /// The bring-up sequence of the controller behind this driver: constant
    /// data, nothing allocated. The caller sends each step and waits out its
    /// pause before the next.
    pub fn vendor_specific_init_commands(&self) -> (table: &'static [InitCommand])
        ensures
            table_view(table@) == init_sequence(self.spec_variant()),
    {
        self.variant.init_commands()
    }

    /// The transaction that sends the bare command `cmd`: addressed to the
    /// command, on one lane, with no payload.
    pub fn command(&self, cmd: u8) -> (transaction: Transaction<'static>)
        ensures
            transaction@ == control_transaction(cmd, Seq::empty()),
    {
        let payload: &'static [u8] = &[];
        assert(payload@ =~= Seq::<u8>::empty());
        Transaction { frame: Frame::control(cmd), payload }
    }

    /// The transaction that sends `cmd` with the parameter bytes `data`:
    /// addressed to the command, on one lane, with `data` as its payload.
    pub fn command_with_data<'a>(&self, cmd: u8, data: &'a [u8]) -> (transaction: Transaction<'a>)
        ensures
            transaction@ == control_transaction(cmd, data@),
    {
        Transaction { frame: Frame::control(cmd), payload: data }
    }

    /// The stream of bursts that sends `pixels`, none of them over
    /// [`DMA_CHUNK_SIZE`] bytes, with nothing handed out yet.
    pub fn pixel_stream<'a>(&self, pixels: &'a [u8]) -> (stream: PixelStream<'a>)
        ensures
            stream.pixels() == pixels@,
            stream.chunk() == DMA_CHUNK_SIZE,
            stream.issued() == 0,
    {
        PixelStream::new(pixels, DMA_CHUNK_SIZE)
    }
}

} // verus!
