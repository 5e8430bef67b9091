//! Controller variants and the bring-up sequence each one needs.
//!
//! Two controllers are found behind this panel. They take pixels in the same
//! way and differ in how they are brought up after reset. Each has a fixed
//! table of steps: a command, its parameter bytes, and a pause after it.

use vstd::prelude::*;
use crate::commands::{HBM_WRDISBV1, SLPOUT, SPI_MODE, TEON, TESCAN, WRCTRLD1, WRDISBV};

verus! {

/// Which controller drives the panel.
#[derive(Clone, Copy, Debug, PartialEq, Eq, Structural)]
pub enum Variant {
    /// The SH8601.
    Primary,
    /// The CO5300.
    Alternate,
}

/// One bring-up step as the tables hold it: command, parameter bytes, pause
/// after the command in milliseconds.
pub type InitCommand = (u8, &'static [u8], u32);

/// One bring-up step with its parameters as a sequence of bytes.
#[verifier::ext_equal]
pub struct InitStep {
    pub command: u8,
    pub params: Seq<u8>,
    pub delay_ms: u32,
}

/// The step that a table entry stands for.
pub open spec fn step_view(entry: InitCommand) -> InitStep {
    InitStep { command: entry.0, params: entry.1@, delay_ms: entry.2 }
}

/// The steps that a table stands for, in order.
pub open spec fn table_view(table: Seq<InitCommand>) -> Seq<InitStep> {
    Seq::new(table.len(), |i: int| step_view(table[i]))
}

/// Bring-up of the SH8601: sleep out, tearing scan line, tearing effect on,
/// display control, brightness to zero, sleep out again, brightness to full.
pub open spec fn primary_init_sequence() -> Seq<InitStep> {
    seq![
        InitStep { command: SLPOUT, params: seq![], delay_ms: 120 },
        InitStep { command: TESCAN, params: seq![0x01, 0xD1], delay_ms: 0 },
        InitStep { command: TEON, params: seq![0x00], delay_ms: 0 },
        InitStep { command: WRCTRLD1, params: seq![0x20], delay_ms: 10 },
        InitStep { command: WRDISBV, params: seq![0x00], delay_ms: 10 },
        InitStep { command: SLPOUT, params: seq![0x00], delay_ms: 10 },
        InitStep { command: WRDISBV, params: seq![0xFF], delay_ms: 0 },
    ]
}

/// Bring-up of the CO5300: sleep out, SPI mode, display control, high
/// brightness mode value, brightness to zero, sleep out again, brightness to
/// full.
pub open spec fn alternate_init_sequence() -> Seq<InitStep> {
    seq![
        InitStep { command: SLPOUT, params: seq![], delay_ms: 120 },
        InitStep { command: SPI_MODE, params: seq![0x80], delay_ms: 0 },
        InitStep { command: WRCTRLD1, params: seq![0x20], delay_ms: 1 },
        InitStep { command: HBM_WRDISBV1, params: seq![0xFF], delay_ms: 1 },
        InitStep { command: WRDISBV, params: seq![0x00], delay_ms: 1 },
        InitStep { command: SLPOUT, params: seq![0x00], delay_ms: 10 },
        InitStep { command: WRDISBV, params: seq![0xFF], delay_ms: 0 },
    ]
}

/// The bring-up sequence of a variant.
pub open spec fn init_sequence(variant: Variant) -> Seq<InitStep> {
    match variant {
        Variant::Primary => primary_init_sequence(),
        Variant::Alternate => alternate_init_sequence(),
    }
}

impl Variant {
    /// The bring-up table of this variant: constant data, nothing allocated.
    pub fn init_commands(self) -> (table: &'static [InitCommand])
        ensures
            table_view(table@) == init_sequence(self),
    {
        match self {
            Variant::Primary => {
                let table: &'static [InitCommand] = &[
                    (SLPOUT, &[], 120),
                    (TESCAN, &[0x01, 0xD1], 0),
                    (TEON, &[0x00], 0),
                    (WRCTRLD1, &[0x20], 10),
                    (WRDISBV, &[0x00], 10),
                    (SLPOUT, &[0x00], 10),
                    (WRDISBV, &[0xFF], 0),
                ];
                assert(table_view(table@) =~~= primary_init_sequence());
                table
            },
            Variant::Alternate => {
                let table: &'static [InitCommand] = &[
                    (SLPOUT, &[], 120),
                    (SPI_MODE, &[0x80], 0),
                    (WRCTRLD1, &[0x20], 1),
                    (HBM_WRDISBV1, &[0xFF], 1),
                    (WRDISBV, &[0x00], 1),
                    (SLPOUT, &[0x00], 10),
                    (WRDISBV, &[0xFF], 0),
                ];
                assert(table_view(table@) =~~= alternate_init_sequence());
                table
            },
        }
    }
}

/// Both sequences have seven steps, open with the same sleep out and close
/// with the same two steps; they part at the second step, where the SH8601
/// sets its tearing scan line and the CO5300 its SPI mode.
pub proof fn lemma_init_sequences_differ()
    ensures
        init_sequence(Variant::Primary).len() == 7,
        init_sequence(Variant::Alternate).len() == 7,
        init_sequence(Variant::Primary)[0] == init_sequence(Variant::Alternate)[0],
        init_sequence(Variant::Primary)[1] != init_sequence(Variant::Alternate)[1],
        init_sequence(Variant::Primary)[1].command == TESCAN,
        init_sequence(Variant::Alternate)[1].command == SPI_MODE,
        init_sequence(Variant::Primary)[5] == init_sequence(Variant::Alternate)[5],
        init_sequence(Variant::Primary)[6] == init_sequence(Variant::Alternate)[6],
        init_sequence(Variant::Primary) != init_sequence(Variant::Alternate),
{
}

} // verus!
