//! Framing of half-duplex bus transactions.
//!
//! Every exchange with the panel controller is one transaction: an 8-bit bus
//! opcode, a 24-bit address that carries the controller command, and a
//! payload that may be empty. This module says which header each kind of
//! exchange gets; it performs no transfer itself.

use vstd::prelude::*;

verus! {

/// Bus opcode of a control transaction: a command with or without parameters.
pub const QSPI_CONTROL_OPCODE: u8 = 0x02;

/// Bus opcode of a pixel transaction.
pub const QSPI_PIXEL_OPCODE: u8 = 0x32;

/// Number of data lanes that a phase of a transaction travels on.
#[derive(Clone, Copy, Debug, PartialEq, Eq, Structural)]
pub enum DataMode {
    /// One lane.
    Single,
    /// Four lanes.
    Quad,
}

/// Header of one transaction: everything but the payload bytes.
#[derive(Clone, Copy, Debug, PartialEq, Eq, Structural)]
pub struct Frame {
    /// The 8-bit bus opcode.
    pub opcode: u8,
    /// Lanes of the opcode phase.
    pub opcode_mode: DataMode,
    /// The 24-bit address.
    pub address: u32,
    /// Lanes of the address phase.
    pub address_mode: DataMode,
    /// Dummy cycles between address and payload.
    pub dummy: u8,
    /// Lanes of the payload phase.
    pub data_mode: DataMode,
}

/// One transaction as it goes to the bus: a header and the payload it carries.
#[derive(Clone, Copy, Debug, PartialEq, Eq)]
pub struct Transaction<'a> {
    pub frame: Frame,
    pub payload: &'a [u8],
}

/// A transaction with its payload as a sequence of bytes.
pub struct TransactionView {
    pub frame: Frame,
    pub payload: Seq<u8>,
}

impl<'a> View for Transaction<'a> {
    type V = TransactionView;

    open spec fn view(&self) -> TransactionView {
        TransactionView { frame: self.frame, payload: self.payload@ }
    }
}

/// The address that carries controller command `cmd`: the command in bits 8
/// to 15, every other bit zero.
pub open spec fn command_address(cmd: u8) -> u32 {
    (cmd as u32) << 8
}

/// The header of a control transaction for `cmd`: control opcode, the
/// command's address, every phase on one lane.
pub open spec fn control_frame(cmd: u8) -> Frame {
    Frame {
        opcode: QSPI_CONTROL_OPCODE,
        opcode_mode: DataMode::Single,
        address: command_address(cmd),
        address_mode: DataMode::Single,
        dummy: 0,
        data_mode: DataMode::Single,
    }
}

/// The header of a pixel transaction addressed to `cmd`: pixel opcode, opcode
/// and address on one lane, payload on four.
pub open spec fn pixel_frame(cmd: u8) -> Frame {
    Frame {
        opcode: QSPI_PIXEL_OPCODE,
        opcode_mode: DataMode::Single,
        address: command_address(cmd),
        address_mode: DataMode::Single,
        dummy: 0,
        data_mode: DataMode::Quad,
    }
}

/// A control transaction for `cmd` that carries `payload`.
pub open spec fn control_transaction(cmd: u8, payload: Seq<u8>) -> TransactionView {
    TransactionView { frame: control_frame(cmd), payload }
}

/// The address of a command is the command times 256. It fits in 24 bits with
/// the low byte clear, and the command can be read back from it, so distinct
/// commands have distinct addresses.
pub proof fn lemma_command_address(cmd: u8)
    ensures
        command_address(cmd) == cmd * 256,
        command_address(cmd) <= 0xFF00,
        command_address(cmd) & 0xFF == 0,
        command_address(cmd) >> 8 == cmd,
{
    assert(((cmd as u32) << 8) == cmd * 256) by (bit_vector);
    assert(((cmd as u32) << 8) & 0xFF == 0) by (bit_vector);
    assert(((cmd as u32) << 8) >> 8 == cmd) by (bit_vector);
}

impl Frame {
    /// Header of a control transaction for `cmd`.
    pub fn control(cmd: u8) -> (frame: Frame)
        ensures
            frame == control_frame(cmd),
    {
        Frame {
            opcode: QSPI_CONTROL_OPCODE,
            opcode_mode: DataMode::Single,
            address: (cmd as u32) << 8,
            address_mode: DataMode::Single,
            dummy: 0,
            data_mode: DataMode::Single,
        }
    }

    /// Header of a pixel transaction addressed to `cmd`.
    pub fn pixel(cmd: u8) -> (frame: Frame)
        ensures
            frame == pixel_frame(cmd),
    {
        Frame {
            opcode: QSPI_PIXEL_OPCODE,
            opcode_mode: DataMode::Single,
            address: (cmd as u32) << 8,
            address_mode: DataMode::Single,
            dummy: 0,
            data_mode: DataMode::Quad,
        }
    }
}

} // verus!
