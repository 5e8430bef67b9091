//! Driver core for the Waveshare 1.43" touch AMOLED panel.
//!
//! The panel's controller, an SH8601 or a CO5300, is reached over a
//! half-duplex quad SPI bus and a reset line. This crate holds what the
//! driver decides: how a command is framed, how a pixel buffer is cut into
//! bursts and how each burst is addressed, which bring-up sequence a
//! controller needs, and how the reset pulse runs. It touches no hardware:
//! it hands out transactions and operations for the owner of the bus and of
//! the reset line to perform.
//!
//! Everything here is verified with Verus. Contracts are stated over the
//! mathematical descriptions in each module: [`transaction::control_frame`],
//! [`chunker::bursts`], [`init::init_sequence`], [`reset::reset_sequence`].

pub mod chunker;
pub mod commands;
pub mod driver;
pub mod init;
pub mod reset;
pub mod transaction;

pub use crate::chunker::{BurstRole, PixelStep, PixelStream};
pub use crate::driver::{Ws143TouchAmoledDriver, DMA_CHUNK_SIZE};
pub use crate::init::{InitCommand, Variant};
pub use crate::reset::{Level, ResetDriver, ResetOp, ResetPulse, ResetStep};
pub use crate::transaction::{DataMode, Frame, Transaction};
