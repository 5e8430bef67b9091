//! The reset pulse of the panel: the line is driven low and held, then
//! driven high and held.
//!
//! Driving a line and waiting are the caller's business. [`ResetPulse`]
//! decides what is done in which order, and what a failed transition means
//! for the whole reset.

use vstd::prelude::*;

verus! {

/// How long the reset line stays low, in milliseconds.
pub const RESET_LOW_MS: u32 = 20;

/// How long the reset line stays high before the panel is used, in
/// milliseconds.
pub const RESET_HIGH_MS: u32 = 150;

/// Logic level of the reset line.
#[derive(Clone, Copy, Debug, PartialEq, Eq, Structural)]
pub enum Level {
    Low,
    High,
}

/// One operation of the reset pulse.
#[derive(Clone, Copy, Debug, PartialEq, Eq, Structural)]
pub enum ResetOp {
    /// Drive the reset line to this level. This may fail.
    Drive(Level),
    /// Leave the line as it is for so many milliseconds.
    Hold(u32),
}

/// The reset pulse, operation by operation: low for 20 ms, then high for
/// 150 ms.
pub open spec fn reset_sequence() -> Seq<ResetOp> {
    seq![
        ResetOp::Drive(Level::Low),
        ResetOp::Hold(RESET_LOW_MS),
        ResetOp::Drive(Level::High),
        ResetOp::Hold(RESET_HIGH_MS),
    ]
}

/// What a reset pulse asks of its caller next.
#[derive(Debug, PartialEq, Eq)]
pub enum ResetStep<E> {
    /// Perform this operation, then report its outcome.
    Perform(ResetOp),
    /// The reset is over, with this result.
    Done(Result<(), E>),
}

/// A walk over the operations of one reset pulse.
///
/// Each call of [`advance`](ResetPulse::advance) takes the outcome of the
/// operation handed out before it and answers with the next operation, or
/// with the result of the reset.
pub struct ResetPulse {
    performed: usize,
}

impl ResetPulse {
    #[verifier::type_invariant]
    spec fn inv(self) -> bool {
        self.performed <= reset_sequence().len()
    }

    /// Number of operations handed out so far.
    pub closed spec fn performed(&self) -> nat {
        self.performed as nat
    }

    /// A pulse of which nothing has been performed yet.
    pub fn new() -> (pulse: Self)
        ensures
            pulse.performed() == 0,
    {
        ResetPulse { performed: 0 }
    }

    /// Takes the outcome of the last operation, `Ok(())` where none went
    /// before or where it was a hold, and says what comes next.
    ///
    /// A failure ends the reset at once with that very error. After a success
    /// the next operation of [`reset_sequence`] is due, and when none is left
    /// the reset ends in success: it does so only when the whole pulse has
    /// been handed out.
    pub fn advance<E>(&mut self, outcome: Result<(), E>) -> (step: ResetStep<E>)
        ensures
            final(self).performed() <= reset_sequence().len(),
            step == ResetStep::<E>::Done(Ok(())) ==> final(self).performed()
                == reset_sequence().len(),
            match outcome {
                Err(_) => {
                    &&& step == ResetStep::<E>::Done(outcome)
                    &&& final(self).performed() == old(self).performed()
                },
                Ok(_) => if old(self).performed() < reset_sequence().len() {
                    &&& step == ResetStep::<E>::Perform(
                        reset_sequence()[old(self).performed() as int],
                    )
                    &&& final(self).performed() == old(self).performed() + 1
                } else {
                    &&& step == ResetStep::<E>::Done(outcome)
                    &&& final(self).performed() == old(self).performed()
                },
            },
    {
        proof {
            use_type_invariant(&*self);
        }
        if outcome.is_err() {
            return ResetStep::Done(outcome);
        }
        let op = match self.performed {
            0 => ResetOp::Drive(Level::Low),
            1 => ResetOp::Hold(RESET_LOW_MS),
            2 => ResetOp::Drive(Level::High),
            3 => ResetOp::Hold(RESET_HIGH_MS),
            _ => {
                return ResetStep::Done(outcome);
            },
        };
        *self = ResetPulse { performed: self.performed + 1 };
        ResetStep::Perform(op)
    }
}

/// The pulse in full: the line goes low and stays so for 20 ms, then goes
/// high and stays so for 150 ms, and nothing else happens.
pub proof fn lemma_reset_sequence()
    ensures
        reset_sequence().len() == 4,
        reset_sequence()[0] == ResetOp::Drive(Level::Low),
        reset_sequence()[1] == ResetOp::Hold(20),
        reset_sequence()[2] == ResetOp::Drive(Level::High),
        reset_sequence()[3] == ResetOp::Hold(150),
{
}

/// The reset line of a panel, held for whoever performs the pulse.
pub struct ResetDriver<IO> {
    pub output: IO,
}

impl<IO> ResetDriver<IO> {
    /// Takes hold of the line `output`.
    pub fn new(output: IO) -> (driver: Self)
        ensures
            driver.output == output,
    {
        ResetDriver { output }
    }

    /// A fresh pulse for this line.
    pub fn pulse(&self) -> (pulse: ResetPulse)
        ensures
            pulse.performed() == 0,
    {
        ResetPulse::new()
    }
}

} // verus!
