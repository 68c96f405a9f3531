//! Lines from the agent: where one ends, and what happens to those that
//! nobody takes.

use vstd::prelude::*;

verus! {

/// The bytes without the line end: one line feed at the end, and the carriage
/// return before it.
pub open spec fn without_line_end(bytes: Seq<u8>) -> Seq<u8> {
    if bytes.len() > 0 && bytes.last() == 10 {
        let body = bytes.drop_last();
        if body.len() > 0 && body.last() == 13 {
            body.drop_last()
        } else {
            body
        }
    } else {
        bytes
    }
}

/// Takes the line end off.
pub fn chop_line_end(bytes: &mut Vec<u8>)
    ensures
        final(bytes)@ == without_line_end(old(bytes)@),
{
    if bytes.len() > 0 && bytes[bytes.len() - 1] == 10 {
        bytes.pop();
        if bytes.len() > 0 && bytes[bytes.len() - 1] == 13 {
            bytes.pop();
        }
    }
}

/// The line that was read up to its line end: nothing where it is blank.
pub fn read_line(bytes: Vec<u8>) -> (line: Option<Vec<u8>>)
    ensures
        match line {
            Some(line) => line@ == without_line_end(bytes@) && line@.len() > 0,
            None => without_line_end(bytes@).len() == 0,
        },
{
    let mut line = bytes;
    chop_line_end(&mut line);
    if line.len() == 0 {
        None
    } else {
        Some(line)
    }
}

/// A line that was written with a line feed behind it is read back as it was,
/// unless it ends in a carriage return.
pub proof fn law_line_reads_back(line: Seq<u8>)
    requires
        line.len() > 0 ==> line.last() != 13,
    ensures
        without_line_end(line.push(10u8)) == line,
{
    assert(line.push(10u8).drop_last() =~= line);
}

/// What becomes of a line when the one who takes the lines has no room.
#[derive(Debug, Clone, Copy, PartialEq, Eq, Structural)]
pub enum PumpMode {
    /// It waits: a lost line would break the protocol.
    Blocking,
    /// It is dropped: the agent must never wait for its log to be read.
    Lossy,
}

/// How handing a line on went.
#[derive(Debug, Clone, Copy, PartialEq, Eq, Structural)]
pub enum Handed {
    Taken,
    Full,
    Closed,
}

/// What the pump does next.
#[derive(Debug, Clone, Copy, PartialEq, Eq, Structural)]
pub enum PumpStep {
    /// Read the next line.
    Next,
    /// Read the next line, after a word on how many were dropped so far.
    Report,
    /// Nobody takes the lines any more.
    Stop,
}

/// How often dropped lines are reported: the first, and then every so many.
pub const REPORT_EVERY: u64 = 256;

/// One stream of lines on its way.
#[derive(Debug)]
pub struct Pump {
    pub dropped: u64,
}

/// How many lines were dropped after one more was handed on, and what follows.
pub open spec fn after_handing(dropped: u64, outcome: Handed) -> (u64, PumpStep) {
    match outcome {
        Handed::Taken => (dropped, PumpStep::Next),
        Handed::Closed => (dropped, PumpStep::Stop),
        Handed::Full => {
            let count = if dropped < u64::MAX {
                (dropped + 1) as u64
            } else {
                dropped
            };
            (
                count,
                if count == 1 || count % REPORT_EVERY == 0 {
                    PumpStep::Report
                } else {
                    PumpStep::Next
                },
            )
        },
    }
}

impl Pump {
    /// No line was dropped yet.
    pub fn new() -> (pump: Pump)
        ensures
            pump.dropped == 0,
    {
        Pump { dropped: 0 }
    }

    /// Goes on after a line was handed on. A line that found no room is
    /// counted, and the count is reported now and then.
    pub fn handed(&mut self, outcome: Handed) -> (step: PumpStep)
        ensures
            (final(self).dropped, step) == after_handing(old(self).dropped, outcome),
            final(self).dropped == if outcome == Handed::Full && old(self).dropped < u64::MAX {
                (old(self).dropped + 1) as u64
            } else {
                old(self).dropped
            },
            step == match outcome {
                Handed::Taken => PumpStep::Next,
                Handed::Closed => PumpStep::Stop,
                Handed::Full => if final(self).dropped == 1 || final(self).dropped % REPORT_EVERY
                    == 0 {
                    PumpStep::Report
                } else {
                    PumpStep::Next
                },
            },
    {
        match outcome {
            Handed::Taken => PumpStep::Next,
            Handed::Closed => PumpStep::Stop,
            Handed::Full => {
                self.dropped = self.dropped.saturating_add(1);
                if self.dropped == 1 || self.dropped % REPORT_EVERY == 0 {
                    PumpStep::Report
                } else {
                    PumpStep::Next
                }
            },
        }
    }
}

/// Of what was read, only one line end is taken off: the line feed at the end, and
/// the carriage return before it.
pub proof fn law_only_the_line_end_is_taken_off(bytes: Seq<u8>)
    ensures
        ({
            let line = without_line_end(bytes);
            ||| bytes == line && (bytes.len() > 0 ==> bytes.last() != 10)
            ||| bytes == line + seq![10u8] && (line.len() > 0 ==> line.last() != 13)
            ||| bytes == line + seq![13u8, 10u8]
        }),
{
    let line = without_line_end(bytes);
    if bytes.len() > 0 && bytes.last() == 10 {
        let body = bytes.drop_last();
        if body.len() > 0 && body.last() == 13 {
            assert(bytes =~= line + seq![13u8, 10u8]);
        } else {
            assert(bytes =~= line + seq![10u8]);
        }
    }
}

/// A line counts as dropped where it found no room and only then; the first one is
/// reported, and then every two hundred and fifty-sixth. Only where nobody takes the
/// lines any more does the pump stop.
pub proof fn law_dropped_lines_are_counted(dropped: u64, outcome: Handed)
    requires
        dropped < u64::MAX,
    ensures
        ({
            let (count, step) = after_handing(dropped, outcome);
            &&& count == dropped + (if outcome == Handed::Full {
                1int
            } else {
                0int
            })
            &&& step == PumpStep::Stop <==> outcome == Handed::Closed
            &&& step == PumpStep::Report <==> outcome == Handed::Full && (dropped == 0 || (dropped
                + 1) % 256 == 0)
        }),
{
}

} // verus!
