//! The decisions of the worker that reads the shell's output: what to do
//! with each outcome of a read.

use termwiz::escape::parser::Parser;
use termwiz::escape::Action;
use vstd::prelude::*;

verus! {

/// Bytes that one read of the shell's output may bring.
pub const READ_BUFFER_SIZE: usize = 8192;

/// Batches of actions that may wait for the terminal.
pub const ACTION_QUEUE: usize = 512;

/// Events of the window that may wait for the renderer.
pub const EVENT_QUEUE: usize = 64;

#[verifier::external_type_specification]
#[verifier::external_body]
pub struct ExParser(Parser);

/// How a read of the shell's output ended.
#[derive(Clone, Copy, Debug, PartialEq, Eq, Structural)]
pub enum ReadOutcome {
    /// So many bytes stand at the start of the buffer; none means that the
    /// output has ended.
    Read(usize),
    /// The read was interrupted before it brought anything.
    Interrupted,
    /// The read failed for good.
    Failed,
}

/// What the worker does next.
pub enum ReaderStep {
    /// Hand the batch to the terminal, then read on.
    Deliver(Vec<Action>),
    /// Read on.
    Continue,
    /// End the worker.
    Stop,
}

/// The actions that a parser in the given state reads from the bytes.
pub uninterp spec fn parsed(parser: Parser, bytes: Seq<u8>) -> Seq<Action>;

/// The state of a parser after it read the bytes.
pub uninterp spec fn parser_after(parser: Parser, bytes: Seq<u8>) -> Parser;

/// `termwiz::escape::parser::Parser::parse_as_vec` on the first `len` bytes
/// of `bytes`: the actions that the parser, in the state it is in, reads
/// from them. The parser keeps what an unfinished sequence needs; actions
/// and the state afterwards are a matter of the state and the bytes alone.
#[verifier::external_body]
fn parse_bytes(parser: &mut Parser, bytes: &[u8], len: usize) -> (actions: Vec<Action>)
    requires
        len <= bytes@.len(),
    ensures
        actions@ == parsed(*old(parser), bytes@.take(len as int)),
        *final(parser) == parser_after(*old(parser), bytes@.take(len as int)),
{
    parser.parse_as_vec(&bytes[..len])
}

/// What to do with a parsed batch: one without actions is not worth
/// handing on.
pub fn deliver(actions: Vec<Action>) -> (step: ReaderStep)
    ensures
        match step {
            ReaderStep::Deliver(batch) => batch == actions && actions@.len() > 0,
            ReaderStep::Continue => actions@.len() == 0,
            ReaderStep::Stop => false,
        },
{
    if actions.len() == 0 {
        ReaderStep::Continue
    } else {
        ReaderStep::Deliver(actions)
    }
}

/// Whether the worker ends after this read: the output has ended, the read
/// failed, or it claims more bytes than the buffer has.
pub open spec fn ends(outcome: ReadOutcome, buffer_len: int) -> bool {
    match outcome {
        ReadOutcome::Read(len) => len == 0 || len > buffer_len,
        ReadOutcome::Interrupted => false,
        ReadOutcome::Failed => true,
    }
}

/// What the worker does after a read into `buffer`: bytes that came are
/// parsed and the actions handed on, an interrupted read is tried again,
/// and the end of the output or a failure ends the worker.
pub fn reader_step(parser: &mut Parser, outcome: ReadOutcome, buffer: &[u8]) -> (step: ReaderStep)
    ensures
        step is Stop <==> ends(outcome, buffer@.len() as int),
        outcome is Interrupted ==> step is Continue,
        step matches ReaderStep::Deliver(batch) ==> batch@.len() > 0,
        outcome is Read && 0 < outcome->Read_0 <= buffer@.len() ==> {
            let got = parsed(*old(parser), buffer@.take(outcome->Read_0 as int));
            if got.len() > 0 {
                step is Deliver && step->Deliver_0@ == got
            } else {
                step is Continue
            }
        },
        *final(parser) == if outcome is Read && 0 < outcome->Read_0 <= buffer@.len() {
            parser_after(*old(parser), buffer@.take(outcome->Read_0 as int))
        } else {
            *old(parser)
        },
{
    match outcome {
        ReadOutcome::Read(len) => {
            if len == 0 || len > buffer.len() {
                ReaderStep::Stop
            } else {
                deliver(parse_bytes(parser, buffer, len))
            }
        },
        ReadOutcome::Interrupted => ReaderStep::Continue,
        ReadOutcome::Failed => ReaderStep::Stop,
    }
}

} // verus!
