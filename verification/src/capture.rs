//! The capture of a pending exception, step by step.
//!
//! Capturing takes several questions to the engine, and what is asked next
//! depends on the answers so far.  The capture here holds the answers, says
//! what to ask next, and packages the exception when nothing is left to
//! ask.

use vstd::prelude::*;
use crate::error::{JsException, StackProbe};
use crate::refcount::{release, spec_release, RefOp};
use crate::tag::{kind, spec_kind, ValueKind};
use crate::text::{kept_bytes, reads_as};

verus! {

/// How far a capture has come.
#[derive(Debug, Clone, PartialEq, Eq)]
pub enum Capture {
    /// The thrown value was fetched from the engine's pending slot.
    Thrown { exc: u64 },
    /// Its string form is known.
    Described { exc: u64, text: Option<Vec<u8>> },
    /// The engine takes it for an error object.
    Shaped { exc: u64, text: Option<Vec<u8>> },
    /// Its `stack` property holds a defined value.
    Stacked { exc: u64, text: Option<Vec<u8>>, stack: u64 },
    /// Reading its `stack` property threw in turn.
    Failed { exc: u64, text: Option<Vec<u8>> },
    /// Nothing is left to ask.  `spare` is a word that was fetched on the
    /// way and is owned but not kept.
    Done {
        exc: u64,
        text: Option<Vec<u8>>,
        is_error: bool,
        stack: Option<StackProbe>,
        spare: Option<u64>,
    },
}

/// A question to the engine.
#[derive(Debug, Clone, Copy, PartialEq, Eq, Structural)]
pub enum Query {
    /// The bytes of the string form of this word.
    Text(u64),
    /// Whether this word is an error object.
    IsError(u64),
    /// The `stack` property of this word.
    Stack(u64),
    /// The value in the pending slot, which is emptied by the question.
    Pending,
    /// Nothing.
    Finished,
}

/// An answer of the engine.
#[derive(Debug, Clone, PartialEq, Eq)]
pub enum Answer {
    /// The bytes of a string form, `None` where the engine gave none.
    Text(Option<Vec<u8>>),
    /// The engine's verdict on error shape: zero for no.
    IsError(i32),
    /// The word that a property lookup returned.
    Property(u64),
    /// The word that was in the pending slot.
    Pending(u64),
}

impl Capture {
    /// What is to be asked in a state.
    pub open spec fn spec_query(self) -> Query {
        match self {
            Capture::Thrown { exc } => Query::Text(exc),
            Capture::Described { exc, .. } => Query::IsError(exc),
            Capture::Shaped { exc, .. } => Query::Stack(exc),
            Capture::Stacked { stack, .. } => Query::Text(stack),
            Capture::Failed { .. } => Query::Pending,
            Capture::Done { .. } => Query::Finished,
        }
    }

    /// The state after an answer.  An answer to a question that was not
    /// asked changes nothing.
    pub open spec fn spec_step(self, answer: Answer) -> Capture {
        match (self, answer) {
            (Capture::Thrown { exc }, Answer::Text(text)) => Capture::Described { exc, text },
            (Capture::Described { exc, text }, Answer::IsError(verdict)) => if verdict != 0 {
                Capture::Shaped { exc, text }
            } else {
                Capture::Done { exc, text, is_error: false, stack: None, spare: None }
            },
            (Capture::Shaped { exc, text }, Answer::Property(raw)) => if spec_kind(raw)
                == ValueKind::Exception {
                Capture::Failed { exc, text }
            } else if spec_kind(raw) == ValueKind::Undefined {
                Capture::Done {
                    exc,
                    text,
                    is_error: true,
                    stack: Some(StackProbe { raw, text: None }),
                    spare: None,
                }
            } else {
                Capture::Stacked { exc, text, stack: raw }
            },
            (Capture::Stacked { exc, text, stack }, Answer::Text(stack_text)) => Capture::Done {
                exc,
                text,
                is_error: true,
                stack: Some(StackProbe { raw: stack, text: stack_text }),
                spare: None,
            },
            (Capture::Failed { exc, text }, Answer::Pending(raw)) => Capture::Done {
                exc,
                text,
                is_error: true,
                stack: None,
                spare: Some(raw),
            },
            (state, _) => state,
        }
    }

    /// The units that a finished capture gives back: that of the stack
    /// value, that of a spare word, and that of the thrown value.
    pub open spec fn spec_releases(self) -> Seq<RefOp> {
        match self {
            Capture::Done { exc, stack, spare, .. } => {
                let first = match stack {
                    Some(probe) => seq![spec_release(probe.raw)],
                    None => Seq::empty(),
                };
                let second = match spare {
                    Some(raw) => seq![spec_release(raw)],
                    None => Seq::empty(),
                };
                first + second + seq![spec_release(exc)]
            },
            _ => Seq::empty(),
        }
    }

    /// Starts a capture with the word that was in the engine's pending slot.
    pub fn begin(exc: u64) -> (state: Capture)
        ensures
            state == (Capture::Thrown { exc }),
    {
        Capture::Thrown { exc }
    }

    /// Says what to ask the engine next.
    pub fn query(&self) -> (q: Query)
        ensures
            q == self.spec_query(),
    {
        match self {
            Capture::Thrown { exc } => Query::Text(*exc),
            Capture::Described { exc, .. } => Query::IsError(*exc),
            Capture::Shaped { exc, .. } => Query::Stack(*exc),
            Capture::Stacked { stack, .. } => Query::Text(*stack),
            Capture::Failed { .. } => Query::Pending,
            Capture::Done { .. } => Query::Finished,
        }
    }

    /// Takes the engine's answer to the question that `query` gave.
    pub fn step(self, answer: Answer) -> (next: Capture)
        ensures
            next == self.spec_step(answer),
    {
        match (self, answer) {
            (Capture::Thrown { exc }, Answer::Text(text)) => Capture::Described { exc, text },
            (Capture::Described { exc, text }, Answer::IsError(verdict)) => {
                if verdict != 0 {
                    Capture::Shaped { exc, text }
                } else {
                    Capture::Done { exc, text, is_error: false, stack: None, spare: None }
                }
            },
            (Capture::Shaped { exc, text }, Answer::Property(raw)) => {
                let k = kind(raw);
                if k == ValueKind::Exception {
                    Capture::Failed { exc, text }
                } else if k == ValueKind::Undefined {
                    Capture::Done {
                        exc,
                        text,
                        is_error: true,
                        stack: Some(StackProbe { raw, text: None }),
                        spare: None,
                    }
                } else {
                    Capture::Stacked { exc, text, stack: raw }
                }
            },
            (Capture::Stacked { exc, text, stack }, Answer::Text(stack_text)) => Capture::Done {
                exc,
                text,
                is_error: true,
                stack: Some(StackProbe { raw: stack, text: stack_text }),
                spare: None,
            },
            (Capture::Failed { exc, text }, Answer::Pending(raw)) => Capture::Done {
                exc,
                text,
                is_error: true,
                stack: None,
                spare: Some(raw),
            },
            (state, _) => state,
        }
    }

    /// Packages the exception of a finished capture, and says which units
    /// are to be given back to the engine.
    pub fn finish(self) -> (res: (JsException, Vec<RefOp>))
        requires
            self is Done,
        ensures
            self matches Capture::Done { text, is_error, stack, .. } && reads_as(
                kept_bytes(text),
                res.0.spec_message(),
            ) && JsException::stack_reads(is_error, stack, res.0.spec_stack()),
            res.1@ == self.spec_releases(),
    {
        match self {
            Capture::Done { exc, text, is_error, stack, spare } => {
                let mut ops: Vec<RefOp> = Vec::new();
                match &stack {
                    Some(probe) => ops.push(release(probe.raw)),
                    None => {},
                }
                match spare {
                    Some(raw) => ops.push(release(raw)),
                    None => {},
                }
                ops.push(release(exc));
                assert(ops@ =~= self.spec_releases());
                let exception = match &text {
                    Some(bytes) => JsException::from_raw(Some(bytes.as_slice()), is_error, stack),
                    None => JsException::from_raw(None, is_error, stack),
                };
                (exception, ops)
            },
            _ => unreached(),
        }
    }
}

/// A capture is finished after at most four answers to its questions, and
/// keeps a stack only for an error-shaped value whose `stack` property
/// could be read and is defined.
pub proof fn lemma_capture_finishes(
    exc: u64,
    text: Option<Vec<u8>>,
    verdict: i32,
    stack: u64,
    stack_text: Option<Vec<u8>>,
    pending: u64,
)
    ensures
        ({
            let s1 = (Capture::Thrown { exc }).spec_step(Answer::Text(text));
            let s2 = s1.spec_step(Answer::IsError(verdict));
            let s3 = s2.spec_step(Answer::Property(stack));
            let s4 = if s3.spec_query() == Query::Pending {
                s3.spec_step(Answer::Pending(pending))
            } else {
                s3.spec_step(Answer::Text(stack_text))
            };
            &&& s1.spec_query() == Query::IsError(exc)
            &&& verdict == 0 ==> s2 is Done
            &&& verdict != 0 ==> s2.spec_query() == Query::Stack(exc)
            &&& s4 matches Capture::Done { exc: e, text: t, is_error, stack: kept, .. } && e == exc
                && t == text && is_error == (verdict != 0) && (JsException::keeps_stack(
                is_error,
                kept,
            ) <==> verdict != 0 && spec_kind(stack) != ValueKind::Exception && spec_kind(
                stack,
            ) != ValueKind::Undefined)
        }),
{
}

} // verus!
