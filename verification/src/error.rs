//! Host-level errors, and the exception that a script raised.

use vstd::prelude::*;
use crate::tag::{kind, spec_kind, ValueKind};
use crate::text::{bytes_view, kept_bytes, reads_as, utf8_lossy};

verus! {

/// A script exception: its message, and the stack text where the thrown
/// value was error-shaped and had one.
#[derive(Debug, Clone, PartialEq, Eq)]
pub struct JsException {
    msg: String,
    stack: Option<String>,
}

/// What the engine answered when the thrown value was asked for its `stack`
/// property: the word that came back, and the bytes of its string form,
/// `None` where the engine gave none.
#[derive(Debug, Clone, PartialEq, Eq)]
pub struct StackProbe {
    pub raw: u64,
    pub text: Option<Vec<u8>>,
}

impl JsException {
    /// The message, as a sequence of characters.
    pub closed spec fn spec_message(&self) -> Seq<char> {
        self.msg@
    }

    /// The stack text, where there is one.
    pub closed spec fn spec_stack(&self) -> Option<Seq<char>> {
        match self.stack {
            Some(s) => Some(s@),
            None => None,
        }
    }

    /// Whether a capture keeps a stack: only for an error-shaped value whose
    /// `stack` property could be read and is not undefined.
    pub open spec fn keeps_stack(is_error: bool, stack: Option<StackProbe>) -> bool {
        is_error && stack is Some && spec_kind(stack.unwrap().raw) != ValueKind::Undefined
    }

    /// `kept` is the stack that a capture keeps: what the probe's bytes
    /// read as, where a stack is kept at all.
    pub open spec fn stack_reads(
        is_error: bool,
        stack: Option<StackProbe>,
        kept: Option<Seq<char>>,
    ) -> bool {
        if Self::keeps_stack(is_error, stack) {
            kept matches Some(s) && reads_as(kept_bytes(stack.unwrap().text), s)
        } else {
            kept is None
        }
    }

    /// Returns the error message.
    pub fn message(&self) -> (m: &str)
        ensures
            m@ == self.spec_message(),
    {
        self.msg.as_str()
    }

    /// Returns the stringified stack if available.
    pub fn stack(&self) -> (s: Option<&str>)
        ensures
            s is Some <==> self.spec_stack() is Some,
            s matches Some(t) ==> self.spec_stack() == Some(t@),
    {
        match &self.stack {
            Some(text) => Some(text.as_str()),
            None => None,
        }
    }

    /// Packages the pending exception.  `text` holds the engine's bytes for
    /// the string form of the thrown value, `is_error` says whether the
    /// engine takes the value for an error object, and `stack` is what the
    /// lookup of its `stack` property gave, `None` where the lookup was not
    /// made or failed.
    pub fn from_raw(text: Option<&[u8]>, is_error: bool, stack: Option<StackProbe>) -> (e:
        JsException)
        ensures
            reads_as(bytes_view(text), e.spec_message()),
            Self::stack_reads(is_error, stack, e.spec_stack()),
    {
        let msg: String = match text {
            Some(bytes) => utf8_lossy(bytes),
            None => String::new(),
        };
        let kept: Option<String> = match stack {
            Some(probe) => {
                if is_error && kind(probe.raw) != ValueKind::Undefined {
                    match probe.text {
                        Some(bytes) => Some(utf8_lossy(bytes.as_slice())),
                        None => Some(String::new()),
                    }
                } else {
                    None
                }
            },
            None => None,
        };
        JsException { msg, stack: kept }
    }
}

/// A failure of one call into the wrapper.
#[derive(Debug, Clone, PartialEq, Eq)]
pub enum Error {
    /// The engine returned no runtime.
    RuntimeInit,
    /// The engine returned no context.
    ContextInit,
    /// A string bound for the engine holds a NUL byte, first at this offset.
    NulError(usize),
    /// The script threw.
    JsException(JsException),
    /// The engine's bytes for a string are not UTF-8.
    Utf8Error,
    /// An index does not fit the engine's 32-bit index.
    IntOverflow,
    /// The `length` property is missing or is no 32-bit length.
    InvalidLength,
}

impl Error {
    /// The text under which the error is displayed.
    pub open spec fn spec_describe(&self) -> Seq<char> {
        match self {
            Error::RuntimeInit => "quickjs failed to initialize runtime"@,
            Error::ContextInit => "quickjs failed to initialize context"@,
            Error::NulError(_) => "unexpected null byte"@,
            Error::JsException(_) => "JavaScript exception"@,
            Error::Utf8Error => "utf-8 error"@,
            Error::IntOverflow => "int overflow in number conversion"@,
            Error::InvalidLength => "invalid array length"@,
        }
    }

    /// Returns the text under which the error is displayed.
    pub fn describe(&self) -> (text: String)
        ensures
            text@ == self.spec_describe(),
    {
        match self {
            Error::RuntimeInit => "quickjs failed to initialize runtime".to_owned(),
            Error::ContextInit => "quickjs failed to initialize context".to_owned(),
            Error::NulError(_) => "unexpected null byte".to_owned(),
            Error::JsException(_) => "JavaScript exception".to_owned(),
            Error::Utf8Error => "utf-8 error".to_owned(),
            Error::IntOverflow => "int overflow in number conversion".to_owned(),
            Error::InvalidLength => "invalid array length".to_owned(),
        }
    }
}

} // verus!
