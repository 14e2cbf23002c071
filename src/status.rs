//! Decoding of the status codes reported by the error-query entry point.
use vstd::prelude::*;

verus! {

/// No error has been recorded.
pub const NO_ERROR: u32 = 0;

/// An enumerated argument was given an unacceptable value.
pub const INVALID_ENUM: u32 = 0x0500;

/// A numeric argument was out of range.
pub const INVALID_VALUE: u32 = 0x0501;

/// The operation is not allowed in the current state.
pub const INVALID_OPERATION: u32 = 0x0502;

/// There was not enough memory to execute the command.
pub const OUT_OF_MEMORY: u32 = 0x0505;

/// A framebuffer read or write was attempted on an incomplete framebuffer.
pub const INVALID_FRAMEBUFFER_OPERATION: u32 = 0x0506;

/// The two-part message for a status code: a short symbolic name and an
/// explanation of the cause and of what the failed command did.
pub struct StatusDescription {
    pub name: &'static str,
    pub explanation: &'static str,
}

/// Whether `code` is one of the declared status codes.
pub open spec fn is_declared_status(code: u32) -> bool {
    code == NO_ERROR || code == INVALID_ENUM || code == INVALID_VALUE || code
        == INVALID_OPERATION || code == INVALID_FRAMEBUFFER_OPERATION || code == OUT_OF_MEMORY
}

/// The symbolic name of a status code; any undeclared code is "Unknown error".
pub open spec fn status_name(code: u32) -> Seq<char> {
    if code == NO_ERROR {
        "NO_ERROR"@
    } else if code == INVALID_ENUM {
        "INVALID_ENUM"@
    } else if code == INVALID_VALUE {
        "INVALID_VALUE"@
    } else if code == INVALID_OPERATION {
        "INVALID_OPERATION"@
    } else if code == INVALID_FRAMEBUFFER_OPERATION {
        "INVALID_FRAMEBUFFER_OPERATION"@
    } else if code == OUT_OF_MEMORY {
        "OUT_OF_MEMORY"@
    } else {
        "Unknown error"@
    }
}

/// The explanation attached to a status code; empty for an undeclared code.
pub open spec fn status_explanation(code: u32) -> Seq<char> {
    if code == NO_ERROR {
        "No error has been recorded. The value of this symbolic constant is guaranteed to be 0."@
    } else if code == INVALID_ENUM {
        "An unacceptable value is specified for an enumerated argument. The offending command is ignored and has no other side effect than to set the error flag."@
    } else if code == INVALID_VALUE {
        "A numeric argument is out of range. The offending command is ignored and has no other side effect than to set the error flag."@
    } else if code == INVALID_OPERATION {
        "The specified operation is not allowed in the current state. The offending command is ignored and has no other side effect than to set the error flag."@
    } else if code == INVALID_FRAMEBUFFER_OPERATION {
        "The command is trying to render to or read from the framebuffer while the currently bound framebuffer is not framebuffer complete (i.e. the return value from glCheckFramebufferStatus is not GL_FRAMEBUFFER_COMPLETE). The offending command is ignored and has no other side effect than to set the error flag."@
    } else if code == OUT_OF_MEMORY {
        "There is not enough memory left to execute the command. The state of the GL is undefined, except for the state of the error flags, after this error is recorded."@
    } else {
        ""@
    }
}

/// Decoding is total: a code outside the declared set has the generic
/// "Unknown error" name and an empty explanation.
pub proof fn lemma_undeclared_status_unknown(code: u32)
    requires
        !is_declared_status(code),
    ensures
        status_name(code) == "Unknown error"@,
        status_explanation(code) == ""@,
{
}

/// Decodes a status code into its name and explanation. Total: an undeclared
/// code yields the generic "Unknown error" name with an empty explanation.
pub fn decode_status(code: u32) -> (r: StatusDescription)
    ensures
        r.name@ == status_name(code),
        r.explanation@ == status_explanation(code),
{
    if code == NO_ERROR {
        StatusDescription {
            name: "NO_ERROR",
            explanation: "No error has been recorded. The value of this symbolic constant is guaranteed to be 0.",
        }
    } else if code == INVALID_ENUM {
        StatusDescription {
            name: "INVALID_ENUM",
            explanation: "An unacceptable value is specified for an enumerated argument. The offending command is ignored and has no other side effect than to set the error flag.",
        }
    } else if code == INVALID_VALUE {
        StatusDescription {
            name: "INVALID_VALUE",
            explanation: "A numeric argument is out of range. The offending command is ignored and has no other side effect than to set the error flag.",
        }
    } else if code == INVALID_OPERATION {
        StatusDescription {
            name: "INVALID_OPERATION",
            explanation: "The specified operation is not allowed in the current state. The offending command is ignored and has no other side effect than to set the error flag.",
        }
    } else if code == INVALID_FRAMEBUFFER_OPERATION {
        StatusDescription {
            name: "INVALID_FRAMEBUFFER_OPERATION",
            explanation: "The command is trying to render to or read from the framebuffer while the currently bound framebuffer is not framebuffer complete (i.e. the return value from glCheckFramebufferStatus is not GL_FRAMEBUFFER_COMPLETE). The offending command is ignored and has no other side effect than to set the error flag.",
        }
    } else if code == OUT_OF_MEMORY {
        StatusDescription {
            name: "OUT_OF_MEMORY",
            explanation: "There is not enough memory left to execute the command. The state of the GL is undefined, except for the state of the error flags, after this error is recorded.",
        }
    } else {
        StatusDescription { name: "Unknown error", explanation: "" }
    }
}

} // verus!
