//! The composite error value: message, classification, and code, with
//! construction, chaining, and canonical rendering.

use vstd::prelude::*;
use vstd::string::StringExecFns;

use crate::codes::{code_view, normalize_code, ErrorCodes};
use crate::error_type::{name_of, ErrorType};
use crate::text::str_eq;

verus! {

/// What the standard debug formatting of a string yields: its characters
/// quoted and escaped. The result depends on the characters alone.
pub uninterp spec fn str_debug_of(s: Seq<char>) -> Seq<char>;

/// Relies on the standard `Debug` formatting of `str` (via `format!`): the
/// quoted, escaped rendering of a string, a function of its characters alone.
#[verifier::external_body]
fn debug_repr(s: &str) -> (r: String)
    ensures
        r@ == str_debug_of(s@),
{
    format!("{:?}", s)
}

/// The message of an error constructed with a prior error as cause: both
/// messages in their quoted debug form, each behind its marker.
pub open spec fn chained_msg(current: Seq<char>, previous: Seq<char>) -> Seq<char> {
    "[Current error] "@ + str_debug_of(current) + "; [Previous error] "@ + str_debug_of(previous)
}

/// The canonical textual form assembled from an error's three fields:
/// `[code=<code|none>,error_type=<canonical-name>] <message>`.
pub open spec fn rendered(msg: Seq<char>, t: ErrorType, code: Option<Seq<char>>) -> Seq<char> {
    "[code="@ + (match code {
        Some(c) => c,
        None => "none"@,
    }) + ",error_type="@ + name_of(t) + "] "@ + msg
}

/// The composite error value. Immutable after construction: the only update,
/// `with_code`, produces a new value.
#[derive(Debug)]
pub struct MappedErrors {
    /// The error message.
    pub msg: String,
    /// The classification of the failure.
    pub error_type: ErrorType,
    /// The optional code distinguishing this error instance.
    pub code: ErrorCodes,
}

impl MappedErrors {
    /// The canonical textual form of this error.
    pub open spec fn render(self) -> Seq<char> {
        rendered(self.msg@, self.error_type, code_view(self.code))
    }

    /// The classification carried by this error.
    pub open spec fn spec_error_type(self) -> ErrorType {
        self.error_type
    }

    /// The code carried by this error.
    pub open spec fn spec_code(self) -> Option<Seq<char>> {
        code_view(self.code)
    }

    /// This method returns the error type of the current error.
    pub fn error_type(&self) -> (r: ErrorType)
        ensures
            r == self.spec_error_type(),
    {
        self.error_type
    }

    /// This method renders the canonical textual form of the current error.
    pub fn msg(&self) -> (r: String)
        ensures
            r@ == self.render(),
    {
        let mut out: String = "[code=".to_owned();
        match &self.code {
            ErrorCodes::Code(c) => out.append(c.as_str()),
            ErrorCodes::Unmapped => out.append("none"),
        }
        out.append(",error_type=");
        let name = self.error_type.canonical_name();
        out.append(name.as_str());
        out.append("] ");
        out.append(self.msg.as_str());
        proof {
            assert(out@ =~= self.render());
        }
        out
    }

    /// Constructs a new error. A prior error given as cause is flattened into
    /// the message — exactly one level, the result carries no cause — and the
    /// result always carries no code. The expectedness flag does not affect
    /// the value; it only tells a logging layer which severity to use.
    pub fn new(
        msg: String,
        exp: Option<bool>,
        prev: Option<MappedErrors>,
        error_type: ErrorType,
    ) -> (r: MappedErrors)
        ensures
            r.spec_error_type() == error_type,
            r.spec_code() is None,
            (match prev {
                Some(p) => r.msg@ == chained_msg(msg@, p.msg@),
                None => r.msg@ == msg@,
            }),
    {
        let flat: String = match prev {
            Some(p) => {
                let mut s: String = "[Current error] ".to_owned();
                s.append(debug_repr(msg.as_str()).as_str());
                s.append("; [Previous error] ");
                s.append(debug_repr(p.msg.as_str()).as_str());
                proof {
                    assert(s@ =~= chained_msg(msg@, p.msg@));
                }
                s
            },
            None => msg,
        };
        MappedErrors { msg: flat, error_type, code: ErrorCodes::Unmapped }
    }

    /// Returns this error with the given code attached. The reserved literal
    /// `none` is normalized to the absence of a code; message and
    /// classification are kept.
    pub fn with_code(self, code: String) -> (r: MappedErrors)
        ensures
            r.msg == self.msg,
            r.spec_error_type() == self.spec_error_type(),
            r.spec_code() == normalize_code(code@),
    {
        if str_eq(code.as_str(), "none") {
            MappedErrors { msg: self.msg, error_type: self.error_type, code: ErrorCodes::Unmapped }
        } else {
            MappedErrors {
                msg: self.msg,
                error_type: self.error_type,
                code: ErrorCodes::Code(code),
            }
        }
    }
}

/// Chaining flattens in one step into a plain message: the flattened message
/// opens with the current-error marker and carries the previous-error marker
/// between the two quoted messages, and no cause structure outlives
/// construction.
pub proof fn lemma_chained_msg_markers(current: Seq<char>, previous: Seq<char>)
    ensures
        chained_msg(current, previous).subrange(0, 16) == "[Current error] "@,
        chained_msg(current, previous).subrange(
            16 + str_debug_of(current).len() as int,
            35 + str_debug_of(current).len() as int,
        ) == "; [Previous error] "@,
{
    reveal_strlit("[Current error] ");
    reveal_strlit("; [Previous error] ");
    assert("[Current error] "@.len() == 16);
    assert("; [Previous error] "@.len() == 19);
    assert(chained_msg(current, previous).subrange(0, 16) =~= "[Current error] "@);
    assert(chained_msg(current, previous).subrange(
        16 + str_debug_of(current).len() as int,
        35 + str_debug_of(current).len() as int,
    ) =~= "; [Previous error] "@);
}

/// A fresh error always carries no code, and an error without a code renders
/// with the literal `none` in its code field.
pub proof fn lemma_unmapped_renders_none(e: MappedErrors)
    requires
        e.spec_code() is None,
    ensures
        e.render().subrange(6, 10) == "none"@,
{
    reveal_strlit("[code=");
    reveal_strlit("none");
    assert("[code="@.len() == 6);
    assert("none"@.len() == 4);
    assert(e.render().subrange(6, 10) =~= "none"@);
}

} // verus!
