//! The invocation contract: a tool identifier, an error code written in base
//! 10 and a message, after the program name.
use vstd::prelude::*;

use crate::decimal::{parse_error_code, parsed_code};

verus! {

/// Why an invocation cannot be reported on.
#[derive(Clone, Copy, Debug, PartialEq, Eq, Structural)]
pub enum InvocationError {
    /// Fewer than the three parameters were given.
    MissingArguments,
    /// The second parameter is not an integer in the range of `i32`.
    InvalidErrorCode,
}

/// The three parameters of a valid invocation.
#[derive(Debug)]
pub struct Invocation {
    pub tool_id: String,
    pub error_code: i32,
    pub message: String,
}

/// The diagnostic printed for an invocation error, if any.
pub open spec fn diagnostic_of(e: InvocationError) -> Option<Seq<char>> {
    match e {
        InvocationError::MissingArguments => None,
        InvocationError::InvalidErrorCode => Some("Invalid error code"@),
    }
}

impl InvocationError {
    /// The exit status of the process on this error.
    pub fn exit_status(&self) -> (r: i32)
        ensures
            r == 1,
    {
        1
    }

    /// The line written to the error stream on this error: none for missing
    /// parameters.
    pub fn diagnostic(&self) -> (r: Option<String>)
        ensures
            match r {
                Some(t) => diagnostic_of(*self) == Some(t@),
                None => diagnostic_of(*self) is None,
            },
    {
        match self {
            InvocationError::MissingArguments => None,
            InvocationError::InvalidErrorCode => Some("Invalid error code".to_owned()),
        }
    }
}

/// Reads the parameters from `args`, whose first element is the program name;
/// elements past the fourth are ignored.
pub fn parse_invocation(args: &Vec<String>) -> (r: Result<Invocation, InvocationError>)
    ensures
        args@.len() < 4 ==> r == Err::<Invocation, InvocationError>(
            InvocationError::MissingArguments,
        ),
        args@.len() >= 4 && parsed_code(args@[2]@) is None ==> r == Err::<
            Invocation,
            InvocationError,
        >(InvocationError::InvalidErrorCode),
        args@.len() >= 4 && parsed_code(args@[2]@) is Some ==> r is Ok,
        r matches Ok(inv) ==> inv.tool_id@ == args@[1]@ && Some(inv.error_code) == parsed_code(
            args@[2]@,
        ) && inv.message@ == args@[3]@,
{
    if args.len() < 4 {
        return Err(InvocationError::MissingArguments);
    }
    match parse_error_code(args[2].as_str()) {
        Some(code) => Ok(Invocation {
            tool_id: args[1].clone(),
            error_code: code,
            message: args[3].clone(),
        }),
        None => Err(InvocationError::InvalidErrorCode),
    }
}

} // verus!
