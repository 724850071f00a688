//! Error codes and the error type of the library.
use vstd::prelude::*;

verus! {

/// A numeric result code, as TileMux and the kernel report it.
pub type Code = u32;

/// The code that reports success.
pub const SUCCESS: Code = 0;

/// The ways in which an operation can fail.
#[derive(Clone, Copy, Debug, PartialEq, Eq, Structural)]
pub enum Error {
    /// The send gate's endpoint, on whose behalf a receive gate waits, is no longer valid.
    InvEP,
    /// The operation was refused with the given code.
    Code(Code),
}

impl Error {
    /// Creates the error for `code`.
    pub fn new(code: Code) -> (e: Error)
        ensures
            e == Error::Code(code),
    {
        Error::Code(code)
    }
}

/// What a result code means: success for `SUCCESS`, otherwise the error with that code.
pub open spec fn code_result(code: Code) -> Result<(), Error> {
    if code == SUCCESS {
        Ok(())
    } else {
        Err(Error::Code(code))
    }
}

/// Turns a result code into a result.
pub fn result_from_code(code: Code) -> (r: Result<(), Error>)
    ensures
        r == code_result(code),
{
    if code == SUCCESS {
        Ok(())
    } else {
        Err(Error::new(code))
    }
}

} // verus!

verus! {

/// Only the code 0 means success; every other code is the error with that very code.
pub proof fn lemma_code_result(code: Code)
    ensures
        SUCCESS == 0,
        code_result(code) is Ok <==> code == 0,
        code != 0 ==> code_result(code) == Err::<(), Error>(Error::Code(code)),
        code == 0 ==> code_result(code) == Ok::<(), Error>(()),
{
}

} // verus!
