//! The status a process reports to its parent when it ends.
use vstd::prelude::*;

verus! {

/// The status code of a process that ends normally.
#[derive(Clone, Copy, PartialEq, Eq, Structural, Debug, Hash)]
pub struct ExitCode(i32);

impl ExitCode {
    /// The code.
    pub closed spec fn spec_code(self) -> i32 {
        self.0
    }

    /// The exit code with the given code.
    pub closed spec fn spec_of(code: i32) -> ExitCode {
        ExitCode(code)
    }

    /// The code of the exit code made from a code is that code.
    pub broadcast proof fn lemma_spec_of(code: i32)
        ensures
            #[trigger] Self::spec_of(code).spec_code() == code,
    {
    }

    /// The process succeeded.
    pub fn success() -> (r: Self)
        ensures
            r.spec_code() == 0,
    {
        ExitCode(0)
    }

    /// The process failed.
    pub fn failure() -> (r: Self)
        ensures
            r.spec_code() == 1,
    {
        ExitCode(1)
    }

    /// Returns the code.
    pub fn to_i32(self) -> (r: i32)
        ensures
            r == self.spec_code(),
    {
        self.0
    }
}

impl From<u8> for ExitCode {
    fn from(val: u8) -> (r: ExitCode) {
        ExitCode(val as i32)
    }
}

impl vstd::std_specs::convert::FromSpecImpl<u8> for ExitCode {
    open spec fn obeys_from_spec() -> bool {
        true
    }

    open spec fn from_spec(val: u8) -> ExitCode {
        ExitCode::spec_of(val as i32)
    }
}

/// What the `main` function of a program may return: the runtime turns it
/// into the exit code of the process.
pub trait Termination {
    /// The exit code this outcome gives.
    fn report(self) -> ExitCode;
}

impl Termination for () {
    /// Nothing to report: success.
    fn report(self) -> (r: ExitCode)
        ensures
            r.spec_code() == 0,
    {
        ExitCode::success()
    }
}

impl Termination for ExitCode {
    /// The code itself.
    fn report(self) -> (r: ExitCode)
        ensures
            r == self,
    {
        self
    }
}

impl<T: Termination, E> Termination for Result<T, E> {
    /// The report of the value on success; failure on an error.
    fn report(self) -> (r: ExitCode)
        ensures
            self is Err ==> r.spec_code() == 1,
    {
        match self {
            Ok(val) => val.report(),
            Err(_) => ExitCode::failure(),
        }
    }
}

} // verus!
