//! A transport that reads from one stream and writes to another, such as a
//! process's standard input and output.
use vstd::prelude::*;

verus! {

/// Reads from `stdin` and writes to `stdout`.
pub struct StdioTransport<I, O> {
    stdin: I,
    stdout: O,
}

impl<I, O> StdioTransport<I, O> {
    /// The stream that the transport reads from.
    pub closed spec fn input(&self) -> I {
        self.stdin
    }

    /// The stream that the transport writes to.
    pub closed spec fn output(&self) -> O {
        self.stdout
    }

    /// A transport that reads from `stdin` and writes to `stdout`.
    pub fn attach(stdin: I, stdout: O) -> (res: Self)
        ensures
            res.input() == stdin,
            res.output() == stdout,
    {
        Self { stdin, stdout }
    }

    /// The two streams, for polling.
    pub fn into_parts(self) -> (res: (I, O))
        ensures
            res.0 == self.input(),
            res.1 == self.output(),
    {
        (self.stdin, self.stdout)
    }
}

} // verus!
