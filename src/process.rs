//! Model of one external process: what to start and what came back.
use vstd::prelude::*;

verus! {

/// How one standard stream of a started process is connected.
#[derive(Clone, Copy, Debug, PartialEq, Eq, Structural)]
pub enum Stream {
    /// Captured through a pipe and handed back in [`Output`].
    Piped,
    /// Shared with the process that starts it.
    Inherit,
    /// Discarded.
    Null,
}

/// How a finished process ended: its exit code, or `None` when it was ended
/// by a signal.
#[derive(Clone, Copy, Debug)]
pub struct ExitStatus {
    /// The exit code, where the process exited by itself.
    pub code: Option<i32>,
}

impl ExitStatus {
    /// True when the process exited with code zero.
    pub open spec fn is_success(self) -> bool {
        self.code == Some(0i32)
    }

    /// Returns whether the process exited with code zero.
    pub fn success(&self) -> (r: bool)
        ensures
            r == self.is_success(),
    {
        match self.code {
            Some(c) => c == 0,
            None => false,
        }
    }
}

} // verus!

verus! {

/// What a finished process handed back: how it ended and the bytes it wrote
/// to the streams that were captured (empty for a stream that was not).
pub struct Output {
    /// How the process ended.
    pub status: ExitStatus,
    /// Bytes written to the standard output.
    pub stdout: Vec<u8>,
    /// Bytes written to the standard error.
    pub stderr: Vec<u8>,
}

/// A process to start.
pub struct Invocation {
    /// Path of the program.
    pub program: String,
    /// Arguments, in order, after the program itself.
    pub args: Vec<String>,
    /// Variables added to the environment that the process inherits.
    pub envs: Vec<(String, String)>,
    /// Bytes written to the standard input; `None` leaves it unconnected.
    pub stdin: Option<Vec<u8>>,
    /// How the standard output is connected.
    pub stdout: Stream,
    /// How the standard error is connected.
    pub stderr: Stream,
}

/// The text of each string, in order.
pub open spec fn texts(v: Seq<String>) -> Seq<Seq<char>> {
    v.map_values(|s: String| s@)
}

/// The text of each name and value, in order.
pub open spec fn text_pairs(v: Seq<(String, String)>) -> Seq<(Seq<char>, Seq<char>)> {
    v.map_values(|p: (String, String)| (p.0@, p.1@))
}

impl Invocation {
    /// The arguments as text.
    pub open spec fn arg_texts(&self) -> Seq<Seq<char>> {
        texts(self.args@)
    }

    /// The added environment variables as text.
    pub open spec fn env_texts(&self) -> Seq<(Seq<char>, Seq<char>)> {
        text_pairs(self.envs@)
    }

    /// A call of `program` without arguments or added environment, with
    /// nothing on its standard input and both output streams inherited.
    pub fn new(program: String) -> (r: Invocation)
        ensures
            r.program == program,
            r.args@.len() == 0,
            r.envs@.len() == 0,
            r.stdin is None,
            r.stdout == Stream::Inherit,
            r.stderr == Stream::Inherit,
    {
        Invocation {
            program,
            args: Vec::new(),
            envs: Vec::new(),
            stdin: None,
            stdout: Stream::Inherit,
            stderr: Stream::Inherit,
        }
    }

    /// Appends one argument.
    pub fn arg(&mut self, a: &str)
        ensures
            final(self).arg_texts() == old(self).arg_texts().push(a@),
            final(self).program == old(self).program,
            final(self).envs == old(self).envs,
            final(self).stdin == old(self).stdin,
            final(self).stdout == old(self).stdout,
            final(self).stderr == old(self).stderr,
    {
        self.args.push(a.to_owned());
        proof {
            assert(texts(final(self).args@) =~= texts(old(self).args@).push(a@));
        }
    }

    /// Adds one variable to the environment of the process.
    pub fn env(&mut self, name: String, value: String)
        ensures
            final(self).env_texts() == old(self).env_texts().push((name@, value@)),
            final(self).program == old(self).program,
            final(self).args == old(self).args,
            final(self).stdin == old(self).stdin,
            final(self).stdout == old(self).stdout,
            final(self).stderr == old(self).stderr,
    {
        self.envs.push((name, value));
        proof {
            assert(text_pairs(final(self).envs@) =~= text_pairs(old(self).envs@).push((name@, value@)));
        }
    }
}

} // verus!
