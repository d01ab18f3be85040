use vstd::prelude::*;
use crate::signals::HandledSignals;

verus! {

/// A fault found while validating the raw invocation, before the loop starts.
#[derive(Clone, Copy, Debug, PartialEq, Eq, Structural)]
pub enum ConfigError {
    /// The command list is empty: there is nothing to run.
    MissingCommand,
}

/// The validated configuration the event loop runs under. Immutable once the
/// core starts.
pub struct Config {
    /// Path the child's stdout stream is appended to.
    pub stdout_path: String,
    /// Path the child's stderr stream is appended to.
    pub stderr_path: String,
    /// Where to write the wrapper's pid, if anywhere.
    pub pid_file: Option<String>,
    /// Which signal an operator sends to request a synchronized rotation.
    pub rotate_signal: HandledSignals,
    /// Program name followed by its arguments; never empty.
    pub command: Vec<String>,
}

impl Config {
    /// A configuration is well formed when its command names a program.
    pub open spec fn wf(self) -> bool {
        self.command@.len() > 0
    }

    /// Validates the raw invocation: an empty command list is a startup
    /// error, anything else is accepted as given.
    pub fn new(
        stdout_path: String,
        stderr_path: String,
        pid_file: Option<String>,
        rotate_signal: HandledSignals,
        command: Vec<String>,
    ) -> (r: Result<Config, ConfigError>)
        ensures
            command@.len() == 0 ==> r == Err::<Config, ConfigError>(ConfigError::MissingCommand),
            command@.len() > 0 ==> (r matches Ok(c) && c == (Config {
                stdout_path,
                stderr_path,
                pid_file,
                rotate_signal,
                command,
            }) && c.wf()),
    {
        if command.len() == 0 {
            Err(ConfigError::MissingCommand)
        } else {
            Ok(Config { stdout_path, stderr_path, pid_file, rotate_signal, command })
        }
    }

    /// The program the child runs.
    pub fn program(&self) -> (r: &String)
        requires
            self.wf(),
        ensures
            r@ == self.command@[0]@,
    {
        &self.command[0]
    }

    /// The arguments handed to the child, everything after the program name.
    pub fn child_args(&self) -> (r: Vec<String>)
        requires
            self.wf(),
        ensures
            r@.len() == self.command@.len() - 1,
            forall|i: int| 0 <= i < r@.len() ==> r@[i]@ == self.command@[i + 1]@,
    {
        let mut rest: Vec<String> = Vec::new();
        let mut i: usize = 1;
        while i < self.command.len()
            invariant
                1 <= i <= self.command@.len(),
                rest@.len() == i - 1,
                forall|j: int| 0 <= j < rest@.len() ==> rest@[j]@ == self.command@[j + 1]@,
            decreases self.command@.len() - i,
        {
            rest.push(self.command[i].clone());
            i = i + 1;
        }
        rest
    }
}

} // verus!
