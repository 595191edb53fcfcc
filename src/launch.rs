//! Supporting types for the `simctl launch` subcommand.
use vstd::prelude::*;

use crate::device::Device;
use crate::process::{texts, Invocation, Stream};
use crate::text::prefixed;

verus! {

/// Prefix that `simctl` strips from the name of a variable of its own
/// environment before handing it to a process on the device.
pub const CHILD_ENV_PREFIX: &'static str = "SIMCTL_CHILD_";

/// The name under which a variable reaches a process on the device.
pub open spec fn child_env_name(name: Seq<char>) -> Seq<char> {
    CHILD_ENV_PREFIX@ + name
}

/// Returns the name under which the variable `name` reaches a process on the
/// device.
pub fn child_env(name: &str) -> (r: String)
    ensures
        r@ == child_env_name(name@),
{
    prefixed(CHILD_ENV_PREFIX, name)
}

/// Builder that customises the launch of an application.
pub struct Launch {
    pub device: Device,
    pub bundle_id: String,
    pub wait_for_debugger: bool,
    pub terminate_running_process: bool,
    pub use_pty: Option<bool>,
    pub stdout: Option<String>,
    pub stderr: Option<String>,
    pub args: Vec<String>,
    pub envs: Vec<(String, String)>,
}

/// The flag that selects a console, where one is chosen.
pub open spec fn console_flag(use_pty: Option<bool>) -> Seq<Seq<char>> {
    match use_pty {
        Some(true) => seq!["--console-pty"@],
        Some(false) => seq!["--console"@],
        None => Seq::empty(),
    }
}

/// `flag` where `on` holds, nothing otherwise.
pub open spec fn switch(on: bool, flag: Seq<char>) -> Seq<Seq<char>> {
    if on {
        seq![flag]
    } else {
        Seq::empty()
    }
}

/// The flag that redirects a stream to a file, where a path is set.
pub open spec fn redirect(prefix: Seq<char>, path: Option<String>) -> Seq<Seq<char>> {
    match path {
        Some(p) => seq![prefix + p@],
        None => Seq::empty(),
    }
}

/// Appends `flag` to the arguments of `inv` where `on` holds.
fn push_switch(inv: &mut Invocation, on: bool, flag: &str)
    ensures
        final(inv).arg_texts() == old(inv).arg_texts() + switch(on, flag@),
        final(inv).program == old(inv).program,
        final(inv).envs == old(inv).envs,
        final(inv).stdin == old(inv).stdin,
        final(inv).stdout == old(inv).stdout,
        final(inv).stderr == old(inv).stderr,
{
    if on {
        inv.arg(flag);
    }
    proof {
        assert(final(inv).arg_texts() =~= old(inv).arg_texts() + switch(on, flag@));
    }
}

/// Appends the flag that selects a console, where one is chosen.
fn push_console(inv: &mut Invocation, use_pty: Option<bool>)
    ensures
        final(inv).arg_texts() == old(inv).arg_texts() + console_flag(use_pty),
        final(inv).program == old(inv).program,
        final(inv).envs == old(inv).envs,
        final(inv).stdin == old(inv).stdin,
        final(inv).stdout == old(inv).stdout,
        final(inv).stderr == old(inv).stderr,
{
    match use_pty {
        Some(true) => inv.arg("--console-pty"),
        Some(false) => inv.arg("--console"),
        None => {},
    }
    proof {
        assert(final(inv).arg_texts() =~= old(inv).arg_texts() + console_flag(use_pty));
    }
}

/// Appends the flag that redirects a stream to the file at `path`, where a
/// path is set.
fn push_redirect(inv: &mut Invocation, prefix: &str, path: &Option<String>)
    ensures
        final(inv).arg_texts() == old(inv).arg_texts() + redirect(prefix@, *path),
        final(inv).program == old(inv).program,
        final(inv).envs == old(inv).envs,
        final(inv).stdin == old(inv).stdin,
        final(inv).stdout == old(inv).stdout,
        final(inv).stderr == old(inv).stderr,
{
    if let Some(p) = path {
        let flag = prefixed(prefix, p.as_str());
        inv.arg(flag.as_str());
    }
    proof {
        assert(final(inv).arg_texts() =~= old(inv).arg_texts() + redirect(prefix@, *path));
    }
}

/// Appends the device and the application that a launch addresses.
fn push_target(inv: &mut Invocation, udid: &str, bundle_id: &str)
    ensures
        final(inv).arg_texts() == old(inv).arg_texts() + seq![udid@, bundle_id@],
        final(inv).program == old(inv).program,
        final(inv).envs == old(inv).envs,
        final(inv).stdin == old(inv).stdin,
        final(inv).stdout == old(inv).stdout,
        final(inv).stderr == old(inv).stderr,
{
    inv.arg(udid);
    inv.arg(bundle_id);
    proof {
        assert(final(inv).arg_texts() =~= old(inv).arg_texts() + seq![udid@, bundle_id@]);
    }
}

/// Appends the arguments `args` to those of `inv`.
fn push_args(inv: &mut Invocation, args: &Vec<String>)
    ensures
        final(inv).arg_texts() == old(inv).arg_texts() + texts(args@),
        final(inv).program == old(inv).program,
        final(inv).envs == old(inv).envs,
        final(inv).stdin == old(inv).stdin,
        final(inv).stdout == old(inv).stdout,
        final(inv).stderr == old(inv).stderr,
{
    let mut i: usize = 0;
    while i < args.len()
        invariant
            i <= args@.len(),
            inv.arg_texts() == old(inv).arg_texts() + texts(args@.take(i as int)),
            inv.program == old(inv).program,
            inv.envs == old(inv).envs,
            inv.stdin == old(inv).stdin,
            inv.stdout == old(inv).stdout,
            inv.stderr == old(inv).stderr,
        decreases args@.len() - i,
    {
        inv.arg(args[i].as_str());
        proof {
            assert(texts(args@.take(i + 1)) =~= texts(args@.take(i as int)).push(args@[i as int]@));
        }
        i += 1;
    }
    proof {
        assert(args@.take(args@.len() as int) =~= args@);
    }
}

/// Adds the variables `envs` to the environment of `inv`.
fn push_envs(inv: &mut Invocation, envs: &Vec<(String, String)>)
    ensures
        final(inv).envs@ == old(inv).envs@ + envs@,
        final(inv).program == old(inv).program,
        final(inv).args == old(inv).args,
        final(inv).stdin == old(inv).stdin,
        final(inv).stdout == old(inv).stdout,
        final(inv).stderr == old(inv).stderr,
{
    let mut i: usize = 0;
    while i < envs.len()
        invariant
            i <= envs@.len(),
            inv.envs@ == old(inv).envs@ + envs@.take(i as int),
            inv.program == old(inv).program,
            inv.args == old(inv).args,
            inv.stdin == old(inv).stdin,
            inv.stdout == old(inv).stdout,
            inv.stderr == old(inv).stderr,
        decreases envs@.len() - i,
    {
        let name = envs[i].0.clone();
        let value = envs[i].1.clone();
        inv.envs.push((name, value));
        proof {
            assert(envs@.take(i + 1) =~= envs@.take(i as int).push(envs@[i as int]));
        }
        i += 1;
    }
    proof {
        assert(envs@.take(envs@.len() as int) =~= envs@);
    }
}

impl Launch {
    /// The arguments of the call that [`Launch::exec`] returns.
    pub open spec fn exec_args(self) -> Seq<Seq<char>> {
        seq!["launch"@] + switch(self.wait_for_debugger, "--wait-for-debugger"@) + switch(
            self.terminate_running_process,
            "--terminate-running-process"@,
        ) + console_flag(self.use_pty) + redirect("--stdout="@, self.stdout) + redirect("--stderr="@, self.stderr) + seq![
            self.device.info.udid@,
            self.bundle_id@,
        ] + texts(self.args@)
    }

    /// The arguments of the call that [`Launch::spawn`] returns.
    pub open spec fn spawn_args(self) -> Seq<Seq<char>> {
        seq!["launch"@] + switch(self.wait_for_debugger, "--wait-for-debugger"@) + switch(
            self.terminate_running_process,
            "--terminate-running-process"@,
        ) + console_flag(
            match self.use_pty {
                Some(true) => Some(true),
                _ => Some(false),
            },
        ) + seq![self.device.info.udid@, self.bundle_id@] + texts(self.args@)
    }

    /// Sets whether the application waits for a debugger to attach.
    pub fn wait_for_debugger(&mut self, wait: bool) -> (r: &mut Launch)
        ensures
            *r == (Launch { wait_for_debugger: wait, ..*old(self) }),
            *final(self) == *final(r),
    {
        self.wait_for_debugger = wait;
        self
    }

    /// Sets whether a running instance of the application is terminated
    /// first (and the application terminated on exit).
    pub fn terminate_running_process(&mut self, terminate: bool) -> (r: &mut Launch)
        ensures
            *r == (Launch { terminate_running_process: terminate, ..*old(self) }),
            *final(self) == *final(r),
    {
        self.terminate_running_process = terminate;
        self
    }

    /// Sets whether the output is written to a console with a pseudo
    /// terminal. This drops any redirection of stdout and stderr.
    pub fn use_pty(&mut self, use_pty: bool) -> (r: &mut Launch)
        ensures
            *r == (Launch { use_pty: Some(use_pty), stdout: None, stderr: None, ..*old(self) }),
            *final(self) == *final(r),
    {
        self.use_pty = Some(use_pty);
        self.stdout = None;
        self.stderr = None;
        self
    }

    /// Writes the application's stdout to the file at `path`. This drops the
    /// choice of console.
    pub fn stdout(&mut self, path: &str) -> (r: &mut Launch)
        ensures
            r.stdout matches Some(p) && p@ == path@,
            *r == (Launch { use_pty: None, stdout: r.stdout, ..*old(self) }),
            *final(self) == *final(r),
    {
        self.use_pty = None;
        self.stdout = Some(path.to_owned());
        self
    }

    /// Writes the application's stderr to the file at `path`. This drops the
    /// choice of console.
    pub fn stderr(&mut self, path: &str) -> (r: &mut Launch)
        ensures
            r.stderr matches Some(p) && p@ == path@,
            *r == (Launch { use_pty: None, stderr: r.stderr, ..*old(self) }),
            *final(self) == *final(r),
    {
        self.use_pty = None;
        self.stderr = Some(path.to_owned());
        self
    }

    /// Adds an argument that is passed to the application.
    pub fn arg(&mut self, arg: &str) -> (r: &mut Launch)
        ensures
            texts(r.args@) == texts(old(self).args@).push(arg@),
            *r == (Launch { args: r.args, ..*old(self) }),
            *final(self) == *final(r),
    {
        self.args.push(arg.to_owned());
        proof {
            assert(texts(self.args@) =~= texts(old(self).args@).push(arg@));
        }
        self
    }

    /// Adds a variable to the environment of the application. Give its name
    /// without the prefix that `simctl` expects: it is added here.
    pub fn env(&mut self, key: &str, value: &str) -> (r: &mut Launch)
        ensures
            r.envs@.len() == old(self).envs@.len() + 1,
            r.envs@.take(old(self).envs@.len() as int) == old(self).envs@,
            r.envs@.last().0@ == child_env_name(key@),
            r.envs@.last().1@ == value@,
            *r == (Launch { envs: r.envs, ..*old(self) }),
            *final(self) == *final(r),
    {
        self.envs.push((child_env(key), value.to_owned()));
        proof {
            assert(self.envs@.take(old(self).envs@.len() as int) =~= old(self).envs@);
        }
        self
    }

    /// Returns the call that launches the application and waits for it.
    /// A stream that is redirected to a file is captured by the caller;
    /// one that is not is shared with the caller.
    pub fn exec(&self) -> (r: Invocation)
        ensures
            r.program@ == self.device.simctl.program(),
            r.arg_texts() == self.exec_args(),
            r.envs@ == self.envs@,
            r.stdin is None,
            r.stdout == (if self.stdout is Some {
                Stream::Piped
            } else {
                Stream::Inherit
            }),
            r.stderr == (if self.stderr is Some {
                Stream::Piped
            } else {
                Stream::Inherit
            }),
            self.stdout is Some ==> r.stdout != Stream::Inherit,
            self.stderr is Some ==> r.stderr != Stream::Inherit,
    {
        let mut inv = self.device.simctl.command("launch");
        push_switch(&mut inv, self.wait_for_debugger, "--wait-for-debugger");
        push_switch(&mut inv, self.terminate_running_process, "--terminate-running-process");
        push_console(&mut inv, self.use_pty);
        push_redirect(&mut inv, "--stdout=", &self.stdout);
        push_redirect(&mut inv, "--stderr=", &self.stderr);
        push_target(&mut inv, self.device.info.udid.as_str(), self.bundle_id.as_str());
        push_args(&mut inv, &self.args);
        push_envs(&mut inv, &self.envs);
        if self.stdout.is_none() {
            inv.stdout = Stream::Inherit;
        }
        if self.stderr.is_none() {
            inv.stderr = Stream::Inherit;
        }
        proof {
            assert(inv.envs@ =~= self.envs@);
        }
        inv
    }

    /// Returns the call that launches the application without waiting for
    /// it, both its output streams captured so that the caller can read them
    /// while it runs. Redirections to files are ignored, and a console
    /// without a pseudo terminal is chosen unless one with it was.
    pub fn spawn(&self) -> (r: Invocation)
        ensures
            r.program@ == self.device.simctl.program(),
            r.arg_texts() == self.spawn_args(),
            r.envs@ == self.envs@,
            r.stdin is None,
            r.stdout == Stream::Piped,
            r.stderr == Stream::Piped,
    {
        let mut inv = self.device.simctl.command("launch");
        push_switch(&mut inv, self.wait_for_debugger, "--wait-for-debugger");
        push_switch(&mut inv, self.terminate_running_process, "--terminate-running-process");
        match self.use_pty {
            Some(true) => inv.arg("--console-pty"),
            _ => inv.arg("--console"),
        }
        push_envs(&mut inv, &self.envs);
        inv.arg(self.device.info.udid.as_str());
        inv.arg(self.bundle_id.as_str());
        push_args(&mut inv, &self.args);
        proof {
            assert(inv.envs@ =~= self.envs@);
            assert(inv.arg_texts() =~= self.spawn_args());
        }
        inv
    }
}

impl Device {
    /// Returns a builder that launches the application with the bundle
    /// identifier `bundle_id` on this device: waiting for no debugger,
    /// terminating nothing, on a console without a pseudo terminal, without
    /// arguments or added environment.
    pub fn launch(&self, bundle_id: &str) -> (r: Launch)
        ensures
            r.device == *self,
            r.bundle_id@ == bundle_id@,
            !r.wait_for_debugger,
            !r.terminate_running_process,
            r.use_pty == Some(false),
            r.stdout is None,
            r.stderr is None,
            r.args@.len() == 0,
            r.envs@.len() == 0,
    {
        Launch {
            device: self.clone(),
            bundle_id: bundle_id.to_owned(),
            wait_for_debugger: false,
            terminate_running_process: false,
            use_pty: Some(false),
            stdout: None,
            stderr: None,
            args: Vec::new(),
            envs: Vec::new(),
        }
    }
}

} // verus!
