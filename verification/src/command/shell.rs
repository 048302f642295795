//! Shell commands
//!
//! - `shell [-e ESCAPE] [-n] [-Tt] [-x] [COMMAND...]`:
//!     Run remote shell command (interactive shell if no command given).
//! - `emu COMMAND`: Run emulator console `COMMAND`.

use vstd::prelude::*;
use crate::command::{
    borrowed, flag, optional, option_texts, owned, pair, start, text_of, with_arg, with_flag,
    with_list, with_optional, with_pair, AdbCommand, AdbCommandBuilder,
};
use crate::global_option::OptionModel;
use crate::scan::texts;
use crate::text::{string_of};
use crate::Adb;

verus! {

/// Whether to allocate a pty.
#[derive(Debug, Clone, Copy, PartialEq, Eq, Hash, Structural)]
pub enum AdbPtyAllocation {
    /// `-T`: Disable pty allocation.
    Disable,
    /// `-t`: Allocate a pty if on a tty.
    Enable,
    /// `-tt`: Force pty allocation.
    Force,
}

/// The flag for a choice of pty allocation.
pub open spec fn pty_allocation_name(v: AdbPtyAllocation) -> Seq<char> {
    match v {
        AdbPtyAllocation::Disable => "-T"@,
        AdbPtyAllocation::Enable => "-t"@,
        AdbPtyAllocation::Force => "-tt"@,
    }
}

impl AdbPtyAllocation {
    /// The flag for the choice.
    pub fn as_ref(&self) -> (r: &'static str)
        ensures
            r@ == pty_allocation_name(*self),
    {
        match self {
            AdbPtyAllocation::Disable => "-T",
            AdbPtyAllocation::Enable => "-t",
            AdbPtyAllocation::Force => "-tt",
        }
    }
}

/// The text of an escape character, if one is set: the character alone.
pub open spec fn escape_text(e: Option<char>) -> Option<Seq<char>> {
    match e {
        Some(c) => Some(seq![c]),
        None => None,
    }
}

/// The string of an escape character, if one is set.
pub fn escape_string(e: Option<char>) -> (r: Option<String>)
    ensures
        text_of(r) == escape_text(e),
{
    match e {
        Some(c) => {
            let mut one: Vec<char> = Vec::new();
            one.push(c);
            assert(one@ =~= seq![c]);
            Some(string_of(one.as_slice()))
        },
        None => None,
    }
}

/// `shell [-e ESCAPE] [-n] [-Tt] [-x] [COMMAND...]`:
/// Run remote shell command (interactive shell if no command given).
/// - `-e`: Choose escape character, or “none”; default ‘~’.
/// - `-n`: Don't read from stdin.
/// - `-T`: Disable pty allocation.
/// - `-t`: Allocate a pty if on a tty (-tt: force pty allocation).
/// - `-x`: Disable remote exit codes and stdout/stderr separation.
#[derive(Debug, Clone, PartialEq, Eq)]
pub struct AdbShell<'a> {
    acb: AdbCommandBuilder<'a>,
    /// `-e`: Choose escape character, or “none”; default ‘~’.
    e: Option<char>,
    /// `-n`: Don't read from stdin.
    n: bool,
    /// `-T`: Disable pty allocation.
    /// `-t`: Allocate a pty if on a tty.
    /// `-tt`: force pty allocation.
    t: Option<AdbPtyAllocation>,
    /// `-x`: Disable remote exit codes and stdout/stderr separation.
    x: bool,
    /// `COMMAND...`: The command to run.
    command: Vec<String>,
}

/// A command `shell` as plain values: its global options and its own settings.
pub struct ShellModel {
    pub options: Seq<OptionModel>,
    pub e: Option<char>,
    pub n: bool,
    pub t: Option<AdbPtyAllocation>,
    pub x: bool,
    pub command: Seq<Seq<char>>,
}

/// The arguments of a command `shell` after the global options.
pub open spec fn shell_args(m: ShellModel) -> Seq<Seq<char>> {
    seq!["shell"@] + pair("-e"@, escape_text(m.e)) + flag(m.n, "-n"@) + optional(
        match m.t {
            Some(v) => Some(pty_allocation_name(v)),
            None => None,
        },
    ) + flag(m.x, "-x"@) + m.command
}

impl<'a> View for AdbShell<'a> {
    type V = ShellModel;

    closed spec fn view(&self) -> ShellModel {
        ShellModel {
            options: self.acb.options(),
            e: self.e,
            n: self.n,
            t: self.t,
            x: self.x,
            command: texts(self.command@),
        }
    }
}

impl<'a> AdbShell<'a> {
    /// The environment used in this command.
    pub closed spec fn environment(&self) -> Adb {
        self.acb.environment()
    }

    /// Creates a new `AdbShell` command,
    /// `-e` (escape character), `-n` (don't read from stdin), `-Tt` (pty allocation),
    /// `-x` (disable remote exit codes and stdout/stderr separation) are false by default.
    pub fn new(acb: AdbCommandBuilder<'a>) -> (r: Self)
        ensures
            r@ == (ShellModel {
                options: acb.options(),
                e: None,
                n: false,
                t: None,
                x: false,
                command: Seq::empty(),
            }),
            r.environment() == acb.environment(),
    {
        let r = Self { acb, e: None, n: false, t: None, x: false, command: Vec::new() };
        assert(texts(r.command@) =~= Seq::<Seq<char>>::empty());
        r
    }

    /// `-e`: Choose escape character, or `none`; default `~`.
    pub fn e(self, e: char) -> (r: Self)
        ensures
            r@ == (ShellModel { e: Some(e), ..self@ }),
            r.environment() == self.environment(),
    {
        let mut r = self;
        r.e = Some(e);
        r
    }

    /// `-n`: Don't read from stdin.
    pub fn n(self) -> (r: Self)
        ensures
            r@ == (ShellModel { n: true, ..self@ }),
            r.environment() == self.environment(),
    {
        let mut r = self;
        r.n = true;
        r
    }

    /// `-T`: Disable pty allocation.
    #[allow(non_snake_case)]
    pub fn T(self) -> (r: Self)
        ensures
            r@ == (ShellModel { t: Some(AdbPtyAllocation::Disable), ..self@ }),
            r.environment() == self.environment(),
    {
        let mut r = self;
        r.t = Some(AdbPtyAllocation::Disable);
        r
    }

    /// `-t`: Allocate a pty if on a tty.
    pub fn t(self) -> (r: Self)
        ensures
            r@ == (ShellModel { t: Some(AdbPtyAllocation::Enable), ..self@ }),
            r.environment() == self.environment(),
    {
        let mut r = self;
        r.t = Some(AdbPtyAllocation::Enable);
        r
    }

    /// `-tt`: Force pty allocation.
    pub fn tt(self) -> (r: Self)
        ensures
            r@ == (ShellModel { t: Some(AdbPtyAllocation::Force), ..self@ }),
            r.environment() == self.environment(),
    {
        let mut r = self;
        r.t = Some(AdbPtyAllocation::Force);
        r
    }

    /// `-x`: Disable remote exit codes and stdout/stderr separation.
    pub fn x(self) -> (r: Self)
        ensures
            r@ == (ShellModel { x: true, ..self@ }),
            r.environment() == self.environment(),
    {
        let mut r = self;
        r.x = true;
        r
    }

    /// Adds one argument to the command that the shell runs.
    pub fn arg(self, arg: &str) -> (r: Self)
        ensures
            r@ == (ShellModel { command: self@.command.push(arg@), ..self@ }),
            r.environment() == self.environment(),
    {
        let mut r = self;
        let ghost before = texts(r.command@);
        r.command.push(owned(arg));
        assert(texts(r.command@) =~= before.push(arg@));
        r
    }

    /// Adds arguments to the command that the shell runs.
    pub fn args(self, args: Vec<String>) -> (r: Self)
        ensures
            r@ == (ShellModel { command: self@.command + texts(args@), ..self@ }),
            r.environment() == self.environment(),
    {
        let mut r = self;
        let ghost before = texts(r.command@);
        let mut more = args;
        r.command.append(&mut more);
        assert(texts(r.command@) =~= before + texts(args@));
        r
    }
}

impl<'a> AdbCommand<'a> for AdbShell<'a> {
    open spec fn arguments(&self) -> Seq<Seq<char>> {
        option_texts(self@.options) + shell_args(self@)
    }

    open spec fn global_options(&self) -> Seq<OptionModel> {
        self@.options
    }

    open spec fn adb(&self) -> Adb {
        self.environment()
    }

    fn command_line(&self) -> (r: Vec<String>) {
        let v = start("shell");
        let escape = escape_string(self.e);
        let v = with_pair(v, "-e", borrowed(&escape));
        let v = with_flag(v, self.n, "-n");
        let v = with_optional(
            v,
            match self.t {
                Some(t) => Some(t.as_ref()),
                None => None,
            },
        );
        let v = with_flag(v, self.x, "-x");
        let v = with_list(v, self.command.as_slice());
        self.acb.command_line(v)
    }

    fn builder(&self) -> (r: &AdbCommandBuilder<'a>) {
        &self.acb
    }
}

impl Adb {
    /// `shell [-e ESCAPE] [-n] [-Tt] [-x] [COMMAND...]`:
    /// Run remote shell command (interactive shell if no command given).
    /// - `-e`: Choose escape character, or “none”; default ‘~’.
    /// - `-n`: Don't read from stdin.
    /// - `-T`: Disable pty allocation.
    /// - `-t`: Allocate a pty if on a tty (-tt: force pty allocation).
    /// - `-x`: Disable remote exit codes and stdout/stderr separation.
    pub fn shell(&self) -> (r: AdbShell<'_>)
        ensures
            r@ == (ShellModel {
                options: Seq::<OptionModel>::empty(),
                e: None,
                n: false,
                t: None,
                x: false,
                command: Seq::empty(),
            }),
            r.environment() == *self,
    {
        AdbShell::new(self.command())
    }
}

impl<'a> AdbCommandBuilder<'a> {
    /// `shell [-e ESCAPE] [-n] [-Tt] [-x] [COMMAND...]`:
    /// Run remote shell command (interactive shell if no command given).
    /// - `-e`: Choose escape character, or “none”; default ‘~’.
    /// - `-n`: Don't read from stdin.
    /// - `-T`: Disable pty allocation.
    /// - `-t`: Allocate a pty if on a tty (-tt: force pty allocation).
    /// - `-x`: Disable remote exit codes and stdout/stderr separation.
    pub fn shell(self) -> (r: AdbShell<'a>)
        ensures
            r@ == (ShellModel {
                options: self.options(),
                e: None,
                n: false,
                t: None,
                x: false,
                command: Seq::empty(),
            }),
            r.environment() == self.environment(),
    {
        AdbShell::new(self)
    }
}

/// `emu COMMAND`: Run emulator console `COMMAND`.
#[derive(Debug, Clone, PartialEq, Eq)]
pub struct AdbEmu<'a> {
    acb: AdbCommandBuilder<'a>,
    /// `COMMAND`: The command to run.
    command: String,
}

/// A command `emu` as plain values: its global options and its own settings.
pub struct EmuModel {
    pub options: Seq<OptionModel>,
    pub command: Seq<char>,
}

/// The arguments of a command `emu` after the global options.
pub open spec fn emu_args(m: EmuModel) -> Seq<Seq<char>> {
    seq!["emu"@] + seq![m.command]
}

impl<'a> View for AdbEmu<'a> {
    type V = EmuModel;

    closed spec fn view(&self) -> EmuModel {
        EmuModel {
            options: self.acb.options(),
            command: self.command@,
        }
    }
}

impl<'a> AdbEmu<'a> {
    /// The environment used in this command.
    pub closed spec fn environment(&self) -> Adb {
        self.acb.environment()
    }

    /// Creates a new `AdbEmu` command.
    pub fn new(acb: AdbCommandBuilder<'a>, command: &str) -> (r: Self)
        ensures
            r@ == (EmuModel {
                options: acb.options(),
                command: command@,
            }),
            r.environment() == acb.environment(),
    {
        Self { acb, command: owned(command) }
    }

}

impl<'a> AdbCommand<'a> for AdbEmu<'a> {
    open spec fn arguments(&self) -> Seq<Seq<char>> {
        option_texts(self@.options) + emu_args(self@)
    }

    open spec fn global_options(&self) -> Seq<OptionModel> {
        self@.options
    }

    open spec fn adb(&self) -> Adb {
        self.environment()
    }

    fn command_line(&self) -> (r: Vec<String>) {
        let v = start("emu");
        let v = with_arg(v, self.command.as_str());
        self.acb.command_line(v)
    }

    fn builder(&self) -> (r: &AdbCommandBuilder<'a>) {
        &self.acb
    }
}

impl Adb {
    /// `emu COMMAND`: Run emulator console `COMMAND`.
    pub fn emu(&self, command: &str) -> (r: AdbEmu<'_>)
        ensures
            r@ == (EmuModel {
                options: Seq::<OptionModel>::empty(),
                command: command@,
            }),
            r.environment() == *self,
    {
        AdbEmu::new(self.command(), command)
    }
}

impl<'a> AdbCommandBuilder<'a> {
    /// `emu COMMAND`: Run emulator console `COMMAND`.
    pub fn emu(self, command: &str) -> (r: AdbEmu<'a>)
        ensures
            r@ == (EmuModel {
                options: self.options(),
                command: command@,
            }),
            r.environment() == self.environment(),
    {
        AdbEmu::new(self, command)
    }
}

} // verus!
