//! The server to launch: its configuration, the launch argument vector and
//! the supervision decision taken when the child process is raced against an
//! interrupt signal.

use vstd::prelude::*;
use vstd::string::StringExecFns;

verus! {

/// The server-software distribution to provision.
#[derive(Clone, Copy, Debug, PartialEq, Eq, Structural)]
pub enum Software {
    Paper,
}

/// Where the server runs: an explicitly given directory, or a freshly
/// generated temporary workspace.
#[derive(Clone, Debug)]
pub enum WorkingDirectory {
    Explicit(String),
    Generate,
}

/// The configuration of one server run, built once from user input.
pub struct Server {
    pub wd: WorkingDirectory,
    pub software: Software,
    pub version: String,
    pub plugins: Vec<String>,
    pub args: Vec<String>,
    pub mem: u32,
}

/// The display label of a software distribution.
pub open spec fn software_label(s: Software) -> Seq<char> {
    match s {
        Software::Paper => "Paper"@,
    }
}

/// The display label of a software distribution, as a string slice.
pub fn software_label_str(s: Software) -> (r: &'static str)
    ensures
        r@ == software_label(s),
{
    match s {
        Software::Paper => "Paper",
    }
}

/// The character for one decimal digit.
pub open spec fn digit_char(d: nat) -> char {
    ((d + 48) as u8) as char
}

/// The decimal digit string of a number, most significant digit first, with
/// no leading zeros (a single `0` for zero).
pub open spec fn dec_digits(n: nat) -> Seq<char>
    decreases n,
{
    if n < 10 {
        seq![digit_char(n)]
    } else {
        dec_digits(n / 10) + seq![digit_char(n % 10)]
    }
}

fn digit_str(d: u64) -> (s: &'static str)
    requires
        d < 10,
    ensures
        s@ == seq![digit_char(d as nat)],
{
    proof {
        reveal_strlit("0");
        reveal_strlit("1");
        reveal_strlit("2");
        reveal_strlit("3");
        reveal_strlit("4");
        reveal_strlit("5");
        reveal_strlit("6");
        reveal_strlit("7");
        reveal_strlit("8");
        reveal_strlit("9");
    }
    if d == 0 {
        "0"
    } else if d == 1 {
        "1"
    } else if d == 2 {
        "2"
    } else if d == 3 {
        "3"
    } else if d == 4 {
        "4"
    } else if d == 5 {
        "5"
    } else if d == 6 {
        "6"
    } else if d == 7 {
        "7"
    } else if d == 8 {
        "8"
    } else {
        "9"
    }
}

/// Renders a number in decimal.
pub fn u64_to_string(n: u64) -> (s: String)
    ensures
        s@ == dec_digits(n as nat),
    decreases n,
{
    if n < 10 {
        String::from_str(digit_str(n))
    } else {
        let mut s = u64_to_string(n / 10);
        s.append(digit_str(n % 10));
        s
    }
}

/// The argument vector handed to the Java runtime: a fixed minimum-heap
/// flag, the maximum-heap flag computed from the configured memory, the jar
/// flag with the downloaded archive's name, then all remaining arguments.
pub open spec fn launch_args_spec(mem: nat, args: Seq<Seq<char>>) -> Seq<Seq<char>> {
    seq!["-Xms256M"@, "-Xmx"@ + dec_digits(mem) + "M"@, "-jar"@, "server.jar"@] + args
}

/// The user-visible arguments after the toggles are applied: `--nogui` is
/// appended unless the GUI was requested, and an explicit port flag is
/// appended only when the port differs from the default 25565.
pub open spec fn finalized_args_spec(args: Seq<Seq<char>>, gui: bool, port: u16) -> Seq<
    Seq<char>,
> {
    let with_gui = if !gui {
        args.push("--nogui"@)
    } else {
        args
    };
    if port != 25565 {
        with_gui.push("--port="@ + dec_digits(port as nat))
    } else {
        with_gui
    }
}

/// Applies the GUI and port toggles to the passthrough arguments.
pub fn finalize_args(args: Vec<String>, gui: bool, port: u16) -> (r: Vec<String>)
    ensures
        r.deep_view() == finalized_args_spec(args.deep_view(), gui, port),
{
    let ghost orig = args.deep_view();
    let mut r = args;
    if !gui {
        r.push(String::from_str("--nogui"));
    }
    if port != 25565 {
        let mut p = String::from_str("--port=");
        let digits = u64_to_string(port as u64);
        p.append(digits.as_str());
        r.push(p);
    }
    proof {
        assert(r.deep_view() =~= finalized_args_spec(orig, gui, port));
    }
    r
}

impl Server {
    /// Builds the full argument vector for the Java child process.
    pub fn launch_args(&self) -> (r: Vec<String>)
        ensures
            r.deep_view() == launch_args_spec(self.mem as nat, self.args.deep_view()),
    {
        let mut r: Vec<String> = Vec::new();
        r.push(String::from_str("-Xms256M"));
        let mut xmx = String::from_str("-Xmx");
        let digits = u64_to_string(self.mem as u64);
        xmx.append(digits.as_str());
        xmx.append("M");
        r.push(xmx);
        r.push(String::from_str("-jar"));
        r.push(String::from_str("server.jar"));
        let n = self.args.len();
        let mut i: usize = 0;
        while i < n
            invariant
                n == self.args.len(),
                i <= n,
                r@.len() == 4 + i,
                r@[0]@ == "-Xms256M"@,
                r@[1]@ == "-Xmx"@ + dec_digits(self.mem as nat) + "M"@,
                r@[2]@ == "-jar"@,
                r@[3]@ == "server.jar"@,
                forall|j: int| 0 <= j < i ==> r@[4 + j]@ == self.args@[j]@,
            decreases n - i,
        {
            r.push(self.args[i].clone());
            i += 1;
        }
        proof {
            assert(r.deep_view() =~= launch_args_spec(self.mem as nat, self.args.deep_view()));
        }
        r
    }
}

/// What the supervisor observed first while waiting on the child: the child
/// exiting on its own, or an interrupt signal arriving.
#[derive(Clone, Copy, Debug, PartialEq, Eq, Structural)]
pub enum ServerEvent {
    Exited,
    Interrupted,
}

/// What the supervisor does in response: kill the child, or leave it be
/// (it has already exited).
#[derive(Clone, Copy, Debug, PartialEq, Eq, Structural)]
pub enum SupervisorAction {
    KillChild,
    LeaveChild,
}

/// The supervision decision: the child is killed exactly when an interrupt
/// arrived first; a natural exit never invokes kill. Either way the run
/// completes normally.
pub fn handle_server_event(event: ServerEvent) -> (a: SupervisorAction)
    ensures
        a == SupervisorAction::KillChild <==> event == ServerEvent::Interrupted,
        a == SupervisorAction::LeaveChild <==> event == ServerEvent::Exited,
{
    match event {
        ServerEvent::Interrupted => SupervisorAction::KillChild,
        ServerEvent::Exited => SupervisorAction::LeaveChild,
    }
}

} // verus!
