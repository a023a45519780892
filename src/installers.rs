use vstd::prelude::*;

verus! {

broadcast use vstd::std_specs::vec::vec_clone_deep_view_proof;

/// Operating-system family the installers run on; chosen once per run.
#[derive(Debug, Clone, Copy, PartialEq, Eq, Structural)]
pub enum HostProfile {
    Windows,
    MacOs,
    OtherUnix,
}

/// What an installer puts on the machine.
#[derive(Debug, Clone, Copy, PartialEq, Eq, Structural)]
pub enum Toolchain {
    /// The Rust toolchain.
    Rust,
    /// The .NET SDK, needed by the cross-platform desktop framework.
    DotNet,
    /// The Windows-only desktop framework (runtime and SDK components).
    Wpf,
    /// The project templates of the cross-platform desktop framework.
    AvaloniaTemplates,
    /// The container engine.
    Docker,
}

/// An external program and its arguments.
/// `interactive` commands get the terminal's input too, so installers can prompt;
/// the others run in the current directory with the terminal's output.
pub struct CommandSpec {
    pub program: String,
    pub args: Vec<String>,
    pub interactive: bool,
}

impl CommandSpec {
    pub open spec fn is(self, program: Seq<char>, args: Seq<Seq<char>>, interactive: bool) -> bool {
        &&& self.program@ == program
        &&& self.args.deep_view() == args
        &&& self.interactive == interactive
    }

    pub open spec fn same_as(self, other: CommandSpec) -> bool {
        self.is(other.program@, other.args.deep_view(), other.interactive)
    }

    /// A copy of this command.
    pub fn duplicate(&self) -> (r: CommandSpec)
        ensures
            r.same_as(*self),
    {
        CommandSpec {
            program: self.program.clone(),
            args: self.args.clone(),
            interactive: self.interactive,
        }
    }
}

/// A package manager that is probed for, and the command that installs through it.
pub struct Candidate {
    pub manager: String,
    pub command: CommandSpec,
}

/// Why an installation did not happen.
#[derive(Debug, Clone, Copy, PartialEq, Eq, Structural)]
pub enum Failure {
    /// A command could not be started or exited with a nonzero status.
    CommandFailed,
    /// A tool that the installation goes through is absent.
    PrerequisiteMissing,
    /// The toolchain cannot be installed on this operating system.
    UnsupportedPlatform,
}

/// Result of one installation request.
#[derive(Debug, Clone, Copy, PartialEq, Eq, Structural)]
pub enum Outcome {
    Installed,
    AlreadyInstalled,
    Failed(Failure),
}

impl Outcome {
    pub open spec fn spec_is_success(self) -> bool {
        !(self is Failed)
    }

    /// Whether the toolchain is there after the request.
    pub fn is_success(&self) -> (r: bool)
        ensures
            r == self.spec_is_success(),
    {
        !matches!(self, Outcome::Failed(_))
    }
}

/// The decision tree of one installation request.
pub enum Plan {
    /// Run one command; its exit status is the outcome.
    Run(CommandSpec),
    /// Run both commands, the second whatever the first did; both must succeed.
    RunBoth(CommandSpec, CommandSpec),
    /// Probe the candidates in order and install through the first one present;
    /// fail with the given reason when none is.
    FirstPresent(Vec<Candidate>, Failure),
    /// Run the listing command; if its output holds the marker, nothing is to be
    /// done, else run the install command.
    UnlessListed(CommandSpec, String, CommandSpec),
    /// Fail at once, running nothing.
    Refuse(Failure),
}

/// Arguments of a command, as written (`words1` to `words5` by their count).
pub open spec fn words1(a: &str) -> Seq<Seq<char>> {
    seq![a@]
}

pub open spec fn words2(a: &str, b: &str) -> Seq<Seq<char>> {
    seq![a@, b@]
}

pub open spec fn words3(a: &str, b: &str, c: &str) -> Seq<Seq<char>> {
    seq![a@, b@, c@]
}

pub open spec fn words4(a: &str, b: &str, c: &str, d: &str) -> Seq<Seq<char>> {
    seq![a@, b@, c@, d@]
}

pub open spec fn words5(a: &str, b: &str, c: &str, d: &str, e: &str) -> Seq<Seq<char>> {
    seq![a@, b@, c@, d@, e@]
}

/// The package managers probed on Unix systems other than macOS, in priority order.
pub open spec fn unix_managers() -> Seq<Seq<char>> {
    words4("apt", "dnf", "pacman", "apk")
}

/// The command that installs the .NET SDK through the `i`-th Unix package manager.
pub open spec fn unix_dotnet_command(c: CommandSpec, i: int) -> bool {
    if i == 0 {
        c.is("sudo"@, words4("apt-get", "install", "-y", "dotnet-sdk-8.0"), true)
    } else if i == 1 {
        c.is("sudo"@, words4("dnf", "install", "-y", "dotnet-sdk-8.0"), true)
    } else if i == 2 {
        c.is("sudo"@, words4("pacman", "-S", "--noconfirm", "dotnet-sdk"), true)
    } else {
        c.is("sudo"@, words3("apk", "add", "dotnet8-sdk"), true)
    }
}

/// A plan that installs through Homebrew when it is present.
pub open spec fn through_brew(p: Plan, cask: &str) -> bool {
    &&& p is FirstPresent
    &&& p->FirstPresent_0@.len() == 1
    &&& p->FirstPresent_0@[0].manager@ == "brew"@
    &&& p->FirstPresent_0@[0].command.is("brew"@, words3("install", "--cask", cask), true)
    &&& p->FirstPresent_1 == Failure::PrerequisiteMissing
}

/// The plan that installs `t` on `h`.
pub open spec fn is_plan_for(p: Plan, t: Toolchain, h: HostProfile) -> bool {
    match t {
        Toolchain::Rust => match h {
            HostProfile::Windows => p is Run && p->Run_0.is(
                "explorer"@,
                words1("https://rustup.rs"),
                false,
            ),
            _ => p is Run && p->Run_0.is(
                "sh"@,
                words2("-c", "curl --proto '=https' --tlsv1.2 -sSf https://sh.rustup.rs | sh"),
                true,
            ),
        },
        Toolchain::DotNet => match h {
            HostProfile::Windows => p is Run && p->Run_0.is(
                "winget"@,
                words2("install", "Microsoft.DotNet.SDK.8"),
                true,
            ),
            HostProfile::MacOs => through_brew(p, "dotnet-sdk"),
            HostProfile::OtherUnix => {
                &&& p is FirstPresent
                &&& p->FirstPresent_0@.len() == 4
                &&& forall|i: int|
                    0 <= i < 4 ==> {
                        &&& (#[trigger] p->FirstPresent_0@[i]).manager@ == unix_managers()[i]
                        &&& unix_dotnet_command(p->FirstPresent_0@[i].command, i)
                    }
                &&& p->FirstPresent_1 == Failure::PrerequisiteMissing
            },
        },
        Toolchain::Wpf => match h {
            HostProfile::Windows => {
                &&& p is RunBoth
                &&& p->RunBoth_0.is(
                    "winget"@,
                    words4(
                        "install",
                        "Microsoft.DotNet.DesktopRuntime.8",
                        "--accept-source-agreements",
                        "--accept-package-agreements",
                    ),
                    true,
                )
                &&& p->RunBoth_1.is(
                    "winget"@,
                    words5(
                        "install",
                        "Microsoft.DotNet.SDK.8",
                        "--force",
                        "--accept-source-agreements",
                        "--accept-package-agreements",
                    ),
                    true,
                )
            },
            _ => p == Plan::Refuse(Failure::UnsupportedPlatform),
        },
        Toolchain::AvaloniaTemplates => {
            &&& p is UnlessListed
            &&& p->UnlessListed_0.is("dotnet"@, words2("new", "list"), false)
            &&& p->UnlessListed_1@ == "avalonia"@
            &&& p->UnlessListed_2.is("dotnet"@, words3("new", "install", "Avalonia.Templates"), false)
        },
        Toolchain::Docker => match h {
            HostProfile::Windows => p is Run && p->Run_0.is(
                "winget"@,
                words4(
                    "install",
                    "Docker.DockerDesktop",
                    "--accept-source-agreements",
                    "--accept-package-agreements",
                ),
                true,
            ),
            HostProfile::MacOs => through_brew(p, "docker"),
            HostProfile::OtherUnix => p is Run && p->Run_0.is(
                "sh"@,
                words2("-c", "curl -fsSL https://get.docker.com | sh"),
                true,
            ),
        },
    }
}

/// A command of a program and the given arguments.
fn command(program: &str, args: &[&str], interactive: bool) -> (r: CommandSpec)
    ensures
        r.program@ == program@,
        r.args.deep_view() == args@.map_values(|a: &str| a@),
        r.interactive == interactive,
{
    let mut v: Vec<String> = Vec::new();
    let mut i: usize = 0;
    while i < args.len()
        invariant
            i <= args@.len(),
            v@.len() == i,
            forall|j: int| 0 <= j < i ==> (#[trigger] v@[j])@ == args@[j]@,
        decreases args@.len() - i,
    {
        v.push(args[i].to_owned());
        i = i + 1;
    }
    assert(v.deep_view() =~= args@.map_values(|a: &str| a@));
    CommandSpec { program: program.to_owned(), args: v, interactive }
}

fn brew_cask(cask: &str) -> (r: Plan)
    ensures
        through_brew(r, cask),
{
    let c = Candidate {
        manager: "brew".to_owned(),
        command: command("brew", &["install", "--cask", cask], true),
    };
    assert(c.command.args.deep_view() =~= words3("install", "--cask", cask));
    Plan::FirstPresent(vec![c], Failure::PrerequisiteMissing)
}

fn unix_candidate(manager: &str, program: &str, args: &[&str]) -> (r: Candidate)
    ensures
        r.manager@ == manager@,
        r.command.program@ == program@,
        r.command.args.deep_view() == args@.map_values(|a: &str| a@),
        r.command.interactive,
{
    Candidate { manager: manager.to_owned(), command: command(program, args, true) }
}

/// The plan that installs `t` on `h`: which commands run, in which order, and
/// which package managers are probed first.
pub fn plan(t: Toolchain, h: HostProfile) -> (r: Plan)
    ensures
        is_plan_for(r, t, h),
{
    match t {
        Toolchain::Rust => match h {
            HostProfile::Windows => {
                let c = command("explorer", &["https://rustup.rs"], false);
                assert(c.args.deep_view() =~= words1("https://rustup.rs"));
                Plan::Run(c)
            },
            _ => {
                let script = "curl --proto '=https' --tlsv1.2 -sSf https://sh.rustup.rs | sh";
                let c = command("sh", &["-c", script], true);
                assert(c.args.deep_view() =~= words2("-c", script));
                Plan::Run(c)
            },
        },
        Toolchain::DotNet => match h {
            HostProfile::Windows => {
                let c = command("winget", &["install", "Microsoft.DotNet.SDK.8"], true);
                assert(c.args.deep_view() =~= words2("install", "Microsoft.DotNet.SDK.8"));
                Plan::Run(c)
            },
            HostProfile::MacOs => brew_cask("dotnet-sdk"),
            HostProfile::OtherUnix => {
                let apt = unix_candidate("apt", "sudo", &["apt-get", "install", "-y", "dotnet-sdk-8.0"]);
                let dnf = unix_candidate("dnf", "sudo", &["dnf", "install", "-y", "dotnet-sdk-8.0"]);
                let pacman = unix_candidate(
                    "pacman",
                    "sudo",
                    &["pacman", "-S", "--noconfirm", "dotnet-sdk"],
                );
                let apk = unix_candidate("apk", "sudo", &["apk", "add", "dotnet8-sdk"]);
                assert(apt.command.args.deep_view() =~= words4("apt-get", "install", "-y", "dotnet-sdk-8.0"));
                assert(dnf.command.args.deep_view() =~= words4("dnf", "install", "-y", "dotnet-sdk-8.0"));
                assert(pacman.command.args.deep_view() =~= words4("pacman", "-S", "--noconfirm", "dotnet-sdk"));
                assert(apk.command.args.deep_view() =~= words3("apk", "add", "dotnet8-sdk"));
                let cands = vec![apt, dnf, pacman, apk];
                let r = Plan::FirstPresent(cands, Failure::PrerequisiteMissing);
                assert forall|i: int| 0 <= i < 4 implies {
                    &&& (#[trigger] r->FirstPresent_0@[i]).manager@ == unix_managers()[i]
                    &&& unix_dotnet_command(r->FirstPresent_0@[i].command, i)
                } by {}
                r
            },
        },
        Toolchain::Wpf => match h {
            HostProfile::Windows => {
                let runtime = command(
                    "winget",
                    &[
                        "install",
                        "Microsoft.DotNet.DesktopRuntime.8",
                        "--accept-source-agreements",
                        "--accept-package-agreements",
                    ],
                    true,
                );
                let sdk = command(
                    "winget",
                    &[
                        "install",
                        "Microsoft.DotNet.SDK.8",
                        "--force",
                        "--accept-source-agreements",
                        "--accept-package-agreements",
                    ],
                    true,
                );
                assert(runtime.args.deep_view() =~= words4(
                    "install",
                    "Microsoft.DotNet.DesktopRuntime.8",
                    "--accept-source-agreements",
                    "--accept-package-agreements",
                ));
                assert(sdk.args.deep_view() =~= words5(
                    "install",
                    "Microsoft.DotNet.SDK.8",
                    "--force",
                    "--accept-source-agreements",
                    "--accept-package-agreements",
                ));
                Plan::RunBoth(runtime, sdk)
            },
            _ => Plan::Refuse(Failure::UnsupportedPlatform),
        },
        Toolchain::AvaloniaTemplates => {
            let list = command("dotnet", &["new", "list"], false);
            let install = command("dotnet", &["new", "install", "Avalonia.Templates"], false);
            assert(list.args.deep_view() =~= words2("new", "list"));
            assert(install.args.deep_view() =~= words3("new", "install", "Avalonia.Templates"));
            Plan::UnlessListed(list, "avalonia".to_owned(), install)
        },
        Toolchain::Docker => match h {
            HostProfile::Windows => {
                let c = command(
                    "winget",
                    &[
                        "install",
                        "Docker.DockerDesktop",
                        "--accept-source-agreements",
                        "--accept-package-agreements",
                    ],
                    true,
                );
                assert(c.args.deep_view() =~= words4(
                    "install",
                    "Docker.DockerDesktop",
                    "--accept-source-agreements",
                    "--accept-package-agreements",
                ));
                Plan::Run(c)
            },
            HostProfile::MacOs => brew_cask("docker"),
            HostProfile::OtherUnix => {
                let script = "curl -fsSL https://get.docker.com | sh";
                let c = command("sh", &["-c", script], true);
                assert(c.args.deep_view() =~= words2("-c", script));
                Plan::Run(c)
            },
        },
    }
}

/// Whether `marker` occurs in `text`.
pub open spec fn holds(text: Seq<char>, marker: Seq<char>) -> bool {
    exists|i: int|
        0 <= i && i + marker.len() <= text.len() && #[trigger] text.subrange(i, i + marker.len())
            == marker
}

fn chars_of(s: &str) -> (r: Vec<char>)
    ensures
        r@ == s@,
{
    let n = s.unicode_len();
    let mut v: Vec<char> = Vec::new();
    let mut i: usize = 0;
    while i < n
        invariant
            n == s@.len(),
            i <= n,
            v@ == s@.subrange(0, i as int),
        decreases n - i,
    {
        v.push(s.get_char(i));
        i = i + 1;
        assert(v@ =~= s@.subrange(0, i as int));
    }
    assert(v@ =~= s@);
    v
}

/// Whether `marker` occurs in `text`.
pub fn contains(text: &str, marker: &str) -> (r: bool)
    ensures
        r == holds(text@, marker@),
{
    let t = chars_of(text);
    let m = chars_of(marker);
    if m.len() == 0 {
        assert(text@.subrange(0, 0 + marker@.len() as int) =~= marker@);
        return true;
    }
    if m.len() > t.len() {
        return false;
    }
    let last = t.len() - m.len();
    let mut i: usize = 0;
    while i <= last
        invariant
            t@ == text@,
            m@ == marker@,
            m@.len() > 0,
            i <= last + 1,
            last < t.len(),
            last + m@.len() == t@.len(),
            forall|k: int| 0 <= k < i ==> #[trigger] t@.subrange(k, k + m@.len()) != m@,
        decreases last + 1 - i,
    {
        let mut j: usize = 0;
        while j < m.len() && t[i + j] == m[j]
            invariant
                i <= last,
                last < t.len(),
                last + m@.len() == t@.len(),
                i + m@.len() <= t@.len(),
                j <= m@.len(),
                forall|k: int| 0 <= k < j ==> t@[i + k] == m@[k],
            decreases m@.len() - j,
        {
            j = j + 1;
        }
        if j == m.len() {
            assert(t@.subrange(i as int, i + m@.len()) =~= m@);
            return true;
        }
        assert(t@.subrange(i as int, i + m@.len())[j as int] != m@[j as int]);
        i = i + 1;
    }
    false
}

/// What the driver of a session reports back after carrying out a step.
pub enum Event {
    /// Whether the probed program answered.
    Present(bool),
    /// Whether the launched command ran and exited with status zero.
    Exited(bool),
    /// The captured output of the listing command, or `None` when it failed.
    Listed(Option<String>),
}

/// What the driver of a session is asked to do next.
pub enum Step {
    /// Check whether this program is installed.
    Probe(String),
    /// Run this command.
    Launch(CommandSpec),
    /// Run this command and capture its output.
    Capture(CommandSpec),
    /// The request is over.
    Finish(Outcome),
}

/// Where a session stands in its plan.
#[derive(Debug, Clone, Copy, PartialEq, Eq, Structural)]
pub enum Stage {
    /// Probing for the candidate at this index.
    Probing(usize),
    /// Running the command at this index (a candidate's, or the plan's only one).
    Running(usize),
    /// Running the second of two commands; whether the first succeeded.
    Second(bool),
    /// Running the listing command.
    Listing,
    /// Finished, with this outcome.
    Done(Outcome),
}

/// Whether the event reports success.
pub open spec fn succeeded(ev: Event) -> bool {
    match ev {
        Event::Present(b) => b,
        Event::Exited(b) => b,
        Event::Listed(o) => o is Some,
    }
}

/// Whether the event is a listing that holds `marker`.
pub open spec fn lists(ev: Event, marker: Seq<char>) -> bool {
    match ev {
        Event::Listed(Some(text)) => holds(text@, marker),
        _ => false,
    }
}

pub open spec fn candidates(p: Plan) -> Seq<Candidate> {
    match p {
        Plan::FirstPresent(cs, _) => cs@,
        _ => Seq::empty(),
    }
}

/// Outcome of a finished command.
pub open spec fn finished(ok: bool) -> Stage {
    if ok {
        Stage::Done(Outcome::Installed)
    } else {
        Stage::Done(Outcome::Failed(Failure::CommandFailed))
    }
}

/// The stage a session of plan `p` starts in.
pub open spec fn initial_stage(p: Plan) -> Stage {
    match p {
        Plan::Run(_) => Stage::Running(0),
        Plan::RunBoth(_, _) => Stage::Running(0),
        Plan::FirstPresent(cs, f) => if cs@.len() > 0 {
            Stage::Probing(0)
        } else {
            Stage::Done(Outcome::Failed(f))
        },
        Plan::UnlessListed(_, _, _) => Stage::Listing,
        Plan::Refuse(f) => Stage::Done(Outcome::Failed(f)),
    }
}

/// The stage that follows `s` in plan `p` once `ev` is reported.
pub open spec fn next_stage(p: Plan, s: Stage, ev: Event) -> Stage {
    match s {
        Stage::Probing(i) => if succeeded(ev) {
            Stage::Running(i)
        } else if i + 1 < candidates(p).len() {
            Stage::Probing((i + 1) as usize)
        } else {
            Stage::Done(Outcome::Failed(p->FirstPresent_1))
        },
        Stage::Running(_) => if p is RunBoth {
            Stage::Second(succeeded(ev))
        } else {
            finished(succeeded(ev))
        },
        Stage::Second(first) => finished(first && succeeded(ev)),
        Stage::Listing => if lists(ev, p->UnlessListed_1@) {
            Stage::Done(Outcome::AlreadyInstalled)
        } else {
            Stage::Running(0)
        },
        Stage::Done(o) => Stage::Done(o),
    }
}

/// The command run at `Running(i)` in plan `p`.
pub open spec fn command_at(p: Plan, i: int) -> CommandSpec {
    match p {
        Plan::Run(c) => c,
        Plan::RunBoth(c, _) => c,
        Plan::FirstPresent(cs, _) => cs@[i].command,
        Plan::UnlessListed(_, _, c) => c,
        Plan::Refuse(_) => arbitrary(),
    }
}

/// Whether stage `s` can be reached in plan `p`.
pub open spec fn fits(p: Plan, s: Stage) -> bool {
    match s {
        Stage::Probing(i) => p is FirstPresent && i < candidates(p).len(),
        Stage::Running(i) => match p {
            Plan::FirstPresent(cs, _) => i < cs@.len(),
            Plan::Refuse(_) => false,
            _ => i == 0,
        },
        Stage::Second(_) => p is RunBoth,
        Stage::Listing => p is UnlessListed,
        Stage::Done(_) => true,
    }
}

/// Whether `r` is what a session of plan `p` asks for at stage `s`.
pub open spec fn is_step_for(p: Plan, s: Stage, r: Step) -> bool {
    match s {
        Stage::Probing(i) => r is Probe && r->Probe_0@ == candidates(p)[i as int].manager@,
        Stage::Running(i) => r is Launch && r->Launch_0.same_as(command_at(p, i as int)),
        Stage::Second(_) => r is Launch && r->Launch_0.same_as(p->RunBoth_1),
        Stage::Listing => r is Capture && r->Capture_0.same_as(p->UnlessListed_0),
        Stage::Done(o) => r == Step::Finish(o),
    }
}

/// One installation request in progress. The caller carries out each step and
/// reports back what happened, until the session finishes.
pub struct Session {
    plan: Plan,
    stage: Stage,
}

impl Session {
    #[verifier::type_invariant]
    spec fn inv(self) -> bool {
        fits(self.plan, self.stage)
    }

    pub closed spec fn plan_of(self) -> Plan {
        self.plan
    }

    pub closed spec fn stage_of(self) -> Stage {
        self.stage
    }

    /// A session that carries out plan `p` from its beginning.
    pub fn start(p: Plan) -> (r: Session)
        ensures
            r.plan_of() == p,
            r.stage_of() == initial_stage(p),
    {
        let stage = match &p {
            Plan::Run(_) => Stage::Running(0),
            Plan::RunBoth(_, _) => Stage::Running(0),
            Plan::FirstPresent(cs, f) => if cs.len() > 0 {
                Stage::Probing(0)
            } else {
                Stage::Done(Outcome::Failed(*f))
            },
            Plan::UnlessListed(_, _, _) => Stage::Listing,
            Plan::Refuse(f) => Stage::Done(Outcome::Failed(*f)),
        };
        Session { plan: p, stage }
    }

    /// The session of the request to install `t` on `h`.
    pub fn for_toolchain(t: Toolchain, h: HostProfile) -> (r: Session)
        ensures
            is_plan_for(r.plan_of(), t, h),
            r.stage_of() == initial_stage(r.plan_of()),
    {
        Session::start(plan(t, h))
    }

    /// Where the session stands.
    pub fn stage(&self) -> (r: Stage)
        ensures
            r == self.stage_of(),
    {
        self.stage
    }

    /// What the caller is to do now.
    pub fn current(&self) -> (r: Step)
        ensures
            is_step_for(self.plan_of(), self.stage_of(), r),
    {
        proof {
            use_type_invariant(self);
        }
        match self.stage {
            Stage::Probing(i) => match &self.plan {
                Plan::FirstPresent(cs, _) => Step::Probe(cs[i].manager.clone()),
                _ => Step::Finish(Outcome::Failed(Failure::CommandFailed)),
            },
            Stage::Running(i) => match &self.plan {
                Plan::Run(c) => Step::Launch(c.duplicate()),
                Plan::RunBoth(c, _) => Step::Launch(c.duplicate()),
                Plan::FirstPresent(cs, _) => Step::Launch(cs[i].command.duplicate()),
                Plan::UnlessListed(_, _, c) => Step::Launch(c.duplicate()),
                Plan::Refuse(f) => Step::Finish(Outcome::Failed(*f)),
            },
            Stage::Second(_) => match &self.plan {
                Plan::RunBoth(_, c) => Step::Launch(c.duplicate()),
                _ => Step::Finish(Outcome::Failed(Failure::CommandFailed)),
            },
            Stage::Listing => match &self.plan {
                Plan::UnlessListed(c, _, _) => Step::Capture(c.duplicate()),
                _ => Step::Finish(Outcome::Failed(Failure::CommandFailed)),
            },
            Stage::Done(o) => Step::Finish(o),
        }
    }

    /// Takes in what came of the current step.
    pub fn feed(&mut self, ev: Event)
        ensures
            final(self).plan_of() == old(self).plan_of(),
            final(self).stage_of() == next_stage(old(self).plan_of(), old(self).stage_of(), ev),
    {
        proof {
            use_type_invariant(&*self);
        }
        let ok = match &ev {
            Event::Present(b) => *b,
            Event::Exited(b) => *b,
            Event::Listed(o) => o.is_some(),
        };
        let next = match self.stage {
            Stage::Probing(i) => if ok {
                Stage::Running(i)
            } else {
                match &self.plan {
                    Plan::FirstPresent(cs, f) => if i < cs.len() && i + 1 < cs.len() {
                        Stage::Probing(i + 1)
                    } else {
                        Stage::Done(Outcome::Failed(*f))
                    },
                    _ => self.stage,
                }
            },
            Stage::Running(_) => match &self.plan {
                Plan::RunBoth(_, _) => Stage::Second(ok),
                _ => finish(ok),
            },
            Stage::Second(first) => finish(first && ok),
            Stage::Listing => match &self.plan {
                Plan::UnlessListed(_, marker, _) => {
                    let found = match &ev {
                        Event::Listed(Some(text)) => contains(text.as_str(), marker.as_str()),
                        _ => false,
                    };
                    if found {
                        Stage::Done(Outcome::AlreadyInstalled)
                    } else {
                        Stage::Running(0)
                    }
                },
                _ => self.stage,
            },
            Stage::Done(o) => Stage::Done(o),
        };
        self.stage = next;
    }
}

fn finish(ok: bool) -> (r: Stage)
    ensures
        r == finished(ok),
{
    if ok {
        Stage::Done(Outcome::Installed)
    } else {
        Stage::Done(Outcome::Failed(Failure::CommandFailed))
    }
}

} // verus!
