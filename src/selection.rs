use vstd::prelude::*;

use crate::installers::{
    Candidate, Event, Failure, HostProfile, Outcome, Plan, Stage, Step, Toolchain, candidates,
    command_at, finished, holds, initial_stage, is_plan_for, is_step_for, next_stage, unix_dotnet_command,
    unix_managers, words2,
};

verus! {

/// Index of the first candidate, from `i` on, whose package manager is present.
pub open spec fn first_present(cs: Seq<Candidate>, present: Set<Seq<char>>, i: int) -> Option<int>
    decreases cs.len() - i,
{
    if i < 0 || i >= cs.len() {
        None
    } else if present.contains(cs[i].manager@) {
        Some(i)
    } else {
        first_present(cs, present, i + 1)
    }
}

/// The stage a session of plan `p` reaches from `s` when every probe is answered
/// truthfully from the set of `present` programs (for candidate lists that fit
/// in memory).
pub open spec fn after_probes(p: Plan, s: Stage, present: Set<Seq<char>>) -> Stage
    decreases
            (match s {
                Stage::Probing(i) => if i < candidates(p).len() {
                    candidates(p).len() - i
                } else {
                    0
                },
                _ => 0,
            }),
{
    match s {
        Stage::Probing(i) => if i < candidates(p).len() <= usize::MAX {
            after_probes(
                p,
                next_stage(p, s, Event::Present(present.contains(candidates(p)[i as int].manager@))),
                present,
            )
        } else {
            s
        },
        _ => s,
    }
}

/// The stage that the request for plan `p` settles in once its probes are answered.
pub open spec fn selected(p: Plan, present: Set<Seq<char>>) -> Stage {
    after_probes(p, initial_stage(p), present)
}

/// Probing candidates in order installs through the first one whose package
/// manager is present, and fails with the plan's reason when none is.
pub proof fn first_present_wins(p: Plan, i: usize, present: Set<Seq<char>>)
    requires
        p is FirstPresent,
        i < candidates(p).len() <= usize::MAX,
    ensures
        after_probes(p, Stage::Probing(i), present) == (match first_present(
            candidates(p),
            present,
            i as int,
        ) {
            Some(j) => Stage::Running(j as usize),
            None => Stage::Done(Outcome::Failed(p->FirstPresent_1)),
        }),
    decreases candidates(p).len() - i,
{
    let cs = candidates(p);
    let here = present.contains(cs[i as int].manager@);
    let next = next_stage(p, Stage::Probing(i), Event::Present(here));
    first_present_bounds(cs, present, i as int);
    assert(after_probes(p, Stage::Probing(i), present) == after_probes(p, next, present));
    if !here && i + 1 < cs.len() {
        first_present_wins(p, (i + 1) as usize, present);
    } else {
        assert(after_probes(p, next, present) == next);
    }
}

proof fn first_present_same(
    a: Seq<Candidate>,
    b: Seq<Candidate>,
    present: Set<Seq<char>>,
    i: int,
)
    requires
        a.len() == b.len(),
        forall|k: int| 0 <= k < a.len() ==> (#[trigger] a[k]).manager@ == b[k].manager@,
    ensures
        first_present(a, present, i) == first_present(b, present, i),
    decreases a.len() - i,
{
    if 0 <= i < a.len() {
        first_present_same(a, b, present, i + 1);
    }
}

proof fn first_present_bounds(cs: Seq<Candidate>, present: Set<Seq<char>>, i: int)
    requires
        0 <= i,
    ensures
        first_present(cs, present, i) matches Some(j) ==> i <= j < cs.len() && present.contains(
            cs[j].manager@,
        ),
    decreases cs.len() - i,
{
    if 0 <= i < cs.len() && !present.contains(cs[i].manager@) {
        first_present_bounds(cs, present, i + 1);
    }
}

/// On Unix systems other than macOS the .NET SDK installs through the first
/// present package manager in the order apt, dnf, pacman, apk; with none of
/// them present the request fails for want of a prerequisite.
pub proof fn unix_probe_order(p: Plan, present: Set<Seq<char>>)
    requires
        is_plan_for(p, Toolchain::DotNet, HostProfile::OtherUnix),
    ensures
        present.contains("apt"@) ==> selected(p, present) == Stage::Running(0),
        !present.contains("apt"@) && present.contains("dnf"@) ==> selected(p, present)
            == Stage::Running(1),
        !present.contains("apt"@) && !present.contains("dnf"@) && present.contains("pacman"@)
            ==> selected(p, present) == Stage::Running(2),
        !present.contains("apt"@) && !present.contains("dnf"@) && !present.contains("pacman"@)
            && present.contains("apk"@) ==> selected(p, present) == Stage::Running(3),
        !present.contains("apt"@) && !present.contains("dnf"@) && !present.contains("pacman"@)
            && !present.contains("apk"@) ==> selected(p, present) == Stage::Done(
            Outcome::Failed(Failure::PrerequisiteMissing),
        ),
{
    let cs = candidates(p);
    assert(cs[0].manager@ == "apt"@);
    assert(cs[1].manager@ == "dnf"@);
    assert(cs[2].manager@ == "pacman"@);
    assert(cs[3].manager@ == "apk"@);
    reveal_with_fuel(first_present, 5);
    first_present_wins(p, 0, present);
}

/// Whatever the plan of a request, answering its probes settles it in exactly
/// one stage that probes no more, decided by the target, the host and which
/// package managers are present alone: any two plans for the same target and
/// host select the same command.
pub proof fn selection_is_determined(
    t: Toolchain,
    h: HostProfile,
    p1: Plan,
    p2: Plan,
    present: Set<Seq<char>>,
)
    requires
        is_plan_for(p1, t, h),
        is_plan_for(p2, t, h),
    ensures
        !(selected(p1, present) is Probing),
        selected(p1, present) == selected(p2, present),
        selected(p1, present) matches Stage::Running(j) ==> command_at(p1, j as int).same_as(
            command_at(p2, j as int),
        ),
{
    if p1 is FirstPresent {
        let a = candidates(p1);
        let b = candidates(p2);
        assert(a.len() == b.len());
        assert forall|k: int| 0 <= k < a.len() implies (#[trigger] a[k]).manager@
            == b[k].manager@ by {
            if t == Toolchain::DotNet && h == HostProfile::OtherUnix {
                assert(a[k].manager@ == unix_managers()[k]);
                assert(b[k].manager@ == unix_managers()[k]);
            }
        }
        first_present_wins(p1, 0, present);
        first_present_wins(p2, 0, present);
        first_present_same(a, b, present, 0);
        first_present_bounds(a, present, 0);
        if let Some(j) = first_present(a, present, 0) {
            if t == Toolchain::DotNet && h == HostProfile::OtherUnix {
                assert(unix_dotnet_command(a[j].command, j));
                assert(unix_dotnet_command(b[j].command, j));
            }
        }
    }
}

/// The Windows-only desktop framework, asked for on another system, fails at
/// once: the first step is to finish, so nothing is probed or run.
pub proof fn wpf_fails_fast_off_windows(h: HostProfile, p: Plan, first: Step)
    requires
        h != HostProfile::Windows,
        is_plan_for(p, Toolchain::Wpf, h),
        is_step_for(p, initial_stage(p), first),
    ensures
        initial_stage(p) == Stage::Done(Outcome::Failed(Failure::UnsupportedPlatform)),
        first == Step::Finish(Outcome::Failed(Failure::UnsupportedPlatform)),
{
}

/// When the template listing already names the marker, the request is over and
/// the install command is never run.
pub proof fn listed_templates_skip_install(h: HostProfile, p: Plan, listing: String)
    requires
        is_plan_for(p, Toolchain::AvaloniaTemplates, h),
        holds(listing@, "avalonia"@),
    ensures
        initial_stage(p) == Stage::Listing,
        next_stage(p, Stage::Listing, Event::Listed(Some(listing))) == Stage::Done(
            Outcome::AlreadyInstalled,
        ),
{
}

/// On Unix systems other than macOS the container engine comes from the vendor
/// script piped through `sh`, whichever package managers are present, and the
/// request succeeds exactly when that command does.
pub proof fn docker_on_unix_runs_the_script(p: Plan, present: Set<Seq<char>>, ok: bool)
    requires
        is_plan_for(p, Toolchain::Docker, HostProfile::OtherUnix),
    ensures
        selected(p, present) == Stage::Running(0),
        command_at(p, 0).is("sh"@, words2("-c", "curl -fsSL https://get.docker.com | sh"), true),
        next_stage(p, Stage::Running(0), Event::Exited(ok)) == finished(ok),
{
}

/// On macOS without Homebrew the .NET SDK request fails for want of a
/// prerequisite, and no install command is selected.
pub proof fn dotnet_on_mac_needs_homebrew(p: Plan, present: Set<Seq<char>>)
    requires
        is_plan_for(p, Toolchain::DotNet, HostProfile::MacOs),
        !present.contains("brew"@),
    ensures
        selected(p, present) == Stage::Done(Outcome::Failed(Failure::PrerequisiteMissing)),
{
    reveal_with_fuel(first_present, 2);
    first_present_wins(p, 0, present);
}

} // verus!
