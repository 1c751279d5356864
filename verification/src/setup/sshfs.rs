//! Installing macFUSE and sshfs through Homebrew.
use crate::plan::{lemma_replay_at, state_after, 
    act, args1, args2, args3, err, fails_loudly, lemma_ends_within, lemma_gated, lines_view, out, replay,
    say0, say1, say2, say3, Action, ActionView, Event, EventView, Line, LineView, Op, OpView,
};
use vstd::prelude::*;

verus! {

/// Where `install_sshfs` stands.
#[derive(PartialEq, Eq, Structural, Clone, Copy, Debug)]
pub enum SshfsStep {
    /// Nothing done yet.
    Start,
    /// Waiting for `which brew`.
    Brew,
    /// Waiting to learn whether macFUSE is installed.
    Macfuse,
    /// Waiting for the macFUSE install.
    MacfuseInstall,
    /// Waiting for `which sshfs`.
    Sshfs,
    /// Waiting for the `brew tap` of the sshfs formula.
    Tap,
    /// Waiting for the sshfs install.
    SshfsInstall,
    /// The procedure is over.
    Finished,
}

pub open spec fn brew_probe_op() -> OpView {
    OpView::Query { program: "which"@, args: seq!["brew"@] }
}

pub open spec fn macfuse_probe_op() -> OpView {
    OpView::PathExists { path: "/Library/Filesystems/macfuse.fs"@ }
}

pub open spec fn macfuse_install_op() -> OpView {
    OpView::Interactive { program: "brew"@, args: seq!["install"@, "--cask"@, "macfuse"@] }
}

pub open spec fn sshfs_probe_op() -> OpView {
    OpView::Query { program: "which"@, args: seq!["sshfs"@] }
}

pub open spec fn sshfs_tap_op() -> OpView {
    OpView::Interactive { program: "brew"@, args: seq!["tap"@, "gromgit/fuse"@] }
}

pub open spec fn sshfs_install_op() -> OpView {
    OpView::Interactive { program: "brew"@, args: seq!["install"@, "gromgit/fuse/sshfs-mac"@] }
}

/// The lines that close a run that leaves sshfs ready.
pub open spec fn sshfs_ready_lines() -> Seq<LineView> {
    seq![
        LineView::Stdout("\n[setup] sshfs 마운트 준비 완료!"@),
        LineView::Stdout("  mac-host-commands mount up proxmox"@),
    ]
}

/// What `install_sshfs` does on each reply.
pub open spec fn sshfs_next(s: SshfsStep, e: EventView) -> (SshfsStep, ActionView) {
    match s {
        SshfsStep::Start => (SshfsStep::Brew, ActionView { say: seq![], op: brew_probe_op() }),
        SshfsStep::Brew => if e.ok() {
            (SshfsStep::Macfuse, ActionView { say: seq![], op: macfuse_probe_op() })
        } else {
            (
                SshfsStep::Finished,
                ActionView {
                    say: seq![
                        LineView::Stderr("[setup] Homebrew가 필요합니다."@),
                        LineView::Stderr(
                            "  /bin/bash -c \"$(curl -fsSL https://raw.githubusercontent.com/Homebrew/install/HEAD/install.sh)\""@,
                        ),
                    ],
                    op: OpView::Exit { code: 1 },
                },
            )
        },
        SshfsStep::Macfuse => if e.ok() {
            (
                SshfsStep::Sshfs,
                ActionView { say: seq![LineView::Stdout("[setup] macFUSE 이미 설치됨"@)], op: sshfs_probe_op() },
            )
        } else {
            (
                SshfsStep::MacfuseInstall,
                ActionView { say: seq![LineView::Stdout("[setup] macFUSE 설치 중..."@)], op: macfuse_install_op() },
            )
        },
        SshfsStep::MacfuseInstall => if e.ok() {
            (
                SshfsStep::Finished,
                ActionView {
                    say: seq![
                        LineView::Stdout("[setup] macFUSE 설치 완료"@),
                        LineView::Stdout("  [!] 재부팅이 필요합니다. 재부팅 후 sshfs를 설치하세요:"@),
                        LineView::Stdout("      mac-host-commands setup install-sshfs"@),
                    ],
                    op: OpView::Finish,
                },
            )
        } else {
            (
                SshfsStep::Finished,
                ActionView { say: seq![LineView::Stderr("[setup] macFUSE 설치 실패"@)], op: OpView::Exit { code: 1 } },
            )
        },
        SshfsStep::Sshfs => if e.ok() {
            (
                SshfsStep::Finished,
                ActionView {
                    say: seq![LineView::Stdout("[setup] sshfs 이미 설치됨"@)] + sshfs_ready_lines(),
                    op: OpView::Finish,
                },
            )
        } else {
            (
                SshfsStep::Tap,
                ActionView { say: seq![LineView::Stdout("[setup] sshfs 설치 중..."@)], op: sshfs_tap_op() },
            )
        },
        SshfsStep::Tap => (SshfsStep::SshfsInstall, ActionView { say: seq![], op: sshfs_install_op() }),
        SshfsStep::SshfsInstall => if e.ok() {
            (
                SshfsStep::Finished,
                ActionView {
                    say: seq![LineView::Stdout("[setup] sshfs 설치 완료"@)] + sshfs_ready_lines(),
                    op: OpView::Finish,
                },
            )
        } else {
            (
                SshfsStep::Finished,
                ActionView { say: seq![LineView::Stderr("[setup] sshfs 설치 실패"@)], op: OpView::Exit { code: 1 } },
            )
        },
        SshfsStep::Finished => (SshfsStep::Finished, ActionView { say: seq![], op: OpView::Finish }),
    }
}

/// How many replies `install_sshfs` can still take at most.
pub open spec fn sshfs_rank(s: SshfsStep) -> nat {
    match s {
        SshfsStep::Start => 6,
        SshfsStep::Brew => 5,
        SshfsStep::Macfuse => 4,
        SshfsStep::MacfuseInstall => 1,
        SshfsStep::Sshfs => 3,
        SshfsStep::Tap => 2,
        SshfsStep::SshfsInstall => 1,
        SshfsStep::Finished => 0,
    }
}

fn ready_lines(first: &str) -> (r: Vec<Line>)
    ensures
        lines_view(r@) == seq![LineView::Stdout(first@)] + sshfs_ready_lines(),
{
    let r = say3(out(first), out("\n[setup] sshfs 마운트 준비 완료!"), out("  mac-host-commands mount up proxmox"));
    assert(seq![LineView::Stdout(first@)] + sshfs_ready_lines() =~= seq![
        LineView::Stdout(first@),
        LineView::Stdout("\n[setup] sshfs 마운트 준비 완료!"@),
        LineView::Stdout("  mac-host-commands mount up proxmox"@),
    ]);
    r
}

fn brew(args: Vec<String>) -> (r: Op)
    ensures
        r@ == (OpView::Interactive { program: "brew"@, args: args.deep_view() }),
{
    Op::Interactive { program: String::from_str("brew"), args }
}

/// One step of installing macFUSE and sshfs: given where the procedure stands
/// and the reply to its last operation, where it goes, what it prints and what
/// it asks for next.  A procedure starts at `SshfsStep::Start` with `Event::Done`.
pub fn install_sshfs(s: SshfsStep, e: Event) -> (r: (SshfsStep, Action))
    ensures
        (r.0, r.1@) == sshfs_next(s, e@),
{
    match s {
        SshfsStep::Start => (
            SshfsStep::Brew,
            act(say0(), Op::Query { program: String::from_str("which"), args: args1("brew") }),
        ),
        SshfsStep::Brew => if e.ok() {
            (
                SshfsStep::Macfuse,
                act(say0(), Op::PathExists { path: String::from_str("/Library/Filesystems/macfuse.fs") }),
            )
        } else {
            (
                SshfsStep::Finished,
                act(
                    say2(
                        err("[setup] Homebrew가 필요합니다."),
                        err(
                            "  /bin/bash -c \"$(curl -fsSL https://raw.githubusercontent.com/Homebrew/install/HEAD/install.sh)\"",
                        ),
                    ),
                    Op::Exit { code: 1 },
                ),
            )
        },
        SshfsStep::Macfuse => if e.ok() {
            (
                SshfsStep::Sshfs,
                act(
                    say1(out("[setup] macFUSE 이미 설치됨")),
                    Op::Query { program: String::from_str("which"), args: args1("sshfs") },
                ),
            )
        } else {
            (
                SshfsStep::MacfuseInstall,
                act(say1(out("[setup] macFUSE 설치 중...")), brew(args3("install", "--cask", "macfuse"))),
            )
        },
        SshfsStep::MacfuseInstall => if e.ok() {
            (
                SshfsStep::Finished,
                act(
                    say3(
                        out("[setup] macFUSE 설치 완료"),
                        out("  [!] 재부팅이 필요합니다. 재부팅 후 sshfs를 설치하세요:"),
                        out("      mac-host-commands setup install-sshfs"),
                    ),
                    Op::Finish,
                ),
            )
        } else {
            (SshfsStep::Finished, act(say1(err("[setup] macFUSE 설치 실패")), Op::Exit { code: 1 }))
        },
        SshfsStep::Sshfs => if e.ok() {
            (SshfsStep::Finished, act(ready_lines("[setup] sshfs 이미 설치됨"), Op::Finish))
        } else {
            (SshfsStep::Tap, act(say1(out("[setup] sshfs 설치 중...")), brew(args2("tap", "gromgit/fuse"))))
        },
        SshfsStep::Tap => (SshfsStep::SshfsInstall, act(say0(), brew(args2("install", "gromgit/fuse/sshfs-mac")))),
        SshfsStep::SshfsInstall => if e.ok() {
            (SshfsStep::Finished, act(ready_lines("[setup] sshfs 설치 완료"), Op::Finish))
        } else {
            (SshfsStep::Finished, act(say1(err("[setup] sshfs 설치 실패")), Op::Exit { code: 1 }))
        },
        SshfsStep::Finished => (SshfsStep::Finished, act(say0(), Op::Finish)),
    }
}

/// Every reply brings installing sshfs strictly closer to its end, and the
/// procedure asks for nothing more exactly once it is over.
pub proof fn install_sshfs_progresses(s: SshfsStep, e: EventView)
    ensures
        ({
            let (t, a) = sshfs_next(s, e);
            &&& a.op.is_terminal() <==> t == SshfsStep::Finished
            &&& fails_loudly(a)
            &&& s != SshfsStep::Finished ==> sshfs_rank(t) < sshfs_rank(s)
        }),
{
}

/// `install_sshfs` as a transition function.
pub open spec fn sshfs_machine() -> spec_fn(SshfsStep, EventView) -> (SshfsStep, ActionView) {
    |s: SshfsStep, e: EventView| sshfs_next(s, e)
}

/// What installing sshfs does when handed `replies`, the first of which starts it.
pub open spec fn sshfs_run(replies: Seq<EventView>) -> Seq<ActionView> {
    replay(sshfs_machine(), SshfsStep::Start, replies)
}

proof fn lemma_brew_args_differ()
    ensures
        seq!["install"@, "--cask"@, "macfuse"@] != seq!["tap"@, "gromgit/fuse"@],
        seq!["install"@, "--cask"@, "macfuse"@] != seq!["install"@, "gromgit/fuse/sshfs-mac"@],
        seq!["tap"@, "gromgit/fuse"@] != seq!["install"@, "gromgit/fuse/sshfs-mac"@],
{
    reveal_strlit("tap");
    reveal_strlit("install");
    let a: Seq<Seq<char>> = seq!["install"@, "--cask"@, "macfuse"@];
    let b: Seq<Seq<char>> = seq!["tap"@, "gromgit/fuse"@];
    let c: Seq<Seq<char>> = seq!["install"@, "gromgit/fuse/sshfs-mac"@];
    assert(a.len() != b.len());
    assert(a.len() != c.len());
    assert(b[0].len() != c[0].len());
}

/// sshfs is installed only after macFUSE has been found installed: the sshfs
/// formula needs it.
pub proof fn sshfs_installed_only_with_macfuse(replies: Seq<EventView>, k: int)
    requires
        0 <= k < replies.len(),
        sshfs_run(replies)[k].op == sshfs_install_op(),
    ensures
        exists|j: int| 0 <= j < k && #[trigger] sshfs_run(replies)[j].op == macfuse_probe_op() && replies[j + 1].ok(),
{
    let good = |s: SshfsStep| s == SshfsStep::Sshfs || s == SshfsStep::Tap || s == SshfsStep::SshfsInstall;
    let entry = |s: SshfsStep| s == SshfsStep::Macfuse;
    let gate = |e: EventView| e.ok();
    let target = |op: OpView| op == sshfs_install_op();
    assert forall|s: SshfsStep, e: EventView| target(#[trigger] sshfs_machine()(s, e).1.op) implies good(s) by {
        lemma_brew_args_differ();
    }
    lemma_gated(sshfs_machine(), |s| true, good, entry, gate, macfuse_probe_op(), target, SshfsStep::Start, replies, k);
}

/// Homebrew is asked to install or tap anything only after `which brew` has
/// found it.
pub proof fn sshfs_brew_used_only_when_present(replies: Seq<EventView>, k: int)
    requires
        0 <= k < replies.len(),
        sshfs_run(replies)[k].op matches OpView::Interactive { program, .. } && program == "brew"@,
    ensures
        exists|j: int| 0 <= j < k && #[trigger] sshfs_run(replies)[j].op == brew_probe_op() && replies[j + 1].ok(),
{
    let good = |s: SshfsStep| s != SshfsStep::Start && s != SshfsStep::Brew && s != SshfsStep::Finished;
    let entry = |s: SshfsStep| s == SshfsStep::Brew;
    let gate = |e: EventView| e.ok();
    let target = |op: OpView| op matches OpView::Interactive { program, .. } && program == "brew"@;
    lemma_gated(sshfs_machine(), |s| true, good, entry, gate, brew_probe_op(), target, SshfsStep::Start, replies, k);
}

/// Installing macFUSE and sshfs ends, by success or by failure, within 6 replies, whatever they are.
pub proof fn install_sshfs_ends(replies: Seq<EventView>)
    requires
        replies.len() >= 6,
    ensures
        exists|k: int| 0 <= k < 6 && #[trigger] replay(sshfs_machine(), SshfsStep::Start, replies)[k].op.is_terminal(),
{
    let rank = |s: SshfsStep| sshfs_rank(s);
    let done = |s: SshfsStep| s == SshfsStep::Finished;
    assert forall|s: SshfsStep, e: EventView|
        #[trigger] sshfs_machine()(s, e).1.op.is_terminal() <==> done(sshfs_machine()(s, e).0) by {
        install_sshfs_progresses(s, e);
    }
    assert forall|s: SshfsStep, e: EventView| !done(s) implies rank(#[trigger] sshfs_machine()(s, e).0) < rank(s) by {
        install_sshfs_progresses(s, e);
    }
    lemma_ends_within(sshfs_machine(), rank, done, SshfsStep::Start, replies);
}

/// A whole run of installing macFUSE and sshfs: without Homebrew it ends with
/// exit code 1.  A missing macFUSE is installed and the run stops there (a
/// reboot comes first), or fails with exit code 1.  With macFUSE present, a
/// present sshfs is left alone; otherwise the formula's tap is added and the
/// formula installed, whatever the tap gave, and the run ends by success or
/// with exit code 1 as the install did.
pub proof fn install_sshfs_run(replies: Seq<EventView>)
    requires
        replies.len() >= 6,
    ensures
        ({
            let run = sshfs_run(replies);
            &&& run[0].op == brew_probe_op()
            &&& !replies[1].ok() ==> run[1].op == OpView::Exit { code: 1 }
            &&& replies[1].ok() ==> {
                &&& run[1].op == macfuse_probe_op()
                &&& !replies[2].ok() ==> {
                    &&& run[2].op == macfuse_install_op()
                    &&& run[3].op == if replies[3].ok() { OpView::Finish } else { OpView::Exit { code: 1 } }
                }
                &&& replies[2].ok() ==> {
                    &&& run[2].op == sshfs_probe_op()
                    &&& replies[3].ok() ==> run[3].op == OpView::Finish
                    &&& !replies[3].ok() ==> {
                        &&& run[3].op == sshfs_tap_op()
                        &&& run[4].op == sshfs_install_op()
                        &&& run[5].op == if replies[5].ok() { OpView::Finish } else { OpView::Exit { code: 1 } }
                    }
                }
            }
        }),
{
    let start = SshfsStep::Start;
    let m = sshfs_machine();
    reveal_with_fuel(state_after, 7);
    assert forall|j: int| 0 <= j < 6 implies #[trigger] sshfs_run(replies)[j] == m(
        state_after(m, start, replies, j as nat),
        replies[j],
    ).1 by {
        lemma_replay_at(m, start, replies, j);
    }
}

} // verus!
