//! Reporting which host dependencies are installed.
use crate::plan::{lemma_replay_at, state_after, 
    act, args1, fails_loudly, labelled, lemma_ends_within, out, pick, replay, say0, say1, say2, Action,
    ActionView, Event, EventView, LineView, Op, OpView,
};
use vstd::prelude::*;

verus! {

/// Where the dependency report stands.
#[derive(PartialEq, Eq, Structural, Clone, Copy, Debug)]
pub enum ReportStep {
    /// Nothing done yet.
    Start,
    /// Waiting for `which brew`.
    Brew,
    /// Waiting to learn whether the macFUSE file system bundle exists.
    MacfuseBundle,
    /// Waiting to learn whether the FUSE library exists under `/usr/local`.
    MacfuseLocalLib,
    /// Waiting to learn whether the FUSE library exists under `/opt/homebrew`.
    MacfuseBrewLib,
    /// Waiting for `which sshfs`; whether macFUSE was found.
    Sshfs { macfuse: bool },
    /// Waiting for `which sshpass`; whether macFUSE and sshfs were found.
    Sshpass { macfuse: bool, sshfs: bool },
    /// The report is complete.
    Finished,
}

pub open spec fn installed_mark(b: bool) -> Seq<char> {
    if b {
        "✓ 설치됨"@
    } else {
        "✗ 미설치"@
    }
}

pub open spec fn which_op(tool: Seq<char>) -> OpView {
    OpView::Query { program: "which"@, args: seq![tool] }
}

pub open spec fn macfuse_line(found: bool) -> LineView {
    LineView::Stdout("[macFUSE] "@ + installed_mark(found))
}

/// What the dependency report does on each reply.
pub open spec fn report_next(s: ReportStep, e: EventView) -> (ReportStep, ActionView) {
    match s {
        ReportStep::Start => (
            ReportStep::Brew,
            ActionView { say: seq![LineView::Stdout("=== 의존성 상태 ===\n"@)], op: which_op("brew"@) },
        ),
        ReportStep::Brew => (
            ReportStep::MacfuseBundle,
            ActionView {
                say: seq![LineView::Stdout("[brew] "@ + installed_mark(e.ok()))],
                op: OpView::PathExists { path: "/Library/Filesystems/macfuse.fs"@ },
            },
        ),
        ReportStep::MacfuseBundle => if e.ok() {
            (ReportStep::Sshfs { macfuse: true }, ActionView { say: seq![macfuse_line(true)], op: which_op("sshfs"@) })
        } else {
            (
                ReportStep::MacfuseLocalLib,
                ActionView { say: seq![], op: OpView::PathExists { path: "/usr/local/lib/libfuse.dylib"@ } },
            )
        },
        ReportStep::MacfuseLocalLib => if e.ok() {
            (ReportStep::Sshfs { macfuse: true }, ActionView { say: seq![macfuse_line(true)], op: which_op("sshfs"@) })
        } else {
            (
                ReportStep::MacfuseBrewLib,
                ActionView { say: seq![], op: OpView::PathExists { path: "/opt/homebrew/lib/libfuse.dylib"@ } },
            )
        },
        ReportStep::MacfuseBrewLib => (
            ReportStep::Sshfs { macfuse: e.ok() },
            ActionView { say: seq![macfuse_line(e.ok())], op: which_op("sshfs"@) },
        ),
        ReportStep::Sshfs { macfuse } => (
            ReportStep::Sshpass { macfuse, sshfs: e.ok() },
            ActionView { say: seq![LineView::Stdout("[sshfs] "@ + installed_mark(e.ok()))], op: which_op("sshpass"@) },
        ),
        ReportStep::Sshpass { macfuse, sshfs } => (
            ReportStep::Finished,
            ActionView {
                say: seq![LineView::Stdout("[sshpass] "@ + installed_mark(e.ok()))] + if !macfuse || !sshfs {
                    seq![LineView::Stdout("\n  [!] sshfs 마운트를 사용하려면: mac-host-commands setup install-sshfs"@)]
                } else {
                    seq![]
                },
                op: OpView::Finish,
            },
        ),
        ReportStep::Finished => (ReportStep::Finished, ActionView { say: seq![], op: OpView::Finish }),
    }
}

/// How many replies the dependency report can still take at most.
pub open spec fn report_rank(s: ReportStep) -> nat {
    match s {
        ReportStep::Start => 7,
        ReportStep::Brew => 6,
        ReportStep::MacfuseBundle => 5,
        ReportStep::MacfuseLocalLib => 4,
        ReportStep::MacfuseBrewLib => 3,
        ReportStep::Sshfs { .. } => 2,
        ReportStep::Sshpass { .. } => 1,
        ReportStep::Finished => 0,
    }
}

fn mark(b: bool) -> (r: &'static str)
    ensures
        r@ == installed_mark(b),
{
    pick(b, "✓ 설치됨", "✗ 미설치")
}

fn which(tool: &str) -> (r: Op)
    ensures
        r@ == which_op(tool@),
{
    Op::Query { program: String::from_str("which"), args: args1(tool) }
}

/// One step of the dependency report: given where the report stands and the
/// reply to its last probe, where it goes, what it prints and what it probes
/// next.  A report starts at `ReportStep::Start` with `Event::Done`.
pub fn status(s: ReportStep, e: Event) -> (r: (ReportStep, Action))
    ensures
        (r.0, r.1@) == report_next(s, e@),
{
    match s {
        ReportStep::Start => (ReportStep::Brew, act(say1(out("=== 의존성 상태 ===\n")), which("brew"))),
        ReportStep::Brew => (
            ReportStep::MacfuseBundle,
            act(
                say1(labelled("[brew] ", mark(e.ok()))),
                Op::PathExists { path: String::from_str("/Library/Filesystems/macfuse.fs") },
            ),
        ),
        ReportStep::MacfuseBundle => if e.ok() {
            (ReportStep::Sshfs { macfuse: true }, act(say1(labelled("[macFUSE] ", mark(true))), which("sshfs")))
        } else {
            (
                ReportStep::MacfuseLocalLib,
                act(say0(), Op::PathExists { path: String::from_str("/usr/local/lib/libfuse.dylib") }),
            )
        },
        ReportStep::MacfuseLocalLib => if e.ok() {
            (ReportStep::Sshfs { macfuse: true }, act(say1(labelled("[macFUSE] ", mark(true))), which("sshfs")))
        } else {
            (
                ReportStep::MacfuseBrewLib,
                act(say0(), Op::PathExists { path: String::from_str("/opt/homebrew/lib/libfuse.dylib") }),
            )
        },
        ReportStep::MacfuseBrewLib => {
            let found = e.ok();
            (ReportStep::Sshfs { macfuse: found }, act(say1(labelled("[macFUSE] ", mark(found))), which("sshfs")))
        },
        ReportStep::Sshfs { macfuse } => {
            let found = e.ok();
            (
                ReportStep::Sshpass { macfuse, sshfs: found },
                act(say1(labelled("[sshfs] ", mark(found))), which("sshpass")),
            )
        },
        ReportStep::Sshpass { macfuse, sshfs } => {
            let line = labelled("[sshpass] ", mark(e.ok()));
            let ghost first = seq![line@];
            let ghost hint = seq![LineView::Stdout("\n  [!] sshfs 마운트를 사용하려면: mac-host-commands setup install-sshfs"@)];
            assert(first + hint =~= seq![line@, hint[0]]);
            assert(first + Seq::<LineView>::empty() =~= first);
            let say = if !macfuse || !sshfs {
                say2(line, out("\n  [!] sshfs 마운트를 사용하려면: mac-host-commands setup install-sshfs"))
            } else {
                say1(line)
            };
            (ReportStep::Finished, act(say, Op::Finish))
        },
        ReportStep::Finished => (ReportStep::Finished, act(say0(), Op::Finish)),
    }
}

/// Every reply brings the dependency report strictly closer to its end, and
/// the report asks for nothing more exactly once it is complete.
pub proof fn status_progresses(s: ReportStep, e: EventView)
    ensures
        ({
            let (t, a) = report_next(s, e);
            &&& a.op.is_terminal() <==> t == ReportStep::Finished
            &&& fails_loudly(a)
            &&& s != ReportStep::Finished ==> report_rank(t) < report_rank(s)
        }),
{
}

/// `report_next` as a transition function.
pub open spec fn report_machine() -> spec_fn(ReportStep, EventView) -> (ReportStep, ActionView) {
    |s: ReportStep, e: EventView| report_next(s, e)
}

/// The dependency report ends, by success or by failure, within 7 replies, whatever they are.
pub proof fn status_ends(replies: Seq<EventView>)
    requires
        replies.len() >= 7,
    ensures
        exists|k: int| 0 <= k < 7 && #[trigger] replay(report_machine(), ReportStep::Start, replies)[k].op.is_terminal(),
{
    let rank = |s: ReportStep| report_rank(s);
    let done = |s: ReportStep| s == ReportStep::Finished;
    assert forall|s: ReportStep, e: EventView|
        #[trigger] report_machine()(s, e).1.op.is_terminal() <==> done(report_machine()(s, e).0) by {
        status_progresses(s, e);
    }
    assert forall|s: ReportStep, e: EventView| !done(s) implies rank(#[trigger] report_machine()(s, e).0) < rank(s) by {
        status_progresses(s, e);
    }
    lemma_ends_within(report_machine(), rank, done, ReportStep::Start, replies);
}

/// How many of the three macFUSE locations the report probes for the
/// replies `replies`: it stops at the first one that exists.
pub open spec fn fuse_probes(replies: Seq<EventView>) -> int {
    if replies[2].ok() {
        1
    } else if replies[3].ok() {
        2
    } else {
        3
    }
}

/// A whole dependency report.  With `n` the number of macFUSE locations
/// probed, macFUSE counts as installed when any probed location exists; the
/// report then prints the macFUSE line, the sshfs line for the next reply, and
/// ends with the sshpass line, followed by the install-sshfs hint exactly when
/// macFUSE or sshfs is missing.  No action before the last one ends the report.
pub proof fn status_report_run(replies: Seq<EventView>)
    requires
        replies.len() >= 7,
    ensures
        ({
            let n = fuse_probes(replies);
            let macfuse = replies[2].ok() || replies[3].ok() || replies[4].ok();
            let sshfs = replies[2 + n].ok();
            let run = replay(report_machine(), ReportStep::Start, replies);
            &&& run[0].say == seq![LineView::Stdout("=== 의존성 상태 ===\n"@)]
            &&& run[1].say == seq![LineView::Stdout("[brew] "@ + installed_mark(replies[1].ok()))]
            &&& run[1 + n].say == seq![LineView::Stdout("[macFUSE] "@ + installed_mark(macfuse))]
            &&& run[2 + n].say == seq![LineView::Stdout("[sshfs] "@ + installed_mark(sshfs))]
            &&& run[3 + n].op == OpView::Finish
            &&& run[3 + n].say[0] == LineView::Stdout("[sshpass] "@ + installed_mark(replies[3 + n].ok()))
            &&& run[3 + n].say.len() == (if !macfuse || !sshfs { 2int } else { 1int })
            &&& (!macfuse || !sshfs) ==> run[3 + n].say[1] == LineView::Stdout(
                "\n  [!] sshfs 마운트를 사용하려면: mac-host-commands setup install-sshfs"@,
            )
            &&& forall|j: int| 0 <= j < 3 + n ==> !(#[trigger] run[j]).op.is_terminal()
        }),
{
    let m = report_machine();
    let st = |k: nat| state_after(m, ReportStep::Start, replies, k);
    reveal_with_fuel(state_after, 8);
    assert(st(0) == ReportStep::Start);
    assert(st(1) == ReportStep::Brew);
    assert(st(2) == ReportStep::MacfuseBundle);
    let n = fuse_probes(replies);
    let macfuse = replies[2].ok() || replies[3].ok() || replies[4].ok();
    if n == 1 {
        assert(st(3) == ReportStep::Sshfs { macfuse: true });
        assert(st(4) == ReportStep::Sshpass { macfuse: true, sshfs: replies[3].ok() });
    } else if n == 2 {
        assert(st(3) == ReportStep::MacfuseLocalLib);
        assert(st(4) == ReportStep::Sshfs { macfuse: true });
        assert(st(5) == ReportStep::Sshpass { macfuse: true, sshfs: replies[4].ok() });
    } else {
        assert(st(3) == ReportStep::MacfuseLocalLib);
        assert(st(4) == ReportStep::MacfuseBrewLib);
        assert(st(5) == ReportStep::Sshfs { macfuse: replies[4].ok() });
        assert(st(6) == ReportStep::Sshpass { macfuse: replies[4].ok(), sshfs: replies[5].ok() });
    }
    assert forall|j: int| 0 <= j <= 3 + n implies #[trigger] replay(m, ReportStep::Start, replies)[j] == m(
        st(j as nat),
        replies[j],
    ).1 by {
        lemma_replay_at(m, ReportStep::Start, replies, j);
    }
    let run = replay(m, ReportStep::Start, replies);
    assert(run[0] == m(st(0), replies[0]).1);
    assert(run[1] == m(st(1), replies[1]).1);
    assert(run[1 + n] == m(st((1 + n) as nat), replies[1 + n]).1);
    assert(run[2 + n] == m(st((2 + n) as nat), replies[2 + n]).1);
    assert(run[3 + n] == m(st((3 + n) as nat), replies[3 + n]).1);
    let last = run[3 + n].say;
    let first = seq![LineView::Stdout("[sshpass] "@ + installed_mark(replies[3 + n].ok()))];
    assert(first + Seq::<LineView>::empty() =~= first);
    assert forall|j: int| 0 <= j < 3 + n implies !(#[trigger] run[j]).op.is_terminal() by {
        assert(run[j] == m(st(j as nat), replies[j]).1);
    }
}

} // verus!
