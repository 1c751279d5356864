//! Installing sshpass through Homebrew.
use crate::plan::{lemma_replay_at, state_after, 
    act, args1, args2, err, fails_loudly, lemma_ends_within, lemma_gated, lemma_replay_index, out, replay,
    say0, say1, Action, ActionView, Event, EventView, LineView, Op, OpView,
};
use vstd::prelude::*;

verus! {

/// Where `install_sshpass` stands.
#[derive(PartialEq, Eq, Structural, Clone, Copy, Debug)]
pub enum SshpassStep {
    /// Nothing done yet.
    Start,
    /// Waiting for `which sshpass`.
    Probe,
    /// Waiting for `brew tap`.
    Tap,
    /// Waiting for `brew install`.
    Install,
    /// The procedure is over.
    Finished,
}

pub open spec fn sshpass_probe_op() -> OpView {
    OpView::Query { program: "which"@, args: seq!["sshpass"@] }
}

pub open spec fn sshpass_install_op() -> OpView {
    OpView::Interactive { program: "brew"@, args: seq!["install"@, "hudochenkov/sshpass/sshpass"@] }
}

/// What `install_sshpass` does on each reply.
pub open spec fn sshpass_next(s: SshpassStep, e: EventView) -> (SshpassStep, ActionView) {
    match s {
        SshpassStep::Start => (SshpassStep::Probe, ActionView { say: seq![], op: sshpass_probe_op() }),
        SshpassStep::Probe => if e.ok() {
            (
                SshpassStep::Finished,
                ActionView {
                    say: seq![LineView::Stdout("[setup] sshpass 이미 설치됨"@)],
                    op: OpView::Finish,
                },
            )
        } else {
            (
                SshpassStep::Tap,
                ActionView {
                    say: seq![LineView::Stdout("[setup] sshpass 설치 중..."@)],
                    op: OpView::Interactive { program: "brew"@, args: seq!["tap"@, "hudochenkov/sshpass"@] },
                },
            )
        },
        SshpassStep::Tap => (SshpassStep::Install, ActionView { say: seq![], op: sshpass_install_op() }),
        SshpassStep::Install => if e.ok() {
            (
                SshpassStep::Finished,
                ActionView { say: seq![LineView::Stdout("[setup] sshpass 설치 완료"@)], op: OpView::Finish },
            )
        } else {
            (
                SshpassStep::Finished,
                ActionView {
                    say: seq![LineView::Stderr("[setup] sshpass 설치 실패"@)],
                    op: OpView::Exit { code: 1 },
                },
            )
        },
        SshpassStep::Finished => (SshpassStep::Finished, ActionView { say: seq![], op: OpView::Finish }),
    }
}

/// How many replies `install_sshpass` can still take at most.
pub open spec fn sshpass_rank(s: SshpassStep) -> nat {
    match s {
        SshpassStep::Start => 4,
        SshpassStep::Probe => 3,
        SshpassStep::Tap => 2,
        SshpassStep::Install => 1,
        SshpassStep::Finished => 0,
    }
}

/// One step of installing sshpass: given where the procedure stands and the
/// reply to its last operation, where it goes, what it prints and what it asks
/// for next.  A procedure starts at `SshpassStep::Start` with `Event::Done`.
pub fn install_sshpass(s: SshpassStep, e: Event) -> (r: (SshpassStep, Action))
    ensures
        (r.0, r.1@) == sshpass_next(s, e@),
{
    match s {
        SshpassStep::Start => (
            SshpassStep::Probe,
            act(say0(), Op::Query { program: String::from_str("which"), args: args1("sshpass") }),
        ),
        SshpassStep::Probe => if e.ok() {
            (SshpassStep::Finished, act(say1(out("[setup] sshpass 이미 설치됨")), Op::Finish))
        } else {
            (
                SshpassStep::Tap,
                act(
                    say1(out("[setup] sshpass 설치 중...")),
                    Op::Interactive { program: String::from_str("brew"), args: args2("tap", "hudochenkov/sshpass") },
                ),
            )
        },
        SshpassStep::Tap => (
            SshpassStep::Install,
            act(
                say0(),
                Op::Interactive {
                    program: String::from_str("brew"),
                    args: args2("install", "hudochenkov/sshpass/sshpass"),
                },
            ),
        ),
        SshpassStep::Install => if e.ok() {
            (SshpassStep::Finished, act(say1(out("[setup] sshpass 설치 완료")), Op::Finish))
        } else {
            (SshpassStep::Finished, act(say1(err("[setup] sshpass 설치 실패")), Op::Exit { code: 1 }))
        },
        SshpassStep::Finished => (SshpassStep::Finished, act(say0(), Op::Finish)),
    }
}

/// Every reply brings installing sshpass strictly closer to its end, and the
/// procedure asks for nothing more exactly once it is over.
pub proof fn install_sshpass_progresses(s: SshpassStep, e: EventView)
    ensures
        ({
            let (t, a) = sshpass_next(s, e);
            &&& a.op.is_terminal() <==> t == SshpassStep::Finished
            &&& fails_loudly(a)
            &&& s != SshpassStep::Finished ==> sshpass_rank(t) < sshpass_rank(s)
        }),
{
}

/// `install_sshpass` as a transition function.
pub open spec fn sshpass_machine() -> spec_fn(SshpassStep, EventView) -> (SshpassStep, ActionView) {
    |s: SshpassStep, e: EventView| sshpass_next(s, e)
}

/// What installing sshpass does when handed `replies`, the first of which starts it.
pub open spec fn sshpass_run(replies: Seq<EventView>) -> Seq<ActionView> {
    replay(sshpass_machine(), SshpassStep::Start, replies)
}

/// sshpass is installed only after `which sshpass` has reported it missing.
pub proof fn sshpass_installed_only_when_missing(replies: Seq<EventView>, k: int)
    requires
        0 <= k < replies.len(),
        sshpass_run(replies)[k].op == sshpass_install_op(),
    ensures
        exists|j: int|
            0 <= j < k && #[trigger] sshpass_run(replies)[j].op == sshpass_probe_op() && !replies[j + 1].ok(),
{
    let good = |s: SshpassStep| s == SshpassStep::Tap;
    let entry = |s: SshpassStep| s == SshpassStep::Probe;
    let gate = |e: EventView| !e.ok();
    let target = |op: OpView| op == sshpass_install_op();
    assert forall|s: SshpassStep, e: EventView|
        target(#[trigger] sshpass_machine()(s, e).1.op) implies good(s) by {
        reveal_strlit("tap");
        reveal_strlit("install");
        let tap: Seq<Seq<char>> = seq!["tap"@, "hudochenkov/sshpass"@];
        let install: Seq<Seq<char>> = seq!["install"@, "hudochenkov/sshpass/sshpass"@];
        assert(tap[0].len() != install[0].len());
        assert(tap != install);
    }
    lemma_gated(sshpass_machine(), |s| true,
        good,
        entry,
        gate,
        sshpass_probe_op(),
        target,
        SshpassStep::Start,
        replies,
        k,
    );
}

/// When `which sshpass` finds it, the procedure reports it and stops.
pub proof fn sshpass_present_is_left_alone(start: EventView, probe: EventView)
    requires
        probe.ok(),
    ensures
        sshpass_run(seq![start, probe]) == seq![
            ActionView { say: seq![], op: sshpass_probe_op() },
            ActionView { say: seq![LineView::Stdout("[setup] sshpass 이미 설치됨"@)], op: OpView::Finish },
        ],
{
    let rs = seq![start, probe];
    assert(rs.drop_first() =~= seq![probe]);
    lemma_replay_index(sshpass_machine(), SshpassStep::Start, rs, 0);
    lemma_replay_index(sshpass_machine(), SshpassStep::Start, rs, 1);
    lemma_replay_index(sshpass_machine(), SshpassStep::Probe, rs.drop_first(), 0);
    assert(sshpass_run(rs) =~= seq![
        ActionView { say: seq![], op: sshpass_probe_op() },
        ActionView { say: seq![LineView::Stdout("[setup] sshpass 이미 설치됨"@)], op: OpView::Finish },
    ]);
}

/// Installing sshpass ends, by success or by failure, within 4 replies, whatever they are.
pub proof fn install_sshpass_ends(replies: Seq<EventView>)
    requires
        replies.len() >= 4,
    ensures
        exists|k: int| 0 <= k < 4 && #[trigger] replay(sshpass_machine(), SshpassStep::Start, replies)[k].op.is_terminal(),
{
    let rank = |s: SshpassStep| sshpass_rank(s);
    let done = |s: SshpassStep| s == SshpassStep::Finished;
    assert forall|s: SshpassStep, e: EventView|
        #[trigger] sshpass_machine()(s, e).1.op.is_terminal() <==> done(sshpass_machine()(s, e).0) by {
        install_sshpass_progresses(s, e);
    }
    assert forall|s: SshpassStep, e: EventView| !done(s) implies rank(#[trigger] sshpass_machine()(s, e).0) < rank(s) by {
        install_sshpass_progresses(s, e);
    }
    lemma_ends_within(sshpass_machine(), rank, done, SshpassStep::Start, replies);
}

/// A whole run of installing sshpass: a present sshpass is left alone;
/// otherwise the formula's tap is added and the formula installed, whatever
/// the tap gave, and the run ends by success or with exit code 1 as the install
/// did.
pub proof fn install_sshpass_run(replies: Seq<EventView>)
    requires
        replies.len() >= 4,
    ensures
        ({
            let run = sshpass_run(replies);
            &&& run[0].op == sshpass_probe_op()
            &&& replies[1].ok() ==> run[1].op == OpView::Finish
            &&& !replies[1].ok() ==> {
                &&& run[1].op == OpView::Interactive { program: "brew"@, args: seq!["tap"@, "hudochenkov/sshpass"@] }
                &&& run[2].op == sshpass_install_op()
                &&& run[3].op == if replies[3].ok() { OpView::Finish } else { OpView::Exit { code: 1 } }
            }
        }),
{
    let start = SshpassStep::Start;
    let m = sshpass_machine();
    reveal_with_fuel(state_after, 5);
    assert forall|j: int| 0 <= j < 4 implies #[trigger] sshpass_run(replies)[j] == m(
        state_after(m, start, replies, j as nat),
        replies[j],
    ).1 by {
        lemma_replay_at(m, start, replies, j);
    }
}

} // verus!
