//! Bringing a fresh host up: sshpass, then macFUSE and sshfs, then the
//! configuration.
use crate::plan::{
    act, fails_loudly, join, lemma_ends_within, lines_view, out, replay, say0, say1, say2, Action, ActionView,
    Event, EventView, Line, LineView, Op, OpView,
};
use crate::setup::sshfs::{brew_probe_op, install_sshfs, install_sshfs_progresses, sshfs_next, sshfs_rank, SshfsStep};
use crate::setup::sshpass::{
    install_sshpass, install_sshpass_progresses, sshpass_next, sshpass_rank, SshpassStep,
};
use vstd::prelude::*;

verus! {

/// Where the host bootstrap stands.
#[derive(Debug)]
pub enum HostBootstrapStep {
    /// Nothing done yet.
    Start,
    /// Installing sshpass.
    Sshpass(SshpassStep),
    /// Installing macFUSE and sshfs.
    Sshfs(SshfsStep),
    /// Waiting for the configuration to be written.
    InitConfig,
    /// The bootstrap is over.
    Finished,
}

/// Installing sshfs from its start, after the lines `pre`.
pub open spec fn host_enter_sshfs(pre: Seq<LineView>, p: SshfsStep, e: EventView) -> (HostBootstrapStep, ActionView) {
    let (q, a) = sshfs_next(p, e);
    match a.op {
        OpView::Finish => (
            HostBootstrapStep::InitConfig,
            ActionView {
                say: pre + a.say + seq![LineView::Stdout("\n--- [3/3] 설정 초기화 ---"@)],
                op: OpView::InitConfig,
            },
        ),
        OpView::Exit { .. } => (HostBootstrapStep::Finished, ActionView { say: pre + a.say, op: a.op }),
        _ => (HostBootstrapStep::Sshfs(q), ActionView { say: pre + a.say, op: a.op }),
    }
}

/// One step of installing sshpass, after the lines `pre`; its end starts sshfs.
pub open spec fn host_enter_sshpass(pre: Seq<LineView>, p: SshpassStep, e: EventView) -> (HostBootstrapStep, ActionView) {
    let (q, a) = sshpass_next(p, e);
    match a.op {
        OpView::Finish => host_enter_sshfs(
            pre + a.say + seq![LineView::Stdout("\n--- [2/3] macFUSE + sshfs ---"@)],
            SshfsStep::Start,
            EventView::Done,
        ),
        OpView::Exit { .. } => (HostBootstrapStep::Finished, ActionView { say: pre + a.say, op: a.op }),
        _ => (HostBootstrapStep::Sshpass(q), ActionView { say: pre + a.say, op: a.op }),
    }
}

/// What the host bootstrap does on each reply: it runs the two installers in
/// turn, passing their lines and operations through, stops where one of them
/// fails, and ends by writing the configuration.
pub open spec fn host_bootstrap_next(s: HostBootstrapStep, e: EventView) -> (HostBootstrapStep, ActionView) {
    match s {
        HostBootstrapStep::Start => host_enter_sshpass(
            seq![LineView::Stdout("=== Mac 호스트 부트스트랩 ===\n"@), LineView::Stdout("--- [1/3] sshpass ---"@)],
            SshpassStep::Start,
            e,
        ),
        HostBootstrapStep::Sshpass(p) => host_enter_sshpass(seq![], p, e),
        HostBootstrapStep::Sshfs(p) => host_enter_sshfs(seq![], p, e),
        HostBootstrapStep::InitConfig => (
            HostBootstrapStep::Finished,
            ActionView { say: seq![LineView::Stdout("\n=== 부트스트랩 완료 ==="@)], op: OpView::Finish },
        ),
        HostBootstrapStep::Finished => (HostBootstrapStep::Finished, ActionView { say: seq![], op: OpView::Finish }),
    }
}

/// How many replies the host bootstrap can still take at most.
pub open spec fn host_bootstrap_rank(s: HostBootstrapStep) -> nat {
    match s {
        HostBootstrapStep::Start => 14,
        HostBootstrapStep::Sshpass(p) => sshpass_rank(p) + 9,
        HostBootstrapStep::Sshfs(p) => sshfs_rank(p) + 2,
        HostBootstrapStep::InitConfig => 1,
        HostBootstrapStep::Finished => 0,
    }
}

fn enter_sshfs(pre: Vec<Line>, p: SshfsStep, e: Event) -> (r: (HostBootstrapStep, Action))
    ensures
        (r.0, r.1@) == host_enter_sshfs(lines_view(pre@), p, e@),
{
    let (q, a) = install_sshfs(p, e);
    let Action { say, op } = a;
    match op {
        Op::Finish => {
            let say = join(join(pre, say), say1(out("\n--- [3/3] 설정 초기화 ---")));
            (HostBootstrapStep::InitConfig, act(say, Op::InitConfig))
        },
        Op::Exit { code } => (HostBootstrapStep::Finished, act(join(pre, say), Op::Exit { code })),
        op => (HostBootstrapStep::Sshfs(q), act(join(pre, say), op)),
    }
}

fn enter_sshpass(pre: Vec<Line>, p: SshpassStep, e: Event) -> (r: (HostBootstrapStep, Action))
    ensures
        (r.0, r.1@) == host_enter_sshpass(lines_view(pre@), p, e@),
{
    let (q, a) = install_sshpass(p, e);
    let Action { say, op } = a;
    match op {
        Op::Finish => {
            let say = join(join(pre, say), say1(out("\n--- [2/3] macFUSE + sshfs ---")));
            enter_sshfs(say, SshfsStep::Start, Event::Done)
        },
        Op::Exit { code } => (HostBootstrapStep::Finished, act(join(pre, say), Op::Exit { code })),
        op => (HostBootstrapStep::Sshpass(q), act(join(pre, say), op)),
    }
}

/// One step of bringing a fresh host up: given where the bootstrap stands and
/// the reply to its last operation, where it goes, what it prints and what it
/// asks for next.  A bootstrap starts at `HostBootstrapStep::Start` with
/// `Event::Done`.
pub fn bootstrap(s: HostBootstrapStep, e: Event) -> (r: (HostBootstrapStep, Action))
    ensures
        (r.0, r.1@) == host_bootstrap_next(s, e@),
{
    match s {
        HostBootstrapStep::Start => enter_sshpass(
            say2(out("=== Mac 호스트 부트스트랩 ===\n"), out("--- [1/3] sshpass ---")),
            SshpassStep::Start,
            e,
        ),
        HostBootstrapStep::Sshpass(p) => enter_sshpass(say0(), p, e),
        HostBootstrapStep::Sshfs(p) => enter_sshfs(say0(), p, e),
        HostBootstrapStep::InitConfig => (
            HostBootstrapStep::Finished,
            act(say1(out("\n=== 부트스트랩 완료 ===")), Op::Finish),
        ),
        HostBootstrapStep::Finished => (HostBootstrapStep::Finished, act(say0(), Op::Finish)),
    }
}

/// Every reply brings the host bootstrap strictly closer to its end, and it
/// asks for nothing more exactly once it is over.
pub proof fn bootstrap_progresses(s: HostBootstrapStep, e: EventView)
    ensures
        ({
            let (t, a) = host_bootstrap_next(s, e);
            &&& a.op.is_terminal() <==> t is Finished
            &&& fails_loudly(a)
            &&& !(s is Finished) ==> host_bootstrap_rank(t) < host_bootstrap_rank(s)
        }),
{
    match s {
        HostBootstrapStep::Start => {
            install_sshpass_progresses(SshpassStep::Start, e);
        },
        HostBootstrapStep::Sshpass(p) => {
            install_sshpass_progresses(p, e);
            install_sshfs_progresses(SshfsStep::Start, EventView::Done);
        },
        HostBootstrapStep::Sshfs(p) => {
            install_sshfs_progresses(p, e);
        },
        _ => {},
    }
}

/// `host_bootstrap_next` as a transition function.
pub open spec fn host_bootstrap_machine() -> spec_fn(HostBootstrapStep, EventView) -> (HostBootstrapStep, ActionView) {
    |s: HostBootstrapStep, e: EventView| host_bootstrap_next(s, e)
}

/// The host bootstrap ends, by success or by failure, within 14 replies, whatever they are.
pub proof fn bootstrap_ends(replies: Seq<EventView>)
    requires
        replies.len() >= 14,
    ensures
        exists|k: int|
            0 <= k < 14 && #[trigger] replay(host_bootstrap_machine(), HostBootstrapStep::Start, replies)[k].op.is_terminal(),
{
    let rank = |s: HostBootstrapStep| host_bootstrap_rank(s);
    let done = |s: HostBootstrapStep| s is Finished;
    assert forall|s: HostBootstrapStep, e: EventView|
        #[trigger] host_bootstrap_machine()(s, e).1.op.is_terminal() <==> done(host_bootstrap_machine()(s, e).0) by {
        bootstrap_progresses(s, e);
    }
    assert forall|s: HostBootstrapStep, e: EventView|
        !done(s) implies rank(#[trigger] host_bootstrap_machine()(s, e).0) < rank(s) by {
        bootstrap_progresses(s, e);
    }
    lemma_ends_within(host_bootstrap_machine(), rank, done, HostBootstrapStep::Start, replies);
}

/// While sshpass is being installed the bootstrap does exactly what installing
/// sshpass does.  When that procedure finishes, the bootstrap prints the second
/// header and goes on with the first operation of installing sshfs, `which
/// brew`; when it fails, the bootstrap fails with it.
pub proof fn bootstrap_hands_sshpass_over(p: SshpassStep, e: EventView)
    ensures
        ({
            let (q, a) = sshpass_next(p, e);
            let (t, b) = host_bootstrap_next(HostBootstrapStep::Sshpass(p), e);
            &&& a.op is Finish ==> {
                &&& b.op == brew_probe_op()
                &&& b.say == a.say + seq![LineView::Stdout("\n--- [2/3] macFUSE + sshfs ---"@)]
                &&& t == HostBootstrapStep::Sshfs(SshfsStep::Brew)
            }
            &&& a.op is Exit ==> b == a && t is Finished
            &&& !a.op.is_terminal() ==> b == a && t == HostBootstrapStep::Sshpass(q)
        }),
{
    let a = sshpass_next(p, e).1;
    assert(Seq::<LineView>::empty() + a.say =~= a.say);
    let h = seq![LineView::Stdout("\n--- [2/3] macFUSE + sshfs ---"@)];
    assert(Seq::<LineView>::empty() + a.say + h + Seq::<LineView>::empty() =~= a.say + h);
}

/// While sshfs is being installed the bootstrap does exactly what installing
/// sshfs does.  When that procedure finishes, the bootstrap prints the third
/// header and initialises the configuration; when it fails, the bootstrap
/// fails with it.
pub proof fn bootstrap_hands_sshfs_over(p: SshfsStep, e: EventView)
    ensures
        ({
            let (q, a) = sshfs_next(p, e);
            let (t, b) = host_bootstrap_next(HostBootstrapStep::Sshfs(p), e);
            &&& a.op is Finish ==> {
                &&& b.op == OpView::InitConfig
                &&& b.say == a.say + seq![LineView::Stdout("\n--- [3/3] 설정 초기화 ---"@)]
                &&& t is InitConfig
            }
            &&& a.op is Exit ==> b == a && t is Finished
            &&& !a.op.is_terminal() ==> b == a && t == HostBootstrapStep::Sshfs(q)
        }),
{
    let a = sshfs_next(p, e).1;
    assert(Seq::<LineView>::empty() + a.say =~= a.say);
}

/// The configuration is initialised only in the step in which installing sshfs
/// finishes, and the bootstrap finishes only after the configuration step (or
/// once it is over): neither sshpass nor sshfs alone ends it.
pub proof fn bootstrap_ends_only_after_config(s: HostBootstrapStep, e: EventView)
    ensures
        ({
            let (t, b) = host_bootstrap_next(s, e);
            &&& b.op is InitConfig ==> (s matches HostBootstrapStep::Sshfs(p) && sshfs_next(p, e).1.op is Finish)
            &&& b.op is Finish ==> s is InitConfig || s is Finished
        }),
{
}

} // verus!
