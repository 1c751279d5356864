//! Bringing VeilKey up on the host: the client, the local vault, the tunnel to
//! VaultCenter and the shell profile, in that order.
use crate::plan::{
    act, fails_loudly, join, lemma_ends_within, lines_view, out, replay, say0, say1, say2, Action, ActionView,
    Event, EventView, Line, LineView, Op, OpView,
};
use crate::veil::cli::{
    cli_next, cli_rank, cli_start, install_cli, install_cli_progresses, CliStep, CliStepView,
};
use crate::veil::localvault::{localvault_probe_op, LocalvaultStage, 
    install_localvault, install_localvault_progresses, localvault_next, localvault_rank, localvault_start,
    LocalvaultStep, LocalvaultStepView,
};
use crate::veil::profile::{
    profile_next, profile_rank, setup_profile, setup_profile_progresses, ProfileStage, ProfileStep,
    ProfileStepView,
};
use crate::veil::tunnel::{ConnectStage, 
    connect_next, connect_rank, connect_start, connect_vaultcenter, connect_vaultcenter_progresses,
    ConnectStep, ConnectStepView,
};
use crate::veil::names::{profile_content, profile_path};
use vstd::prelude::*;

verus! {

/// Where the VeilKey bootstrap stands.
#[derive(Debug)]
pub enum VeilBootstrapStep {
    /// Nothing done yet, for the home directory `home`.
    Start { home: String },
    /// Installing the client.
    Cli(CliStep),
    /// Installing the local vault.
    Localvault(LocalvaultStep),
    /// Connecting to VaultCenter; the home directory is kept for the profile.
    Connect { sub: ConnectStep, home: String },
    /// Writing the shell profile.
    Profile(ProfileStep),
    /// The bootstrap is over.
    Finished,
}

pub enum VeilBootstrapStepView {
    Start { home: Seq<char> },
    Cli(CliStepView),
    Localvault(LocalvaultStepView),
    Connect { sub: ConnectStepView, home: Seq<char> },
    Profile(ProfileStepView),
    Finished,
}

impl View for VeilBootstrapStep {
    type V = VeilBootstrapStepView;

    open spec fn view(&self) -> VeilBootstrapStepView {
        match self {
            VeilBootstrapStep::Start { home } => VeilBootstrapStepView::Start { home: home@ },
            VeilBootstrapStep::Cli(p) => VeilBootstrapStepView::Cli(p@),
            VeilBootstrapStep::Localvault(p) => VeilBootstrapStepView::Localvault(p@),
            VeilBootstrapStep::Connect { sub, home } => VeilBootstrapStepView::Connect { sub: sub@, home: home@ },
            VeilBootstrapStep::Profile(p) => VeilBootstrapStepView::Profile(p@),
            VeilBootstrapStep::Finished => VeilBootstrapStepView::Finished,
        }
    }
}

pub open spec fn profile_start(home: Seq<char>) -> ProfileStepView {
    ProfileStepView { stage: ProfileStage::Start, home }
}

/// One step of writing the profile, after the lines `pre`; its end ends the bootstrap.
pub open spec fn veil_enter_profile(
    pre: Seq<LineView>, p: ProfileStepView, e: EventView,
) -> (VeilBootstrapStepView, ActionView) {
    let (q, a) = profile_next(p, e);
    match a.op {
        OpView::Finish => (
            VeilBootstrapStepView::Finished,
            ActionView {
                say: pre + a.say + seq![LineView::Stdout("\n=== VeilKey 부트스트랩 완료 ==="@)],
                op: OpView::Finish,
            },
        ),
        OpView::Exit { .. } => (VeilBootstrapStepView::Finished, ActionView { say: pre + a.say, op: a.op }),
        _ => (VeilBootstrapStepView::Profile(q), ActionView { say: pre + a.say, op: a.op }),
    }
}

/// One step of connecting, after the lines `pre`; its end starts the profile.
pub open spec fn veil_enter_connect(
    pre: Seq<LineView>, p: ConnectStepView, home: Seq<char>, e: EventView,
) -> (VeilBootstrapStepView, ActionView) {
    let (q, a) = connect_next(p, e);
    match a.op {
        OpView::Finish => veil_enter_profile(
            pre + a.say + seq![LineView::Stdout("\n--- [4/4] 셸 프로필 설정 ---"@)],
            profile_start(home),
            EventView::Done,
        ),
        OpView::Exit { .. } => (VeilBootstrapStepView::Finished, ActionView { say: pre + a.say, op: a.op }),
        _ => (VeilBootstrapStepView::Connect { sub: q, home }, ActionView { say: pre + a.say, op: a.op }),
    }
}

/// One step of installing the local vault, after the lines `pre`; its end
/// starts the connection.
pub open spec fn veil_enter_localvault(
    pre: Seq<LineView>, p: LocalvaultStepView, e: EventView,
) -> (VeilBootstrapStepView, ActionView) {
    let (q, a) = localvault_next(p, e);
    match a.op {
        OpView::Finish => veil_enter_connect(
            pre + a.say + seq![LineView::Stdout("\n--- [3/4] VaultCenter 연결 ---"@)],
            connect_start(),
            q.home,
            EventView::Done,
        ),
        OpView::Exit { .. } => (VeilBootstrapStepView::Finished, ActionView { say: pre + a.say, op: a.op }),
        _ => (VeilBootstrapStepView::Localvault(q), ActionView { say: pre + a.say, op: a.op }),
    }
}

/// One step of installing the client, after the lines `pre`; its end starts
/// the local vault.
pub open spec fn veil_enter_cli(
    pre: Seq<LineView>, p: CliStepView, e: EventView,
) -> (VeilBootstrapStepView, ActionView) {
    let (q, a) = cli_next(p, e);
    match a.op {
        OpView::Finish => veil_enter_localvault(
            pre + a.say + seq![LineView::Stdout("\n--- [2/4] LocalVault 설치 ---"@)],
            localvault_start(q.home),
            EventView::Done,
        ),
        OpView::Exit { .. } => (VeilBootstrapStepView::Finished, ActionView { say: pre + a.say, op: a.op }),
        _ => (VeilBootstrapStepView::Cli(q), ActionView { say: pre + a.say, op: a.op }),
    }
}

/// What the VeilKey bootstrap does on each reply: it runs the four procedures
/// in turn, passing their lines and operations through, and stops where one
/// of them fails.
pub open spec fn veil_bootstrap_next(s: VeilBootstrapStepView, e: EventView) -> (VeilBootstrapStepView, ActionView) {
    match s {
        VeilBootstrapStepView::Start { home } => veil_enter_cli(
            seq![LineView::Stdout("=== VeilKey 부트스트랩 ===\n"@), LineView::Stdout("--- [1/4] veilkey-cli 설치 ---"@)],
            cli_start(home),
            e,
        ),
        VeilBootstrapStepView::Cli(p) => veil_enter_cli(seq![], p, e),
        VeilBootstrapStepView::Localvault(p) => veil_enter_localvault(seq![], p, e),
        VeilBootstrapStepView::Connect { sub, home } => veil_enter_connect(seq![], sub, home, e),
        VeilBootstrapStepView::Profile(p) => veil_enter_profile(seq![], p, e),
        VeilBootstrapStepView::Finished => (VeilBootstrapStepView::Finished, ActionView { say: seq![], op: OpView::Finish }),
    }
}

/// How many replies the VeilKey bootstrap can still take at most.
pub open spec fn veil_bootstrap_rank(s: VeilBootstrapStepView) -> nat {
    match s {
        VeilBootstrapStepView::Start { .. } => 28,
        VeilBootstrapStepView::Cli(p) => cli_rank(p.stage) + 20,
        VeilBootstrapStepView::Localvault(p) => localvault_rank(p.stage) + 10,
        VeilBootstrapStepView::Connect { sub, .. } => connect_rank(sub.stage) + 5,
        VeilBootstrapStepView::Profile(p) => profile_rank(p.stage) + 1,
        VeilBootstrapStepView::Finished => 0,
    }
}

fn enter_profile(pre: Vec<Line>, p: ProfileStep, e: Event) -> (r: (VeilBootstrapStep, Action))
    ensures
        (r.0@, r.1@) == veil_enter_profile(lines_view(pre@), p@, e@),
{
    let (q, a) = setup_profile(p, e);
    let Action { say, op } = a;
    match op {
        Op::Finish => {
            let say = join(join(pre, say), say1(out("\n=== VeilKey 부트스트랩 완료 ===")));
            (VeilBootstrapStep::Finished, act(say, Op::Finish))
        },
        Op::Exit { code } => (VeilBootstrapStep::Finished, act(join(pre, say), Op::Exit { code })),
        op => (VeilBootstrapStep::Profile(q), act(join(pre, say), op)),
    }
}

fn enter_connect(pre: Vec<Line>, p: ConnectStep, home: String, e: Event) -> (r: (VeilBootstrapStep, Action))
    ensures
        (r.0@, r.1@) == veil_enter_connect(lines_view(pre@), p@, home@, e@),
{
    let (q, a) = connect_vaultcenter(p, e);
    let Action { say, op } = a;
    match op {
        Op::Finish => {
            let say = join(join(pre, say), say1(out("\n--- [4/4] 셸 프로필 설정 ---")));
            enter_profile(say, ProfileStep::new(home), Event::Done)
        },
        Op::Exit { code } => (VeilBootstrapStep::Finished, act(join(pre, say), Op::Exit { code })),
        op => (VeilBootstrapStep::Connect { sub: q, home }, act(join(pre, say), op)),
    }
}

fn enter_localvault(pre: Vec<Line>, p: LocalvaultStep, e: Event) -> (r: (VeilBootstrapStep, Action))
    ensures
        (r.0@, r.1@) == veil_enter_localvault(lines_view(pre@), p@, e@),
{
    let (q, a) = install_localvault(p, e);
    let Action { say, op } = a;
    match op {
        Op::Finish => {
            let say = join(join(pre, say), say1(out("\n--- [3/4] VaultCenter 연결 ---")));
            enter_connect(say, ConnectStep::new(), q.home, Event::Done)
        },
        Op::Exit { code } => (VeilBootstrapStep::Finished, act(join(pre, say), Op::Exit { code })),
        op => (VeilBootstrapStep::Localvault(q), act(join(pre, say), op)),
    }
}

fn enter_cli(pre: Vec<Line>, p: CliStep, e: Event) -> (r: (VeilBootstrapStep, Action))
    ensures
        (r.0@, r.1@) == veil_enter_cli(lines_view(pre@), p@, e@),
{
    let (q, a) = install_cli(p, e);
    let Action { say, op } = a;
    match op {
        Op::Finish => {
            let say = join(join(pre, say), say1(out("\n--- [2/4] LocalVault 설치 ---")));
            enter_localvault(say, LocalvaultStep::new(q.home), Event::Done)
        },
        Op::Exit { code } => (VeilBootstrapStep::Finished, act(join(pre, say), Op::Exit { code })),
        op => (VeilBootstrapStep::Cli(q), act(join(pre, say), op)),
    }
}

/// One step of bringing VeilKey up: given where the bootstrap stands and the
/// reply to its last operation, where it goes, what it prints and what it asks
/// for next.  A bootstrap starts at `VeilBootstrapStep::Start` with the home
/// directory and `Event::Done`.
pub fn bootstrap(s: VeilBootstrapStep, e: Event) -> (r: (VeilBootstrapStep, Action))
    ensures
        (r.0@, r.1@) == veil_bootstrap_next(s@, e@),
{
    match s {
        VeilBootstrapStep::Start { home } => enter_cli(
            say2(out("=== VeilKey 부트스트랩 ===\n"), out("--- [1/4] veilkey-cli 설치 ---")),
            CliStep::new(home),
            e,
        ),
        VeilBootstrapStep::Cli(p) => enter_cli(say0(), p, e),
        VeilBootstrapStep::Localvault(p) => enter_localvault(say0(), p, e),
        VeilBootstrapStep::Connect { sub, home } => enter_connect(say0(), sub, home, e),
        VeilBootstrapStep::Profile(p) => enter_profile(say0(), p, e),
        VeilBootstrapStep::Finished => (VeilBootstrapStep::Finished, act(say0(), Op::Finish)),
    }
}

/// Every reply brings the VeilKey bootstrap strictly closer to its end, and it
/// asks for nothing more exactly once it is over.
pub proof fn bootstrap_progresses(s: VeilBootstrapStepView, e: EventView)
    ensures
        ({
            let (t, a) = veil_bootstrap_next(s, e);
            &&& a.op.is_terminal() <==> t is Finished
            &&& fails_loudly(a)
            &&& !(s is Finished) ==> veil_bootstrap_rank(t) < veil_bootstrap_rank(s)
        }),
{
    match s {
        VeilBootstrapStepView::Start { home } => {
            install_cli_progresses(cli_start(home), e);
        },
        VeilBootstrapStepView::Cli(p) => {
            install_cli_progresses(p, e);
            let q = cli_next(p, e).0;
            install_localvault_progresses(localvault_start(q.home), EventView::Done);
        },
        VeilBootstrapStepView::Localvault(p) => {
            install_localvault_progresses(p, e);
            connect_vaultcenter_progresses(connect_start(), EventView::Done);
        },
        VeilBootstrapStepView::Connect { sub, home } => {
            connect_vaultcenter_progresses(sub, e);
            setup_profile_progresses(profile_start(home), EventView::Done);
        },
        VeilBootstrapStepView::Profile(p) => {
            setup_profile_progresses(p, e);
        },
        _ => {},
    }
}

/// `veil_bootstrap_next` as a transition function.
pub open spec fn veil_bootstrap_machine() -> spec_fn(VeilBootstrapStepView, EventView) -> (VeilBootstrapStepView, ActionView) {
    |s: VeilBootstrapStepView, e: EventView| veil_bootstrap_next(s, e)
}

/// The VeilKey bootstrap ends, by success or by failure, within 28 replies, whatever they are.
pub proof fn bootstrap_ends(home: Seq<char>, replies: Seq<EventView>)
    requires
        replies.len() >= 28,
    ensures
        exists|k: int|
            0 <= k < 28 && #[trigger] replay(veil_bootstrap_machine(), VeilBootstrapStepView::Start { home }, replies)[k].op.is_terminal(),
{
    let rank = |s: VeilBootstrapStepView| veil_bootstrap_rank(s);
    let done = |s: VeilBootstrapStepView| s is Finished;
    assert forall|s: VeilBootstrapStepView, e: EventView|
        #[trigger] veil_bootstrap_machine()(s, e).1.op.is_terminal() <==> done(veil_bootstrap_machine()(s, e).0) by {
        bootstrap_progresses(s, e);
    }
    assert forall|s: VeilBootstrapStepView, e: EventView|
        !done(s) implies rank(#[trigger] veil_bootstrap_machine()(s, e).0) < rank(s) by {
        bootstrap_progresses(s, e);
    }
    lemma_ends_within(veil_bootstrap_machine(), rank, done, VeilBootstrapStepView::Start { home }, replies);
}

/// While the client is being installed the bootstrap does exactly what
/// installing the client does.  When that procedure finishes, the bootstrap
/// prints the second header and starts installing the local vault for the same
/// home directory, with `which veilkey-localvault`; when it fails, the
/// bootstrap fails with it.
pub proof fn bootstrap_hands_cli_over(p: CliStepView, e: EventView)
    ensures
        ({
            let (q, a) = cli_next(p, e);
            let (t, b) = veil_bootstrap_next(VeilBootstrapStepView::Cli(p), e);
            &&& a.op is Finish ==> {
                &&& b.op == localvault_probe_op()
                &&& b.say == a.say + seq![LineView::Stdout("\n--- [2/4] LocalVault 설치 ---"@)]
                &&& t == VeilBootstrapStepView::Localvault(
                    LocalvaultStepView {
                        stage: LocalvaultStage::Probe,
                        home: p.home,
                        host: Seq::empty(),
                        user: Seq::empty(),
                    },
                )
            }
            &&& a.op is Exit ==> b == a && t is Finished
            &&& !a.op.is_terminal() ==> b == a && t == VeilBootstrapStepView::Cli(q)
        }),
{
    let a = cli_next(p, e).1;
    assert(Seq::<LineView>::empty() + a.say =~= a.say);
}

/// While the local vault is being installed the bootstrap does exactly what
/// installing it does.  When that procedure finishes, the bootstrap prints the
/// third header and starts connecting to VaultCenter by loading the host
/// configuration, keeping the home directory; when it fails, the bootstrap
/// fails with it.
pub proof fn bootstrap_hands_localvault_over(p: LocalvaultStepView, e: EventView)
    ensures
        ({
            let (q, a) = localvault_next(p, e);
            let (t, b) = veil_bootstrap_next(VeilBootstrapStepView::Localvault(p), e);
            &&& a.op is Finish ==> {
                &&& b.op == OpView::LoadConfig
                &&& b.say == a.say + seq![LineView::Stdout("\n--- [3/4] VaultCenter 연결 ---"@)]
                &&& t == VeilBootstrapStepView::Connect {
                    sub: ConnectStepView { stage: ConnectStage::Config, host: Seq::empty(), user: Seq::empty() },
                    home: p.home,
                }
            }
            &&& a.op is Exit ==> b == a && t is Finished
            &&& !a.op.is_terminal() ==> b == a && t == VeilBootstrapStepView::Localvault(q)
        }),
{
    let a = localvault_next(p, e).1;
    assert(Seq::<LineView>::empty() + a.say =~= a.say);
}

/// While the tunnel is being connected the bootstrap does exactly what
/// connecting does.  However connecting finishes (tunnel already there, opened,
/// or failed to open), the bootstrap prints the fourth header and writes the
/// shell profile of its home directory next.
pub proof fn bootstrap_hands_connect_over(p: ConnectStepView, home: Seq<char>, e: EventView)
    ensures
        ({
            let (q, a) = connect_next(p, e);
            let (t, b) = veil_bootstrap_next(VeilBootstrapStepView::Connect { sub: p, home }, e);
            &&& a.op is Finish ==> {
                &&& b.op == OpView::WriteText {
                    path: profile_path(home),
                    content: profile_content(),
                    context: ".veilkey.sh 생성 실패"@,
                }
                &&& b.say == a.say + seq![LineView::Stdout("\n--- [4/4] 셸 프로필 설정 ---"@)]
                &&& t == VeilBootstrapStepView::Profile(ProfileStepView { stage: ProfileStage::Written, home })
            }
            &&& a.op is Exit ==> b == a && t is Finished
            &&& !a.op.is_terminal() ==> b == a && t == VeilBootstrapStepView::Connect { sub: q, home }
        }),
{
    let a = connect_next(p, e).1;
    assert(Seq::<LineView>::empty() + a.say =~= a.say);
    assert(Seq::<LineView>::empty() + a.say + seq![LineView::Stdout("\n--- [4/4] 셸 프로필 설정 ---"@)]
        + Seq::<LineView>::empty() =~= a.say + seq![LineView::Stdout("\n--- [4/4] 셸 프로필 설정 ---"@)]);
}

/// While the profile is being written the bootstrap does exactly what writing
/// it does; when that procedure finishes, so does the bootstrap, with its
/// closing line.
pub proof fn bootstrap_hands_profile_over(p: ProfileStepView, e: EventView)
    ensures
        ({
            let (q, a) = profile_next(p, e);
            let (t, b) = veil_bootstrap_next(VeilBootstrapStepView::Profile(p), e);
            &&& a.op is Finish ==> {
                &&& b.op == OpView::Finish
                &&& b.say == a.say + seq![LineView::Stdout("\n=== VeilKey 부트스트랩 완료 ==="@)]
                &&& t is Finished
            }
            &&& a.op is Exit ==> b == a && t is Finished
            &&& !a.op.is_terminal() ==> b == a && t == VeilBootstrapStepView::Profile(q)
        }),
{
    let a = profile_next(p, e).1;
    assert(Seq::<LineView>::empty() + a.say =~= a.say);
}

/// The VeilKey bootstrap finishes only in the step in which writing the
/// profile finishes (or once it is over): none of the earlier procedures ends
/// it by finishing.
pub proof fn bootstrap_finishes_only_after_profile(s: VeilBootstrapStepView, e: EventView)
    ensures
        veil_bootstrap_next(s, e).1.op is Finish ==> s is Finished || (s matches VeilBootstrapStepView::Profile(p)
            && profile_next(p, e).1.op is Finish),
{
}

} // verus!
