//! The ssh tunnel that makes VaultCenter reachable on a local port.
use crate::plan::{lemma_replay_at, state_after, 
    act, err, fails_loudly, labelled, lemma_ends_within, lemma_gated, out, replay, say0, say1, say2, Action,
    ActionView, Event, EventView, Line, LineView, Op, OpView,
};
use crate::text::{is_blank, is_blank_text};
use crate::veil::names::{
    make_tunnel_forward, make_tunnel_pattern, make_user_at_host, tunnel_forward, tunnel_pattern, user_at_host,
    VAULTCENTER_IP, VAULTCENTER_PORT,
};
use vstd::prelude::*;

verus! {

/// Looking for the tunnel among the running processes.
pub open spec fn tunnel_probe_op() -> OpView {
    OpView::Query { program: "pgrep"@, args: seq!["-f"@, tunnel_pattern()] }
}

/// A reply to the process search that names a running tunnel.
pub open spec fn tunnel_running(e: EventView) -> bool {
    !is_blank(e.text())
}

/// Opening the tunnel in the background through `user@host`.
pub open spec fn tunnel_open_op(host: Seq<char>, user: Seq<char>) -> OpView {
    OpView::Interactive {
        program: "ssh"@,
        args: seq!["-f"@, "-N"@, "-L"@, tunnel_forward(), user_at_host(user, host)],
    }
}

/// Where `connect_vaultcenter` stands.
#[derive(PartialEq, Eq, Structural, Clone, Copy, Debug)]
pub enum ConnectStage {
    /// Nothing done yet.
    Start,
    /// Waiting for the host configuration.
    Config,
    /// Waiting for the search for a running tunnel.
    Probe,
    /// Waiting for ssh to open the tunnel.
    Open,
    /// The procedure is over.
    Finished,
}

/// The state of `connect_vaultcenter`: where it stands, and the remote host
/// and user once the configuration is loaded.
#[derive(Debug)]
pub struct ConnectStep {
    pub stage: ConnectStage,
    pub host: String,
    pub user: String,
}

pub struct ConnectStepView {
    pub stage: ConnectStage,
    pub host: Seq<char>,
    pub user: Seq<char>,
}

impl View for ConnectStep {
    type V = ConnectStepView;

    open spec fn view(&self) -> ConnectStepView {
        ConnectStepView { stage: self.stage, host: self.host@, user: self.user@ }
    }
}

pub open spec fn connect_start() -> ConnectStepView {
    ConnectStepView { stage: ConnectStage::Start, host: Seq::empty(), user: Seq::empty() }
}

impl ConnectStep {
    /// A fresh procedure.
    pub fn new() -> (r: ConnectStep)
        ensures
            r@ == connect_start(),
    {
        ConnectStep { stage: ConnectStage::Start, host: String::new(), user: String::new() }
    }
}

/// What `connect_vaultcenter` does on each reply.
pub open spec fn connect_next(s: ConnectStepView, e: EventView) -> (ConnectStepView, ActionView) {
    match s.stage {
        ConnectStage::Start => (
            ConnectStepView { stage: ConnectStage::Config, ..s },
            ActionView { say: seq![], op: OpView::LoadConfig },
        ),
        ConnectStage::Config => (
            ConnectStepView { stage: ConnectStage::Probe, host: e.host(), user: e.user() },
            ActionView { say: seq![], op: tunnel_probe_op() },
        ),
        ConnectStage::Probe => if tunnel_running(e) {
            (
                ConnectStepView { stage: ConnectStage::Finished, ..s },
                ActionView {
                    say: seq![
                        LineView::Stdout("[veil] VaultCenter 터널 이미 연결됨 (localhost:"@ + VAULTCENTER_PORT@ + ")"@),
                    ],
                    op: OpView::Finish,
                },
            )
        } else {
            (
                ConnectStepView { stage: ConnectStage::Open, ..s },
                ActionView {
                    say: seq![
                        LineView::Stdout("[veil] VaultCenter SSH 터널 연결 중..."@),
                        LineView::Stdout(
                            "  localhost:"@ + VAULTCENTER_PORT@ + " -> "@ + VAULTCENTER_IP@ + ":"@ + VAULTCENTER_PORT@
                                + " (via "@ + s.host + ")"@,
                        ),
                    ],
                    op: tunnel_open_op(s.host, s.user),
                },
            )
        },
        ConnectStage::Open => if e.ok() {
            (
                ConnectStepView { stage: ConnectStage::Finished, ..s },
                ActionView {
                    say: seq![
                        LineView::Stdout("[veil] VaultCenter 터널 연결 완료"@),
                        LineView::Stdout("  https://localhost:"@ + VAULTCENTER_PORT@),
                    ],
                    op: OpView::Finish,
                },
            )
        } else {
            (
                ConnectStepView { stage: ConnectStage::Finished, ..s },
                ActionView { say: seq![LineView::Stderr("[veil] VaultCenter 터널 연결 실패"@)], op: OpView::Finish },
            )
        },
        ConnectStage::Finished => (s, ActionView { say: seq![], op: OpView::Finish }),
    }
}

/// How many replies `connect_vaultcenter` can still take at most.
pub open spec fn connect_rank(s: ConnectStage) -> nat {
    match s {
        ConnectStage::Start => 4,
        ConnectStage::Config => 3,
        ConnectStage::Probe => 2,
        ConnectStage::Open => 1,
        ConnectStage::Finished => 0,
    }
}

fn tunnel_probe() -> (r: Op)
    ensures
        r@ == tunnel_probe_op(),
{
    let mut args: Vec<String> = Vec::new();
    args.push(String::from_str("-f"));
    args.push(make_tunnel_pattern());
    proof {
        assert(args.deep_view() =~= seq!["-f"@, tunnel_pattern()]);
    }
    Op::Query { program: String::from_str("pgrep"), args }
}

fn is_tunnel_running(e: &Event) -> (r: bool)
    ensures
        r == tunnel_running(e@),
{
    let t = e.text();
    !is_blank_text(t.as_str())
}

/// One step of connecting to VaultCenter: given where the procedure stands and
/// the reply to its last operation, where it goes, what it prints and what it
/// asks for next.  A procedure starts from `ConnectStep::new` with `Event::Done`.
pub fn connect_vaultcenter(s: ConnectStep, e: Event) -> (r: (ConnectStep, Action))
    ensures
        (r.0@, r.1@) == connect_next(s@, e@),
{
    match s.stage {
        ConnectStage::Start => (ConnectStep { stage: ConnectStage::Config, ..s }, act(say0(), Op::LoadConfig)),
        ConnectStage::Config => (
            ConnectStep { stage: ConnectStage::Probe, host: e.host(), user: e.user() },
            act(say0(), tunnel_probe()),
        ),
        ConnectStage::Probe => if is_tunnel_running(&e) {
            let line = Line::Stdout(
                String::from_str("[veil] VaultCenter 터널 이미 연결됨 (localhost:").concat(VAULTCENTER_PORT).concat(")"),
            );
            (ConnectStep { stage: ConnectStage::Finished, ..s }, act(say1(line), Op::Finish))
        } else {
            let route = Line::Stdout(
                String::from_str("  localhost:").concat(VAULTCENTER_PORT).concat(" -> ").concat(VAULTCENTER_IP).concat(
                    ":",
                ).concat(VAULTCENTER_PORT).concat(" (via ").concat(s.host.as_str()).concat(")"),
            );
            let mut args: Vec<String> = Vec::new();
            args.push(String::from_str("-f"));
            args.push(String::from_str("-N"));
            args.push(String::from_str("-L"));
            args.push(make_tunnel_forward());
            args.push(make_user_at_host(s.user.as_str(), s.host.as_str()));
            proof {
                assert(args.deep_view() =~= seq!["-f"@, "-N"@, "-L"@, tunnel_forward(), user_at_host(s.user@, s.host@)]);
            }
            let op = Op::Interactive { program: String::from_str("ssh"), args };
            (
                ConnectStep { stage: ConnectStage::Open, ..s },
                act(say2(out("[veil] VaultCenter SSH 터널 연결 중..."), route), op),
            )
        },
        ConnectStage::Open => if e.ok() {
            let url = labelled("  https://localhost:", VAULTCENTER_PORT);
            (
                ConnectStep { stage: ConnectStage::Finished, ..s },
                act(say2(out("[veil] VaultCenter 터널 연결 완료"), url), Op::Finish),
            )
        } else {
            (
                ConnectStep { stage: ConnectStage::Finished, ..s },
                act(say1(err("[veil] VaultCenter 터널 연결 실패")), Op::Finish),
            )
        },
        ConnectStage::Finished => (s, act(say0(), Op::Finish)),
    }
}

/// Every reply brings connecting strictly closer to its end, and the procedure
/// asks for nothing more exactly once it is over.  It never ends the process
/// with a failure.
pub proof fn connect_vaultcenter_progresses(s: ConnectStepView, e: EventView)
    ensures
        ({
            let (t, a) = connect_next(s, e);
            &&& a.op.is_terminal() <==> t.stage == ConnectStage::Finished
            &&& fails_loudly(a)
            &&& s.stage != ConnectStage::Finished ==> connect_rank(t.stage) < connect_rank(s.stage)
            &&& !(a.op is Exit)
        }),
{
}

/// `connect_vaultcenter` as a transition function.
pub open spec fn connect_machine() -> spec_fn(ConnectStepView, EventView) -> (ConnectStepView, ActionView) {
    |s: ConnectStepView, e: EventView| connect_next(s, e)
}

/// A second tunnel is never opened: ssh is started only after the process
/// search found no tunnel running.
pub proof fn tunnel_opened_only_when_absent(replies: Seq<EventView>, k: int)
    requires
        0 <= k < replies.len(),
        replay(connect_machine(), connect_start(), replies)[k].op is Interactive,
    ensures
        exists|j: int|
            0 <= j < k && #[trigger] replay(connect_machine(), connect_start(), replies)[j].op == tunnel_probe_op()
                && !tunnel_running(replies[j + 1]),
{
    let good = |s: ConnectStepView| false;
    let entry = |s: ConnectStepView| s.stage == ConnectStage::Probe;
    let gate = |e: EventView| !tunnel_running(e);
    let target = |op: OpView| op is Interactive;
    lemma_gated(connect_machine(), |s| true, good, entry, gate, tunnel_probe_op(), target, connect_start(), replies, k);
}

/// Where `disconnect_vaultcenter` stands.
#[derive(PartialEq, Eq, Structural, Clone, Copy, Debug)]
pub enum DisconnectStep {
    /// Nothing done yet.
    Start,
    /// Waiting for the search for a running tunnel.
    Probe,
    /// Waiting for the tunnel to be killed.
    Kill,
    /// The procedure is over.
    Finished,
}

pub open spec fn tunnel_kill_op() -> OpView {
    OpView::Interactive { program: "pkill"@, args: seq!["-f"@, tunnel_pattern()] }
}

/// What `disconnect_vaultcenter` does on each reply.
pub open spec fn disconnect_next(s: DisconnectStep, e: EventView) -> (DisconnectStep, ActionView) {
    match s {
        DisconnectStep::Start => (DisconnectStep::Probe, ActionView { say: seq![], op: tunnel_probe_op() }),
        DisconnectStep::Probe => if tunnel_running(e) {
            (DisconnectStep::Kill, ActionView { say: seq![], op: tunnel_kill_op() })
        } else {
            (
                DisconnectStep::Finished,
                ActionView {
                    say: seq![LineView::Stdout("[veil] VaultCenter 터널이 연결되어 있지 않습니다."@)],
                    op: OpView::Finish,
                },
            )
        },
        DisconnectStep::Kill => (
            DisconnectStep::Finished,
            ActionView { say: seq![LineView::Stdout("[veil] VaultCenter 터널 해제 완료"@)], op: OpView::Finish },
        ),
        DisconnectStep::Finished => (DisconnectStep::Finished, ActionView { say: seq![], op: OpView::Finish }),
    }
}

/// How many replies `disconnect_vaultcenter` can still take at most.
pub open spec fn disconnect_rank(s: DisconnectStep) -> nat {
    match s {
        DisconnectStep::Start => 3,
        DisconnectStep::Probe => 2,
        DisconnectStep::Kill => 1,
        DisconnectStep::Finished => 0,
    }
}

/// One step of closing the tunnel to VaultCenter: given where the procedure
/// stands and the reply to its last operation, where it goes, what it prints
/// and what it asks for next.  A procedure starts at `DisconnectStep::Start`
/// with `Event::Done`.
pub fn disconnect_vaultcenter(s: DisconnectStep, e: Event) -> (r: (DisconnectStep, Action))
    ensures
        (r.0, r.1@) == disconnect_next(s, e@),
{
    match s {
        DisconnectStep::Start => (DisconnectStep::Probe, act(say0(), tunnel_probe())),
        DisconnectStep::Probe => if is_tunnel_running(&e) {
            let mut args: Vec<String> = Vec::new();
            args.push(String::from_str("-f"));
            args.push(make_tunnel_pattern());
            proof {
                assert(args.deep_view() =~= seq!["-f"@, tunnel_pattern()]);
            }
            (DisconnectStep::Kill, act(say0(), Op::Interactive { program: String::from_str("pkill"), args }))
        } else {
            (
                DisconnectStep::Finished,
                act(say1(out("[veil] VaultCenter 터널이 연결되어 있지 않습니다.")), Op::Finish),
            )
        },
        DisconnectStep::Kill => (
            DisconnectStep::Finished,
            act(say1(out("[veil] VaultCenter 터널 해제 완료")), Op::Finish),
        ),
        DisconnectStep::Finished => (DisconnectStep::Finished, act(say0(), Op::Finish)),
    }
}

/// Every reply brings disconnecting strictly closer to its end, and the
/// procedure asks for nothing more exactly once it is over.
pub proof fn disconnect_vaultcenter_progresses(s: DisconnectStep, e: EventView)
    ensures
        ({
            let (t, a) = disconnect_next(s, e);
            &&& a.op.is_terminal() <==> t == DisconnectStep::Finished
            &&& fails_loudly(a)
            &&& s != DisconnectStep::Finished ==> disconnect_rank(t) < disconnect_rank(s)
        }),
{
}

/// `disconnect_vaultcenter` as a transition function.
pub open spec fn disconnect_machine() -> spec_fn(DisconnectStep, EventView) -> (DisconnectStep, ActionView) {
    |s: DisconnectStep, e: EventView| disconnect_next(s, e)
}

/// Processes are killed only after the search found a tunnel running.
pub proof fn tunnel_killed_only_when_running(replies: Seq<EventView>, k: int)
    requires
        0 <= k < replies.len(),
        replay(disconnect_machine(), DisconnectStep::Start, replies)[k].op is Interactive,
    ensures
        exists|j: int|
            0 <= j < k && #[trigger] replay(disconnect_machine(), DisconnectStep::Start, replies)[j].op
                == tunnel_probe_op() && tunnel_running(replies[j + 1]),
{
    let good = |s: DisconnectStep| false;
    let entry = |s: DisconnectStep| s == DisconnectStep::Probe;
    let gate = |e: EventView| tunnel_running(e);
    let target = |op: OpView| op is Interactive;
    lemma_gated(
        disconnect_machine(),
        |s| true,
        good,
        entry,
        gate,
        tunnel_probe_op(),
        target,
        DisconnectStep::Start,
        replies,
        k,
    );
}

/// Connecting to VaultCenter ends, by success or by failure, within 4 replies, whatever they are.
pub proof fn connect_vaultcenter_ends(replies: Seq<EventView>)
    requires
        replies.len() >= 4,
    ensures
        exists|k: int| 0 <= k < 4 && #[trigger] replay(connect_machine(), connect_start(), replies)[k].op.is_terminal(),
{
    let rank = |s: ConnectStepView| connect_rank(s.stage);
    let done = |s: ConnectStepView| s.stage == ConnectStage::Finished;
    assert forall|s: ConnectStepView, e: EventView|
        #[trigger] connect_machine()(s, e).1.op.is_terminal() <==> done(connect_machine()(s, e).0) by {
        connect_vaultcenter_progresses(s, e);
    }
    assert forall|s: ConnectStepView, e: EventView|
        !done(s) implies rank(#[trigger] connect_machine()(s, e).0) < rank(s) by {
        connect_vaultcenter_progresses(s, e);
    }
    lemma_ends_within(connect_machine(), rank, done, connect_start(), replies);
}

/// Closing the tunnel ends, by success or by failure, within 3 replies, whatever they are.
pub proof fn disconnect_vaultcenter_ends(replies: Seq<EventView>)
    requires
        replies.len() >= 3,
    ensures
        exists|k: int|
            0 <= k < 3 && #[trigger] replay(disconnect_machine(), DisconnectStep::Start, replies)[k].op.is_terminal(),
{
    let rank = |s: DisconnectStep| disconnect_rank(s);
    let done = |s: DisconnectStep| s == DisconnectStep::Finished;
    assert forall|s: DisconnectStep, e: EventView|
        #[trigger] disconnect_machine()(s, e).1.op.is_terminal() <==> done(disconnect_machine()(s, e).0) by {
        disconnect_vaultcenter_progresses(s, e);
    }
    assert forall|s: DisconnectStep, e: EventView|
        !done(s) implies rank(#[trigger] disconnect_machine()(s, e).0) < rank(s) by {
        disconnect_vaultcenter_progresses(s, e);
    }
    lemma_ends_within(disconnect_machine(), rank, done, DisconnectStep::Start, replies);
}

/// A whole run of connecting: the configuration is loaded and the processes
/// searched for the tunnel; a running tunnel is left alone.  Otherwise ssh
/// forwards the VaultCenter port to VaultCenter through the configured
/// `user@host`, and the run ends reporting whether ssh succeeded.
pub proof fn connect_vaultcenter_run(replies: Seq<EventView>)
    requires
        replies.len() >= 4,
    ensures
        ({
            let run = replay(connect_machine(), connect_start(), replies);
            let cfg = replies[1];
            &&& run[0].op == OpView::LoadConfig
            &&& run[1].op == tunnel_probe_op()
            &&& tunnel_running(replies[2]) ==> run[2].op == OpView::Finish
            &&& !tunnel_running(replies[2]) ==> {
                &&& run[2].op == OpView::Interactive {
                    program: "ssh"@,
                    args: seq!["-f"@, "-N"@, "-L"@, tunnel_forward(), cfg.user() + "@"@ + cfg.host()],
                }
                &&& run[3].op == OpView::Finish
                &&& replies[3].ok() ==> run[3].say == seq![
                    LineView::Stdout("[veil] VaultCenter 터널 연결 완료"@),
                    LineView::Stdout("  https://localhost:"@ + VAULTCENTER_PORT@),
                ]
                &&& !replies[3].ok() ==> run[3].say == seq![LineView::Stderr("[veil] VaultCenter 터널 연결 실패"@)]
            }
        }),
{
    let start = connect_start();
    let m = connect_machine();
    reveal_with_fuel(state_after, 5);
    assert forall|j: int| 0 <= j < 4 implies #[trigger] replay(connect_machine(), connect_start(), replies)[j] == m(
        state_after(m, start, replies, j as nat),
        replies[j],
    ).1 by {
        lemma_replay_at(m, start, replies, j);
    }
}

/// A whole run of disconnecting: the processes are searched for the tunnel;
/// without one, the run reports so and ends; with one, the processes that
/// match the tunnel's pattern are killed and the run ends.
pub proof fn disconnect_vaultcenter_run(replies: Seq<EventView>)
    requires
        replies.len() >= 3,
    ensures
        ({
            let run = replay(disconnect_machine(), DisconnectStep::Start, replies);
            &&& run[0].op == tunnel_probe_op()
            &&& !tunnel_running(replies[1]) ==> run[1] == ActionView {
                say: seq![LineView::Stdout("[veil] VaultCenter 터널이 연결되어 있지 않습니다."@)],
                op: OpView::Finish,
            }
            &&& tunnel_running(replies[1]) ==> {
                &&& run[1].op == OpView::Interactive { program: "pkill"@, args: seq!["-f"@, tunnel_pattern()] }
                &&& run[2] == ActionView {
                    say: seq![LineView::Stdout("[veil] VaultCenter 터널 해제 완료"@)],
                    op: OpView::Finish,
                }
            }
        }),
{
    let start = DisconnectStep::Start;
    let m = disconnect_machine();
    reveal_with_fuel(state_after, 4);
    assert forall|j: int| 0 <= j < 3 implies #[trigger] replay(disconnect_machine(), DisconnectStep::Start, replies)[j] == m(
        state_after(m, start, replies, j as nat),
        replies[j],
    ).1 by {
        lemma_replay_at(m, start, replies, j);
    }
}

} // verus!
