//! Starting and stopping the local vault.
use crate::plan::{lemma_replay_at, state_after, 
    act, args2, err, fails_loudly, lemma_ends_within, lemma_gated, out, replay, say0, say1, Action,
    ActionView, Event, EventView, LineView, Op, OpView,
};
use crate::text::{contains, has_infix};
use crate::veil::names::{health_url, make_health_url, make_plist_path, plist_path};
use vstd::prelude::*;

verus! {

/// Where `localvault_start` stands.
#[derive(PartialEq, Eq, Structural, Clone, Copy, Debug)]
pub enum StartStage {
    /// Nothing done yet.
    Start,
    /// Waiting for the first health check.
    Probe,
    /// Waiting to learn whether the LaunchAgent exists.
    Agent,
    /// Waiting for the vault to be launched.
    Launched,
    /// Waiting for the vault to come up.
    Wait,
    /// Waiting for the second health check.
    Recheck,
    /// The procedure is over.
    Finished,
}

/// The state of `localvault_start`: where it stands and the home directory.
#[derive(Debug)]
pub struct StartStep {
    pub stage: StartStage,
    pub home: String,
}

pub struct StartStepView {
    pub stage: StartStage,
    pub home: Seq<char>,
}

impl View for StartStep {
    type V = StartStepView;

    open spec fn view(&self) -> StartStepView {
        StartStepView { stage: self.stage, home: self.home@ }
    }
}

impl StartStep {
    /// A fresh procedure for the home directory `home`.
    pub fn new(home: String) -> (r: StartStep)
        ensures
            r@ == (StartStepView { stage: StartStage::Start, home: home@ }),
    {
        StartStep { stage: StartStage::Start, home }
    }
}

pub open spec fn health_op() -> OpView {
    OpView::Query { program: "curl"@, args: seq!["-s"@, health_url()] }
}

/// A health reply that says the vault runs.
pub open spec fn healthy(e: EventView) -> bool {
    has_infix(e.text(), "ok"@)
}

/// What `localvault_start` does on each reply.
pub open spec fn start_next(s: StartStepView, e: EventView) -> (StartStepView, ActionView) {
    match s.stage {
        StartStage::Start => (StartStepView { stage: StartStage::Probe, ..s }, ActionView { say: seq![], op: health_op() }),
        StartStage::Probe => if healthy(e) {
            (
                StartStepView { stage: StartStage::Finished, ..s },
                ActionView { say: seq![LineView::Stdout("[veil] LocalVault 이미 실행 중"@)], op: OpView::Finish },
            )
        } else {
            (
                StartStepView { stage: StartStage::Agent, ..s },
                ActionView {
                    say: seq![LineView::Stdout("[veil] LocalVault 시작 중..."@)],
                    op: OpView::PathExists { path: plist_path(s.home) },
                },
            )
        },
        StartStage::Agent => (
            StartStepView { stage: StartStage::Launched, ..s },
            ActionView {
                say: seq![],
                op: if e.ok() {
                    OpView::Interactive { program: "launchctl"@, args: seq!["load"@, plist_path(s.home)] }
                } else {
                    OpView::Spawn { program: "veilkey-localvault"@ }
                },
            },
        ),
        StartStage::Launched => (
            StartStepView { stage: StartStage::Wait, ..s },
            ActionView { say: seq![], op: OpView::Sleep { seconds: 1 } },
        ),
        StartStage::Wait => (StartStepView { stage: StartStage::Recheck, ..s }, ActionView { say: seq![], op: health_op() }),
        StartStage::Recheck => if healthy(e) {
            (
                StartStepView { stage: StartStage::Finished, ..s },
                ActionView { say: seq![LineView::Stdout("[veil] LocalVault 시작 완료"@)], op: OpView::Finish },
            )
        } else {
            (
                StartStepView { stage: StartStage::Finished, ..s },
                ActionView { say: seq![LineView::Stderr("[veil] LocalVault 시작 실패"@)], op: OpView::Finish },
            )
        },
        StartStage::Finished => (s, ActionView { say: seq![], op: OpView::Finish }),
    }
}

/// How many replies `localvault_start` can still take at most.
pub open spec fn start_rank(s: StartStage) -> nat {
    match s {
        StartStage::Start => 6,
        StartStage::Probe => 5,
        StartStage::Agent => 4,
        StartStage::Launched => 3,
        StartStage::Wait => 2,
        StartStage::Recheck => 1,
        StartStage::Finished => 0,
    }
}

fn health() -> (r: Op)
    ensures
        r@ == health_op(),
{
    let mut args: Vec<String> = Vec::new();
    args.push(String::from_str("-s"));
    args.push(make_health_url());
    proof {
        assert(args.deep_view() =~= seq!["-s"@, health_url()]);
    }
    Op::Query { program: String::from_str("curl"), args }
}

fn is_healthy(e: &Event) -> (r: bool)
    ensures
        r == healthy(e@),
{
    let t = e.text();
    contains(t.as_str(), "ok")
}

fn launchctl(verb: &str, home: &str) -> (r: Op)
    ensures
        r@ == (OpView::Interactive { program: "launchctl"@, args: seq![verb@, plist_path(home@)] }),
{
    let mut args: Vec<String> = Vec::new();
    args.push(verb.to_owned());
    args.push(make_plist_path(home));
    proof {
        assert(args.deep_view() =~= seq![verb@, plist_path(home@)]);
    }
    Op::Interactive { program: String::from_str("launchctl"), args }
}

/// One step of starting the local vault: given where the procedure stands and
/// the reply to its last operation, where it goes, what it prints and what it
/// asks for next.  A procedure starts from `StartStep::new` with `Event::Done`.
pub fn localvault_start(s: StartStep, e: Event) -> (r: (StartStep, Action))
    ensures
        (r.0@, r.1@) == start_next(s@, e@),
{
    match s.stage {
        StartStage::Start => (StartStep { stage: StartStage::Probe, ..s }, act(say0(), health())),
        StartStage::Probe => if is_healthy(&e) {
            (StartStep { stage: StartStage::Finished, ..s }, act(say1(out("[veil] LocalVault 이미 실행 중")), Op::Finish))
        } else {
            let op = Op::PathExists { path: make_plist_path(s.home.as_str()) };
            (StartStep { stage: StartStage::Agent, ..s }, act(say1(out("[veil] LocalVault 시작 중...")), op))
        },
        StartStage::Agent => {
            let op = if e.ok() {
                launchctl("load", s.home.as_str())
            } else {
                Op::Spawn { program: String::from_str("veilkey-localvault") }
            };
            (StartStep { stage: StartStage::Launched, ..s }, act(say0(), op))
        },
        StartStage::Launched => (StartStep { stage: StartStage::Wait, ..s }, act(say0(), Op::Sleep { seconds: 1 })),
        StartStage::Wait => (StartStep { stage: StartStage::Recheck, ..s }, act(say0(), health())),
        StartStage::Recheck => if is_healthy(&e) {
            (StartStep { stage: StartStage::Finished, ..s }, act(say1(out("[veil] LocalVault 시작 완료")), Op::Finish))
        } else {
            (StartStep { stage: StartStage::Finished, ..s }, act(say1(err("[veil] LocalVault 시작 실패")), Op::Finish))
        },
        StartStage::Finished => (s, act(say0(), Op::Finish)),
    }
}

/// Every reply brings starting the local vault strictly closer to its end, and
/// the procedure asks for nothing more exactly once it is over.  It never ends
/// the process with a failure.
pub proof fn localvault_start_progresses(s: StartStepView, e: EventView)
    ensures
        ({
            let (t, a) = start_next(s, e);
            &&& a.op.is_terminal() <==> t.stage == StartStage::Finished
            &&& fails_loudly(a)
            &&& s.stage != StartStage::Finished ==> start_rank(t.stage) < start_rank(s.stage)
            &&& !(a.op is Exit)
        }),
{
}

/// `localvault_start` as a transition function.
pub open spec fn start_machine() -> spec_fn(StartStepView, EventView) -> (StartStepView, ActionView) {
    |s: StartStepView, e: EventView| start_next(s, e)
}

/// A vault that answers its health check is not launched again: the vault is
/// launched only after a health check that did not say it runs.
pub proof fn running_vault_is_not_started_again(home: Seq<char>, replies: Seq<EventView>, k: int)
    requires
        0 <= k < replies.len(),
        ({
            let op = replay(start_machine(), StartStepView { stage: StartStage::Start, home }, replies)[k].op;
            op is Spawn || op is Interactive
        }),
    ensures
        exists|j: int|
            0 <= j < k && #[trigger] replay(start_machine(), StartStepView { stage: StartStage::Start, home }, replies)[j].op
                == health_op() && !healthy(replies[j + 1]),
{
    let good = |s: StartStepView| s.stage == StartStage::Agent;
    let entry = |s: StartStepView| s.stage == StartStage::Probe;
    let gate = |e: EventView| !healthy(e);
    let target = |op: OpView| op is Spawn || op is Interactive;
    lemma_gated(
        start_machine(),
        |s| true,
        good,
        entry,
        gate,
        health_op(),
        target,
        StartStepView { stage: StartStage::Start, home },
        replies,
        k,
    );
}

/// Where `localvault_stop` stands.
#[derive(PartialEq, Eq, Structural, Clone, Copy, Debug)]
pub enum StopStage {
    /// Nothing done yet.
    Start,
    /// Waiting to learn whether the LaunchAgent exists.
    Probe,
    /// Waiting for the vault to be stopped.
    Stopped,
    /// The procedure is over.
    Finished,
}

/// The state of `localvault_stop`: where it stands and the home directory.
#[derive(Debug)]
pub struct StopStep {
    pub stage: StopStage,
    pub home: String,
}

pub struct StopStepView {
    pub stage: StopStage,
    pub home: Seq<char>,
}

impl View for StopStep {
    type V = StopStepView;

    open spec fn view(&self) -> StopStepView {
        StopStepView { stage: self.stage, home: self.home@ }
    }
}

impl StopStep {
    /// A fresh procedure for the home directory `home`.
    pub fn new(home: String) -> (r: StopStep)
        ensures
            r@ == (StopStepView { stage: StopStage::Start, home: home@ }),
    {
        StopStep { stage: StopStage::Start, home }
    }
}

/// What `localvault_stop` does on each reply: it unloads the LaunchAgent where
/// there is one, else it kills the vault's process.
pub open spec fn stop_next(s: StopStepView, e: EventView) -> (StopStepView, ActionView) {
    match s.stage {
        StopStage::Start => (
            StopStepView { stage: StopStage::Probe, ..s },
            ActionView { say: seq![], op: OpView::PathExists { path: plist_path(s.home) } },
        ),
        StopStage::Probe => (
            StopStepView { stage: StopStage::Stopped, ..s },
            ActionView {
                say: seq![],
                op: if e.ok() {
                    OpView::Interactive { program: "launchctl"@, args: seq!["unload"@, plist_path(s.home)] }
                } else {
                    OpView::Interactive { program: "pkill"@, args: seq!["-f"@, "veilkey-localvault"@] }
                },
            },
        ),
        StopStage::Stopped => (
            StopStepView { stage: StopStage::Finished, ..s },
            ActionView { say: seq![LineView::Stdout("[veil] LocalVault 중지 완료"@)], op: OpView::Finish },
        ),
        StopStage::Finished => (s, ActionView { say: seq![], op: OpView::Finish }),
    }
}

/// How many replies `localvault_stop` can still take at most.
pub open spec fn stop_rank(s: StopStage) -> nat {
    match s {
        StopStage::Start => 3,
        StopStage::Probe => 2,
        StopStage::Stopped => 1,
        StopStage::Finished => 0,
    }
}

/// One step of stopping the local vault: given where the procedure stands and
/// the reply to its last operation, where it goes, what it prints and what it
/// asks for next.  A procedure starts from `StopStep::new` with `Event::Done`.
pub fn localvault_stop(s: StopStep, e: Event) -> (r: (StopStep, Action))
    ensures
        (r.0@, r.1@) == stop_next(s@, e@),
{
    match s.stage {
        StopStage::Start => {
            let op = Op::PathExists { path: make_plist_path(s.home.as_str()) };
            (StopStep { stage: StopStage::Probe, ..s }, act(say0(), op))
        },
        StopStage::Probe => {
            let op = if e.ok() {
                launchctl("unload", s.home.as_str())
            } else {
                Op::Interactive { program: String::from_str("pkill"), args: args2("-f", "veilkey-localvault") }
            };
            (StopStep { stage: StopStage::Stopped, ..s }, act(say0(), op))
        },
        StopStage::Stopped => (
            StopStep { stage: StopStage::Finished, ..s },
            act(say1(out("[veil] LocalVault 중지 완료")), Op::Finish),
        ),
        StopStage::Finished => (s, act(say0(), Op::Finish)),
    }
}

/// Every reply brings stopping the local vault strictly closer to its end, and
/// the procedure asks for nothing more exactly once it is over.
pub proof fn localvault_stop_progresses(s: StopStepView, e: EventView)
    ensures
        ({
            let (t, a) = stop_next(s, e);
            &&& a.op.is_terminal() <==> t.stage == StopStage::Finished
            &&& fails_loudly(a)
            &&& s.stage != StopStage::Finished ==> stop_rank(t.stage) < stop_rank(s.stage)
        }),
{
}

/// Starting the local vault ends, by success or by failure, within 6 replies, whatever they are.
pub proof fn localvault_start_ends(home: Seq<char>, replies: Seq<EventView>)
    requires
        replies.len() >= 6,
    ensures
        exists|k: int|
            0 <= k < 6 && #[trigger] replay(start_machine(), StartStepView { stage: StartStage::Start, home }, replies)[k].op.is_terminal(),
{
    let rank = |s: StartStepView| start_rank(s.stage);
    let done = |s: StartStepView| s.stage == StartStage::Finished;
    assert forall|s: StartStepView, e: EventView|
        #[trigger] start_machine()(s, e).1.op.is_terminal() <==> done(start_machine()(s, e).0) by {
        localvault_start_progresses(s, e);
    }
    assert forall|s: StartStepView, e: EventView| !done(s) implies rank(#[trigger] start_machine()(s, e).0) < rank(s) by {
        localvault_start_progresses(s, e);
    }
    lemma_ends_within(start_machine(), rank, done, StartStepView { stage: StartStage::Start, home }, replies);
}

/// `stop_next` as a transition function.
pub open spec fn stop_machine() -> spec_fn(StopStepView, EventView) -> (StopStepView, ActionView) {
    |s: StopStepView, e: EventView| stop_next(s, e)
}

/// Stopping the local vault ends, by success or by failure, within 3 replies, whatever they are.
pub proof fn localvault_stop_ends(home: Seq<char>, replies: Seq<EventView>)
    requires
        replies.len() >= 3,
    ensures
        exists|k: int|
            0 <= k < 3 && #[trigger] replay(stop_machine(), StopStepView { stage: StopStage::Start, home }, replies)[k].op.is_terminal(),
{
    let rank = |s: StopStepView| stop_rank(s.stage);
    let done = |s: StopStepView| s.stage == StopStage::Finished;
    assert forall|s: StopStepView, e: EventView|
        #[trigger] stop_machine()(s, e).1.op.is_terminal() <==> done(stop_machine()(s, e).0) by {
        localvault_stop_progresses(s, e);
    }
    assert forall|s: StopStepView, e: EventView| !done(s) implies rank(#[trigger] stop_machine()(s, e).0) < rank(s) by {
        localvault_stop_progresses(s, e);
    }
    lemma_ends_within(stop_machine(), rank, done, StopStepView { stage: StopStage::Start, home }, replies);
}

/// A whole run of starting the local vault: a vault whose health reply holds
/// "ok" is left alone.  Otherwise it is launched through its LaunchAgent when
/// the agent exists, else directly; after one second its health is checked
/// again and the run ends reporting whether it runs.
pub proof fn localvault_start_run(home: Seq<char>, replies: Seq<EventView>)
    requires
        replies.len() >= 6,
    ensures
        ({
            let run = replay(start_machine(), StartStepView { stage: StartStage::Start, home }, replies);
            &&& run[0].op == health_op()
            &&& healthy(replies[1]) ==> run[1].op == OpView::Finish
            &&& !healthy(replies[1]) ==> {
                &&& run[1].op == OpView::PathExists { path: plist_path(home) }
                &&& replies[2].ok() ==> run[2].op == OpView::Interactive {
                    program: "launchctl"@,
                    args: seq!["load"@, plist_path(home)],
                }
                &&& !replies[2].ok() ==> run[2].op == OpView::Spawn { program: "veilkey-localvault"@ }
                &&& run[3].op == OpView::Sleep { seconds: 1 }
                &&& run[4].op == health_op()
                &&& run[5].op == OpView::Finish
                &&& healthy(replies[5]) ==> run[5].say == seq![LineView::Stdout("[veil] LocalVault 시작 완료"@)]
                &&& !healthy(replies[5]) ==> run[5].say == seq![LineView::Stderr("[veil] LocalVault 시작 실패"@)]
            }
        }),
{
    let start = StartStepView { stage: StartStage::Start, home };
    let m = start_machine();
    reveal_with_fuel(state_after, 7);
    assert forall|j: int| 0 <= j < 6 implies #[trigger] replay(start_machine(), StartStepView { stage: StartStage::Start, home }, replies)[j] == m(
        state_after(m, start, replies, j as nat),
        replies[j],
    ).1 by {
        lemma_replay_at(m, start, replies, j);
    }
}

/// A whole run of stopping the local vault: its LaunchAgent is unloaded when
/// it exists, else its processes are killed; the run ends saying it stopped.
pub proof fn localvault_stop_run(home: Seq<char>, replies: Seq<EventView>)
    requires
        replies.len() >= 3,
    ensures
        ({
            let run = replay(stop_machine(), StopStepView { stage: StopStage::Start, home }, replies);
            &&& run[0].op == OpView::PathExists { path: plist_path(home) }
            &&& replies[1].ok() ==> run[1].op == OpView::Interactive {
                program: "launchctl"@,
                args: seq!["unload"@, plist_path(home)],
            }
            &&& !replies[1].ok() ==> run[1].op == OpView::Interactive {
                program: "pkill"@,
                args: seq!["-f"@, "veilkey-localvault"@],
            }
            &&& run[2] == ActionView { say: seq![LineView::Stdout("[veil] LocalVault 중지 완료"@)], op: OpView::Finish }
        }),
{
    let start = StopStepView { stage: StopStage::Start, home };
    let m = stop_machine();
    reveal_with_fuel(state_after, 4);
    assert forall|j: int| 0 <= j < 3 implies #[trigger] replay(stop_machine(), StopStepView { stage: StopStage::Start, home }, replies)[j] == m(
        state_after(m, start, replies, j as nat),
        replies[j],
    ).1 by {
        lemma_replay_at(m, start, replies, j);
    }
}

} // verus!
