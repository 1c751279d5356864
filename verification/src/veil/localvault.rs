//! The local vault: installing it with its LaunchAgent, starting and stopping it.
use crate::plan::{lemma_replay_at, state_after, 
    act, args1, args2, err, fails_loudly, lemma_ends_within, lemma_gated, out, replay, say0, say1, Action,
    ActionView, Event, EventView, LineView, Op, OpView,
};
use crate::text::{is_blank_text, trim, trimmed};
use crate::veil::names::{
    make_plist_content, make_plist_path, make_remote_file, plist_content, plist_path, remote_file,
};
use vstd::prelude::*;

verus! {

/// The remote command that finds the local vault binary built on the remote host.
pub const LOCALVAULT_FIND: &'static str =
    "which veilkey-localvault 2>/dev/null || find /opt/veilkey -name veilkey-localvault -type f 2>/dev/null | head -1";

/// Where the local vault binary is installed.
pub const LOCALVAULT_BIN: &'static str = "/usr/local/bin/veilkey-localvault";

/// Where `install_localvault` stands.
#[derive(PartialEq, Eq, Structural, Clone, Copy, Debug)]
pub enum LocalvaultStage {
    /// Nothing done yet.
    Start,
    /// Waiting for `which veilkey-localvault`.
    Probe,
    /// Waiting for the host configuration.
    Config,
    /// Waiting for the remote host to name the binary.
    Find,
    /// Waiting for the copy.
    Copy,
    /// Waiting for the binary to be made executable.
    Chmod,
    /// Waiting to learn whether the LaunchAgent exists.
    AgentCheck,
    /// Waiting for the LaunchAgent file to be written.
    AgentWrite,
    /// Waiting for `launchctl load`.
    AgentLoad,
    /// The procedure is over.
    Finished,
}

/// The state of `install_localvault`: where it stands, the home directory,
/// and the remote host and user once the configuration is loaded.
#[derive(Debug)]
pub struct LocalvaultStep {
    pub stage: LocalvaultStage,
    pub home: String,
    pub host: String,
    pub user: String,
}

pub struct LocalvaultStepView {
    pub stage: LocalvaultStage,
    pub home: Seq<char>,
    pub host: Seq<char>,
    pub user: Seq<char>,
}

impl View for LocalvaultStep {
    type V = LocalvaultStepView;

    open spec fn view(&self) -> LocalvaultStepView {
        LocalvaultStepView { stage: self.stage, home: self.home@, host: self.host@, user: self.user@ }
    }
}

pub open spec fn localvault_start(home: Seq<char>) -> LocalvaultStepView {
    LocalvaultStepView { stage: LocalvaultStage::Start, home, host: Seq::empty(), user: Seq::empty() }
}

impl LocalvaultStep {
    /// A fresh procedure for the home directory `home`.
    pub fn new(home: String) -> (r: LocalvaultStep)
        ensures
            r@ == localvault_start(home@),
    {
        LocalvaultStep { stage: LocalvaultStage::Start, home, host: String::new(), user: String::new() }
    }
}

pub open spec fn localvault_probe_op() -> OpView {
    OpView::Query { program: "which"@, args: seq!["veilkey-localvault"@] }
}

pub open spec fn agent_probe_op(home: Seq<char>) -> OpView {
    OpView::PathExists { path: plist_path(home) }
}

pub open spec fn agent_write_op(home: Seq<char>) -> OpView {
    OpView::WriteText {
        path: plist_path(home),
        content: plist_content(home),
        context: "LaunchAgent plist 생성 실패"@,
    }
}

/// What `install_localvault` does on each reply.
pub open spec fn localvault_next(s: LocalvaultStepView, e: EventView) -> (LocalvaultStepView, ActionView) {
    let to = |stage: LocalvaultStage| LocalvaultStepView { stage, ..s };
    match s.stage {
        LocalvaultStage::Start => (to(LocalvaultStage::Probe), ActionView { say: seq![], op: localvault_probe_op() }),
        LocalvaultStage::Probe => if e.ok() {
            (
                to(LocalvaultStage::AgentCheck),
                ActionView {
                    say: seq![LineView::Stdout("[veil] veilkey-localvault 이미 설치됨"@)],
                    op: agent_probe_op(s.home),
                },
            )
        } else {
            (
                to(LocalvaultStage::Config),
                ActionView { say: seq![LineView::Stdout("[veil] veilkey-localvault 설치 중..."@)], op: OpView::LoadConfig },
            )
        },
        LocalvaultStage::Config => (
            LocalvaultStepView { stage: LocalvaultStage::Find, host: e.host(), user: e.user(), ..s },
            ActionView { say: seq![], op: OpView::Remote { host: e.host(), user: e.user(), command: LOCALVAULT_FIND@ } },
        ),
        LocalvaultStage::Find => {
            let path = trimmed(e.text());
            if e.ok() && path.len() > 0 {
                (
                    to(LocalvaultStage::Copy),
                    ActionView {
                        say: seq![],
                        op: OpView::Run { program: "scp"@, args: seq![remote_file(s.user, s.host, path), LOCALVAULT_BIN@] },
                    },
                )
            } else {
                (
                    to(LocalvaultStage::Finished),
                    ActionView {
                        say: seq![LineView::Stderr("[veil] Proxmox에서 veilkey-localvault를 찾을 수 없습니다."@)],
                        op: OpView::Exit { code: 1 },
                    },
                )
            }
        },
        LocalvaultStage::Copy => if e.ok() {
            (
                to(LocalvaultStage::Chmod),
                ActionView { say: seq![], op: OpView::Query { program: "chmod"@, args: seq!["+x"@, LOCALVAULT_BIN@] } },
            )
        } else {
            (to(LocalvaultStage::AgentCheck), ActionView { say: seq![], op: agent_probe_op(s.home) })
        },
        LocalvaultStage::Chmod => (
            to(LocalvaultStage::AgentCheck),
            ActionView {
                say: seq![LineView::Stdout("[veil] veilkey-localvault 설치 완료"@)],
                op: agent_probe_op(s.home),
            },
        ),
        LocalvaultStage::AgentCheck => if e.ok() {
            (
                to(LocalvaultStage::Finished),
                ActionView { say: seq![LineView::Stdout("[veil] LaunchAgent 이미 등록됨"@)], op: OpView::Finish },
            )
        } else {
            (
                to(LocalvaultStage::AgentWrite),
                ActionView { say: seq![LineView::Stdout("[veil] LaunchAgent 등록 중..."@)], op: agent_write_op(s.home) },
            )
        },
        LocalvaultStage::AgentWrite => (
            to(LocalvaultStage::AgentLoad),
            ActionView {
                say: seq![],
                op: OpView::Interactive { program: "launchctl"@, args: seq!["load"@, plist_path(s.home)] },
            },
        ),
        LocalvaultStage::AgentLoad => (
            to(LocalvaultStage::Finished),
            ActionView {
                say: seq![LineView::Stdout("[veil] LaunchAgent 등록 완료 (부팅 시 자동 시작)"@)],
                op: OpView::Finish,
            },
        ),
        LocalvaultStage::Finished => (s, ActionView { say: seq![], op: OpView::Finish }),
    }
}

/// How many replies `install_localvault` can still take at most.
pub open spec fn localvault_rank(s: LocalvaultStage) -> nat {
    match s {
        LocalvaultStage::Start => 9,
        LocalvaultStage::Probe => 8,
        LocalvaultStage::Config => 7,
        LocalvaultStage::Find => 6,
        LocalvaultStage::Copy => 5,
        LocalvaultStage::Chmod => 4,
        LocalvaultStage::AgentCheck => 3,
        LocalvaultStage::AgentWrite => 2,
        LocalvaultStage::AgentLoad => 1,
        LocalvaultStage::Finished => 0,
    }
}

fn agent_probe(home: &str) -> (r: Op)
    ensures
        r@ == agent_probe_op(home@),
{
    Op::PathExists { path: make_plist_path(home) }
}

/// One step of installing the local vault and registering its LaunchAgent:
/// given where the procedure stands and the reply to its last operation, where
/// it goes, what it prints and what it asks for next.  A procedure starts from
/// `LocalvaultStep::new` with `Event::Done`.
pub fn install_localvault(s: LocalvaultStep, e: Event) -> (r: (LocalvaultStep, Action))
    ensures
        (r.0@, r.1@) == localvault_next(s@, e@),
{
    match s.stage {
        LocalvaultStage::Start => (
            LocalvaultStep { stage: LocalvaultStage::Probe, ..s },
            act(say0(), Op::Query { program: String::from_str("which"), args: args1("veilkey-localvault") }),
        ),
        LocalvaultStage::Probe => if e.ok() {
            let op = agent_probe(s.home.as_str());
            (
                LocalvaultStep { stage: LocalvaultStage::AgentCheck, ..s },
                act(say1(out("[veil] veilkey-localvault 이미 설치됨")), op),
            )
        } else {
            (
                LocalvaultStep { stage: LocalvaultStage::Config, ..s },
                act(say1(out("[veil] veilkey-localvault 설치 중...")), Op::LoadConfig),
            )
        },
        LocalvaultStage::Config => {
            let op = Op::Remote { host: e.host(), user: e.user(), command: String::from_str(LOCALVAULT_FIND) };
            (LocalvaultStep { stage: LocalvaultStage::Find, home: s.home, host: e.host(), user: e.user() }, act(say0(), op))
        },
        LocalvaultStage::Find => {
            let text = e.text();
            let path = trim(text.as_str());
            proof {
                crate::text::lemma_trim_idempotent(text@);
            }
            if e.ok() && !is_blank_text(path.as_str()) {
                let mut args: Vec<String> = Vec::new();
                args.push(make_remote_file(s.user.as_str(), s.host.as_str(), path.as_str()));
                args.push(String::from_str(LOCALVAULT_BIN));
                proof {
                    assert(args.deep_view() =~= seq![remote_file(s.user@, s.host@, path@), LOCALVAULT_BIN@]);
                }
                (
                    LocalvaultStep { stage: LocalvaultStage::Copy, ..s },
                    act(say0(), Op::Run { program: String::from_str("scp"), args }),
                )
            } else {
                (
                    LocalvaultStep { stage: LocalvaultStage::Finished, ..s },
                    act(say1(err("[veil] Proxmox에서 veilkey-localvault를 찾을 수 없습니다.")), Op::Exit { code: 1 }),
                )
            }
        },
        LocalvaultStage::Copy => if e.ok() {
            (
                LocalvaultStep { stage: LocalvaultStage::Chmod, ..s },
                act(say0(), Op::Query { program: String::from_str("chmod"), args: args2("+x", LOCALVAULT_BIN) }),
            )
        } else {
            let op = agent_probe(s.home.as_str());
            (LocalvaultStep { stage: LocalvaultStage::AgentCheck, ..s }, act(say0(), op))
        },
        LocalvaultStage::Chmod => {
            let op = agent_probe(s.home.as_str());
            (
                LocalvaultStep { stage: LocalvaultStage::AgentCheck, ..s },
                act(say1(out("[veil] veilkey-localvault 설치 완료")), op),
            )
        },
        LocalvaultStage::AgentCheck => if e.ok() {
            (
                LocalvaultStep { stage: LocalvaultStage::Finished, ..s },
                act(say1(out("[veil] LaunchAgent 이미 등록됨")), Op::Finish),
            )
        } else {
            let op = Op::WriteText {
                path: make_plist_path(s.home.as_str()),
                content: make_plist_content(s.home.as_str()),
                context: String::from_str("LaunchAgent plist 생성 실패"),
            };
            (
                LocalvaultStep { stage: LocalvaultStage::AgentWrite, ..s },
                act(say1(out("[veil] LaunchAgent 등록 중...")), op),
            )
        },
        LocalvaultStage::AgentWrite => {
            let mut args: Vec<String> = Vec::new();
            args.push(String::from_str("load"));
            args.push(make_plist_path(s.home.as_str()));
            proof {
                assert(args.deep_view() =~= seq!["load"@, plist_path(s.home@)]);
            }
            (
                LocalvaultStep { stage: LocalvaultStage::AgentLoad, ..s },
                act(say0(), Op::Interactive { program: String::from_str("launchctl"), args }),
            )
        },
        LocalvaultStage::AgentLoad => (
            LocalvaultStep { stage: LocalvaultStage::Finished, ..s },
            act(say1(out("[veil] LaunchAgent 등록 완료 (부팅 시 자동 시작)")), Op::Finish),
        ),
        LocalvaultStage::Finished => (s, act(say0(), Op::Finish)),
    }
}

/// Every reply brings installing the local vault strictly closer to its end,
/// the procedure asks for nothing more exactly once it is over, and it keeps
/// the home directory it was started with.
pub proof fn install_localvault_progresses(s: LocalvaultStepView, e: EventView)
    ensures
        ({
            let (t, a) = localvault_next(s, e);
            &&& a.op.is_terminal() <==> t.stage == LocalvaultStage::Finished
            &&& fails_loudly(a)
            &&& s.stage != LocalvaultStage::Finished ==> localvault_rank(t.stage) < localvault_rank(s.stage)
            &&& t.home == s.home
        }),
{
}

/// `install_localvault` as a transition function.
pub open spec fn localvault_machine() -> spec_fn(LocalvaultStepView, EventView) -> (LocalvaultStepView, ActionView) {
    |s: LocalvaultStepView, e: EventView| localvault_next(s, e)
}

/// What installing the local vault does when handed `replies`, the first of which starts it.
pub open spec fn localvault_run(home: Seq<char>, replies: Seq<EventView>) -> Seq<ActionView> {
    replay(localvault_machine(), localvault_start(home), replies)
}

/// The local vault binary is copied from the remote host only after
/// `which veilkey-localvault` has reported it missing.
pub proof fn localvault_copied_only_when_missing(home: Seq<char>, replies: Seq<EventView>, k: int)
    requires
        0 <= k < replies.len(),
        localvault_run(home, replies)[k].op is Run,
    ensures
        exists|j: int|
            0 <= j < k && #[trigger] localvault_run(home, replies)[j].op == localvault_probe_op() && !replies[j + 1].ok(),
{
    let good = |s: LocalvaultStepView|
        s.stage == LocalvaultStage::Config || s.stage == LocalvaultStage::Find || s.stage == LocalvaultStage::Copy
            || s.stage == LocalvaultStage::Chmod;
    let entry = |s: LocalvaultStepView| s.stage == LocalvaultStage::Probe;
    let gate = |e: EventView| !e.ok();
    let target = |op: OpView| op is Run;
    lemma_gated(
        localvault_machine(),
        |s| true,
        good,
        entry,
        gate,
        localvault_probe_op(),
        target,
        localvault_start(home),
        replies,
        k,
    );
}

/// The LaunchAgent file is written only after it has been found missing, so
/// an existing one is never overwritten.
pub proof fn agent_written_only_when_missing(home: Seq<char>, replies: Seq<EventView>, k: int)
    requires
        0 <= k < replies.len(),
        localvault_run(home, replies)[k].op is WriteText,
    ensures
        exists|j: int|
            0 <= j < k && #[trigger] localvault_run(home, replies)[j].op == agent_probe_op(home) && !replies[j + 1].ok(),
{
    let inv = |s: LocalvaultStepView| s.home == home;
    let good = |s: LocalvaultStepView| false;
    let entry = |s: LocalvaultStepView| s.stage == LocalvaultStage::AgentCheck;
    let gate = |e: EventView| !e.ok();
    let target = |op: OpView| op is WriteText;
    lemma_gated(localvault_machine(), inv, good, entry, gate, agent_probe_op(home), target, localvault_start(home), replies, k);
}

/// Installing the local vault ends, by success or by failure, within 9 replies, whatever they are.
pub proof fn install_localvault_ends(home: Seq<char>, replies: Seq<EventView>)
    requires
        replies.len() >= 9,
    ensures
        exists|k: int|
            0 <= k < 9 && #[trigger] replay(localvault_machine(), localvault_start(home), replies)[k].op.is_terminal(),
{
    let rank = |s: LocalvaultStepView| localvault_rank(s.stage);
    let done = |s: LocalvaultStepView| s.stage == LocalvaultStage::Finished;
    assert forall|s: LocalvaultStepView, e: EventView|
        #[trigger] localvault_machine()(s, e).1.op.is_terminal() <==> done(localvault_machine()(s, e).0) by {
        install_localvault_progresses(s, e);
    }
    assert forall|s: LocalvaultStepView, e: EventView|
        !done(s) implies rank(#[trigger] localvault_machine()(s, e).0) < rank(s) by {
        install_localvault_progresses(s, e);
    }
    lemma_ends_within(localvault_machine(), rank, done, localvault_start(home), replies);
}

/// Installing the local vault ends the process only when the remote host did
/// not name the binary, and finishes only at the LaunchAgent: once it found the
/// agent registered, or once it registered it.  A failed copy, in particular,
/// does not end it.
pub proof fn localvault_finishes_only_at_agent(s: LocalvaultStepView, e: EventView)
    ensures
        ({
            let (t, a) = localvault_next(s, e);
            &&& (a.op is Finish && s.stage != LocalvaultStage::Finished) ==> (s.stage == LocalvaultStage::AgentCheck
                || s.stage == LocalvaultStage::AgentLoad)
            &&& a.op is Exit ==> s.stage == LocalvaultStage::Find
        }),
{
}

/// Whatever the copy from the remote host gave, the LaunchAgent of the same
/// home directory is probed right after it (failed copy) or right after the
/// `chmod` that follows it (successful copy).
pub proof fn agent_probed_after_copy(s: LocalvaultStepView, copied: EventView, chmodded: EventView)
    requires
        s.stage == LocalvaultStage::Copy,
    ensures
        ({
            let (t, a) = localvault_next(s, copied);
            ||| a.op == agent_probe_op(s.home) && t.stage == LocalvaultStage::AgentCheck
            ||| localvault_next(t, chmodded).1.op == agent_probe_op(s.home) && localvault_next(t, chmodded).0.stage
                == LocalvaultStage::AgentCheck
        }),
{
}

/// The start of a run of installing the local vault that finds no binary: the
/// configuration is loaded, the remote host of that configuration is asked for
/// the binary, and the path it names, trimmed, is copied to
/// `/usr/local/bin/veilkey-localvault`; a reply that names nothing ends the
/// process with code 1.  A binary that `which` finds is left alone and the
/// LaunchAgent of the home directory is probed next.
pub proof fn install_localvault_run(home: Seq<char>, replies: Seq<EventView>)
    requires
        replies.len() >= 4,
    ensures
        ({
            let run = localvault_run(home, replies);
            let cfg = replies[2];
            let path = trimmed(replies[3].text());
            &&& run[0].op == localvault_probe_op()
            &&& replies[1].ok() ==> run[1].op == OpView::PathExists {
                path: home + "/Library/LaunchAgents/com.veilkey.localvault.plist"@,
            }
            &&& !replies[1].ok() ==> {
                &&& run[1].op == OpView::LoadConfig
                &&& run[2].op == OpView::Remote { host: cfg.host(), user: cfg.user(), command: LOCALVAULT_FIND@ }
                &&& (replies[3].ok() && path.len() > 0) ==> run[3].op == OpView::Run {
                    program: "scp"@,
                    args: seq![cfg.user() + "@"@ + cfg.host() + ":"@ + path, "/usr/local/bin/veilkey-localvault"@],
                }
                &&& !(replies[3].ok() && path.len() > 0) ==> run[3].op == OpView::Exit { code: 1 }
            }
        }),
{
    let start = localvault_start(home);
    let m = localvault_machine();
    reveal_with_fuel(state_after, 5);
    assert forall|j: int| 0 <= j < 4 implies #[trigger] localvault_run(home, replies)[j] == m(
        state_after(m, start, replies, j as nat),
        replies[j],
    ).1 by {
        lemma_replay_at(m, start, replies, j);
    }
}

} // verus!
