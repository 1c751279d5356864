//! Installing the VeilKey command-line client from the remote host.
use crate::plan::{lemma_replay_at, state_after, 
    act, args1, err, fails_loudly, labelled, lemma_ends_within, lemma_gated, out, replay, say0, say1, say2,
    Action, ActionView, Event, EventView, LineView, Op, OpView,
};
use crate::text::{is_blank_text, trim, trimmed};
use crate::veil::names::{local_bin, make_local_bin, make_remote_file, remote_file};
use vstd::prelude::*;

verus! {

/// The remote command that finds the client binary built on the remote host.
pub const CLI_FIND: &'static str =
    "which veilkey-cli 2>/dev/null || find /opt/veilkey -name veilkey-cli -type f 2>/dev/null | head -1";

/// Where `install_cli` stands.
#[derive(PartialEq, Eq, Structural, Clone, Copy, Debug)]
pub enum CliStage {
    /// Nothing done yet.
    Start,
    /// Waiting for `which veilkey-cli`.
    Probe,
    /// Waiting for the host configuration.
    Config,
    /// Waiting for the local program directory to exist.
    MakeDir,
    /// Waiting for the remote host to name the binary.
    Find,
    /// Waiting for the copy.
    Copy,
    /// Waiting for the binary to be made executable.
    Chmod,
    /// The procedure is over.
    Finished,
}

/// The state of `install_cli`: where it stands, the home directory, and the
/// remote host and user once the configuration is loaded.
#[derive(Debug)]
pub struct CliStep {
    pub stage: CliStage,
    pub home: String,
    pub host: String,
    pub user: String,
}

pub struct CliStepView {
    pub stage: CliStage,
    pub home: Seq<char>,
    pub host: Seq<char>,
    pub user: Seq<char>,
}

impl View for CliStep {
    type V = CliStepView;

    open spec fn view(&self) -> CliStepView {
        CliStepView { stage: self.stage, home: self.home@, host: self.host@, user: self.user@ }
    }
}

impl CliStep {
    /// A fresh procedure for the home directory `home`.
    pub fn new(home: String) -> (r: CliStep)
        ensures
            r@ == cli_start(home@),
    {
        CliStep { stage: CliStage::Start, home, host: String::new(), user: String::new() }
    }
}

pub open spec fn cli_start(home: Seq<char>) -> CliStepView {
    CliStepView { stage: CliStage::Start, home, host: Seq::empty(), user: Seq::empty() }
}

pub open spec fn cli_probe_op() -> OpView {
    OpView::Query { program: "which"@, args: seq!["veilkey-cli"@] }
}

/// Where the client is installed.
pub open spec fn cli_target(home: Seq<char>) -> Seq<char> {
    local_bin(home) + "/veilkey-cli"@
}

/// What `install_cli` does on each reply.
pub open spec fn cli_next(s: CliStepView, e: EventView) -> (CliStepView, ActionView) {
    match s.stage {
        CliStage::Start => (CliStepView { stage: CliStage::Probe, ..s }, ActionView { say: seq![], op: cli_probe_op() }),
        CliStage::Probe => if e.ok() {
            (
                CliStepView { stage: CliStage::Finished, ..s },
                ActionView { say: seq![LineView::Stdout("[veil] veilkey-cli 이미 설치됨"@)], op: OpView::Finish },
            )
        } else {
            (
                CliStepView { stage: CliStage::Config, ..s },
                ActionView { say: seq![LineView::Stdout("[veil] veilkey-cli 설치 중..."@)], op: OpView::LoadConfig },
            )
        },
        CliStage::Config => (
            CliStepView { stage: CliStage::MakeDir, host: e.host(), user: e.user(), ..s },
            ActionView { say: seq![], op: OpView::EnsureDir { path: local_bin(s.home) } },
        ),
        CliStage::MakeDir => (
            CliStepView { stage: CliStage::Find, ..s },
            ActionView { say: seq![], op: OpView::Remote { host: s.host, user: s.user, command: CLI_FIND@ } },
        ),
        CliStage::Find => {
            let path = trimmed(e.text());
            if e.ok() && path.len() > 0 {
                (
                    CliStepView { stage: CliStage::Copy, ..s },
                    ActionView {
                        say: seq![LineView::Stdout("[veil] Proxmox에서 바이너리 복사: "@ + path)],
                        op: OpView::Run {
                            program: "scp"@,
                            args: seq![remote_file(s.user, s.host, path), cli_target(s.home)],
                        },
                    },
                )
            } else {
                (
                    CliStepView { stage: CliStage::Finished, ..s },
                    ActionView {
                        say: seq![
                            LineView::Stderr("[veil] Proxmox에서 veilkey-cli를 찾을 수 없습니다."@),
                            LineView::Stderr("  수동 설치가 필요합니다."@),
                        ],
                        op: OpView::Exit { code: 1 },
                    },
                )
            }
        },
        CliStage::Copy => if e.ok() {
            (
                CliStepView { stage: CliStage::Chmod, ..s },
                ActionView {
                    say: seq![],
                    op: OpView::Query { program: "chmod"@, args: seq!["+x"@, cli_target(s.home)] },
                },
            )
        } else {
            (CliStepView { stage: CliStage::Finished, ..s }, ActionView { say: seq![], op: OpView::Finish })
        },
        CliStage::Chmod => (
            CliStepView { stage: CliStage::Finished, ..s },
            ActionView { say: seq![LineView::Stdout("[veil] veilkey-cli 설치 완료"@)], op: OpView::Finish },
        ),
        CliStage::Finished => (s, ActionView { say: seq![], op: OpView::Finish }),
    }
}

/// How many replies `install_cli` can still take at most.
pub open spec fn cli_rank(s: CliStage) -> nat {
    match s {
        CliStage::Start => 7,
        CliStage::Probe => 6,
        CliStage::Config => 5,
        CliStage::MakeDir => 4,
        CliStage::Find => 3,
        CliStage::Copy => 2,
        CliStage::Chmod => 1,
        CliStage::Finished => 0,
    }
}

fn make_cli_target(home: &str) -> (r: String)
    ensures
        r@ == cli_target(home@),
{
    make_local_bin(home).concat("/veilkey-cli")
}

/// One step of installing the client: given where the procedure stands and
/// the reply to its last operation, where it goes, what it prints and what it
/// asks for next.  A procedure starts from `CliStep::new` with `Event::Done`.
pub fn install_cli(s: CliStep, e: Event) -> (r: (CliStep, Action))
    ensures
        (r.0@, r.1@) == cli_next(s@, e@),
{
    match s.stage {
        CliStage::Start => (
            CliStep { stage: CliStage::Probe, ..s },
            act(say0(), Op::Query { program: String::from_str("which"), args: args1("veilkey-cli") }),
        ),
        CliStage::Probe => if e.ok() {
            (CliStep { stage: CliStage::Finished, ..s }, act(say1(out("[veil] veilkey-cli 이미 설치됨")), Op::Finish))
        } else {
            (CliStep { stage: CliStage::Config, ..s }, act(say1(out("[veil] veilkey-cli 설치 중...")), Op::LoadConfig))
        },
        CliStage::Config => {
            let path = make_local_bin(s.home.as_str());
            (
                CliStep { stage: CliStage::MakeDir, home: s.home, host: e.host(), user: e.user() },
                act(say0(), Op::EnsureDir { path }),
            )
        },
        CliStage::MakeDir => {
            let op = Op::Remote { host: s.host.clone(), user: s.user.clone(), command: String::from_str(CLI_FIND) };
            (CliStep { stage: CliStage::Find, ..s }, act(say0(), op))
        },
        CliStage::Find => {
            let text = e.text();
            let path = trim(text.as_str());
            if e.ok() && !is_blank_text(path.as_str()) {
                proof {
                    crate::text::lemma_trim_idempotent(text@);
                }
                let line = labelled("[veil] Proxmox에서 바이너리 복사: ", path.as_str());
                let mut args: Vec<String> = Vec::new();
                args.push(make_remote_file(s.user.as_str(), s.host.as_str(), path.as_str()));
                args.push(make_cli_target(s.home.as_str()));
                proof {
                    assert(args.deep_view() =~= seq![
                        remote_file(s.user@, s.host@, path@),
                        cli_target(s.home@),
                    ]);
                }
                (
                    CliStep { stage: CliStage::Copy, ..s },
                    act(say1(line), Op::Run { program: String::from_str("scp"), args }),
                )
            } else {
                proof {
                    crate::text::lemma_trim_idempotent(text@);
                }
                (
                    CliStep { stage: CliStage::Finished, ..s },
                    act(
                        say2(
                            err("[veil] Proxmox에서 veilkey-cli를 찾을 수 없습니다."),
                            err("  수동 설치가 필요합니다."),
                        ),
                        Op::Exit { code: 1 },
                    ),
                )
            }
        },
        CliStage::Copy => if e.ok() {
            let mut args: Vec<String> = Vec::new();
            args.push(String::from_str("+x"));
            args.push(make_cli_target(s.home.as_str()));
            proof {
                assert(args.deep_view() =~= seq!["+x"@, cli_target(s.home@)]);
            }
            (
                CliStep { stage: CliStage::Chmod, ..s },
                act(say0(), Op::Query { program: String::from_str("chmod"), args }),
            )
        } else {
            (CliStep { stage: CliStage::Finished, ..s }, act(say0(), Op::Finish))
        },
        CliStage::Chmod => (
            CliStep { stage: CliStage::Finished, ..s },
            act(say1(out("[veil] veilkey-cli 설치 완료")), Op::Finish),
        ),
        CliStage::Finished => (s, act(say0(), Op::Finish)),
    }
}

/// Every reply brings installing the client strictly closer to its end, the
/// procedure asks for nothing more exactly once it is over, and it keeps the
/// home directory it was started with.
pub proof fn install_cli_progresses(s: CliStepView, e: EventView)
    ensures
        ({
            let (t, a) = cli_next(s, e);
            &&& a.op.is_terminal() <==> t.stage == CliStage::Finished
            &&& fails_loudly(a)
            &&& s.stage != CliStage::Finished ==> cli_rank(t.stage) < cli_rank(s.stage)
            &&& t.home == s.home
        }),
{
}

/// `install_cli` as a transition function.
pub open spec fn cli_machine() -> spec_fn(CliStepView, EventView) -> (CliStepView, ActionView) {
    |s: CliStepView, e: EventView| cli_next(s, e)
}

/// What installing the client does when handed `replies`, the first of which starts it.
pub open spec fn cli_run(home: Seq<char>, replies: Seq<EventView>) -> Seq<ActionView> {
    replay(cli_machine(), cli_start(home), replies)
}

/// The client is copied from the remote host only after `which veilkey-cli`
/// has reported it missing.
pub proof fn cli_copied_only_when_missing(home: Seq<char>, replies: Seq<EventView>, k: int)
    requires
        0 <= k < replies.len(),
        cli_run(home, replies)[k].op is Run,
    ensures
        exists|j: int| 0 <= j < k && #[trigger] cli_run(home, replies)[j].op == cli_probe_op() && !replies[j + 1].ok(),
{
    let good = |s: CliStepView|
        s.stage == CliStage::Config || s.stage == CliStage::MakeDir || s.stage == CliStage::Find || s.stage
            == CliStage::Copy || s.stage == CliStage::Chmod;
    let entry = |s: CliStepView| s.stage == CliStage::Probe;
    let gate = |e: EventView| !e.ok();
    let target = |op: OpView| op is Run;
    lemma_gated(cli_machine(), |s| true, good, entry, gate, cli_probe_op(), target, cli_start(home), replies, k);
}

/// Installing the client ends, by success or by failure, within 7 replies, whatever they are.
pub proof fn install_cli_ends(home: Seq<char>, replies: Seq<EventView>)
    requires
        replies.len() >= 7,
    ensures
        exists|k: int| 0 <= k < 7 && #[trigger] replay(cli_machine(), cli_start(home), replies)[k].op.is_terminal(),
{
    let rank = |s: CliStepView| cli_rank(s.stage);
    let done = |s: CliStepView| s.stage == CliStage::Finished;
    assert forall|s: CliStepView, e: EventView|
        #[trigger] cli_machine()(s, e).1.op.is_terminal() <==> done(cli_machine()(s, e).0) by {
        install_cli_progresses(s, e);
    }
    assert forall|s: CliStepView, e: EventView| !done(s) implies rank(#[trigger] cli_machine()(s, e).0) < rank(s) by {
        install_cli_progresses(s, e);
    }
    lemma_ends_within(cli_machine(), rank, done, cli_start(home), replies);
}

/// A whole run of installing the client: a client that `which` finds is left
/// alone; otherwise the configuration is loaded, the program directory of the
/// home directory is made, the remote host of that configuration is asked for
/// the binary, and the path it names, trimmed, is copied into the program
/// directory; a reply that names nothing ends the process with code 1.
pub proof fn install_cli_run(home: Seq<char>, replies: Seq<EventView>)
    requires
        replies.len() >= 5,
    ensures
        ({
            let run = cli_run(home, replies);
            let cfg = replies[2];
            let path = trimmed(replies[4].text());
            &&& run[0].op == cli_probe_op()
            &&& replies[1].ok() ==> run[1].op == OpView::Finish
            &&& !replies[1].ok() ==> {
                &&& run[1].op == OpView::LoadConfig
                &&& run[2].op == OpView::EnsureDir { path: home + "/.local/bin"@ }
                &&& run[3].op == OpView::Remote { host: cfg.host(), user: cfg.user(), command: CLI_FIND@ }
                &&& (replies[4].ok() && path.len() > 0) ==> run[4].op == OpView::Run {
                    program: "scp"@,
                    args: seq![cfg.user() + "@"@ + cfg.host() + ":"@ + path, home + "/.local/bin"@ + "/veilkey-cli"@],
                }
                &&& !(replies[4].ok() && path.len() > 0) ==> run[4].op == OpView::Exit { code: 1 }
            }
        }),
{
    let start = cli_start(home);
    let m = cli_machine();
    reveal_with_fuel(state_after, 6);
    assert forall|j: int| 0 <= j < 5 implies #[trigger] cli_run(home, replies)[j] == m(
        state_after(m, start, replies, j as nat),
        replies[j],
    ).1 by {
        lemma_replay_at(m, start, replies, j);
    }
}

} // verus!
