//! Reporting the state of VeilKey on the host.
use crate::plan::{lemma_replay_at, state_after, 
    act, args1, fails_loudly, labelled, lemma_ends_within, out, pick, replay, say0, say1, Action, ActionView,
    Event, EventView, Line, LineView, Op, OpView,
};
use crate::text::{contains, has_infix, is_blank, is_blank_text};
use crate::veil::names::{
    health_url, make_health_url, make_plist_path, make_profile_path, make_tunnel_pattern,
    make_vaultcenter_health_command, plist_path, profile_path, tunnel_pattern, vaultcenter_health_command,
    LOCALVAULT_PORT, VAULTCENTER_IP, VAULTCENTER_LXC, VAULTCENTER_PORT,
};
use crate::veil::tunnel::{
    connect_next, disconnect_next, tunnel_kill_op, ConnectStage, ConnectStepView, DisconnectStep,
};
use vstd::prelude::*;

verus! {

/// Where the VeilKey report stands.
#[derive(PartialEq, Eq, Structural, Clone, Copy, Debug)]
pub enum VeilReportStage {
    /// Nothing done yet.
    Start,
    /// Waiting for `which veilkey-cli`.
    Cli,
    /// Waiting for `which veil`.
    Veil,
    /// Waiting for the local vault's health check.
    Health,
    /// Waiting for `which veilkey-localvault`.
    LocalvaultBin,
    /// Waiting to learn whether the LaunchAgent exists.
    Agent,
    /// Waiting for the host configuration.
    Config,
    /// Waiting for VaultCenter's health check on the remote host.
    VaultCenter,
    /// Waiting for the search for a running tunnel.
    Tunnel,
    /// Waiting to learn whether the shell profile exists.
    Profile,
    /// The report is complete.
    Finished,
}

/// The state of the VeilKey report: where it stands and the home directory.
#[derive(Debug)]
pub struct VeilReportStep {
    pub stage: VeilReportStage,
    pub home: String,
}

pub struct VeilReportStepView {
    pub stage: VeilReportStage,
    pub home: Seq<char>,
}

impl View for VeilReportStep {
    type V = VeilReportStepView;

    open spec fn view(&self) -> VeilReportStepView {
        VeilReportStepView { stage: self.stage, home: self.home@ }
    }
}

impl VeilReportStep {
    /// A fresh report for the home directory `home`.
    pub fn new(home: String) -> (r: VeilReportStep)
        ensures
            r@ == (VeilReportStepView { stage: VeilReportStage::Start, home: home@ }),
    {
        VeilReportStep { stage: VeilReportStage::Start, home }
    }
}

pub open spec fn mark(b: bool, yes: Seq<char>, no: Seq<char>) -> Seq<char> {
    if b {
        yes
    } else {
        no
    }
}

pub open spec fn installed(b: bool) -> Seq<char> {
    mark(b, "✓ 설치됨"@, "✗ 미설치"@)
}

pub open spec fn running(b: bool) -> Seq<char> {
    mark(b, "✓ 실행 중"@, "✗ 미실행"@)
}

/// What the VeilKey report does on each reply.
pub open spec fn veil_report_next(s: VeilReportStepView, e: EventView) -> (VeilReportStepView, ActionView) {
    let to = |stage: VeilReportStage| VeilReportStepView { stage, ..s };
    let line = |t: Seq<char>| seq![LineView::Stdout(t)];
    match s.stage {
        VeilReportStage::Start => (
            to(VeilReportStage::Cli),
            ActionView {
                say: line("=== VeilKey 상태 ===\n"@),
                op: OpView::Query { program: "which"@, args: seq!["veilkey-cli"@] },
            },
        ),
        VeilReportStage::Cli => (
            to(VeilReportStage::Veil),
            ActionView {
                say: line("[veilkey-cli] "@ + installed(e.ok())),
                op: OpView::Query { program: "which"@, args: seq!["veil"@] },
            },
        ),
        VeilReportStage::Veil => (
            to(VeilReportStage::Health),
            ActionView {
                say: line("[veil] "@ + installed(e.ok())),
                op: OpView::Query { program: "curl"@, args: seq!["-s"@, health_url()] },
            },
        ),
        VeilReportStage::Health => (
            to(VeilReportStage::LocalvaultBin),
            ActionView {
                say: line("[LocalVault] 127.0.0.1:"@ + LOCALVAULT_PORT@ + " "@ + running(has_infix(e.text(), "ok"@))),
                op: OpView::Query { program: "which"@, args: seq!["veilkey-localvault"@] },
            },
        ),
        VeilReportStage::LocalvaultBin => (
            to(VeilReportStage::Agent),
            ActionView {
                say: line("[LocalVault 바이너리] "@ + installed(e.ok())),
                op: OpView::PathExists { path: plist_path(s.home) },
            },
        ),
        VeilReportStage::Agent => (
            to(VeilReportStage::Config),
            ActionView {
                say: line("[LaunchAgent] "@ + mark(e.ok(), "✓ 등록됨 (부팅 시 자동 시작)"@, "✗ 미등록"@)),
                op: OpView::LoadConfig,
            },
        ),
        VeilReportStage::Config => (
            to(VeilReportStage::VaultCenter),
            ActionView {
                say: seq![],
                op: OpView::Remote { host: e.host(), user: e.user(), command: vaultcenter_health_command() },
            },
        ),
        VeilReportStage::VaultCenter => (
            to(VeilReportStage::Tunnel),
            ActionView {
                say: line(
                    "[VaultCenter] LXC "@ + VAULTCENTER_LXC@ + " ("@ + VAULTCENTER_IP@ + ":"@ + VAULTCENTER_PORT@ + ") "@
                        + running(e.ok()),
                ),
                op: OpView::Query { program: "pgrep"@, args: seq!["-f"@, tunnel_pattern()] },
            },
        ),
        VeilReportStage::Tunnel => (
            to(VeilReportStage::Profile),
            ActionView {
                say: line("[VaultCenter 터널] "@ + mark(!is_blank(e.text()), "✓ 연결됨"@, "✗ 미연결"@)),
                op: OpView::PathExists { path: profile_path(s.home) },
            },
        ),
        VeilReportStage::Profile => (
            to(VeilReportStage::Finished),
            ActionView {
                say: line("[셸 프로필] "@ + mark(e.ok(), "✓ ~/.veilkey.sh"@, "✗ 미설정"@)),
                op: OpView::Finish,
            },
        ),
        VeilReportStage::Finished => (s, ActionView { say: seq![], op: OpView::Finish }),
    }
}

/// How many replies the VeilKey report can still take at most.
pub open spec fn veil_report_rank(s: VeilReportStage) -> nat {
    match s {
        VeilReportStage::Start => 10,
        VeilReportStage::Cli => 9,
        VeilReportStage::Veil => 8,
        VeilReportStage::Health => 7,
        VeilReportStage::LocalvaultBin => 6,
        VeilReportStage::Agent => 5,
        VeilReportStage::Config => 4,
        VeilReportStage::VaultCenter => 3,
        VeilReportStage::Tunnel => 2,
        VeilReportStage::Profile => 1,
        VeilReportStage::Finished => 0,
    }
}

fn which(tool: &str) -> (r: Op)
    ensures
        r@ == (OpView::Query { program: "which"@, args: seq![tool@] }),
{
    Op::Query { program: String::from_str("which"), args: args1(tool) }
}

fn query2(program: &str, a: &str, b: String) -> (r: Op)
    ensures
        r@ == (OpView::Query { program: program@, args: seq![a@, b@] }),
{
    let mut args: Vec<String> = Vec::new();
    args.push(a.to_owned());
    args.push(b);
    proof {
        assert(args.deep_view() =~= seq![a@, b@]);
    }
    Op::Query { program: program.to_owned(), args }
}

fn installed_mark(b: bool) -> (r: &'static str)
    ensures
        r@ == installed(b),
{
    pick(b, "✓ 설치됨", "✗ 미설치")
}

fn running_mark(b: bool) -> (r: &'static str)
    ensures
        r@ == running(b),
{
    pick(b, "✓ 실행 중", "✗ 미실행")
}

/// One step of the VeilKey report: given where the report stands and the reply
/// to its last probe, where it goes, what it prints and what it probes next.
/// A report starts from `VeilReportStep::new` with `Event::Done`.
pub fn status(s: VeilReportStep, e: Event) -> (r: (VeilReportStep, Action))
    ensures
        (r.0@, r.1@) == veil_report_next(s@, e@),
{
    match s.stage {
        VeilReportStage::Start => (
            VeilReportStep { stage: VeilReportStage::Cli, ..s },
            act(say1(out("=== VeilKey 상태 ===\n")), which("veilkey-cli")),
        ),
        VeilReportStage::Cli => (
            VeilReportStep { stage: VeilReportStage::Veil, ..s },
            act(say1(labelled("[veilkey-cli] ", installed_mark(e.ok()))), which("veil")),
        ),
        VeilReportStage::Veil => (
            VeilReportStep { stage: VeilReportStage::Health, ..s },
            act(say1(labelled("[veil] ", installed_mark(e.ok()))), query2("curl", "-s", make_health_url())),
        ),
        VeilReportStage::Health => {
            let text = e.text();
            let up = contains(text.as_str(), "ok");
            let line = Line::Stdout(
                String::from_str("[LocalVault] 127.0.0.1:").concat(LOCALVAULT_PORT).concat(" ").concat(running_mark(up)),
            );
            (
                VeilReportStep { stage: VeilReportStage::LocalvaultBin, ..s },
                act(say1(line), which("veilkey-localvault")),
            )
        },
        VeilReportStage::LocalvaultBin => {
            let op = Op::PathExists { path: make_plist_path(s.home.as_str()) };
            (
                VeilReportStep { stage: VeilReportStage::Agent, ..s },
                act(say1(labelled("[LocalVault 바이너리] ", installed_mark(e.ok()))), op),
            )
        },
        VeilReportStage::Agent => {
            let m = pick(e.ok(), "✓ 등록됨 (부팅 시 자동 시작)", "✗ 미등록");
            (
                VeilReportStep { stage: VeilReportStage::Config, ..s },
                act(say1(labelled("[LaunchAgent] ", m)), Op::LoadConfig),
            )
        },
        VeilReportStage::Config => {
            let op = Op::Remote { host: e.host(), user: e.user(), command: make_vaultcenter_health_command() };
            (VeilReportStep { stage: VeilReportStage::VaultCenter, ..s }, act(say0(), op))
        },
        VeilReportStage::VaultCenter => {
            let line = Line::Stdout(
                String::from_str("[VaultCenter] LXC ").concat(VAULTCENTER_LXC).concat(" (").concat(VAULTCENTER_IP).concat(
                    ":",
                ).concat(VAULTCENTER_PORT).concat(") ").concat(running_mark(e.ok())),
            );
            (
                VeilReportStep { stage: VeilReportStage::Tunnel, ..s },
                act(say1(line), query2("pgrep", "-f", make_tunnel_pattern())),
            )
        },
        VeilReportStage::Tunnel => {
            let text = e.text();
            let m = pick(!is_blank_text(text.as_str()), "✓ 연결됨", "✗ 미연결");
            let op = Op::PathExists { path: make_profile_path(s.home.as_str()) };
            (
                VeilReportStep { stage: VeilReportStage::Profile, ..s },
                act(say1(labelled("[VaultCenter 터널] ", m)), op),
            )
        },
        VeilReportStage::Profile => {
            let m = pick(e.ok(), "✓ ~/.veilkey.sh", "✗ 미설정");
            (
                VeilReportStep { stage: VeilReportStage::Finished, ..s },
                act(say1(labelled("[셸 프로필] ", m)), Op::Finish),
            )
        },
        VeilReportStage::Finished => (s, act(say0(), Op::Finish)),
    }
}

/// Every reply brings the VeilKey report strictly closer to its end, and the
/// report asks for nothing more exactly once it is complete.  It only probes:
/// it neither writes a file nor runs an attached command.
pub proof fn status_progresses(s: VeilReportStepView, e: EventView)
    ensures
        ({
            let (t, a) = veil_report_next(s, e);
            &&& a.op.is_terminal() <==> t.stage == VeilReportStage::Finished
            &&& fails_loudly(a)
            &&& s.stage != VeilReportStage::Finished ==> veil_report_rank(t.stage) < veil_report_rank(s.stage)
            &&& !(a.op is WriteText) && !(a.op is Interactive) && !(a.op is Run) && !(a.op is Exit)
        }),
{
}

/// `veil_report_next` as a transition function.
pub open spec fn veil_report_machine() -> spec_fn(VeilReportStepView, EventView) -> (VeilReportStepView, ActionView) {
    |s: VeilReportStepView, e: EventView| veil_report_next(s, e)
}

/// The VeilKey report ends, by success or by failure, within 10 replies, whatever they are.
pub proof fn status_ends(home: Seq<char>, replies: Seq<EventView>)
    requires
        replies.len() >= 10,
    ensures
        exists|k: int|
            0 <= k < 10 && #[trigger] replay(veil_report_machine(), VeilReportStepView { stage: VeilReportStage::Start, home }, replies)[k].op.is_terminal(),
{
    let rank = |s: VeilReportStepView| veil_report_rank(s.stage);
    let done = |s: VeilReportStepView| s.stage == VeilReportStage::Finished;
    assert forall|s: VeilReportStepView, e: EventView|
        #[trigger] veil_report_machine()(s, e).1.op.is_terminal() <==> done(veil_report_machine()(s, e).0) by {
        status_progresses(s, e);
    }
    assert forall|s: VeilReportStepView, e: EventView|
        !done(s) implies rank(#[trigger] veil_report_machine()(s, e).0) < rank(s) by {
        status_progresses(s, e);
    }
    lemma_ends_within(veil_report_machine(), rank, done, VeilReportStepView { stage: VeilReportStage::Start, home }, replies);
}

/// A whole VeilKey report, reply by reply: each line reports what the reply
/// to the probe before it says.  In particular the tunnel line says
/// "connected" exactly when the process search printed something other than
/// whitespace, and the local vault runs exactly when its health reply holds
/// "ok".  Only the last action ends the report.
pub proof fn status_report_run(home: Seq<char>, replies: Seq<EventView>)
    requires
        replies.len() >= 10,
    ensures
        ({
            let run = replay(veil_report_machine(), VeilReportStepView { stage: VeilReportStage::Start, home }, replies);
            let line = |t: Seq<char>| seq![LineView::Stdout(t)];
            &&& run[0].say == line("=== VeilKey 상태 ===\n"@)
            &&& run[1].say == line("[veilkey-cli] "@ + if replies[1].ok() { "✓ 설치됨"@ } else { "✗ 미설치"@ })
            &&& run[2].say == line("[veil] "@ + if replies[2].ok() { "✓ 설치됨"@ } else { "✗ 미설치"@ })
            &&& run[3].say == line(
                "[LocalVault] 127.0.0.1:10180 "@ + if has_infix(replies[3].text(), "ok"@) {
                    "✓ 실행 중"@
                } else {
                    "✗ 미실행"@
                },
            )
            &&& run[4].say == line("[LocalVault 바이너리] "@ + if replies[4].ok() { "✓ 설치됨"@ } else { "✗ 미설치"@ })
            &&& run[5].say == line(
                "[LaunchAgent] "@ + if replies[5].ok() { "✓ 등록됨 (부팅 시 자동 시작)"@ } else { "✗ 미등록"@ },
            )
            &&& run[6].op == OpView::Remote {
                host: replies[6].host(),
                user: replies[6].user(),
                command: vaultcenter_health_command(),
            }
            &&& run[7].say == line(
                "[VaultCenter] LXC 110 (10.50.0.110:11181) "@ + if replies[7].ok() { "✓ 실행 중"@ } else { "✗ 미실행"@ },
            )
            &&& run[7].op == OpView::Query { program: "pgrep"@, args: seq!["-f"@, tunnel_pattern()] }
            &&& run[8].say == line(
                "[VaultCenter 터널] "@ + if is_blank(replies[8].text()) { "✗ 미연결"@ } else { "✓ 연결됨"@ },
            )
            &&& run[8].op == OpView::PathExists { path: profile_path(home) }
            &&& run[9].say == line("[셸 프로필] "@ + if replies[9].ok() { "✓ ~/.veilkey.sh"@ } else { "✗ 미설정"@ })
            &&& run[9].op == OpView::Finish
            &&& forall|j: int| 0 <= j < 9 ==> !(#[trigger] run[j]).op.is_terminal()
        }),
{
    let start = VeilReportStepView { stage: VeilReportStage::Start, home };
    let m = veil_report_machine();
    let st = |k: nat| state_after(m, start, replies, k);
    reveal_with_fuel(state_after, 11);
    assert(st(1).stage == VeilReportStage::Cli && st(1).home == home);
    assert(st(2).stage == VeilReportStage::Veil && st(2).home == home);
    assert(st(3).stage == VeilReportStage::Health && st(3).home == home);
    assert(st(4).stage == VeilReportStage::LocalvaultBin && st(4).home == home);
    assert(st(5).stage == VeilReportStage::Agent && st(5).home == home);
    assert(st(6).stage == VeilReportStage::Config && st(6).home == home);
    assert(st(7).stage == VeilReportStage::VaultCenter && st(7).home == home);
    assert(st(8).stage == VeilReportStage::Tunnel && st(8).home == home);
    assert(st(9).stage == VeilReportStage::Profile && st(9).home == home);
    let run = replay(m, start, replies);
    assert forall|j: int| 0 <= j < 10 implies #[trigger] run[j] == m(st(j as nat), replies[j]).1 by {
        lemma_replay_at(m, start, replies, j);
    }
    reveal_strlit("10180");
    reveal_strlit("110");
    reveal_strlit("10.50.0.110");
    reveal_strlit("11181");
    reveal_strlit("[LocalVault] 127.0.0.1:");
    reveal_strlit("[LocalVault] 127.0.0.1:10180 ");
    reveal_strlit(" ");
    reveal_strlit("[VaultCenter] LXC ");
    reveal_strlit(" (");
    reveal_strlit(":");
    reveal_strlit(") ");
    reveal_strlit("[VaultCenter] LXC 110 (10.50.0.110:11181) ");
    assert("[LocalVault] 127.0.0.1:"@ + LOCALVAULT_PORT@ + " "@ =~= "[LocalVault] 127.0.0.1:10180 "@);
    assert("[VaultCenter] LXC "@ + VAULTCENTER_LXC@ + " ("@ + VAULTCENTER_IP@ + ":"@ + VAULTCENTER_PORT@ + ") "@
        =~= "[VaultCenter] LXC 110 (10.50.0.110:11181) "@);
}

/// The report's tunnel line, `disconnect_vaultcenter` and
/// `connect_vaultcenter` read a process-search reply alike: the report says
/// "connected" exactly when disconnecting would kill the tunnel and
/// connecting would leave it alone.
pub proof fn tunnel_line_agrees_with_connect_and_disconnect(
    s: VeilReportStepView,
    host: Seq<char>,
    user: Seq<char>,
    e: EventView,
)
    requires
        s.stage == VeilReportStage::Tunnel,
    ensures
        ({
            let said = veil_report_next(s, e).1.say;
            let connected = said == seq![LineView::Stdout("[VaultCenter 터널] ✓ 연결됨"@)];
            &&& connected <==> disconnect_next(DisconnectStep::Probe, e).1.op == tunnel_kill_op()
            &&& connected <==> connect_next(
                ConnectStepView { stage: ConnectStage::Probe, host, user },
                e,
            ).1.op is Finish
            &&& said.len() == 1
        }),
{
    reveal_strlit("[VaultCenter 터널] ✓ 연결됨");
    reveal_strlit("[VaultCenter 터널] ");
    reveal_strlit("✓ 연결됨");
    reveal_strlit("✗ 미연결");
    assert("[VaultCenter 터널] "@ + "✓ 연결됨"@ =~= "[VaultCenter 터널] ✓ 연결됨"@);
    let good_line = seq![LineView::Stdout("[VaultCenter 터널] ✓ 연결됨"@)];
    let said = veil_report_next(s, e).1.say;
    if is_blank(e.text()) {
        let bad = "[VaultCenter 터널] "@ + "✗ 미연결"@;
        assert(bad[17] != "[VaultCenter 터널] ✓ 연결됨"@[17]);
        assert(said[0] == LineView::Stdout(bad));
        assert(said[0] != good_line[0]);
        assert(said != good_line);
    } else {
        assert(said =~= good_line);
    }
}

} // verus!
