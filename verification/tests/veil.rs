use mac_host_commands::plan::{Action, Event, Line, Op};
use mac_host_commands::veil::cli::CliStep;
use mac_host_commands::veil::localvault::LocalvaultStep;
use mac_host_commands::veil::names::{
    make_health_url, make_plist_content, make_profile_content, make_tunnel_forward, make_tunnel_pattern,
    make_vaultcenter_health_command,
};
use mac_host_commands::veil::profile::ProfileStep;
use mac_host_commands::veil::report::VeilReportStep;
use mac_host_commands::veil::service::{StartStep, StopStep};
use mac_host_commands::veil::tunnel::{ConnectStep, DisconnectStep};
use mac_host_commands::veil::veil_bootstrap::VeilBootstrapStep;
use mac_host_commands::veil::{
    bootstrap, connect_vaultcenter, disconnect_vaultcenter, install_cli, install_localvault, localvault_start,
    localvault_stop, setup_profile, status,
};

const HOME: &str = "/Users/tester";

fn drive<S>(step: fn(S, Event) -> (S, Action), start: S, replies: Vec<Event>) -> Vec<Action> {
    let mut s = start;
    let mut acts = Vec::new();
    for e in replies {
        let (t, a) = step(s, e);
        acts.push(a);
        s = t;
    }
    acts
}

fn o(s: &str) -> Line {
    Line::Stdout(s.to_string())
}

fn x(s: &str) -> Line {
    Line::Stderr(s.to_string())
}

fn strings(v: &[&str]) -> Vec<String> {
    v.iter().map(|s| s.to_string()).collect()
}

fn query(p: &str, args: &[&str]) -> Op {
    Op::Query { program: p.to_string(), args: strings(args) }
}

fn attached(p: &str, args: &[&str]) -> Op {
    Op::Interactive { program: p.to_string(), args: strings(args) }
}

fn act(say: Vec<Line>, op: Op) -> Action {
    Action { say, op }
}

fn output(ok: bool, out: &str) -> Event {
    Event::Output { success: ok, stdout: out.to_string() }
}

fn config() -> Event {
    Event::Config { host: "pve.local".to_string(), user: "root".to_string() }
}

fn plist() -> String {
    format!("{HOME}/Library/LaunchAgents/com.veilkey.localvault.plist")
}

#[test]
fn names_and_addresses() {
    assert_eq!(make_health_url(), "http://127.0.0.1:10180/health");
    assert_eq!(make_tunnel_pattern(), "ssh.*11181.*10.50.0.110");
    assert_eq!(make_tunnel_forward(), "11181:10.50.0.110:11181");
    assert_eq!(make_vaultcenter_health_command(), "pct exec 110 -- curl -sk https://localhost:11181/health 2>/dev/null");
}

#[test]
fn plist_content_is_the_launch_agent() {
    let expected = format!(r#"<?xml version="1.0" encoding="UTF-8"?>
<!DOCTYPE plist PUBLIC "-//Apple//DTD PLIST 1.0//EN" "http://www.apple.com/DTDs/PropertyList-1.0.dtd">
<plist version="1.0">
<dict>
    <key>Label</key>
    <string>com.veilkey.localvault</string>
    <key>ProgramArguments</key>
    <array>
        <string>/usr/local/bin/veilkey-localvault</string>
    </array>
    <key>RunAtLoad</key>
    <true/>
    <key>KeepAlive</key>
    <true/>
    <key>StandardOutPath</key>
    <string>{home}/Library/Logs/veilkey-localvault.log</string>
    <key>StandardErrorPath</key>
    <string>{home}/Library/Logs/veilkey-localvault.log</string>
</dict>
</plist>"#, home = HOME);
    assert_eq!(make_plist_content(HOME), expected);
}

#[test]
fn profile_content_is_the_shell_profile() {
    let expected = "# ── VeilKey Shell Profile ──────────────────────────────────────────\n\
# mac-host-commands 에서 자동 생성\n\
\n\
# 환경변수\n\
export VEILKEY_LOCALVAULT_URL=\"http://127.0.0.1:10180\"\n\
export VEILKEY_VAULTCENTER_URL=\"https://localhost:11181\"\n\
export VEILKEY_API=\"${VEILKEY_LOCALVAULT_URL}\"\n\
\n\
# alias\n\
alias vk='veilkey-cli'\n";
    assert_eq!(make_profile_content(), expected);
}

#[test]
fn cli_already_installed() {
    let acts = drive(install_cli, CliStep::new(HOME.to_string()), vec![Event::Done, output(true, "/usr/local/bin/veilkey-cli\n")]);
    assert_eq!(acts, vec![
        act(vec![], query("which", &["veilkey-cli"])),
        act(vec![o("[veil] veilkey-cli 이미 설치됨")], Op::Finish),
    ]);
}

#[test]
fn cli_copied_from_remote_host() {
    let acts = drive(
        install_cli,
        CliStep::new(HOME.to_string()),
        vec![
            Event::Done,
            output(false, ""),
            config(),
            Event::Done,
            output(true, "  /opt/veilkey/target/release/veilkey-cli\n"),
            output(true, ""),
            output(true, ""),
        ],
    );
    assert_eq!(acts, vec![
        act(vec![], query("which", &["veilkey-cli"])),
        act(vec![o("[veil] veilkey-cli 설치 중...")], Op::LoadConfig),
        act(vec![], Op::EnsureDir { path: format!("{HOME}/.local/bin") }),
        act(vec![], Op::Remote {
            host: "pve.local".to_string(),
            user: "root".to_string(),
            command: "which veilkey-cli 2>/dev/null || find /opt/veilkey -name veilkey-cli -type f 2>/dev/null | head -1"
                .to_string(),
        }),
        act(
            vec![o("[veil] Proxmox에서 바이너리 복사: /opt/veilkey/target/release/veilkey-cli")],
            Op::Run {
                program: "scp".to_string(),
                args: vec![
                    "root@pve.local:/opt/veilkey/target/release/veilkey-cli".to_string(),
                    format!("{HOME}/.local/bin/veilkey-cli"),
                ],
            },
        ),
        act(vec![], Op::Query { program: "chmod".to_string(), args: vec!["+x".to_string(), format!("{HOME}/.local/bin/veilkey-cli")] }),
        act(vec![o("[veil] veilkey-cli 설치 완료")], Op::Finish),
    ]);
}

#[test]
fn cli_not_found_on_remote_host_exits_with_one() {
    for reply in [output(true, " \n"), output(false, "/opt/veilkey/veilkey-cli")] {
        let acts = drive(
            install_cli,
            CliStep::new(HOME.to_string()),
            vec![Event::Done, output(false, ""), config(), Event::Done, reply],
        );
        assert_eq!(acts[4], act(
            vec![x("[veil] Proxmox에서 veilkey-cli를 찾을 수 없습니다."), x("  수동 설치가 필요합니다.")],
            Op::Exit { code: 1 },
        ));
    }
}

#[test]
fn cli_failed_copy_ends_quietly() {
    let acts = drive(
        install_cli,
        CliStep::new(HOME.to_string()),
        vec![Event::Done, output(false, ""), config(), Event::Done, output(true, "/x/veilkey-cli"), output(false, "")],
    );
    assert_eq!(acts[5], act(vec![], Op::Finish));
}

#[test]
fn localvault_present_then_agent_registered() {
    let acts = drive(
        install_localvault,
        LocalvaultStep::new(HOME.to_string()),
        vec![Event::Done, output(true, "/usr/local/bin/veilkey-localvault"), Event::Exists(false), Event::Done, Event::Exited { success: true }],
    );
    assert_eq!(acts, vec![
        act(vec![], query("which", &["veilkey-localvault"])),
        act(vec![o("[veil] veilkey-localvault 이미 설치됨")], Op::PathExists { path: plist() }),
        act(vec![o("[veil] LaunchAgent 등록 중...")], Op::WriteText {
            path: plist(),
            content: make_plist_content(HOME),
            context: "LaunchAgent plist 생성 실패".to_string(),
        }),
        act(vec![], attached("launchctl", &["load", &plist()])),
        act(vec![o("[veil] LaunchAgent 등록 완료 (부팅 시 자동 시작)")], Op::Finish),
    ]);
}

#[test]
fn localvault_copied_and_agent_kept() {
    let acts = drive(
        install_localvault,
        LocalvaultStep::new(HOME.to_string()),
        vec![
            Event::Done,
            output(false, ""),
            config(),
            output(true, "/opt/veilkey/veilkey-localvault\n"),
            output(true, ""),
            output(true, ""),
            Event::Exists(true),
        ],
    );
    assert_eq!(acts[2].op, Op::Remote {
        host: "pve.local".to_string(),
        user: "root".to_string(),
        command: "which veilkey-localvault 2>/dev/null || find /opt/veilkey -name veilkey-localvault -type f 2>/dev/null | head -1"
            .to_string(),
    });
    assert_eq!(acts[3], act(vec![], Op::Run {
        program: "scp".to_string(),
        args: strings(&["root@pve.local:/opt/veilkey/veilkey-localvault", "/usr/local/bin/veilkey-localvault"]),
    }));
    assert_eq!(acts[4], act(vec![], query("chmod", &["+x", "/usr/local/bin/veilkey-localvault"])));
    assert_eq!(acts[5], act(vec![o("[veil] veilkey-localvault 설치 완료")], Op::PathExists { path: plist() }));
    assert_eq!(acts[6], act(vec![o("[veil] LaunchAgent 이미 등록됨")], Op::Finish));
}

#[test]
fn localvault_not_found_exits_with_one() {
    let acts = drive(
        install_localvault,
        LocalvaultStep::new(HOME.to_string()),
        vec![Event::Done, output(false, ""), config(), output(true, "")],
    );
    assert_eq!(acts[3], act(vec![x("[veil] Proxmox에서 veilkey-localvault를 찾을 수 없습니다.")], Op::Exit { code: 1 }));
}

#[test]
fn start_when_already_running() {
    let acts = drive(localvault_start, StartStep::new(HOME.to_string()), vec![Event::Done, output(true, "{\"status\":\"ok\"}")]);
    assert_eq!(acts, vec![
        act(vec![], query("curl", &["-s", "http://127.0.0.1:10180/health"])),
        act(vec![o("[veil] LocalVault 이미 실행 중")], Op::Finish),
    ]);
}

#[test]
fn start_through_launch_agent_and_report_failure() {
    let acts = drive(
        localvault_start,
        StartStep::new(HOME.to_string()),
        vec![Event::Done, output(false, ""), Event::Exists(true), Event::Exited { success: true }, Event::Done, output(false, "")],
    );
    assert_eq!(acts[1], act(vec![o("[veil] LocalVault 시작 중...")], Op::PathExists { path: plist() }));
    assert_eq!(acts[2], act(vec![], attached("launchctl", &["load", &plist()])));
    assert_eq!(acts[3], act(vec![], Op::Sleep { seconds: 1 }));
    assert_eq!(acts[4], act(vec![], query("curl", &["-s", "http://127.0.0.1:10180/health"])));
    assert_eq!(acts[5], act(vec![x("[veil] LocalVault 시작 실패")], Op::Finish));
}

#[test]
fn start_directly_without_launch_agent() {
    let acts = drive(
        localvault_start,
        StartStep::new(HOME.to_string()),
        vec![Event::Done, output(true, "down"), Event::Exists(false), Event::Done, Event::Done, output(true, "ok")],
    );
    assert_eq!(acts[2], act(vec![], Op::Spawn { program: "veilkey-localvault".to_string() }));
    assert_eq!(acts[5], act(vec![o("[veil] LocalVault 시작 완료")], Op::Finish));
}

#[test]
fn stop_by_launch_agent_or_by_process() {
    let acts = drive(localvault_stop, StopStep::new(HOME.to_string()), vec![Event::Done, Event::Exists(true), Event::Exited { success: true }]);
    assert_eq!(acts, vec![
        act(vec![], Op::PathExists { path: plist() }),
        act(vec![], attached("launchctl", &["unload", &plist()])),
        act(vec![o("[veil] LocalVault 중지 완료")], Op::Finish),
    ]);
    let acts = drive(localvault_stop, StopStep::new(HOME.to_string()), vec![Event::Done, Event::Exists(false), Event::Exited { success: false }]);
    assert_eq!(acts[1], act(vec![], attached("pkill", &["-f", "veilkey-localvault"])));
    assert_eq!(acts[2], act(vec![o("[veil] LocalVault 중지 완료")], Op::Finish));
}

#[test]
fn connect_when_tunnel_running() {
    let acts = drive(connect_vaultcenter, ConnectStep::new(), vec![Event::Done, config(), output(true, "4242\n")]);
    assert_eq!(acts, vec![
        act(vec![], Op::LoadConfig),
        act(vec![], query("pgrep", &["-f", "ssh.*11181.*10.50.0.110"])),
        act(vec![o("[veil] VaultCenter 터널 이미 연결됨 (localhost:11181)")], Op::Finish),
    ]);
}

#[test]
fn connect_opens_tunnel() {
    let acts = drive(connect_vaultcenter, ConnectStep::new(), vec![Event::Done, config(), output(false, ""), Event::Exited { success: true }]);
    assert_eq!(acts[2], act(
        vec![o("[veil] VaultCenter SSH 터널 연결 중..."), o("  localhost:11181 -> 10.50.0.110:11181 (via pve.local)")],
        attached("ssh", &["-f", "-N", "-L", "11181:10.50.0.110:11181", "root@pve.local"]),
    ));
    assert_eq!(acts[3], act(vec![o("[veil] VaultCenter 터널 연결 완료"), o("  https://localhost:11181")], Op::Finish));
    let acts = drive(connect_vaultcenter, ConnectStep::new(), vec![Event::Done, config(), output(false, " "), Event::Exited { success: false }]);
    assert_eq!(acts[3], act(vec![x("[veil] VaultCenter 터널 연결 실패")], Op::Finish));
}

#[test]
fn disconnect_with_and_without_tunnel() {
    let acts = drive(disconnect_vaultcenter, DisconnectStep::Start, vec![Event::Done, output(false, "\n")]);
    assert_eq!(acts[1], act(vec![o("[veil] VaultCenter 터널이 연결되어 있지 않습니다.")], Op::Finish));
    let acts = drive(disconnect_vaultcenter, DisconnectStep::Start, vec![Event::Done, output(true, "777\n"), Event::Exited { success: true }]);
    assert_eq!(acts, vec![
        act(vec![], query("pgrep", &["-f", "ssh.*11181.*10.50.0.110"])),
        act(vec![], attached("pkill", &["-f", "ssh.*11181.*10.50.0.110"])),
        act(vec![o("[veil] VaultCenter 터널 해제 완료")], Op::Finish),
    ]);
}

#[test]
fn profile_written_and_zshrc_checked() {
    let acts = drive(setup_profile, ProfileStep::new(HOME.to_string()), vec![Event::Done, Event::Done, Event::Text("export PATH\n".to_string())]);
    assert_eq!(acts, vec![
        act(vec![], Op::WriteText {
            path: format!("{HOME}/.veilkey.sh"),
            content: make_profile_content(),
            context: ".veilkey.sh 생성 실패".to_string(),
        }),
        act(vec![o("[veil] ~/.veilkey.sh 생성 완료")], Op::ReadText { path: format!("{HOME}/.zshrc") }),
        act(vec![o("[veil] .zshrc에 아래 라인을 추가하세요:"), o("  source ~/.veilkey.sh")], Op::Finish),
    ]);
    let acts = drive(
        setup_profile,
        ProfileStep::new(HOME.to_string()),
        vec![Event::Done, Event::Done, Event::Text("source ~/.veilkey.sh\n".to_string())],
    );
    assert_eq!(acts[2], act(vec![o("[veil] .zshrc에 이미 source ~/.veilkey.sh 포함됨")], Op::Finish));
}

#[test]
fn veil_report_lines() {
    let acts = drive(
        status,
        VeilReportStep::new(HOME.to_string()),
        vec![
            Event::Done,
            output(true, ""),
            output(false, ""),
            output(true, "{\"ok\":true}"),
            output(true, ""),
            Event::Exists(false),
            config(),
            output(true, ""),
            output(true, "   \n"),
            Event::Exists(true),
        ],
    );
    assert_eq!(acts, vec![
        act(vec![o("=== VeilKey 상태 ===\n")], query("which", &["veilkey-cli"])),
        act(vec![o("[veilkey-cli] ✓ 설치됨")], query("which", &["veil"])),
        act(vec![o("[veil] ✗ 미설치")], query("curl", &["-s", "http://127.0.0.1:10180/health"])),
        act(vec![o("[LocalVault] 127.0.0.1:10180 ✓ 실행 중")], query("which", &["veilkey-localvault"])),
        act(vec![o("[LocalVault 바이너리] ✓ 설치됨")], Op::PathExists { path: plist() }),
        act(vec![o("[LaunchAgent] ✗ 미등록")], Op::LoadConfig),
        act(vec![], Op::Remote {
            host: "pve.local".to_string(),
            user: "root".to_string(),
            command: "pct exec 110 -- curl -sk https://localhost:11181/health 2>/dev/null".to_string(),
        }),
        act(vec![o("[VaultCenter] LXC 110 (10.50.0.110:11181) ✓ 실행 중")], query("pgrep", &["-f", "ssh.*11181.*10.50.0.110"])),
        act(vec![o("[VaultCenter 터널] ✗ 미연결")], Op::PathExists { path: format!("{HOME}/.veilkey.sh") }),
        act(vec![o("[셸 프로필] ✓ ~/.veilkey.sh")], Op::Finish),
    ]);
}

#[test]
fn veil_bootstrap_with_everything_in_place() {
    let acts = drive(
        bootstrap,
        VeilBootstrapStep::Start { home: HOME.to_string() },
        vec![
            Event::Done,
            output(true, ""),
            output(true, ""),
            Event::Exists(true),
            config(),
            output(true, "12\n"),
            Event::Done,
            Event::Text(String::new()),
        ],
    );
    assert_eq!(acts[0], act(
        vec![o("=== VeilKey 부트스트랩 ===\n"), o("--- [1/4] veilkey-cli 설치 ---")],
        query("which", &["veilkey-cli"]),
    ));
    assert_eq!(acts[1], act(
        vec![o("[veil] veilkey-cli 이미 설치됨"), o("\n--- [2/4] LocalVault 설치 ---")],
        query("which", &["veilkey-localvault"]),
    ));
    assert_eq!(acts[3], act(
        vec![o("[veil] LaunchAgent 이미 등록됨"), o("\n--- [3/4] VaultCenter 연결 ---")],
        Op::LoadConfig,
    ));
    assert_eq!(acts[5].say, vec![o("[veil] VaultCenter 터널 이미 연결됨 (localhost:11181)"), o("\n--- [4/4] 셸 프로필 설정 ---")]);
    assert!(matches!(acts[5].op, Op::WriteText { .. }));
    assert_eq!(acts[7], act(
        vec![o("[veil] .zshrc에 아래 라인을 추가하세요:"), o("  source ~/.veilkey.sh"), o("\n=== VeilKey 부트스트랩 완료 ===")],
        Op::Finish,
    ));
}

#[test]
fn veil_bootstrap_stops_when_cli_cannot_be_found() {
    let acts = drive(
        bootstrap,
        VeilBootstrapStep::Start { home: HOME.to_string() },
        vec![Event::Done, output(false, ""), config(), Event::Done, output(false, ""), Event::Done],
    );
    assert_eq!(acts[4].op, Op::Exit { code: 1 });
    assert_eq!(acts[5], act(vec![], Op::Finish));
}
