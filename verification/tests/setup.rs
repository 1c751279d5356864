use mac_host_commands::plan::{Action, Event, Line, Op};
use mac_host_commands::setup::host_bootstrap::HostBootstrapStep;
use mac_host_commands::setup::report::ReportStep;
use mac_host_commands::setup::sshfs::SshfsStep;
use mac_host_commands::setup::sshpass::SshpassStep;
use mac_host_commands::setup::{bootstrap, install_sshfs, install_sshpass, status};

fn drive<S>(step: fn(S, Event) -> (S, Action), start: S, replies: Vec<Event>) -> Vec<Action> {
    let mut s = start;
    let mut acts = Vec::new();
    for e in replies {
        let (t, a) = step(s, e);
        acts.push(a);
        s = t;
    }
    acts
}

fn o(s: &str) -> Line {
    Line::Stdout(s.to_string())
}

fn x(s: &str) -> Line {
    Line::Stderr(s.to_string())
}

fn strings(v: &[&str]) -> Vec<String> {
    v.iter().map(|s| s.to_string()).collect()
}

fn query(p: &str, args: &[&str]) -> Op {
    Op::Query { program: p.to_string(), args: strings(args) }
}

fn attached(p: &str, args: &[&str]) -> Op {
    Op::Interactive { program: p.to_string(), args: strings(args) }
}

fn act(say: Vec<Line>, op: Op) -> Action {
    Action { say, op }
}

fn found(ok: bool) -> Event {
    Event::Output { success: ok, stdout: if ok { "/opt/homebrew/bin/x\n".to_string() } else { String::new() } }
}

fn exited(ok: bool) -> Event {
    Event::Exited { success: ok }
}

#[test]
fn sshpass_already_installed() {
    let acts = drive(install_sshpass, SshpassStep::Start, vec![Event::Done, found(true)]);
    assert_eq!(acts, vec![
        act(vec![], query("which", &["sshpass"])),
        act(vec![o("[setup] sshpass 이미 설치됨")], Op::Finish),
    ]);
}

#[test]
fn sshpass_installed_through_tap() {
    let acts = drive(install_sshpass, SshpassStep::Start, vec![Event::Done, found(false), exited(true), exited(true)]);
    assert_eq!(acts, vec![
        act(vec![], query("which", &["sshpass"])),
        act(vec![o("[setup] sshpass 설치 중...")], attached("brew", &["tap", "hudochenkov/sshpass"])),
        act(vec![], attached("brew", &["install", "hudochenkov/sshpass/sshpass"])),
        act(vec![o("[setup] sshpass 설치 완료")], Op::Finish),
    ]);
}

#[test]
fn sshpass_install_failure_exits_with_one() {
    // A failed tap does not stop the install; only the install's result counts.
    let acts = drive(install_sshpass, SshpassStep::Start, vec![Event::Done, found(false), exited(false), exited(false)]);
    assert_eq!(acts[3], act(vec![x("[setup] sshpass 설치 실패")], Op::Exit { code: 1 }));
}

#[test]
fn sshfs_needs_homebrew() {
    let acts = drive(install_sshfs, SshfsStep::Start, vec![Event::Done, found(false)]);
    assert_eq!(acts[1], act(
        vec![
            x("[setup] Homebrew가 필요합니다."),
            x("  /bin/bash -c \"$(curl -fsSL https://raw.githubusercontent.com/Homebrew/install/HEAD/install.sh)\""),
        ],
        Op::Exit { code: 1 },
    ));
}

#[test]
fn fresh_macfuse_asks_for_reboot_and_stops() {
    let acts = drive(install_sshfs, SshfsStep::Start, vec![Event::Done, found(true), Event::Exists(false), exited(true)]);
    assert_eq!(acts, vec![
        act(vec![], query("which", &["brew"])),
        act(vec![], Op::PathExists { path: "/Library/Filesystems/macfuse.fs".to_string() }),
        act(vec![o("[setup] macFUSE 설치 중...")], attached("brew", &["install", "--cask", "macfuse"])),
        act(
            vec![
                o("[setup] macFUSE 설치 완료"),
                o("  [!] 재부팅이 필요합니다. 재부팅 후 sshfs를 설치하세요:"),
                o("      mac-host-commands setup install-sshfs"),
            ],
            Op::Finish,
        ),
    ]);
}

#[test]
fn macfuse_install_failure_exits_with_one() {
    let acts = drive(install_sshfs, SshfsStep::Start, vec![Event::Done, found(true), Event::Exists(false), exited(false)]);
    assert_eq!(acts[3], act(vec![x("[setup] macFUSE 설치 실패")], Op::Exit { code: 1 }));
}

#[test]
fn sshfs_everything_present() {
    let acts = drive(install_sshfs, SshfsStep::Start, vec![Event::Done, found(true), Event::Exists(true), found(true)]);
    assert_eq!(acts[2], act(vec![o("[setup] macFUSE 이미 설치됨")], query("which", &["sshfs"])));
    assert_eq!(acts[3], act(
        vec![
            o("[setup] sshfs 이미 설치됨"),
            o("\n[setup] sshfs 마운트 준비 완료!"),
            o("  mac-host-commands mount up proxmox"),
        ],
        Op::Finish,
    ));
}

#[test]
fn sshfs_installed_after_macfuse_found() {
    let acts = drive(
        install_sshfs,
        SshfsStep::Start,
        vec![Event::Done, found(true), Event::Exists(true), found(false), exited(true), exited(true)],
    );
    assert_eq!(acts[3], act(vec![o("[setup] sshfs 설치 중...")], attached("brew", &["tap", "gromgit/fuse"])));
    assert_eq!(acts[4], act(vec![], attached("brew", &["install", "gromgit/fuse/sshfs-mac"])));
    assert_eq!(acts[5].op, Op::Finish);
    assert_eq!(acts[5].say[0], o("[setup] sshfs 설치 완료"));
    let acts = drive(
        install_sshfs,
        SshfsStep::Start,
        vec![Event::Done, found(true), Event::Exists(true), found(false), exited(true), exited(false)],
    );
    assert_eq!(acts[5], act(vec![x("[setup] sshfs 설치 실패")], Op::Exit { code: 1 }));
}

#[test]
fn finished_procedures_stay_finished() {
    let (s, a) = install_sshfs(SshfsStep::Finished, found(true));
    assert_eq!(s, SshfsStep::Finished);
    assert_eq!(a, act(vec![], Op::Finish));
    let (s, a) = install_sshpass(SshpassStep::Finished, Event::Done);
    assert_eq!(s, SshpassStep::Finished);
    assert_eq!(a, act(vec![], Op::Finish));
}

#[test]
fn report_with_library_fuse_and_missing_sshfs() {
    let acts = drive(
        status,
        ReportStep::Start,
        vec![Event::Done, found(true), Event::Exists(false), Event::Exists(true), found(false), found(true)],
    );
    assert_eq!(acts, vec![
        act(vec![o("=== 의존성 상태 ===\n")], query("which", &["brew"])),
        act(vec![o("[brew] ✓ 설치됨")], Op::PathExists { path: "/Library/Filesystems/macfuse.fs".to_string() }),
        act(vec![], Op::PathExists { path: "/usr/local/lib/libfuse.dylib".to_string() }),
        act(vec![o("[macFUSE] ✓ 설치됨")], query("which", &["sshfs"])),
        act(vec![o("[sshfs] ✗ 미설치")], query("which", &["sshpass"])),
        act(
            vec![o("[sshpass] ✓ 설치됨"), o("\n  [!] sshfs 마운트를 사용하려면: mac-host-commands setup install-sshfs")],
            Op::Finish,
        ),
    ]);
}

#[test]
fn report_with_everything_installed_has_no_hint() {
    let acts = drive(status, ReportStep::Start, vec![Event::Done, found(true), Event::Exists(true), found(true), found(true)]);
    assert_eq!(acts[4], act(vec![o("[sshpass] ✓ 설치됨")], Op::Finish));
}

#[test]
fn report_without_any_fuse() {
    let acts = drive(
        status,
        ReportStep::Start,
        vec![Event::Done, found(false), Event::Exists(false), Event::Exists(false), Event::Exists(false), found(true), found(false)],
    );
    assert_eq!(acts[1].say, vec![o("[brew] ✗ 미설치")]);
    assert_eq!(acts[3].op, Op::PathExists { path: "/opt/homebrew/lib/libfuse.dylib".to_string() });
    assert_eq!(acts[4], act(vec![o("[macFUSE] ✗ 미설치")], query("which", &["sshfs"])));
    assert_eq!(acts[6].say.len(), 2);
}

#[test]
fn host_bootstrap_with_everything_present() {
    let acts = drive(
        bootstrap,
        HostBootstrapStep::Start,
        vec![Event::Done, found(true), found(true), Event::Exists(true), found(true), Event::Done],
    );
    assert_eq!(acts[0], act(
        vec![o("=== Mac 호스트 부트스트랩 ===\n"), o("--- [1/3] sshpass ---")],
        query("which", &["sshpass"]),
    ));
    assert_eq!(acts[1], act(
        vec![o("[setup] sshpass 이미 설치됨"), o("\n--- [2/3] macFUSE + sshfs ---")],
        query("which", &["brew"]),
    ));
    assert_eq!(acts[4], act(
        vec![
            o("[setup] sshfs 이미 설치됨"),
            o("\n[setup] sshfs 마운트 준비 완료!"),
            o("  mac-host-commands mount up proxmox"),
            o("\n--- [3/3] 설정 초기화 ---"),
        ],
        Op::InitConfig,
    ));
    assert_eq!(acts[5], act(vec![o("\n=== 부트스트랩 완료 ===")], Op::Finish));
}

#[test]
fn host_bootstrap_goes_on_after_macfuse_reboot_notice() {
    let acts = drive(
        bootstrap,
        HostBootstrapStep::Start,
        vec![Event::Done, found(true), found(true), Event::Exists(false), exited(true), Event::Done],
    );
    assert_eq!(acts[4].op, Op::InitConfig);
    assert_eq!(acts[5].op, Op::Finish);
}

#[test]
fn host_bootstrap_stops_where_an_install_fails() {
    let acts = drive(
        bootstrap,
        HostBootstrapStep::Start,
        vec![Event::Done, found(false), exited(true), exited(false), Event::Done],
    );
    assert_eq!(acts[3], act(vec![x("[setup] sshpass 설치 실패")], Op::Exit { code: 1 }));
    assert_eq!(acts[4], act(vec![], Op::Finish));
}
