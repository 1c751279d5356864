//! Names, addresses, paths and file contents of the VeilKey setup.
use vstd::prelude::*;

verus! {

/// The container that runs VaultCenter on the remote host.
pub const VAULTCENTER_LXC: &'static str = "110";

/// The address of VaultCenter on the remote network.
pub const VAULTCENTER_IP: &'static str = "10.50.0.110";

/// The port VaultCenter listens on, reached locally through the ssh tunnel.
pub const VAULTCENTER_PORT: &'static str = "11181";

/// The port the local vault listens on.
pub const LOCALVAULT_PORT: &'static str = "10180";

/// The LaunchAgent definition up to the first log path.
pub const PLIST_HEAD: &'static str = r#"<?xml version="1.0" encoding="UTF-8"?>
<!DOCTYPE plist PUBLIC "-//Apple//DTD PLIST 1.0//EN" "http://www.apple.com/DTDs/PropertyList-1.0.dtd">
<plist version="1.0">
<dict>
    <key>Label</key>
    <string>com.veilkey.localvault</string>
    <key>ProgramArguments</key>
    <array>
        <string>/usr/local/bin/veilkey-localvault</string>
    </array>
    <key>RunAtLoad</key>
    <true/>
    <key>KeepAlive</key>
    <true/>
    <key>StandardOutPath</key>
    <string>"#;

/// The LaunchAgent definition between the two log paths.
pub const PLIST_MIDDLE: &'static str = r#"/Library/Logs/veilkey-localvault.log</string>
    <key>StandardErrorPath</key>
    <string>"#;

/// The LaunchAgent definition after the second log path.
pub const PLIST_TAIL: &'static str = r#"/Library/Logs/veilkey-localvault.log</string>
</dict>
</plist>"#;

/// The shell profile up to the local vault port.
pub const PROFILE_HEAD: &'static str = r#"# ── VeilKey Shell Profile ──────────────────────────────────────────
# mac-host-commands 에서 자동 생성

# 환경변수
export VEILKEY_LOCALVAULT_URL="http://127.0.0.1:"#;

/// The shell profile between the two ports.
pub const PROFILE_MIDDLE: &'static str = r#""
export VEILKEY_VAULTCENTER_URL="https://localhost:"#;

/// The shell profile after the VaultCenter port.
pub const PROFILE_TAIL: &'static str = r#""
export VEILKEY_API="${VEILKEY_LOCALVAULT_URL}"

# alias
alias vk='veilkey-cli'
"#;

/// The health endpoint of the local vault.
pub open spec fn health_url() -> Seq<char> {
    "http://127.0.0.1:"@ + LOCALVAULT_PORT@ + "/health"@
}

/// The LaunchAgent that starts the local vault at login.
pub open spec fn plist_path(home: Seq<char>) -> Seq<char> {
    home + "/Library/LaunchAgents/com.veilkey.localvault.plist"@
}

/// The shell profile of VeilKey.
pub open spec fn profile_path(home: Seq<char>) -> Seq<char> {
    home + "/.veilkey.sh"@
}

/// The zsh start-up file.
pub open spec fn zshrc_path(home: Seq<char>) -> Seq<char> {
    home + "/.zshrc"@
}

/// The directory for the user's own programs.
pub open spec fn local_bin(home: Seq<char>) -> Seq<char> {
    home + "/.local/bin"@
}

/// The pattern that finds the ssh tunnel to VaultCenter among the processes.
pub open spec fn tunnel_pattern() -> Seq<char> {
    "ssh.*"@ + VAULTCENTER_PORT@ + ".*"@ + VAULTCENTER_IP@
}

/// The local forward of the ssh tunnel: the VaultCenter port, locally, to VaultCenter.
pub open spec fn tunnel_forward() -> Seq<char> {
    VAULTCENTER_PORT@ + ":"@ + VAULTCENTER_IP@ + ":"@ + VAULTCENTER_PORT@
}

/// The remote command that checks VaultCenter's health inside its container.
pub open spec fn vaultcenter_health_command() -> Seq<char> {
    "pct exec "@ + VAULTCENTER_LXC@ + " -- curl -sk https://localhost:"@ + VAULTCENTER_PORT@
        + "/health 2>/dev/null"@
}

/// `user@host`.
pub open spec fn user_at_host(user: Seq<char>, host: Seq<char>) -> Seq<char> {
    user + "@"@ + host
}

/// A file on the remote host, as `scp` names it.
pub open spec fn remote_file(user: Seq<char>, host: Seq<char>, path: Seq<char>) -> Seq<char> {
    user_at_host(user, host) + ":"@ + path
}

/// The LaunchAgent definition: run the local vault at load and keep it alive,
/// logging to the user's log directory.
pub open spec fn plist_content(home: Seq<char>) -> Seq<char> {
    PLIST_HEAD@ + home + PLIST_MIDDLE@ + home + PLIST_TAIL@
}

/// The shell profile: the addresses of the local vault and of VaultCenter,
/// and the `vk` alias.
pub open spec fn profile_content() -> Seq<char> {
    PROFILE_HEAD@ + LOCALVAULT_PORT@ + PROFILE_MIDDLE@ + VAULTCENTER_PORT@ + PROFILE_TAIL@
}

pub fn make_health_url() -> (r: String)
    ensures
        r@ == health_url(),
{
    String::from_str("http://127.0.0.1:").concat(LOCALVAULT_PORT).concat("/health")
}

pub fn make_plist_path(home: &str) -> (r: String)
    ensures
        r@ == plist_path(home@),
{
    home.to_owned().concat("/Library/LaunchAgents/com.veilkey.localvault.plist")
}

pub fn make_profile_path(home: &str) -> (r: String)
    ensures
        r@ == profile_path(home@),
{
    home.to_owned().concat("/.veilkey.sh")
}

pub fn make_zshrc_path(home: &str) -> (r: String)
    ensures
        r@ == zshrc_path(home@),
{
    home.to_owned().concat("/.zshrc")
}

pub fn make_local_bin(home: &str) -> (r: String)
    ensures
        r@ == local_bin(home@),
{
    home.to_owned().concat("/.local/bin")
}

pub fn make_tunnel_pattern() -> (r: String)
    ensures
        r@ == tunnel_pattern(),
{
    String::from_str("ssh.*").concat(VAULTCENTER_PORT).concat(".*").concat(VAULTCENTER_IP)
}

pub fn make_tunnel_forward() -> (r: String)
    ensures
        r@ == tunnel_forward(),
{
    String::from_str(VAULTCENTER_PORT).concat(":").concat(VAULTCENTER_IP).concat(":").concat(VAULTCENTER_PORT)
}

pub fn make_vaultcenter_health_command() -> (r: String)
    ensures
        r@ == vaultcenter_health_command(),
{
    String::from_str("pct exec ").concat(VAULTCENTER_LXC).concat(" -- curl -sk https://localhost:").concat(
        VAULTCENTER_PORT,
    ).concat("/health 2>/dev/null")
}

pub fn make_user_at_host(user: &str, host: &str) -> (r: String)
    ensures
        r@ == user_at_host(user@, host@),
{
    user.to_owned().concat("@").concat(host)
}

pub fn make_remote_file(user: &str, host: &str, path: &str) -> (r: String)
    ensures
        r@ == remote_file(user@, host@, path@),
{
    make_user_at_host(user, host).concat(":").concat(path)
}

pub fn make_plist_content(home: &str) -> (r: String)
    ensures
        r@ == plist_content(home@),
{
    String::from_str(PLIST_HEAD).concat(home).concat(PLIST_MIDDLE).concat(home).concat(PLIST_TAIL)
}

pub fn make_profile_content() -> (r: String)
    ensures
        r@ == profile_content(),
{
    String::from_str(PROFILE_HEAD).concat(LOCALVAULT_PORT).concat(PROFILE_MIDDLE).concat(VAULTCENTER_PORT).concat(
        PROFILE_TAIL,
    )
}

} // verus!
