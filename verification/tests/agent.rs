use remvora_agent::agent::{challenge_bound, device_id_valid, server_scheme_allowed, server_url_clean, websocket_scheme};
use remvora_agent::protocol::Signal;
use remvora_agent::reboot::{command, outcome, platform, precheck, Platform};
use remvora_agent::terminal::{classify_input, default_shell, output_may_continue, resize_dimensions, shell_launch, TerminalInput};
use remvora_agent::transport::{media_action, stun_server, ChannelRoute, Channels, MediaAction, PeerState};

#[test]
fn command_is_absolute_and_fixed() {
    for os in ["linux", "macos"] {
        let command = command(platform(os).unwrap());
        assert!(std::path::Path::new(command.program).is_absolute());
        assert!(command.args.iter().all(|arg| !arg.contains(';')));
    }
    let windows = command(Platform::Windows);
    assert!(windows.program.starts_with("C:\\"));
    assert!(windows.args.iter().all(|arg| !arg.contains(';')));
    assert_eq!(remvora_agent::reboot::command(Platform::Linux).args, vec!["reboot"]);
    assert_eq!(platform("plan9"), None);
}

#[test]
fn default_capability_never_executes() {
    assert_eq!(precheck(false), Some("denied"));
    assert_eq!(precheck(true), None);
    assert_eq!(outcome(true), "accepted");
    assert_eq!(outcome(false), "failed");
}

#[test]
fn https_is_required_outside_loopback_tests() {
    assert!(server_scheme_allowed("https", Some("remvora.example"), false));
    assert!(!server_scheme_allowed("http", Some("127.0.0.1"), false));
    assert!(server_scheme_allowed("http", Some("localhost"), true));
    assert!(!server_scheme_allowed("http", Some("remvora.example"), true));
    assert!(!server_scheme_allowed("ftp", None, true));
    assert!(server_url_clean(true, false, false, false));
    assert!(!server_url_clean(false, false, false, false));
    assert!(!server_url_clean(true, false, true, false));
    assert_eq!(websocket_scheme(true), "wss");
    assert_eq!(websocket_scheme(false), "ws");
}

#[test]
fn challenges_are_bound_to_purpose_and_device() {
    let device = "0b8e6a4e-3f4b-4c1e-9d7a-2a1f7c9e5b10";
    assert!(challenge_bound(&format!("remvora:v1:connect:{device}:nonce"), "connect", device));
    assert!(!challenge_bound(&format!("remvora:v1:activate:{device}:nonce"), "connect", device));
    assert!(!challenge_bound("remvora:v1:connect:other:nonce", "connect", device));
    assert!(device_id_valid(device));
    assert!(!device_id_valid("device"));
}

#[test]
fn shells_and_terminal_input_are_bounded() {
    assert_eq!(default_shell(false), "/bin/sh");
    assert_eq!(default_shell(true), "C:\\Windows\\System32\\WindowsPowerShell\\v1.0\\powershell.exe");
    let bash = shell_launch(Some("bash"), false);
    assert!(bash.interactive);
    assert_eq!(bash.prompt, Some(r"\u@\h:\w\$ "));
    assert_eq!(shell_launch(Some("dash"), false).prompt, Some("${PWD} $ "));
    assert!(!shell_launch(Some("zsh"), false).interactive);
    assert!(!shell_launch(Some("bash"), true).interactive);
    assert_eq!(resize_dimensions(None, None), (80, 24));
    assert_eq!(resize_dimensions(Some(0), Some(1000)), (1, 300));
    assert_eq!(resize_dimensions(Some(9999), Some(40)), (500, 40));
    assert_eq!(classify_input(16385, false), TerminalInput::Discard);
    assert_eq!(classify_input(10, false), TerminalInput::Keystrokes);
    assert_eq!(classify_input(10, true), TerminalInput::Control);
    assert!(output_may_continue(1024 * 1024));
    assert!(!output_may_continue(1024 * 1024 + 1));
}

#[test]
fn peers_attach_one_channel_of_each_kind() {
    let mut c = Channels::new();
    assert_eq!(c.route("remvora.files.v1", true, true), ChannelRoute::Files);
    assert_eq!(c.route("remvora.files.v1", true, true), ChannelRoute::Close);
    assert_eq!(c.route("remvora.terminal.v1", true, true), ChannelRoute::Close);
    assert_eq!(c.route("remvora.input.v1", true, true), ChannelRoute::Input);
    assert_eq!(c.route("remvora.input.v1", true, true), ChannelRoute::Close);
    let mut t = Channels::new();
    assert_eq!(t.route("remvora.files.v1", false, true), ChannelRoute::Close);
    assert_eq!(t.route("remvora.terminal.v1", false, false), ChannelRoute::Terminal);
    assert_eq!(stun_server(Some("stun:stun.example:3478".into())), Some("stun:stun.example:3478".into()));
    assert_eq!(stun_server(Some("turn:relay.example".into())), None);
    assert_eq!(stun_server(None), None);
    let mut started = false;
    assert_eq!(media_action(PeerState::Connected, &mut started), MediaAction::Start);
    assert_eq!(media_action(PeerState::Connected, &mut started), MediaAction::Nothing);
    assert_eq!(media_action(PeerState::Failed, &mut started), MediaAction::Stop);
}

#[test]
fn signals_carry_version_one_and_their_payload() {
    let s = Signal::new("agent.heartbeat", None, serde_json::from_str::<serde_json::Value>("{\"a\":1}").unwrap());
    assert_eq!(s.protocol_version, 1);
    assert_eq!(s.kind, "agent.heartbeat");
    assert_eq!(s.payload["a"], 1);
    assert!(s.session_id.is_none());
    assert!(chrono::DateTime::parse_from_rfc3339(&s.timestamp).is_ok());
}

#[test]
fn signals_carry_a_random_id_and_a_utc_timestamp() {
    let s = Signal::new("agent.heartbeat", None, serde_json::from_str::<serde_json::Value>("{}").unwrap());
    let id = uuid::Uuid::from_u128(s.message_id);
    assert_eq!(id.get_version_num(), 4);
    assert_eq!(id.get_variant(), uuid::Variant::RFC4122);
    assert!(s.timestamp.ends_with("+00:00"));
    assert_eq!(s.timestamp.as_bytes()[4], b'-');
    assert_eq!(s.timestamp.as_bytes()[10], b'T');
    assert!(chrono::DateTime::parse_from_rfc3339(&s.timestamp).is_ok());
}
