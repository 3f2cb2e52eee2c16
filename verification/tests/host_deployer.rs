use qarax::deploy::{
    auth_method, build_bootc_script, command_outcome, expand_private_key_path, node_port, remote_command,
    resolve_password, resolve_ssh_user, shell_single_quote, AuthMethod, ChannelEvent, CommandCapture, DeployError,
    DeployHostRequest,
};

fn request(image: &str, install: Option<bool>, reboot: Option<bool>) -> DeployHostRequest {
    DeployHostRequest {
        image: image.to_string(),
        ssh_port: None,
        ssh_user: None,
        ssh_password: None,
        ssh_private_key_path: None,
        install_bootc: install,
        reboot,
    }
}

#[test]
fn shell_single_quote_escapes_embedded_quotes() {
    assert_eq!(shell_single_quote("foo'bar"), "'foo'\"'\"'bar'");
}

#[test]
fn bootc_script_respects_install_and_reboot_flags() {
    let request = request("quay.io/example/qarax-vmm:v1", Some(false), Some(false));
    let script = build_bootc_script(&request);
    assert!(!script.contains("dnf install -y bootc"));
    assert!(!script.contains("systemctl reboot"));
    assert!(script.contains("bootc switch 'quay.io/example/qarax-vmm:v1'"));
}

#[test]
fn bootc_script_installs_bootc_when_requested() {
    let request = request("quay.io/example/qarax-vmm:v1", Some(true), Some(true));
    let script = build_bootc_script(&request);
    assert!(script.contains("dnf install -y bootc"));
    assert!(script.contains("apt-get install -y bootc"));
    assert!(script.contains("systemctl reboot"));
}

#[test]
fn bootc_script_defaults_install_and_reboot() {
    let script = build_bootc_script(&request("  img:1  ", None, None));
    assert!(script.starts_with("set -euo pipefail\n"));
    assert!(script.contains("apt-get install -y bootc"));
    assert!(script.contains("run_privileged bootc switch 'img:1'\n"));
    assert!(script.ends_with("run_privileged systemctl reboot\n"));
}

#[test]
fn shell_quote_of_plain_and_empty_values() {
    assert_eq!(shell_single_quote("abc"), "'abc'");
    assert_eq!(shell_single_quote(""), "''");
    assert_eq!(shell_single_quote("''"), "''\"'\"''\"'\"''");
}

#[test]
fn remote_command_wraps_script_in_bash() {
    assert_eq!(remote_command("echo 'hi'"), "bash -lc 'echo '\"'\"'hi'\"'\"''");
}

#[test]
fn node_port_accepts_tcp_ports_only() {
    assert_eq!(node_port(50051).unwrap(), 50051u16);
    assert!(matches!(node_port(70000), Err(DeployError::InvalidNodePort(70000))));
    assert!(matches!(node_port(-1), Err(DeployError::InvalidNodePort(-1))));
}

#[test]
fn password_and_user_resolution() {
    let mut r = request("img", None, None);
    r.ssh_password = Some("  secret ".to_string());
    assert_eq!(resolve_password(&r), Some("secret".to_string()));
    r.ssh_password = Some("   ".to_string());
    assert_eq!(resolve_password(&r), None);
    r.ssh_user = Some(" admin ".to_string());
    assert_eq!(resolve_ssh_user(&r, "root").unwrap(), "admin");
    r.ssh_user = None;
    assert_eq!(resolve_ssh_user(&r, " core ").unwrap(), "core");
    assert!(matches!(resolve_ssh_user(&r, "  "), Err(DeployError::MissingSshUser)));
}

#[test]
fn auth_method_requires_exactly_one_way() {
    assert!(matches!(auth_method(None, None), Err(DeployError::MissingSshAuthentication)));
    assert!(matches!(auth_method(Some("pw".to_string()), None), Ok(AuthMethod::Password(_))));
    assert!(matches!(auth_method(None, Some("/k".to_string())), Ok(AuthMethod::PrivateKey(_))));
}

#[test]
fn private_key_path_expands_home() {
    assert_eq!(expand_private_key_path("~/.ssh/id", Some("/home/u")).unwrap(), "/home/u/.ssh/id");
    assert_eq!(expand_private_key_path("/etc/key", Some("/home/u")).unwrap(), "/etc/key");
    assert!(matches!(
        expand_private_key_path("~/.ssh/id", None),
        Err(DeployError::InvalidSshKeyPath { .. })
    ));
}

#[test]
fn remote_command_outcome_follows_exit_status() {
    let mut c = CommandCapture::new();
    c.absorb(ChannelEvent::Data(b" out \n".to_vec()));
    c.absorb(ChannelEvent::ExtendedData { data: b"err".to_vec(), ext: 1 });
    assert!(command_outcome(&c, true).is_ok());
    match command_outcome(&c, false) {
        Err(DeployError::RemoteCommandFailed { status, stdout, stderr }) => {
            assert_eq!(status, None);
            assert_eq!(stdout, "out");
            assert_eq!(stderr, "err");
        }
        other => panic!("unexpected {:?}", other),
    }
    c.absorb(ChannelEvent::ExitStatus(0));
    assert!(command_outcome(&c, false).is_ok());
    c.absorb(ChannelEvent::ExitStatus(2));
    assert!(matches!(
        command_outcome(&c, true),
        Err(DeployError::RemoteCommandFailed { status: Some(2), .. })
    ));
}
