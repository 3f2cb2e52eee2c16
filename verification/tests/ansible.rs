use std::collections::BTreeMap;

use qarax::ansible::{AnsibleCommand, CMD, INSTALL_HOST_PLAYBOOK};

#[test]
fn test_generate_command() {
    let mut extra_params = BTreeMap::new();
    extra_params.insert(String::from("ansible_password"), String::from("fedora"));
    extra_params.insert(String::from("fcversion"), String::from("0.21.1"));

    let ac = AnsibleCommand::new(CMD, "root", "192.168.122.45", extra_params);
    const OUTPUT: &str = "/usr/bin/ansible-playbook -i 192.168.122.45, -u root -e ansible_password=fedora -e fcversion=0.21.1";

    assert_eq!(ac.to_string(), OUTPUT);
}

#[test]
fn build_args_lists_playbook_host_user_then_sorted_extras() {
    let mut extra_params = BTreeMap::new();
    extra_params.insert(String::from("zeta"), String::from("2"));
    extra_params.insert(String::from("alpha"), String::from("1"));
    let ac = AnsibleCommand::new(INSTALL_HOST_PLAYBOOK, "admin", "10.0.0.5", extra_params);
    assert_eq!(
        ac.build_args(),
        vec![
            "playbooks/roles/setup_host/playbook.yml".to_string(),
            "-i 10.0.0.5,".to_string(),
            "-u admin".to_string(),
            "-e alpha=1".to_string(),
            "-e zeta=2".to_string(),
        ]
    );
}

#[test]
fn printed_command_is_the_arguments_joined_by_spaces() {
    let mut extra_params = BTreeMap::new();
    extra_params.insert(String::from("b"), String::from("x y"));
    extra_params.insert(String::from("a"), String::from(""));
    let ac = AnsibleCommand::new("play.yml", "u", "h", extra_params);
    assert_eq!(ac.to_string(), ac.build_args().join(" "));
}

#[test]
fn command_without_extras() {
    let ac = AnsibleCommand::new("p.yml", "root", "host", BTreeMap::new());
    assert_eq!(ac.to_string(), "p.yml -i host, -u root");
    assert_eq!(ac.build_args().len(), 3);
}
