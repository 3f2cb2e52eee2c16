use qarax::deploy::DeployHostRequest;
use qarax::errors::Error;

fn request() -> DeployHostRequest {
    DeployHostRequest {
        image: "quay.io/example/qarax-vmm:v1".to_string(),
        ssh_port: None,
        ssh_user: None,
        ssh_password: None,
        ssh_private_key_path: None,
        install_bootc: None,
        reboot: None,
    }
}

#[test]
fn deploy_request_rejects_empty_image() {
    let request = DeployHostRequest { image: "   ".to_string(), ..request() };
    assert!(request.validate().is_err());
}

#[test]
fn deploy_request_rejects_multiple_auth_methods() {
    let request = DeployHostRequest {
        image: "quay.io/example/qarax-vmm:v1".to_string(),
        ssh_port: Some(22),
        ssh_user: Some("root".to_string()),
        ssh_password: Some("secret".to_string()),
        ssh_private_key_path: Some("/tmp/id_rsa".to_string()),
        install_bootc: Some(true),
        reboot: Some(true),
    };
    assert!(request.validate().is_err());
}

fn message(r: Result<(), Error>) -> String {
    match r {
        Err(Error::UnprocessableEntity(m)) => m,
        other => panic!("unexpected {:?}", other),
    }
}

#[test]
fn deploy_request_validation_messages() {
    assert_eq!(message(DeployHostRequest { image: "".to_string(), ..request() }.validate()), "image is required");
    assert_eq!(
        message(
            DeployHostRequest {
                ssh_password: Some("a".to_string()),
                ssh_private_key_path: Some("b".to_string()),
                ..request()
            }
            .validate()
        ),
        "provide either ssh_password or ssh_private_key_path, but not both"
    );
    assert_eq!(
        message(DeployHostRequest { ssh_user: Some(" ".to_string()), ..request() }.validate()),
        "ssh_user cannot be empty"
    );
    assert_eq!(
        message(DeployHostRequest { ssh_private_key_path: Some("".to_string()), ..request() }.validate()),
        "ssh_private_key_path cannot be empty"
    );
    assert_eq!(
        message(DeployHostRequest { ssh_port: Some(0), ..request() }.validate()),
        "ssh_port must be greater than 0"
    );
    assert!(request().validate().is_ok());
}

#[test]
fn deploy_request_defaults() {
    let r = request();
    assert_eq!(r.ssh_port(), 22);
    assert!(r.install_bootc());
    assert!(r.reboot());
    let r = DeployHostRequest { ssh_port: Some(2222), install_bootc: Some(false), reboot: Some(false), ..request() };
    assert_eq!(r.ssh_port(), 2222);
    assert!(!r.install_bootc());
    assert!(!r.reboot());
}
