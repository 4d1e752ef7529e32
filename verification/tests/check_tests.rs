use classgate::check::{loads_agent, md5_check, vm_param_check, VmParamError};

fn options(list: &[&str]) -> Vec<String> {
    list.iter().map(|s| s.to_string()).collect()
}

#[test]
fn every_home_passes() {
    assert!(md5_check("/opt/jdk"));
    assert!(md5_check(""));
}

#[test]
fn agent_options_are_recognised() {
    assert!(loads_agent("-agentpath:/tmp/x.so"));
    assert!(loads_agent("-agentlib:jdwp=transport=dt_socket"));
    assert!(loads_agent("-javaagent:spy.jar"));
    assert!(loads_agent("x-javaagent"));
    assert!(!loads_agent("-Xmx1g"));
    assert!(!loads_agent("-agent"));
    assert!(!loads_agent(""));
}

#[test]
fn clean_options_pass() {
    let opts = options(&["-Xmx1g", "-XX:+DisableAttachMechanism", "-Dfoo=bar"]);
    assert_eq!(vm_param_check(&opts), Ok(()));
    let opts = options(&["-XX:+DisableAttachMechanism"]);
    assert_eq!(vm_param_check(&opts), Ok(()));
}

#[test]
fn first_agent_option_is_reported() {
    let opts = options(&[
        "-XX:+DisableAttachMechanism",
        "-Xmx1g",
        "-javaagent:spy.jar",
        "-agentlib:jdwp",
    ]);
    assert_eq!(vm_param_check(&opts), Err(VmParamError::IllegalParam(2)));
    let opts = options(&["-agentpath:/x"]);
    assert_eq!(vm_param_check(&opts), Err(VmParamError::IllegalParam(0)));
}

#[test]
fn attach_switch_is_required() {
    assert_eq!(vm_param_check(&[]), Err(VmParamError::AttachNotDisabled));
    let opts = options(&["-Xmx1g", "-XX:-DisableAttachMechanism"]);
    assert_eq!(vm_param_check(&opts), Err(VmParamError::AttachNotDisabled));
    let opts = options(&["-XX:+DisableAttachMechanism "]);
    assert_eq!(vm_param_check(&opts), Err(VmParamError::AttachNotDisabled));
}
