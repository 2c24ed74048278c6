use model_gateway::numfmt::{decimal_u16, decimal_u8};
use model_gateway::venv::{create_venv, parent_dir_of, VenvError};

#[test]
fn decimal_rendering_is_exact() {
    assert_eq!(decimal_u16(0), "0");
    assert_eq!(decimal_u16(7), "7");
    assert_eq!(decimal_u16(50051), "50051");
    assert_eq!(decimal_u16(u16::MAX), "65535");
    assert_eq!(decimal_u8(203), "203");
}

#[test]
fn parent_dir_takes_the_text_before_the_last_slash() {
    assert_eq!(parent_dir_of("/usr/bin/python3"), "/usr/bin");
    assert_eq!(parent_dir_of("python3"), "");
    assert_eq!(parent_dir_of("/python3"), "");
    assert_eq!(parent_dir_of("a/b/"), "a/b");
}

#[test]
fn plan_lays_the_environment_out_under_the_destination() {
    let plan = create_venv(
        "/tmp/env",
        "/usr/bin/python3",
        3,
        11,
        2,
        false,
        true,
        false,
        false,
        None,
        false,
    )
    .unwrap();
    assert_eq!(plan.bin_dir, "/tmp/env/bin");
    assert_eq!(plan.include_dir, "/tmp/env/python3.11");
    assert_eq!(plan.site_packages_dir, "/tmp/env/lib/python3.11/site-packages");
    assert_eq!(plan.interpreter_source, "/usr/bin/python3");
    assert_eq!(plan.interpreter_target, "/tmp/env/bin/python");
    assert!(plan.use_symlink);
    assert_eq!(plan.cfg_path, "/tmp/env/pyvenv.cfg");
    assert_eq!(
        plan.cfg_contents,
        "home = /usr/bin\ninclude-system-site-packages = false\nversion = 3.11.2\n"
    );
    assert!(!plan.upgrade_core);
    assert_eq!(plan.requirements, None);
}

#[test]
fn copies_flag_turns_symlinking_off() {
    let plan = create_venv(
        "/tmp/env",
        "/usr/bin/python3",
        3,
        11,
        2,
        false,
        true,
        true,
        false,
        Some("reqs.txt".to_string()),
        true,
    )
    .unwrap();
    assert!(!plan.use_symlink);
    assert!(plan.upgrade_core);
    assert_eq!(plan.requirements, Some("reqs.txt".to_string()));
}

#[test]
fn non_empty_destination_is_refused() {
    match create_venv(
        "/tmp/env",
        "/usr/bin/python3",
        3,
        11,
        2,
        true,
        false,
        false,
        false,
        None,
        false,
    ) {
        Err(VenvError::DestinationNotEmpty) => {},
        Ok(_) => panic!("a non-empty destination must be refused"),
    }
}

#[test]
fn empty_but_existing_destination_is_accepted() {
    assert!(create_venv(
        "/tmp/env",
        "/usr/bin/python3",
        3,
        11,
        2,
        true,
        true,
        false,
        false,
        None,
        false,
    )
    .is_ok());
}
