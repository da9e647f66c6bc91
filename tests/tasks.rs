use alxr_common::tasks::{clippy, kill_oculus_processes, make_build_flags, prettier};

#[test]
fn build_flags() {
    assert_eq!(make_build_flags(false, false), " ");
    assert_eq!(make_build_flags(true, false), "--release ");
    assert_eq!(make_build_flags(false, true), " --offline --locked");
    assert_eq!(make_build_flags(true, true), "--release --offline --locked");
}

#[test]
fn kill_oculus_command() {
    let c = kill_oculus_processes();
    assert_eq!(c.program, "powershell");
    assert_eq!(
        c.args,
        vec!["Start-Process", "taskkill", "-ArgumentList", "\"/F /IM OVR* /T\"", "-Verb", "runAs"]
    );
}

#[test]
fn lint_and_format_commands() {
    assert!(clippy().starts_with("cargo clippy -p alvr_xtask"));
    assert!(clippy().ends_with("-W clippy::wrong_pub_self_convention"));
    assert!(prettier().starts_with("npx -p prettier@2.2.1 prettier"));
}
