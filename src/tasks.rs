//! Developer tasks: the command lines that they run.
use vstd::prelude::*;

verus! {

/// A program and its arguments.
#[derive(Clone, Debug, PartialEq, Eq)]
pub struct CommandLine {
    pub program: String,
    pub args: Vec<String>,
}

/// The cargo flags of a build: `--release` for an optimized build, and
/// `--offline --locked` for a reproducible one, separated by a space.
pub fn make_build_flags(is_release: bool, reproducible: bool) -> (r: String)
    ensures
        r@ == (if is_release {
            "--release"@
        } else {
            ""@
        }) + " "@ + (if reproducible {
            "--offline --locked"@
        } else {
            ""@
        }),
{
    let mut flags = String::new();
    if is_release {
        flags.append("--release");
    }
    flags.append(" ");
    if reproducible {
        flags.append("--offline --locked");
    }
    proof {
        reveal_strlit("");
        assert(Seq::<char>::empty() + "--release"@ =~= "--release"@);
        assert(Seq::<char>::empty() + " "@ =~= " "@);
        assert(" "@ + Seq::<char>::empty() =~= " "@);
        assert("--release"@ + " "@ + Seq::<char>::empty() =~= "--release"@ + " "@);
    }
    assert(flags@ =~= (if is_release {
        "--release"@
    } else {
        ""@
    }) + " "@ + (if reproducible {
        "--offline --locked"@
    } else {
        ""@
    }));
    flags
}

/// The command that ends every Oculus process, with elevated rights, so that
/// no Oculus Link prompt interrupts a debugging session.
pub fn kill_oculus_processes() -> (r: CommandLine)
    ensures
        r.program@ == "powershell"@,
        r.args@.len() == 6,
        r.args@[0]@ == "Start-Process"@,
        r.args@[1]@ == "taskkill"@,
        r.args@[2]@ == "-ArgumentList"@,
        r.args@[3]@ == "\"/F /IM OVR* /T\""@,
        r.args@[4]@ == "-Verb"@,
        r.args@[5]@ == "runAs"@,
{
    let mut args: Vec<String> = Vec::new();
    args.push("Start-Process".to_owned());
    args.push("taskkill".to_owned());
    args.push("-ArgumentList".to_owned());
    args.push("\"/F /IM OVR* /T\"".to_owned());
    args.push("-Verb".to_owned());
    args.push("runAs".to_owned());
    CommandLine { program: "powershell".to_owned(), args }
}

/// The clippy invocation with the lints that the project checks.
pub fn clippy() -> (r: String)
    ensures
        r@ == "cargo clippy -p alvr_xtask -p alvr_common -p alvr_launcher -p alvr_dashboard -- -W clippy::clone_on_ref_ptr -W clippy::create_dir -W clippy::dbg_macro -W clippy::decimal_literal_representation -W clippy::else_if_without_else -W clippy::exit -W clippy::expect_used -W clippy::filetype_is_file -W clippy::float_cmp_const -W clippy::get_unwrap -W clippy::let_underscore_must_use -W clippy::lossy_float_literal -W clippy::map_err_ignore -W clippy::mem_forget -W clippy::multiple_inherent_impl -W clippy::print_stderr -W clippy::print_stderr -W clippy::rc_buffer -W clippy::rest_pat_in_fully_bound_structs -W clippy::str_to_string -W clippy::string_to_string -W clippy::todo -W clippy::unimplemented -W clippy::unneeded_field_pattern -W clippy::unwrap_in_result -W clippy::verbose_file_reads -W clippy::wildcard_enum_match_arm -W clippy::wrong_pub_self_convention"@,
{
    "cargo clippy -p alvr_xtask -p alvr_common -p alvr_launcher -p alvr_dashboard -- -W clippy::clone_on_ref_ptr -W clippy::create_dir -W clippy::dbg_macro -W clippy::decimal_literal_representation -W clippy::else_if_without_else -W clippy::exit -W clippy::expect_used -W clippy::filetype_is_file -W clippy::float_cmp_const -W clippy::get_unwrap -W clippy::let_underscore_must_use -W clippy::lossy_float_literal -W clippy::map_err_ignore -W clippy::mem_forget -W clippy::multiple_inherent_impl -W clippy::print_stderr -W clippy::print_stderr -W clippy::rc_buffer -W clippy::rest_pat_in_fully_bound_structs -W clippy::str_to_string -W clippy::string_to_string -W clippy::todo -W clippy::unimplemented -W clippy::unneeded_field_pattern -W clippy::unwrap_in_result -W clippy::verbose_file_reads -W clippy::wildcard_enum_match_arm -W clippy::wrong_pub_self_convention".to_owned()
}

/// The prettier invocation that formats the JS and CSS sources.
pub fn prettier() -> (r: String)
    ensures
        r@ == "npx -p prettier@2.2.1 prettier --config alvr/xtask/.prettierrc --write '**/*[!.min].{css,js}'"@,
{
    "npx -p prettier@2.2.1 prettier --config alvr/xtask/.prettierrc --write '**/*[!.min].{css,js}'".to_owned()
}

} // verus!
