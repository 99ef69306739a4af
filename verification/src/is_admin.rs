//! Restarting the application with administrator rights, which Windows asks
//! for before it lets a program create links.

use crate::text::{chars_of, prefixed, string_of};
use vstd::prelude::*;

verus! {

/// The path with every backslash doubled, as the script's string needs it.
pub open spec fn escaped(path: Seq<char>) -> Seq<char>
    decreases path.len(),
{
    if path.len() == 0 {
        Seq::empty()
    } else if path.last() == '\\' {
        escaped(path.drop_last()).push('\\').push('\\')
    } else {
        escaped(path.drop_last()).push(path.last())
    }
}

/// The script that starts the program at `exe_path` with administrator
/// rights.
pub open spec fn elevation_script_of(exe_path: Seq<char>) -> Seq<char> {
    "\n            Set UAC = CreateObject(\"Shell.Application\")\n            UAC.ShellExecute \""@
        + escaped(exe_path) + "\", \"\", \"\", \"runas\", 1\n            "@
}

/// What has to be done to restart with administrator rights: a script is
/// written to the temporary directory and handed to the script host.
pub struct ElevationPlan {
    /// The script's file name.
    pub script_name: String,
    /// The script's text.
    pub script_content: String,
    /// The program that runs the script.
    pub command: String,
}

/// Doubles every backslash of a path.
pub fn escape_backslashes(path: &str) -> (r: String)
    ensures
        r@ == escaped(path@),
{
    let chars = chars_of(path);
    let mut out: Vec<char> = Vec::new();
    let mut i: usize = 0;
    while i < chars.len()
        invariant
            i <= chars.len(),
            out@ == escaped(chars@.take(i as int)),
        decreases chars.len() - i,
    {
        proof {
            assert(chars@.take(i + 1).drop_last() =~= chars@.take(i as int));
        }
        if chars[i] == '\\' {
            out.push('\\');
            out.push('\\');
        } else {
            out.push(chars[i]);
        }
        i = i + 1;
    }
    assert(chars@.take(chars@.len() as int) =~= chars@);
    string_of(&out)
}

/// Plans the restart of the program at `exe_path` with administrator
/// rights. Only Windows knows such a restart: on any other system the plan
/// is refused.
pub fn restart_as_admin(exe_path: &str, on_windows: bool) -> (r: Result<ElevationPlan, String>)
    ensures
        on_windows ==> r is Ok && r->Ok_0.script_name@ == "elevate.vbs"@
            && r->Ok_0.script_content@ == elevation_script_of(exe_path@) && r->Ok_0.command@
            == "wscript.exe"@,
        !on_windows ==> r is Err && r->Err_0@ == elevation_failure_text(
            ElevationFailure::Unsupported,
            Seq::empty(),
        ),
{
    if !on_windows {
        return Err(elevation_failure_message(ElevationFailure::Unsupported, ""));
    }
    let escaped_path = escape_backslashes(exe_path);
    let mut script = String::from_str(
        "\n            Set UAC = CreateObject(\"Shell.Application\")\n            UAC.ShellExecute \"",
    );
    script.append(escaped_path.as_str());
    script.append("\", \"\", \"\", \"runas\", 1\n            ");
    Ok(
        ElevationPlan {
            script_name: String::from_str("elevate.vbs"),
            script_content: script,
            command: String::from_str("wscript.exe"),
        },
    )
}

/// What can fail when the program is restarted with administrator rights.
#[derive(Clone, Copy, Debug, PartialEq, Eq, Structural)]
pub enum ElevationFailure {
    /// The program's own path is not known.
    CurrentExecutable,
    /// The script could not be written.
    WriteScript,
    /// The script host could not be started.
    RunScript,
    /// The system is not Windows.
    Unsupported,
}

/// The message for a failure: for a system that is not Windows a fixed
/// sentence, else the failure's own words and the system's description.
pub open spec fn elevation_failure_text(failure: ElevationFailure, detail: Seq<char>) -> Seq<char> {
    match failure {
        ElevationFailure::CurrentExecutable => "Failed to get current executable path: "@
            + detail,
        ElevationFailure::WriteScript => "Failed to create elevation script: "@ + detail,
        ElevationFailure::RunScript => "Failed to execute elevation script: "@ + detail,
        ElevationFailure::Unsupported => "Admin restart is only supported on Windows"@,
    }
}

/// Words the message for a failure.
pub fn elevation_failure_message(failure: ElevationFailure, detail: &str) -> (r: String)
    ensures
        r@ == elevation_failure_text(failure, detail@),
{
    match failure {
        ElevationFailure::CurrentExecutable => prefixed(
            "Failed to get current executable path: ",
            detail,
        ),
        ElevationFailure::WriteScript => prefixed("Failed to create elevation script: ", detail),
        ElevationFailure::RunScript => prefixed("Failed to execute elevation script: ", detail),
        ElevationFailure::Unsupported => String::from_str(
            "Admin restart is only supported on Windows",
        ),
    }
}

} // verus!
