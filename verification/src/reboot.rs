//! Local capability-gated reboot; the command and its arguments are fixed per platform
//! and never supplied by a remote peer.
use vstd::prelude::*;

verus! {

/// The operating systems with a reboot command.
#[derive(Clone, Copy, PartialEq, Eq, Structural, Debug)]
pub enum Platform {
    Windows,
    MacOs,
    Linux,
}

/// The platform a `std::env::consts::OS` value names.
pub fn platform(os: &str) -> (r: Option<Platform>)
    ensures
        os@ == "windows"@ ==> r == Some(Platform::Windows),
        os@ == "macos"@ ==> r == Some(Platform::MacOs),
        os@ == "linux"@ ==> r == Some(Platform::Linux),
        os@ != "windows"@ && os@ != "macos"@ && os@ != "linux"@ ==> r is None,
{
    proof {
        reveal_strlit("windows");
        reveal_strlit("macos");
        reveal_strlit("linux");
        assert("macos"@.len() == 5);
        assert("windows"@.len() == 7);
        assert("linux"@.len() == 5);
        assert("linux"@[0] != "macos"@[0]);
    }
    if crate::text::text_eq(os, "windows") {
        Some(Platform::Windows)
    } else if crate::text::text_eq(os, "macos") {
        Some(Platform::MacOs)
    } else if crate::text::text_eq(os, "linux") {
        Some(Platform::Linux)
    } else {
        None
    }
}

/// A fixed program with fixed arguments.
pub struct RebootCommand {
    pub program: &'static str,
    pub args: Vec<&'static str>,
}

/// The reboot program of a platform.
pub open spec fn program_of(platform: Platform) -> Seq<char> {
    match platform {
        Platform::Windows => "C:\\Windows\\System32\\shutdown.exe"@,
        Platform::MacOs => "/sbin/shutdown"@,
        Platform::Linux => "/usr/bin/systemctl"@,
    }
}

/// The reboot arguments of a platform: Windows restarts in 30 seconds with a
/// planned-reason code, macOS in one minute, Linux through systemd.
pub open spec fn args_of(platform: Platform) -> Seq<Seq<char>> {
    match platform {
        Platform::Windows => seq!["/r"@, "/t"@, "30"@, "/d"@, "p:4:1"@],
        Platform::MacOs => seq!["-r"@, "+1"@],
        Platform::Linux => seq!["reboot"@],
    }
}

/// The text of each argument.
pub open spec fn arg_texts(args: Seq<&'static str>) -> Seq<Seq<char>> {
    args.map_values(|a: &'static str| a@)
}

/// The reboot command of a platform.
pub fn command(platform: Platform) -> (c: RebootCommand)
    ensures
        c.program@ == program_of(platform),
        arg_texts(c.args@) == args_of(platform),
{
    match platform {
        Platform::Windows => {
            let args = vec!["/r", "/t", "30", "/d", "p:4:1"];
            proof {
                assert(arg_texts(args@) =~= args_of(platform));
            }
            RebootCommand { program: "C:\\Windows\\System32\\shutdown.exe", args }
        },
        Platform::MacOs => {
            let args = vec!["-r", "+1"];
            proof {
                assert(arg_texts(args@) =~= args_of(platform));
            }
            RebootCommand { program: "/sbin/shutdown", args }
        },
        Platform::Linux => {
            let args = vec!["reboot"];
            proof {
                assert(arg_texts(args@) =~= args_of(platform));
            }
            RebootCommand { program: "/usr/bin/systemctl", args }
        },
    }
}

/// Whether `s` names an absolute path: rooted at `/`, or a drive letter followed by `:\`.
pub open spec fn absolute(s: Seq<char>) -> bool {
    (s.len() > 0 && s[0] == '/') || (s.len() > 2 && s[1] == ':' && s[2] == '\\')
}

/// Every reboot program is an absolute path, and no argument contains a `;`.
pub proof fn law_command_is_absolute_and_fixed(platform: Platform)
    ensures
        absolute(program_of(platform)),
        forall|i: int| 0 <= i < args_of(platform).len() ==> !(#[trigger] args_of(platform)[i]).contains(';'),
{
    reveal_strlit("C:\\Windows\\System32\\shutdown.exe");
    reveal_strlit("/sbin/shutdown");
    reveal_strlit("/usr/bin/systemctl");
    reveal_strlit("/r");
    reveal_strlit("/t");
    reveal_strlit("30");
    reveal_strlit("/d");
    reveal_strlit("p:4:1");
    reveal_strlit("-r");
    reveal_strlit("+1");
    reveal_strlit("reboot");
    assert forall|i: int| 0 <= i < args_of(platform).len() implies !(#[trigger] args_of(platform)[i]).contains(';') by {
        let a = args_of(platform)[i];
        assert forall|j: int| 0 <= j < a.len() implies a[j] != ';' by {
        }
    }
}

/// The answer given without running anything: `denied` unless the device opted in.
pub fn precheck(allowed: bool) -> (r: Option<&'static str>)
    ensures
        !allowed ==> r == Some("denied"),
        allowed ==> r is None,
{
    if allowed {
        None
    } else {
        Some("denied")
    }
}

/// The answer after running the command: `accepted` when it exited successfully.
pub fn outcome(succeeded: bool) -> (r: &'static str)
    ensures
        succeeded ==> r == "accepted",
        !succeeded ==> r == "failed",
{
    if succeeded {
        "accepted"
    } else {
        "failed"
    }
}

} // verus!
