use vstd::prelude::*;
use crate::session::SessionStore;

verus! {

/// The fixed tail of the subprocess command line: the prompt and the flags
/// asking for verbose, line-delimited JSON output.
pub open spec fn spec_base_args(msg: Seq<char>) -> Seq<Seq<char>> {
    seq!["-p"@, msg, "--output-format"@, "stream-json"@, "--verbose"@]
}

/// The full argument list: a resume pair first when a session is continued.
pub open spec fn spec_args(msg: Seq<char>, resume: Option<Seq<char>>) -> Seq<Seq<char>> {
    match resume {
        Some(sid) => seq!["--resume"@, sid] + spec_base_args(msg),
        None => spec_base_args(msg),
    }
}

/// The session to resume: the held one, unless continuation was declined.
/// Asking for nothing means continuing.
pub open spec fn spec_resume(last: Option<Seq<char>>, continue_session: Option<bool>) -> Option<
    Seq<char>,
> {
    if continue_session != Some(false) {
        last
    } else {
        None
    }
}

/// The working directory a dispatch runs in: the caller's when given, else
/// the home directory when there is one, else the current directory.
pub open spec fn spec_resolved_dir(cwd: Option<Seq<char>>, home: Option<Seq<char>>) -> Seq<char> {
    match cwd {
        Some(d) => d,
        None => match home {
            Some(h) => h,
            None => "."@,
        },
    }
}

/// The session identifier to resume, read from the store: the held one,
/// unless the caller declined continuation.
pub fn resume_arg(store: &SessionStore, continue_session: Option<bool>) -> (r: Option<String>)
    ensures
        r.deep_view() == spec_resume(store@, continue_session),
{
    let should_continue = match continue_session {
        Some(b) => b,
        None => true,
    };
    if should_continue {
        store.current()
    } else {
        None
    }
}

/// The argument list handed to the subprocess.
pub fn build_args(message: &str, resume: &Option<String>) -> (r: Vec<String>)
    ensures
        r.deep_view() == spec_args(message@, resume.deep_view()),
{
    let mut args: Vec<String> = Vec::new();
    match resume {
        Some(sid) => {
            args.push(String::from_str("--resume"));
            args.push(sid.clone());
        },
        None => (),
    }
    args.push(String::from_str("-p"));
    args.push(String::from_str(message));
    args.push(String::from_str("--output-format"));
    args.push(String::from_str("stream-json"));
    args.push(String::from_str("--verbose"));
    proof {
        assert(args.deep_view() =~= spec_args(message@, resume.deep_view()));
    }
    args
}

/// The directory choice, from plain values.
pub fn resolve_dir(cwd: Option<String>, home: Option<String>) -> (r: String)
    ensures
        r@ == spec_resolved_dir(cwd.deep_view(), home.deep_view()),
{
    match cwd {
        Some(d) => d,
        None => match home {
            Some(h) => h,
            None => String::from_str("."),
        },
    }
}

/// Relies on `dirs::home_dir`: the user's home directory. The answer is read
/// from the environment, so nothing is promised of it.
#[verifier::external_body]
fn home_dir_string() -> (r: Option<String>) {
    dirs::home_dir().map(|p| p.to_string_lossy().to_string())
}

/// The working directory for a dispatch: the caller's when given, else the
/// user's home directory, else the current directory.
pub fn resolve_working_dir(cwd: Option<String>) -> (r: String)
    ensures
        cwd.deep_view() matches Some(d) ==> r@ == d,
{
    let home = home_dir_string();
    resolve_dir(cwd, home)
}

/// The installation verdict from a probe's outcome, `None` standing for a
/// probe that could not run at all: the tool counts as installed exactly
/// when the probe ran and exited successfully. Absence is a plain `false`,
/// never an error.
pub fn check_verdict(probe: Option<bool>) -> (r: bool)
    ensures
        r == (probe == Some(true)),
{
    match probe {
        Some(ok) => ok,
        None => false,
    }
}

/// After an explicit clear of the session store, a dispatch that asks to
/// continue the conversation still builds a command line with no resume
/// argument: the arguments are exactly the base ones.
pub proof fn lemma_no_resume_after_clear(last: Option<Seq<char>>, continue_session: Option<bool>,
    msg: Seq<char>)
    requires
        last is None,
    ensures
        spec_resume(last, continue_session) is None,
        spec_args(msg, spec_resume(last, continue_session)) == spec_base_args(msg),
{
}

} // verus!
