//! The one-shot authentication run of the proxy binary: which flag a method
//! stands for, how the run is started, and what its exit means.

use crate::error::CommandError;
use crate::names::Platform;
use crate::paths::{parent_of, parent_text};
use crate::text::{chars_of, equals, is_trimmed, string_of, trim};
use vstd::prelude::*;
use vstd::string::*;

verus! {

/// The authentication methods that the proxy binary offers.
#[derive(Clone, Copy, Debug, PartialEq, Eq, Structural)]
pub enum AuthMethod {
    Google,
    Aws,
    AwsAuthcode,
    Import,
}

/// How to run the authentication: the program with the one flag, in the
/// working directory, to completion, with its output captured.
#[derive(Clone, Debug, PartialEq, Eq)]
pub struct AuthPlan {
    pub program: String,
    pub flag: String,
    pub working_dir: String,
    pub hide_console: bool,
}

/// The method that a tag names, if it names one.
pub open spec fn method_of(tag: Seq<char>) -> Option<AuthMethod> {
    if tag == "google"@ {
        Some(AuthMethod::Google)
    } else if tag == "aws"@ {
        Some(AuthMethod::Aws)
    } else if tag == "aws-authcode"@ {
        Some(AuthMethod::AwsAuthcode)
    } else if tag == "import"@ {
        Some(AuthMethod::Import)
    } else {
        None
    }
}

/// The command-line flag that selects a method.
pub open spec fn flag_of(method: AuthMethod) -> Seq<char> {
    match method {
        AuthMethod::Google => "-kiro-google-login"@,
        AuthMethod::Aws => "-kiro-aws-login"@,
        AuthMethod::AwsAuthcode => "-kiro-aws-authcode"@,
        AuthMethod::Import => "-kiro-import"@,
    }
}

/// The text that a failed run reports: its error output where there is
/// any, else its standard output.
pub open spec fn failure_output(stdout: Seq<char>, stderr: Seq<char>) -> Seq<char> {
    if stderr.len() > 0 {
        stderr
    } else {
        stdout
    }
}

/// The method that a tag names. A tag outside the four known ones is
/// refused as `UnknownAuthMethod`, which carries the tag.
pub fn auth_method(tag: &str) -> (method: Result<AuthMethod, CommandError>)
    ensures
        match method_of(tag@) {
            Some(known) => method == Ok::<AuthMethod, CommandError>(known),
            None => method matches Err(CommandError::UnknownAuthMethod { method: refused })
                && refused@ == tag@,
        },
{
    let chars = chars_of(tag);
    if equals(&chars, "google") {
        Ok(AuthMethod::Google)
    } else if equals(&chars, "aws") {
        Ok(AuthMethod::Aws)
    } else if equals(&chars, "aws-authcode") {
        Ok(AuthMethod::AwsAuthcode)
    } else if equals(&chars, "import") {
        Ok(AuthMethod::Import)
    } else {
        Err(CommandError::UnknownAuthMethod { method: tag.to_owned() })
    }
}

/// The command-line flag that selects a method.
pub fn auth_flag(method: AuthMethod) -> (flag: &'static str)
    ensures
        flag@ == flag_of(method),
{
    match method {
        AuthMethod::Google => "-kiro-google-login",
        AuthMethod::Aws => "-kiro-aws-login",
        AuthMethod::AwsAuthcode => "-kiro-aws-authcode",
        AuthMethod::Import => "-kiro-import",
    }
}

/// Decides how to run the authentication. An unknown method is refused
/// before anything else is looked at, so that no process is started for it;
/// then a path without a parent directory is refused as `InvalidPath`. The
/// run does not touch the slot of the managed process.
pub fn run_kiro_auth(exe_path: &str, auth_method: &str, platform: Platform) -> (plan: Result<
    AuthPlan,
    CommandError,
>)
    ensures
        match method_of(auth_method@) {
            None => plan matches Err(CommandError::UnknownAuthMethod { method: refused })
                && refused@ == auth_method@,
            Some(known) => match parent_text(exe_path@) {
                None => plan matches Err(CommandError::InvalidPath),
                Some(dir) => {
                    &&& plan matches Ok(run)
                    &&& run.program@ == exe_path@
                    &&& run.flag@ == flag_of(known)
                    &&& run.working_dir@ == dir
                    &&& run.hide_console == (platform == Platform::Windows)
                },
            },
        },
{
    let method = match self::auth_method(auth_method) {
        Ok(method) => method,
        Err(refusal) => {
            return Err(refusal);
        },
    };
    match parent_of(exe_path) {
        Some(working_dir) => Ok(
            AuthPlan {
                program: exe_path.to_owned(),
                flag: String::from_str(auth_flag(method)),
                working_dir,
                hide_console: matches!(platform, Platform::Windows),
            },
        ),
        None => Err(CommandError::InvalidPath),
    }
}

/// What the finished run means. A run that exited with success gives the
/// fixed message of success. Any other gives `AuthFailed` with the run's
/// error output, or its standard output where the error output is empty,
/// without leading and trailing white space.
pub fn auth_outcome(success: bool, stdout: &str, stderr: &str) -> (outcome: Result<
    String,
    CommandError,
>)
    ensures
        if success {
            outcome matches Ok(message) && message@ == "Authentication completed successfully"@
        } else {
            outcome matches Err(CommandError::AuthFailed { message }) && is_trimmed(
                message@,
                failure_output(stdout@, stderr@),
            )
        },
{
    if success {
        return Ok(String::from_str("Authentication completed successfully"));
    }
    let errors = chars_of(stderr);
    let output = if errors.len() > 0 {
        errors
    } else {
        chars_of(stdout)
    };
    let message = trim(&output);
    Err(CommandError::AuthFailed { message: string_of(&message) })
}

} // verus!
