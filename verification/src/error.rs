//! The failures that commands report, and their descriptive text.

use crate::text::string_of;
use vstd::prelude::*;
use vstd::string::*;

verus! {

/// Why a command failed.
#[derive(Clone, Debug, PartialEq, Eq)]
pub enum CommandError {
    /// A path has no parent directory, or its directory cannot be read.
    InvalidPath,
    /// The executable could not be started.
    SpawnFailed { reason: String },
    /// The server answered the download with a status outside 200..=299.
    DownloadFailed { status: u16 },
    /// The download address ends in no recognized archive suffix.
    UnsupportedFormat { url: String },
    /// The archive could not be read.
    ArchiveReadError { detail: String },
    /// No executable was found after extraction.
    ExecutableNotFound,
    /// The authentication method is none of the known ones.
    UnknownAuthMethod { method: String },
    /// The authentication run ended with a failure status.
    AuthFailed { message: String },
    /// The shared process slot was left poisoned by an earlier panic.
    LockPoisoned,
    /// Any other failure, with its text.
    General(String),
}

/// Result of a command.
pub type CommandResult<T> = Result<T, CommandError>;

/// The character for a decimal digit.
pub open spec fn digit_char(d: nat) -> char
    recommends
        d < 10,
{
    ((48 + d) as u8) as char
}

/// The decimal notation of `n`, without leading zeros.
pub open spec fn decimal_digits(n: nat) -> Seq<char>
    decreases n,
{
    if n < 10 {
        seq![digit_char(n)]
    } else {
        decimal_digits(n / 10).push(digit_char(n % 10))
    }
}

/// The decimal notation of `n`.
pub fn decimal(n: u16) -> (text: String)
    ensures
        text@ == decimal_digits(n as nat),
{
    let mut digits: Vec<char> = Vec::new();
    let mut rest: u16 = n;
    while rest >= 10
        invariant
            decimal_digits(n as nat) == decimal_digits(rest as nat) + digits@,
        decreases rest,
    {
        let d: u8 = (rest % 10) as u8;
        let ghost before = digits@;
        digits.insert(0, (48 + d) as char);
        proof {
            assert(decimal_digits(rest as nat) + before =~= decimal_digits((rest / 10) as nat)
                + digits@);
        }
        rest = rest / 10;
    }
    let d: u8 = rest as u8;
    let ghost before = digits@;
    digits.insert(0, (48 + d) as char);
    proof {
        assert(decimal_digits(rest as nat) + before =~= digits@);
    }
    string_of(&digits)
}

impl CommandError {
    /// The text that the user sees for this failure.
    pub open spec fn text(self) -> Seq<char> {
        match self {
            CommandError::InvalidPath => "Invalid path"@,
            CommandError::SpawnFailed { reason } => "Failed: "@ + reason@,
            CommandError::DownloadFailed { status } => "Received non-success status code: "@
                + decimal_digits(status as nat),
            CommandError::UnsupportedFormat { url } => "Unsupported file extension in URL: "@
                + url@,
            CommandError::ArchiveReadError { detail } => "Failed to read archive: "@ + detail@,
            CommandError::ExecutableNotFound =>
                "Could not locate CLIProxyAPI executable after extraction."@,
            CommandError::UnknownAuthMethod { method } => "Unknown auth method: "@ + method@,
            CommandError::AuthFailed { message } => "Auth failed: "@ + message@,
            CommandError::LockPoisoned => "Process state lock is poisoned"@,
            CommandError::General(text) => text@,
        }
    }

    /// The text that the user sees for this failure.
    pub fn message(&self) -> (text: String)
        ensures
            text@ == self.text(),
    {
        match self {
            CommandError::InvalidPath => String::from_str("Invalid path"),
            CommandError::SpawnFailed { reason } => String::from_str("Failed: ").concat(
                reason.as_str(),
            ),
            CommandError::DownloadFailed { status } => {
                let digits = decimal(*status);
                String::from_str("Received non-success status code: ").concat(digits.as_str())
            },
            CommandError::UnsupportedFormat { url } => String::from_str(
                "Unsupported file extension in URL: ",
            ).concat(url.as_str()),
            CommandError::ArchiveReadError { detail } => String::from_str(
                "Failed to read archive: ",
            ).concat(detail.as_str()),
            CommandError::ExecutableNotFound => String::from_str(
                "Could not locate CLIProxyAPI executable after extraction.",
            ),
            CommandError::UnknownAuthMethod { method } => String::from_str(
                "Unknown auth method: ",
            ).concat(method.as_str()),
            CommandError::AuthFailed { message } => String::from_str("Auth failed: ").concat(
                message.as_str(),
            ),
            CommandError::LockPoisoned => String::from_str("Process state lock is poisoned"),
            CommandError::General(text) => text.clone(),
        }
    }
}

} // verus!
