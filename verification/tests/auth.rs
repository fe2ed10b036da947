use zerolimit::auth::{auth_flag, auth_method, auth_outcome, run_kiro_auth, AuthMethod, AuthPlan};
use zerolimit::error::CommandError;
use zerolimit::names::Platform;

#[test]
fn each_method_has_its_flag() {
    assert_eq!(auth_method("google"), Ok(AuthMethod::Google));
    assert_eq!(auth_method("aws"), Ok(AuthMethod::Aws));
    assert_eq!(auth_method("aws-authcode"), Ok(AuthMethod::AwsAuthcode));
    assert_eq!(auth_method("import"), Ok(AuthMethod::Import));
    assert_eq!(auth_flag(AuthMethod::Google), "-kiro-google-login");
    assert_eq!(auth_flag(AuthMethod::Aws), "-kiro-aws-login");
    assert_eq!(auth_flag(AuthMethod::AwsAuthcode), "-kiro-aws-authcode");
    assert_eq!(auth_flag(AuthMethod::Import), "-kiro-import");
}

#[test]
fn unknown_auth_method_is_rejected() {
    for tag in ["github", "", "Google", "aws ", "aws_authcode"] {
        assert_eq!(
            run_kiro_auth("/opt/proxy/cli-proxy-api", tag, Platform::Unix),
            Err(CommandError::UnknownAuthMethod { method: tag.to_string() })
        );
    }
}

#[test]
fn unknown_method_is_rejected_before_the_path() {
    assert_eq!(
        run_kiro_auth("/", "nope", Platform::Unix),
        Err(CommandError::UnknownAuthMethod { method: "nope".to_string() })
    );
    assert_eq!(run_kiro_auth("/", "google", Platform::Unix), Err(CommandError::InvalidPath));
}

#[test]
fn auth_run_uses_the_flag_and_the_parent_directory() {
    assert_eq!(
        run_kiro_auth("/opt/proxy/cli-proxy-api", "aws-authcode", Platform::Unix),
        Ok(AuthPlan {
            program: "/opt/proxy/cli-proxy-api".to_string(),
            flag: "-kiro-aws-authcode".to_string(),
            working_dir: "/opt/proxy".to_string(),
            hide_console: false,
        })
    );
    assert_eq!(
        run_kiro_auth("bin/cliproxy.exe", "import", Platform::Windows),
        Ok(AuthPlan {
            program: "bin/cliproxy.exe".to_string(),
            flag: "-kiro-import".to_string(),
            working_dir: "bin".to_string(),
            hide_console: true,
        })
    );
}

#[test]
fn successful_run_gives_the_fixed_message() {
    assert_eq!(
        auth_outcome(true, "ignored", "ignored too"),
        Ok("Authentication completed successfully".to_string())
    );
}

#[test]
fn failed_run_reports_error_output_first() {
    assert_eq!(
        auth_outcome(false, "out", "  token expired\n"),
        Err(CommandError::AuthFailed { message: "token expired".to_string() })
    );
    assert_eq!(
        auth_outcome(false, "\n only stdout \t", ""),
        Err(CommandError::AuthFailed { message: "only stdout".to_string() })
    );
    assert_eq!(
        auth_outcome(false, "out", " \n"),
        Err(CommandError::AuthFailed { message: "".to_string() })
    );
    assert_eq!(
        auth_outcome(false, "", ""),
        Err(CommandError::AuthFailed { message: "".to_string() })
    );
}
