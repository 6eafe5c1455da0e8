//! The verification e-mail: its sender's settings and its text.
use vstd::prelude::*;
use crate::config::settings::EmailConfig;
use crate::text::{append_str, string_from, trim, trim_str};

verus! {

pub open spec fn email_config_error(smtp_host: Seq<char>, from_address: Seq<char>) -> Option<Seq<char>> {
    if trim(smtp_host).len() == 0 {
        Some("SMTP_HOST cannot be empty"@)
    } else if trim(from_address).len() == 0 {
        Some("EMAIL_FROM_ADDRESS cannot be empty"@)
    } else {
        None
    }
}

/// A sender needs a host to send through and an address to send from.
pub fn check_email_config(config: &EmailConfig) -> (r: Result<(), &'static str>)
    ensures
        match email_config_error(config.smtp_host@, config.from_address@) {
            None => r is Ok,
            Some(m) => r matches Err(s) && s@ == m,
        },
{
    if trim_str(config.smtp_host.as_str()).len() == 0 {
        return Err("SMTP_HOST cannot be empty");
    }
    if trim_str(config.from_address.as_str()).len() == 0 {
        return Err("EMAIL_FROM_ADDRESS cannot be empty");
    }
    Ok(())
}

/// The subject of the verification e-mail.
pub fn verification_email_subject() -> (s: &'static str)
    ensures
        s@ == "Your SSE Discord verification code"@,
{
    "Your SSE Discord verification code"
}

/// The text of the verification e-mail for `code`.
pub open spec fn verification_email_text(code: Seq<char>) -> Seq<char> {
    "Your SSE Discord verification code is: "@ + code
        + "\n\nThis code expires in 1 hour.\n\nEnter this code in the Discord verification prompt to finish verifying your account.\n\nIf you did not request this code, you can ignore this email."@
}

pub fn verification_email_body(code: &str) -> (s: String)
    ensures
        s@ == verification_email_text(code@),
{
    let mut out: Vec<char> = Vec::new();
    append_str(&mut out, "Your SSE Discord verification code is: ");
    append_str(&mut out, code);
    append_str(
        &mut out,
        "\n\nThis code expires in 1 hour.\n\nEnter this code in the Discord verification prompt to finish verifying your account.\n\nIf you did not request this code, you can ignore this email.",
    );
    string_from(&out)
}

} // verus!
