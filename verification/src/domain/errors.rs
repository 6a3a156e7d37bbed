//! Domain errors.
use vstd::prelude::*;

use crate::i18n::{tr, translation, Lang};
use crate::text::{chars_of, replace, replace_str, string_of};

verus! {

/// Why a step could not complete.
#[derive(Debug, Clone)]
pub enum DomainError {
    /// Not running as root
    PermissionDenied,
    /// A system command failed
    SystemCommandFailed(String),
    /// A configuration file could not be parsed
    ParseError(String),
    /// A precondition does not hold (such as a sudo user before locking out root)
    PreconditionFailed(String),
    /// The user cancelled
    UserAborted,
}

/// The message of an error in `lang`: the translated template with `{msg}` filled in.
pub open spec fn error_message(e: DomainError, lang: Lang) -> Seq<char> {
    match e {
        DomainError::PermissionDenied => translation(lang, "err_permission_denied"@),
        DomainError::SystemCommandFailed(m) => replace(translation(lang, "err_cmd_failed"@), "{msg}"@, m@),
        DomainError::ParseError(m) => replace(translation(lang, "err_parse_error"@), "{msg}"@, m@),
        DomainError::PreconditionFailed(m) => replace(
            translation(lang, "err_precondition_failed"@),
            "{msg}"@,
            m@,
        ),
        DomainError::UserAborted => translation(lang, "err_user_aborted"@),
    }
}

impl DomainError {
    /// The message shown for this error (what `Display` printed).
    pub fn message(&self, lang: Lang) -> (r: String)
        ensures
            r@ == error_message(*self, lang),
    {
        let pat = "{msg}";
        proof {
            reveal_strlit("{msg}");
        }
        match self {
            DomainError::PermissionDenied => {
                let c = chars_of(tr(lang, "err_permission_denied"));
                string_of(&c)
            },
            DomainError::SystemCommandFailed(m) => replace_str(tr(lang, "err_cmd_failed"), pat, m.as_str()),
            DomainError::ParseError(m) => replace_str(tr(lang, "err_parse_error"), pat, m.as_str()),
            DomainError::PreconditionFailed(m) => replace_str(
                tr(lang, "err_precondition_failed"),
                pat,
                m.as_str(),
            ),
            DomainError::UserAborted => {
                let c = chars_of(tr(lang, "err_user_aborted"));
                string_of(&c)
            },
        }
    }
}

} // verus!
