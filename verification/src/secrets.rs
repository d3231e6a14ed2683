//! The names under which secrets are kept.
use crate::text::{blank, is_blank, trimmed, trimmed_string};
use vstd::prelude::*;

verus! {

/// The name of the key for the transcription service.
pub const NEXARA_API_KEY: &'static str = "NEXARA_API_KEY";

/// The name of the key for the summary service.
pub const OPENAI_API_KEY: &'static str = "OPENAI_API_KEY";

/// A secret as it is to be kept.
#[derive(PartialEq, Eq)]
pub struct NamedSecret {
    pub name: String,
    pub value: String,
}

/// The secret to keep for a name, without the white space around either. A blank name is refused; a
/// blank value is not.
pub fn set_api_secret(name: &str, value: &str) -> (r: Result<NamedSecret, String>)
    ensures
        match r {
            Ok(s) => !is_blank(name@) && s.name@ == trimmed(name@) && s.value@ == trimmed(value@),
            Err(e) => is_blank(name@) && e@ == "Secret name must not be empty"@,
        },
{
    match get_api_secret(name) {
        Ok(name) => Ok(NamedSecret { name, value: trimmed_string(value) }),
        Err(e) => Err(e),
    }
}

/// The name to look a secret up under. A blank name is refused.
pub fn get_api_secret(name: &str) -> (r: Result<String, String>)
    ensures
        match r {
            Ok(n) => !is_blank(name@) && n@ == trimmed(name@),
            Err(e) => is_blank(name@) && e@ == "Secret name must not be empty"@,
        },
{
    if blank(name) {
        Err("Secret name must not be empty".to_owned())
    } else {
        Ok(trimmed_string(name))
    }
}

} // verus!
