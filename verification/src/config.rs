//! The settings of the program, as its environment gives them.

use vstd::prelude::*;

verus! {

pub struct Config {
    pub openai_key: String,
    pub recording_file: Option<String>,
}

/// The prefix of every environment variable that the program reads.
pub const ENV_PREFIX: &'static str = "JARVIS_CODE__";

/// The key of the variable that holds the API key.
pub const OPENAI_KEY: &'static str = "OPENAI_KEY";

/// The key of the variable that holds the path of a recording to replay.
pub const RECORDING_FILE: &'static str = "RECORDING_FILE";

/// A setting that is required and was not given.
pub struct MissingVariable {
    /// The full name of the environment variable.
    pub name: String,
}

impl MissingVariable {
    /// The message for a human reader.
    pub open spec fn text(&self) -> Seq<char> {
        "environment variable "@ + self.name@ + " is required"@
    }

    /// The message for a human reader.
    pub fn message(&self) -> (res: String)
        ensures
            res@ == self.text(),
    {
        let mut out = String::from_str("environment variable ");
        out.append(self.name.as_str());
        out.append(" is required");
        out
    }
}

/// The full name of the environment variable for `key`.
pub fn variable_name(key: &str) -> (res: String)
    ensures
        res@ == ENV_PREFIX@ + key@,
{
    let mut out = String::from_str(ENV_PREFIX);
    out.append(key);
    out
}

/// The configuration that the environment describes, where `openai_key`
/// and `recording_file` are the values of the variables with these keys,
/// or `None` where the variable is not set.
///
/// The API key is required; without a recording the program listens to
/// the live device.
pub fn from_env(openai_key: Option<String>, recording_file: Option<String>) -> (res: Result<
    Config,
    MissingVariable,
>)
    ensures
        match openai_key {
            Some(key) => res matches Ok(config) && config.openai_key == key
                && config.recording_file == recording_file,
            None => res matches Err(missing) && missing.name@ == ENV_PREFIX@ + OPENAI_KEY@,
        },
{
    match openai_key {
        Some(openai_key) => Ok(Config { openai_key, recording_file }),
        None => Err(MissingVariable { name: variable_name(OPENAI_KEY) }),
    }
}

} // verus!
