use vstd::prelude::*;

verus! {

/// The values the configuration provider hands the program at startup:
/// the document-store connection string, the port the listener binds, and
/// a sample value read from the process environment. How they are loaded
/// (file merged with environment) is the embedding program's business.
pub struct EnvConfig {
    pub db_string: String,
    pub port: u16,
    pub shell_env_var: String,
}

} // verus!
