use vstd::prelude::*;

verus! {

/// What a user of the client chooses on the command line.
#[derive(Debug, Clone)]
pub struct Settings {
    pub host: String,
    pub port: String,
    pub user: Option<String>,
    pub password: Option<String>,
    pub listen: Option<String>,
}

impl Settings {
    /// The local server on the standard port, with nothing else chosen.
    pub fn new() -> (r: Settings)
        ensures
            r.host@ == "localhost"@,
            r.port@ == "21"@,
            r.user is None,
            r.password is None,
            r.listen is None,
    {
        Settings {
            host: String::from_str("localhost"),
            port: String::from_str("21"),
            user: None,
            password: None,
            listen: None,
        }
    }
}

} // verus!
