use vstd::prelude::*;

verus! {

/// Where and as whom mail is sent.
#[derive(Debug, Clone)]
pub struct SmtpConfig {
    pub from: String,
    pub host: String,
    pub port: u16,
    pub username: String,
    pub password: String,
}

impl Default for SmtpConfig {
    fn default() -> (c: Self)
        ensures
            c.from@.len() == 0,
            c.host@.len() == 0,
            c.port == 0,
            c.username@.len() == 0,
            c.password@.len() == 0,
    {
        SmtpConfig {
            from: String::new(),
            host: String::new(),
            port: 0,
            username: String::new(),
            password: String::new(),
        }
    }
}

} // verus!
