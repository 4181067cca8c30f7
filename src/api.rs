//! The few pure pieces of the platform client: its environments, their
//! default base URLs, and the signed-in user.
use vstd::prelude::*;
use crate::text::lit;

verus! {

/// The platform environment the client talks to.
#[derive(Debug, Clone, Copy, PartialEq, Eq, Structural)]
pub enum Env {
    DEV,
    RELEASE,
}

impl Env {
    /// The environment's name: `dev` or `release`.
    pub fn as_str(&self) -> (r: &'static str)
        ensures
            r@ == if *self == Env::DEV { "dev"@ } else { "release"@ },
    {
        match self {
            Env::DEV => "dev",
            Env::RELEASE => "release",
        }
    }
}

/// The API's base URL.
#[derive(Debug)]
pub struct LighthouseAPIClientBaseURL(pub String);

impl LighthouseAPIClientBaseURL {
    /// The base URL an environment uses when none is configured.
    pub fn default_for_env(environment: Env) -> (r: Self)
        ensures
            r.0@ == if environment == Env::DEV {
                "http://localhost:8000"@
            } else {
                "https://api.projectlighthouse.io"@
            },
    {
        match environment {
            Env::DEV => LighthouseAPIClientBaseURL(lit("http://localhost:8000")),
            Env::RELEASE => LighthouseAPIClientBaseURL(lit("https://api.projectlighthouse.io")),
        }
    }
}

/// The signed-in user.
#[derive(Debug)]
pub struct ApiUser {
    pub id: i32,
    pub name: String,
    pub email: String,
}

impl ApiUser {
    pub fn id(&self) -> (r: i32)
        ensures
            r == self.id,
    {
        self.id
    }

    pub fn name(&self) -> (r: &str)
        ensures
            r@ == self.name@,
    {
        self.name.as_str()
    }
}

} // verus!
