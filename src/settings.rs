use vstd::prelude::*;

verus! {

/// The application's configuration.
pub struct Settings {
    pub redis: RedisSettings,
    pub app: AppSettings,
    pub todo_handler: TodoHandlerSettings,
}

/// Settings of the list actors.
pub struct TodoHandlerSettings {
    /// Seconds between two write-behind ticks.
    pub store_interval: u64,
}

/// Connection parameters of the store.
pub struct RedisSettings {
    pub host: String,
    pub port: u16,
    pub username: String,
    pub password: String,
    pub db: i64,
}

/// The address the server listens on.
pub struct AppSettings {
    pub host: String,
    pub port: u16,
}

/// A named configuration profile.
#[derive(PartialEq, Eq, Structural, Clone, Copy, Debug)]
pub enum Environment {
    Local,
    Production,
}

/// The name of a profile.
pub open spec fn environment_name(e: Environment) -> Seq<char> {
    match e {
        Environment::Local => "local"@,
        Environment::Production => "production"@,
    }
}

/// The profile named `name` in lower case, or the error that names it.
pub open spec fn parse_lowered_spec(name: Seq<char>) -> Result<Environment, Seq<char>> {
    if name == "local"@ {
        Ok(Environment::Local)
    } else if name == "production"@ {
        Ok(Environment::Production)
    } else {
        Err(name + " is not a supported environment. Use either `local` or `production`."@)
    }
}

/// What str::to_lowercase returns for a string.
pub uninterp spec fn lower_of(s: Seq<char>) -> Seq<char>;

/// Relies on str::to_lowercase: the result depends on the characters alone.
#[verifier::external_body]
fn lowercase(s: &str) -> (r: String)
    ensures
        r@ == lower_of(s@),
{
    s.to_lowercase()
}

impl Environment {
    pub fn as_str(&self) -> (s: &'static str)
        ensures
            s@ == environment_name(*self),
    {
        match self {
            Environment::Local => "local",
            Environment::Production => "production",
        }
    }

    /// The profile named `name`, which is already in lower case.
    pub fn parse_lowered(name: &str) -> (r: Result<Environment, String>)
        ensures
            match (r, parse_lowered_spec(name@)) {
                (Ok(e), Ok(f)) => e == f,
                (Err(m), Err(n)) => m@ == n,
                _ => false,
            },
    {
        let owned = String::from_str(name);
        if owned == String::from_str("local") {
            Ok(Environment::Local)
        } else if owned == String::from_str("production") {
            Ok(Environment::Production)
        } else {
            Err(owned.concat(" is not a supported environment. Use either `local` or `production`."))
        }
    }

    /// The profile named `name`, in any case.
    pub fn parse(name: String) -> (r: Result<Environment, String>)
        ensures
            match (r, parse_lowered_spec(lower_of(name@))) {
                (Ok(e), Ok(f)) => e == f,
                (Err(m), Err(n)) => m@ == n,
                _ => false,
            },
    {
        let lowered = lowercase(name.as_str());
        Self::parse_lowered(lowered.as_str())
    }
}

} // verus!
