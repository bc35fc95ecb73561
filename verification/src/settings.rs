//! Service settings: where to listen, how to reach the database, and
//! which environment the service runs in.

use crate::text::{
    all_ascii, ascii_lowercase, concat_str, decimal, push_decimal, spec_to_lowercase, str_eq,
    to_lowercase,
};
use vstd::prelude::*;

verus! {

/// All settings of the service.
pub struct Settings {
    pub app: App,
    pub database: Database,
}

/// Where the HTTP server listens.
pub struct App {
    pub port: u16,
    pub host: String,
}

impl App {
    /// The listening address, `host:port`.
    pub fn address(&self) -> (r: String)
        ensures
            r@ == self.host@ + ":"@ + decimal(self.port as nat),
    {
        let mut r = concat_str(self.host.as_str(), ":");
        push_decimal(&mut r, self.port);
        r
    }
}

/// How to reach the database.
pub struct Database {
    pub port: u16,
    pub host: String,
    pub name: String,
    pub username: String,
    pub password: String,
    pub ssl: bool,
}

/// Whether the connection must be encrypted.
#[derive(PartialEq, Eq, Structural, Clone, Copy, Debug)]
pub enum SslMode {
    /// Encrypt, or fail.
    Require,
    /// Encrypt if the server can, else go on in the clear.
    Prefer,
}

/// The level at which executed statements are logged.
#[derive(PartialEq, Eq, Structural, Clone, Copy, Debug)]
pub enum StatementLog {
    Off,
    Error,
    Warn,
    Info,
    Debug,
    Trace,
}

/// The options of a Postgres connection.
pub struct PgOptions {
    pub host: String,
    pub username: String,
    pub password: String,
    pub port: u16,
    pub ssl_mode: SslMode,
    pub statement_log: StatementLog,
    /// The database to open; `None` for the server's default.
    pub database: Option<String>,
}

/// `o` carries the server, credentials and encryption of `db`, logs
/// statements at trace level, and opens the database `name`.
pub open spec fn options_of(db: &Database, name: Option<Seq<char>>, o: &PgOptions) -> bool {
    &&& o.host@ == db.host@
    &&& o.username@ == db.username@
    &&& o.password@ == db.password@
    &&& o.port == db.port
    &&& o.ssl_mode == (if db.ssl {
        SslMode::Require
    } else {
        SslMode::Prefer
    })
    &&& o.statement_log == StatementLog::Trace
    &&& match (name, o.database) {
        (None, None) => true,
        (Some(n), Some(d)) => d@ == n,
        _ => false,
    }
}

impl Database {
    /// Connection options for this server, opening the database `name`
    /// (or the server's default when `name` is `None`).
    pub fn to_options_with(&self, name: Option<&str>) -> (o: PgOptions)
        ensures
            options_of(
                self,
                match name {
                    Some(n) => Some(n@),
                    None => None,
                },
                &o,
            ),
    {
        let ssl_mode = if self.ssl {
            SslMode::Require
        } else {
            SslMode::Prefer
        };
        let database = match name {
            Some(n) => Some(n.to_owned()),
            None => None,
        };
        PgOptions {
            host: self.host.clone(),
            username: self.username.clone(),
            password: self.password.clone(),
            port: self.port,
            ssl_mode,
            statement_log: StatementLog::Trace,
            database,
        }
    }

    /// Connection options that open the configured database.
    pub fn to_options(&self) -> (o: PgOptions)
        ensures
            options_of(self, Some(self.name@), &o),
    {
        self.to_options_with(Some(self.name.as_str()))
    }
}

/// The environment the service runs in.
#[derive(PartialEq, Eq, Structural, Clone, Copy, Debug)]
pub enum Env {
    Dev,
    Prod,
}

/// The name of an environment.
pub open spec fn env_name(e: Env) -> Seq<char> {
    match e {
        Env::Dev => "dev"@,
        Env::Prod => "prod"@,
    }
}

/// The environment named by the lowercase text `l`, if any.
pub open spec fn env_of_name(l: Seq<char>) -> Option<Env> {
    if l == "dev"@ {
        Some(Env::Dev)
    } else if l == "prod"@ {
        Some(Env::Prod)
    } else {
        None
    }
}

/// What reading the lowercase text `l` as an environment gives.
pub open spec fn env_result(l: Seq<char>, r: Result<Env, String>) -> bool {
    match env_of_name(l) {
        Some(e) => r == Ok::<Env, String>(e),
        None => r matches Err(m) && m@ == "Unrecognized environment "@ + l
            + "; use dev or prod"@,
    }
}

impl Env {
    /// The environment's name, as it appears in the settings.
    pub fn as_str(&self) -> (s: &'static str)
        ensures
            s@ == env_name(*self),
    {
        match self {
            Env::Dev => "dev",
            Env::Prod => "prod",
        }
    }

    /// Reads an environment from its name, which must already be in
    /// lowercase.
    pub fn from_lowercase(lower: &str) -> (r: Result<Env, String>)
        ensures
            env_result(lower@, r),
    {
        if str_eq(lower, "dev") {
            Ok(Env::Dev)
        } else if str_eq(lower, "prod") {
            Ok(Env::Prod)
        } else {
            let m = concat_str("Unrecognized environment ", lower);
            Err(concat_str(m.as_str(), "; use dev or prod"))
        }
    }

    /// The environment chosen by the value of the environment variable
    /// that selects it: `dev` when the variable is unset.
    pub fn from_var(value: Option<&str>) -> (r: Result<Env, String>)
        ensures
            value is None ==> r == Ok::<Env, String>(Env::Dev),
            value matches Some(v) ==> env_result(spec_to_lowercase(v@), r),
    {
        match value {
            Some(v) => Env::parse(v),
            None => {
                let r = Env::parse("dev");
                proof {
                    lemma_env_names_lowercase();
                }
                r
            },
        }
    }

    /// Reads an environment from its name, in any case.
    pub fn parse(s: &str) -> (r: Result<Env, String>)
        ensures
            env_result(spec_to_lowercase(s@), r),
            all_ascii(s@) ==> env_result(s@.map_values(|c: char| ascii_lowercase(c)), r),
            forall|e: Env| s@ == #[trigger] env_name(e) ==> r == Ok::<Env, String>(e),
    {
        let lower = to_lowercase(s);
        proof {
            lemma_env_names_lowercase();
        }
        Env::from_lowercase(lower.as_str())
    }
}

/// The names of the environments are distinct, ASCII, and already in
/// lowercase.
proof fn lemma_env_names_lowercase()
    ensures
        "dev"@ != "prod"@,
        all_ascii("dev"@),
        all_ascii("prod"@),
        "dev"@.map_values(|c: char| ascii_lowercase(c)) == "dev"@,
        "prod"@.map_values(|c: char| ascii_lowercase(c)) == "prod"@,
{
    reveal_strlit("dev");
    reveal_strlit("prod");
    assert("dev"@.map_values(|c: char| ascii_lowercase(c)) =~= "dev"@);
    assert("prod"@.map_values(|c: char| ascii_lowercase(c)) =~= "prod"@);
}

/// Each environment is read back from its own name.
pub proof fn lemma_env_name_round_trip(e: Env)
    ensures
        env_of_name(env_name(e)) == Some(e),
{
    lemma_env_names_lowercase();
}

impl TryFrom<String> for Env {
    type Error = String;

    fn try_from(s: String) -> (r: Result<Env, String>)
        ensures
            env_result(spec_to_lowercase(s@), r),
            all_ascii(s@) ==> env_result(s@.map_values(|c: char| ascii_lowercase(c)), r),
            forall|e: Env| s@ == #[trigger] env_name(e) ==> r == Ok::<Env, String>(e),
    {
        Env::parse(s.as_str())
    }
}

/// The conversion promises nothing beyond `Env::parse`, whose contract
/// states the result.
impl vstd::std_specs::convert::TryFromSpecImpl<String> for Env {
    open spec fn obeys_try_from_spec() -> bool {
        false
    }

    open spec fn try_from_spec(s: String) -> Result<Env, String> {
        arbitrary()
    }
}

/// Only the exact names `dev` and `prod` are recognised, each for its own
/// environment; any other lowercase text is unrecognised.
pub proof fn lemma_env_names_exact(l: Seq<char>)
    ensures
        env_name(Env::Dev) == seq!['d', 'e', 'v'],
        env_name(Env::Prod) == seq!['p', 'r', 'o', 'd'],
        env_of_name(l) matches Some(e) ==> l == env_name(e),
        l == seq!['d', 'e', 'v'] ==> env_of_name(l) == Some(Env::Dev),
        l == seq!['p', 'r', 'o', 'd'] ==> env_of_name(l) == Some(Env::Prod),
        l != seq!['d', 'e', 'v'] && l != seq!['p', 'r', 'o', 'd'] ==> env_of_name(l) is None,
{
    reveal_strlit("dev");
    reveal_strlit("prod");
    assert("dev"@ =~= seq!['d', 'e', 'v']);
    assert("prod"@ =~= seq!['p', 'r', 'o', 'd']);
}

/// Connection options copy the configured server, credentials and port
/// whatever the encryption flag; the flag decides the encryption mode
/// alone, and the database opened is the one asked for.
pub proof fn lemma_options_follow_settings(db: &Database, name: Option<Seq<char>>, o: &PgOptions)
    requires
        options_of(db, name, o),
    ensures
        o.host@ == db.host@,
        o.username@ == db.username@,
        o.password@ == db.password@,
        o.port == db.port,
        db.ssl ==> o.ssl_mode == SslMode::Require,
        !db.ssl ==> o.ssl_mode == SslMode::Prefer,
        name is None ==> o.database is None,
        name matches Some(n) ==> (o.database matches Some(d) && d@ == n),
{
}

/// Two servers that differ only in the encryption flag get options that
/// differ only in the encryption mode.
pub proof fn lemma_options_ssl_changes_only_mode(
    a: &Database,
    b: &Database,
    name: Option<Seq<char>>,
    oa: &PgOptions,
    ob: &PgOptions,
)
    requires
        a.host@ == b.host@,
        a.username@ == b.username@,
        a.password@ == b.password@,
        a.port == b.port,
        options_of(a, name, oa),
        options_of(b, name, ob),
    ensures
        oa.host@ == ob.host@,
        oa.username@ == ob.username@,
        oa.password@ == ob.password@,
        oa.port == ob.port,
        oa.statement_log == ob.statement_log,
        (a.ssl == b.ssl) ==> oa.ssl_mode == ob.ssl_mode,
{
}

} // verus!
