//! The bot's configuration, taken from environment variables.
use vstd::prelude::*;

verus! {

/// A configuration variable: the value set when the bot runs takes precedence
/// over the one compiled in.
pub fn resolve(runtime: Option<String>, compiled: Option<String>) -> (r: Option<String>)
    ensures
        r == match runtime {
            Some(v) => Some(v),
            None => compiled,
        },
{
    match runtime {
        Some(v) => Some(v),
        None => compiled,
    }
}

/// A required configuration variable is missing.
#[derive(Debug, Clone, PartialEq, Eq)]
pub struct MissingVariable {
    pub name: String,
}

impl MissingVariable {
    /// The message that reports the missing variable.
    pub fn message(&self) -> (r: String)
        ensures
            r@ == "missing "@ + self.name@ + " environment variable"@,
    {
        let mut s = String::new();
        s.append("missing ");
        s.append(self.name.as_str());
        s.append(" environment variable");
        s
    }
}

/// The configuration of the bot.
#[derive(Debug, Clone, PartialEq, Eq)]
pub struct Config {
    pub discord_token: String,
    pub database_url: String,
    pub link_url: String,
    pub spotify_client_id: String,
    pub spotify_client_secret: String,
    /// Where activity statistics are stored (needed only when they are kept).
    pub kv_url: Option<String>,
    /// The status message of the bot.
    pub motd: Option<String>,
}

fn missing(name: &str) -> (r: MissingVariable)
    ensures
        r.name@ == name@,
{
    MissingVariable { name: name.to_owned() }
}

impl Config {
    /// Builds the configuration from the variables' values; the first missing
    /// required variable (in the order token, database, link, client id, client
    /// secret) is reported.
    pub fn new(
        discord_token: Option<String>,
        database_url: Option<String>,
        link_url: Option<String>,
        spotify_client_id: Option<String>,
        spotify_client_secret: Option<String>,
        kv_url: Option<String>,
        motd: Option<String>,
    ) -> (r: Result<Config, MissingVariable>)
        ensures
            discord_token is None ==> (r matches Err(m) && m.name@ == "DISCORD_TOKEN"@),
            discord_token is Some && database_url is None ==> (r matches Err(m) && m.name@ == "DATABASE_URL"@),
            discord_token is Some && database_url is Some && link_url is None ==> (r matches Err(m) && m.name@ == "LINK_URL"@),
            discord_token is Some && database_url is Some && link_url is Some && spotify_client_id is None ==> (r matches Err(m)
                && m.name@ == "SPOTIFY_CLIENT_ID"@),
            discord_token is Some && database_url is Some && link_url is Some && spotify_client_id is Some
                && spotify_client_secret is None ==> (r matches Err(m) && m.name@ == "SPOTIFY_CLIENT_SECRET"@),
            r matches Ok(c) ==> {
                &&& discord_token == Some(c.discord_token)
                &&& database_url == Some(c.database_url)
                &&& link_url == Some(c.link_url)
                &&& spotify_client_id == Some(c.spotify_client_id)
                &&& spotify_client_secret == Some(c.spotify_client_secret)
                &&& c.kv_url == kv_url
                &&& c.motd == motd
            },
            (discord_token is Some && database_url is Some && link_url is Some && spotify_client_id is Some
                && spotify_client_secret is Some) ==> r is Ok,
    {
        let discord_token = match discord_token {
            Some(v) => v,
            None => return Err(missing("DISCORD_TOKEN")),
        };
        let database_url = match database_url {
            Some(v) => v,
            None => return Err(missing("DATABASE_URL")),
        };
        let link_url = match link_url {
            Some(v) => v,
            None => return Err(missing("LINK_URL")),
        };
        let spotify_client_id = match spotify_client_id {
            Some(v) => v,
            None => return Err(missing("SPOTIFY_CLIENT_ID")),
        };
        let spotify_client_secret = match spotify_client_secret {
            Some(v) => v,
            None => return Err(missing("SPOTIFY_CLIENT_SECRET")),
        };
        Ok(Config { discord_token, database_url, link_url, spotify_client_id, spotify_client_secret, kv_url, motd })
    }
}

/// The status message: the configured one, else "some good 'ol music".
pub fn motd(config: &Config) -> (r: &str)
    ensures
        r@ == match config.motd {
            Some(m) => m@,
            None => "some good 'ol music"@,
        },
{
    match &config.motd {
        Some(m) => m.as_str(),
        None => "some good 'ol music",
    }
}

/// The Discord bot token.
pub fn discord_token(config: &Config) -> (r: &str)
    ensures
        r@ == config.discord_token@,
{
    config.discord_token.as_str()
}

/// Where the database is.
pub fn database_url(config: &Config) -> (r: &str)
    ensures
        r@ == config.database_url@,
{
    config.database_url.as_str()
}

/// The base address of the account linking site.
pub fn link_url(config: &Config) -> (r: &str)
    ensures
        r@ == config.link_url@,
{
    config.link_url.as_str()
}

/// The Spotify application's client id.
pub fn spotify_client_id(config: &Config) -> (r: &str)
    ensures
        r@ == config.spotify_client_id@,
{
    config.spotify_client_id.as_str()
}

/// The Spotify application's client secret.
pub fn spotify_client_secret(config: &Config) -> (r: &str)
    ensures
        r@ == config.spotify_client_secret@,
{
    config.spotify_client_secret.as_str()
}

/// Where activity statistics are stored; `None` when it is not configured
/// (keeping statistics then fails as a missing `KV_URL`).
pub fn kv_url(config: &Config) -> (r: Option<&str>)
    ensures
        match config.kv_url {
            Some(u) => r matches Some(s) && s@ == u@,
            None => r is None,
        },
{
    match &config.kv_url {
        Some(u) => Some(u.as_str()),
        None => None,
    }
}

/// The key-value store's URL where it is required (when statistics are kept):
/// an error naming `KV_URL` when it is missing, as for the other required
/// variables.
pub fn require_kv_url(config: &Config) -> (r: Result<&str, MissingVariable>)
    ensures
        match config.kv_url {
            Some(u) => r matches Ok(s) && s@ == u@,
            None => r matches Err(m) && m.name@ == "KV_URL"@,
        },
{
    match &config.kv_url {
        Some(u) => Ok(u.as_str()),
        None => Err(missing("KV_URL")),
    }
}

} // verus!
