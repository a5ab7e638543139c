//! The file-backed settings the process needs before any other work runs.

use vstd::prelude::*;

verus! {

/// The settings record built once at process start from the configuration
/// file. All three fields are required; there are no defaults and no
/// partial configuration.
#[derive(Clone, Debug)]
pub struct Settings {
    pub database_url: String,
    pub marvel_base_url: String,
    pub comicvine_base_url: String,
}

/// One of the three keys the configuration file must hold.
#[derive(Clone, Copy, PartialEq, Eq, Structural, Debug)]
pub enum ConfigKey {
    DatabaseUrl,
    MarvelBaseUrl,
    ComicvineBaseUrl,
}

/// The dotted path under which each required key stands in the
/// configuration file.
pub open spec fn key_path_spec(k: ConfigKey) -> Seq<char> {
    match k {
        ConfigKey::DatabaseUrl => "database.url"@,
        ConfigKey::MarvelBaseUrl => "api.marvel_base_url"@,
        ConfigKey::ComicvineBaseUrl => "api.comicvine_base_url"@,
    }
}

impl ConfigKey {
    /// The dotted path of this key, as an executable string.
    pub fn path(&self) -> (r: &'static str)
        ensures
            r@ == key_path_spec(*self),
    {
        match self {
            ConfigKey::DatabaseUrl => "database.url",
            ConfigKey::MarvelBaseUrl => "api.marvel_base_url",
            ConfigKey::ComicvineBaseUrl => "api.comicvine_base_url",
        }
    }
}

/// Builds the settings record from the values the configuration file held
/// for the three required keys, `None` standing for a key the file lacks.
/// Succeeds exactly when all three keys are present; otherwise reports the
/// first missing key, in the order the keys are read at startup.
pub fn build_settings(
    database_url: Option<String>,
    marvel_base_url: Option<String>,
    comicvine_base_url: Option<String>,
) -> (r: Result<Settings, ConfigKey>)
    ensures
        r is Ok <==> (database_url is Some && marvel_base_url is Some && comicvine_base_url
            is Some),
        r is Ok ==> r->Ok_0.database_url == database_url->Some_0
            && r->Ok_0.marvel_base_url == marvel_base_url->Some_0
            && r->Ok_0.comicvine_base_url == comicvine_base_url->Some_0,
        database_url is None ==> r == Result::<Settings, ConfigKey>::Err(ConfigKey::DatabaseUrl),
        database_url is Some && marvel_base_url is None ==> r == Result::<
            Settings,
            ConfigKey,
        >::Err(ConfigKey::MarvelBaseUrl),
        database_url is Some && marvel_base_url is Some && comicvine_base_url is None ==> r
            == Result::<Settings, ConfigKey>::Err(ConfigKey::ComicvineBaseUrl),
{
    let database_url = match database_url {
        Some(v) => v,
        None => {
            return Err(ConfigKey::DatabaseUrl);
        },
    };
    let marvel_base_url = match marvel_base_url {
        Some(v) => v,
        None => {
            return Err(ConfigKey::MarvelBaseUrl);
        },
    };
    let comicvine_base_url = match comicvine_base_url {
        Some(v) => v,
        None => {
            return Err(ConfigKey::ComicvineBaseUrl);
        },
    };
    Ok(Settings { database_url, marvel_base_url, comicvine_base_url })
}

} // verus!
