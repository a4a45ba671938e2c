//! The settings of the worker: six texts, every one of them required. A
//! worker that lacks one of them does not start.

use vstd::prelude::*;

verus! {

#[derive(Debug, Clone, PartialEq, Eq)]
pub struct EnvVars {
    pub db_url: String,
    pub rabbit_url: String,
    pub api_key_huggy: String,
    pub api_key_gup: String,
    pub api_key_huggy2: String,
    pub db_url_logs: String,
}

/// A setting, in the order in which the settings are read.
#[derive(Debug, Clone, Copy, PartialEq, Eq, Structural)]
pub enum Setting {
    DbUrl,
    RabbitUrl,
    ApiKeyHuggy,
    ApiKeyGup,
    ApiKeyHuggy2,
    DbUrlLogs,
}

/// What was found for each setting, in the order of [`Setting`].
#[derive(Debug, Clone, PartialEq, Eq)]
pub struct Lookup {
    pub db_url: Option<String>,
    pub rabbit_url: Option<String>,
    pub api_key_huggy: Option<String>,
    pub api_key_gup: Option<String>,
    pub api_key_huggy2: Option<String>,
    pub db_url_logs: Option<String>,
}

/// The name of the environment variable that holds a setting.
pub open spec fn name_of(setting: Setting) -> Seq<char> {
    match setting {
        Setting::DbUrl => "DB_URL"@,
        Setting::RabbitUrl => "RABBIT_URL"@,
        Setting::ApiKeyHuggy => "API_KEY_HUGGY"@,
        Setting::ApiKeyGup => "API_KEY_GUP"@,
        Setting::ApiKeyHuggy2 => "API_KEY_HUGGY2"@,
        Setting::DbUrlLogs => "DB_URL_LOGS"@,
    }
}

/// The place of a setting in the order in which the settings are read.
pub open spec fn place(setting: Setting) -> int {
    match setting {
        Setting::DbUrl => 0,
        Setting::RabbitUrl => 1,
        Setting::ApiKeyHuggy => 2,
        Setting::ApiKeyGup => 3,
        Setting::ApiKeyHuggy2 => 4,
        Setting::DbUrlLogs => 5,
    }
}

impl Lookup {
    /// What was found for a setting.
    pub open spec fn found(&self, setting: Setting) -> Option<String> {
        match setting {
            Setting::DbUrl => self.db_url,
            Setting::RabbitUrl => self.rabbit_url,
            Setting::ApiKeyHuggy => self.api_key_huggy,
            Setting::ApiKeyGup => self.api_key_gup,
            Setting::ApiKeyHuggy2 => self.api_key_huggy2,
            Setting::DbUrlLogs => self.db_url_logs,
        }
    }

    /// Whether a setting is the first for which nothing was found.
    pub open spec fn first_missing(&self, setting: Setting) -> bool {
        &&& self.found(setting) is None
        &&& forall|earlier: Setting|
            place(earlier) < place(setting) ==> (#[trigger] self.found(earlier)) is Some
    }

    /// Whether something was found for every setting.
    pub open spec fn complete(&self) -> bool {
        forall|setting: Setting| (#[trigger] self.found(setting)) is Some
    }
}

impl EnvVars {
    /// The value of a setting.
    pub open spec fn value(&self, setting: Setting) -> String {
        match setting {
            Setting::DbUrl => self.db_url,
            Setting::RabbitUrl => self.rabbit_url,
            Setting::ApiKeyHuggy => self.api_key_huggy,
            Setting::ApiKeyGup => self.api_key_gup,
            Setting::ApiKeyHuggy2 => self.api_key_huggy2,
            Setting::DbUrlLogs => self.db_url_logs,
        }
    }
}

/// The name of the environment variable that holds a setting.
pub fn variable(setting: Setting) -> (name: &'static str)
    ensures
        name@ == name_of(setting),
{
    match setting {
        Setting::DbUrl => "DB_URL",
        Setting::RabbitUrl => "RABBIT_URL",
        Setting::ApiKeyHuggy => "API_KEY_HUGGY",
        Setting::ApiKeyGup => "API_KEY_GUP",
        Setting::ApiKeyHuggy2 => "API_KEY_HUGGY2",
        Setting::DbUrlLogs => "DB_URL_LOGS",
    }
}

/// Names the first setting for which nothing was found, if there is one.
pub fn first_missing_setting(lookup: &Lookup) -> (missing: Option<Setting>)
    ensures
        match missing {
            Some(setting) => lookup.first_missing(setting),
            None => lookup.complete(),
        },
{
    if lookup.db_url.is_none() {
        assert(lookup.found(Setting::DbUrl) is None);
        Some(Setting::DbUrl)
    } else if lookup.rabbit_url.is_none() {
        assert(lookup.found(Setting::RabbitUrl) is None);
        Some(Setting::RabbitUrl)
    } else if lookup.api_key_huggy.is_none() {
        assert(lookup.found(Setting::ApiKeyHuggy) is None);
        Some(Setting::ApiKeyHuggy)
    } else if lookup.api_key_gup.is_none() {
        assert(lookup.found(Setting::ApiKeyGup) is None);
        Some(Setting::ApiKeyGup)
    } else if lookup.api_key_huggy2.is_none() {
        assert(lookup.found(Setting::ApiKeyHuggy2) is None);
        Some(Setting::ApiKeyHuggy2)
    } else if lookup.db_url_logs.is_none() {
        assert(lookup.found(Setting::DbUrlLogs) is None);
        Some(Setting::DbUrlLogs)
    } else {
        assert forall|setting: Setting| (#[trigger] lookup.found(setting)) is Some by {
            match setting {
                Setting::DbUrl => {},
                Setting::RabbitUrl => {},
                Setting::ApiKeyHuggy => {},
                Setting::ApiKeyGup => {},
                Setting::ApiKeyHuggy2 => {},
                Setting::DbUrlLogs => {},
            }
        }
        None
    }
}

/// Puts the settings together from what was found for each. Every setting
/// is required: a lookup in which one is missing is no input of this
/// function, and whoever holds such a lookup stops there (see
/// [`first_missing_setting`]).
pub fn load(lookup: Lookup) -> (vars: EnvVars)
    requires
        lookup.complete(),
    ensures
        forall|setting: Setting| lookup.found(setting) == Some(#[trigger] vars.value(setting)),
        lookup.db_url == Some(vars.db_url),
        lookup.rabbit_url == Some(vars.rabbit_url),
        lookup.api_key_huggy == Some(vars.api_key_huggy),
        lookup.api_key_gup == Some(vars.api_key_gup),
        lookup.api_key_huggy2 == Some(vars.api_key_huggy2),
        lookup.db_url_logs == Some(vars.db_url_logs),
{
    proof {
        assert(lookup.found(Setting::DbUrl) is Some);
        assert(lookup.found(Setting::RabbitUrl) is Some);
        assert(lookup.found(Setting::ApiKeyHuggy) is Some);
        assert(lookup.found(Setting::ApiKeyGup) is Some);
        assert(lookup.found(Setting::ApiKeyHuggy2) is Some);
        assert(lookup.found(Setting::DbUrlLogs) is Some);
    }
    let Lookup { db_url, rabbit_url, api_key_huggy, api_key_gup, api_key_huggy2, db_url_logs } =
        lookup;
    EnvVars {
        db_url: db_url.unwrap(),
        rabbit_url: rabbit_url.unwrap(),
        api_key_huggy: api_key_huggy.unwrap(),
        api_key_gup: api_key_gup.unwrap(),
        api_key_huggy2: api_key_huggy2.unwrap(),
        db_url_logs: db_url_logs.unwrap(),
    }
}

} // verus!
