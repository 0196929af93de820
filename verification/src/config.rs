//! What a run is asked for, and the resources of the feed that it reads.

use vstd::prelude::*;
use vstd::string::StringExecFns;
use crate::text::{decimal, push_decimal};

verus! {

/// The ranked list that a run draws its stories from.
#[derive(Copy, Clone, Debug, PartialEq, Eq, Structural)]
pub enum SortMode {
    /// The newest stories.
    Latest,
    /// The stories that rank highest.
    Hottest,
}

/// What a run is asked for.
#[derive(Copy, Clone, Debug, PartialEq, Eq, Structural)]
pub struct Config {
    pub sort: SortMode,
    /// The most stories that the run will fetch.
    pub count: u64,
}

/// Why a configuration was turned down.
#[derive(Copy, Clone, Debug, PartialEq, Eq, Structural)]
pub enum ConfigError {
    /// A negative number of stories was asked for.
    NegativeCount,
}

/// What is said of a configuration that was turned down.
pub open spec fn config_message(error: ConfigError) -> Seq<char> {
    match error {
        ConfigError::NegativeCount => "the number of stories must not be negative"@,
    }
}

impl ConfigError {
    /// A line that says why the configuration was turned down.
    pub fn message(self) -> (message: String)
        ensures
            message@ == config_message(self),
    {
        match self {
            ConfigError::NegativeCount => String::from_str(
                "the number of stories must not be negative",
            ),
        }
    }
}

/// The number of stories that a run fetches when it is not told how many.
pub const DEFAULT_COUNT: u64 = 30;

/// The configuration that is made of what was given, with the defaults in
/// the place of what was not: the hottest stories, and thirty of them.
pub open spec fn resolved(sort: Option<SortMode>, count: Option<i64>) -> Result<
    Config,
    ConfigError,
> {
    let sort = match sort {
        Some(mode) => mode,
        None => SortMode::Hottest,
    };
    match count {
        Some(n) => if n < 0 {
            Err(ConfigError::NegativeCount)
        } else {
            Ok(Config { sort, count: n as u64 })
        },
        None => Ok(Config { sort, count: DEFAULT_COUNT }),
    }
}

impl Default for Config {
    fn default() -> (config: Config)
        ensures
            config == (Config { sort: SortMode::Hottest, count: DEFAULT_COUNT }),
    {
        Config { sort: SortMode::Hottest, count: DEFAULT_COUNT }
    }
}

impl Config {
    /// Makes a configuration of what was given. A negative count is turned
    /// down; everything else is taken as it is.
    pub fn resolve(sort: Option<SortMode>, count: Option<i64>) -> (r: Result<Config, ConfigError>)
        ensures
            r == resolved(sort, count),
    {
        let sort = match sort {
            Some(mode) => mode,
            None => SortMode::Hottest,
        };
        match count {
            Some(n) => {
                if n < 0 {
                    Err(ConfigError::NegativeCount)
                } else {
                    Ok(Config { sort, count: n as u64 })
                }
            },
            None => Ok(Config { sort, count: DEFAULT_COUNT }),
        }
    }
}

/// The name of the list resource of a sort mode.
pub open spec fn endpoint_name(sort: SortMode) -> Seq<char> {
    match sort {
        SortMode::Hottest => "topstories"@,
        SortMode::Latest => "newstories"@,
    }
}

/// The address under which all resources of the feed lie.
pub open spec fn base_address() -> Seq<char> {
    "https://hacker-news.firebaseio.com/v0/"@
}

/// The address of the list resource of a sort mode.
pub open spec fn list_address(sort: SortMode) -> Seq<char> {
    base_address() + endpoint_name(sort) + ".json"@
}

/// The address of the detail resource of a story.
pub open spec fn item_address(id: u32) -> Seq<char> {
    base_address() + "item/"@ + decimal(id as nat) + ".json"@
}

impl SortMode {
    /// The name of the list resource that holds the stories in this order.
    pub fn endpoint(self) -> (name: &'static str)
        ensures
            name@ == endpoint_name(self),
    {
        match self {
            SortMode::Hottest => "topstories",
            SortMode::Latest => "newstories",
        }
    }
}

/// The address to fetch the list of story identifiers from.
pub fn list_url(sort: SortMode) -> (url: String)
    ensures
        url@ == list_address(sort),
{
    let mut url = String::from_str("https://hacker-news.firebaseio.com/v0/");
    url.append(sort.endpoint());
    url.append(".json");
    url
}

/// The address to fetch the story `id` from.
pub fn item_url(id: u32) -> (url: String)
    ensures
        url@ == item_address(id),
{
    let mut url = String::from_str("https://hacker-news.firebaseio.com/v0/");
    url.append("item/");
    push_decimal(&mut url, id as u64);
    url.append(".json");
    url
}

/// With nothing given, the configuration is the default one: thirty of the
/// hottest stories.
pub proof fn law_defaults()
    ensures
        resolved(None, None) == Ok::<Config, ConfigError>(
            Config { sort: SortMode::Hottest, count: 30 },
        ),
{
}

/// What is given stands in the configuration as it was given, and what is
/// not given has its default, each apart from the other. A count is turned
/// down exactly when it is negative.
pub proof fn law_given_values_override(sort: Option<SortMode>, count: Option<i64>)
    ensures
        resolved(sort, count) is Err <==> (count matches Some(n) && n < 0),
        resolved(sort, count) matches Ok(config) ==> {
            &&& sort matches Some(mode) ==> config.sort == mode
            &&& sort is None ==> config.sort == SortMode::Hottest
            &&& count matches Some(n) ==> config.count == n
            &&& count is None ==> config.count == 30
        },
{
}

} // verus!
