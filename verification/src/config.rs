//! The fixed hosts and client name, as one value built at startup.

use vstd::prelude::*;

verus! {

/// Where the platform lives and how this client names itself.
#[derive(Clone, Debug, PartialEq, Eq)]
pub struct Config {
    /// Base URL of the REST API, without a trailing slash.
    pub api_url: String,
    /// Base URL of the web front end, without a trailing slash.
    pub web_url: String,
    /// Value of the identifying client-name header.
    pub user_agent: String,
}

/// Mathematical content of a [`Config`].
pub struct ConfigView {
    pub api_url: Seq<char>,
    pub web_url: Seq<char>,
    pub user_agent: Seq<char>,
}

impl View for Config {
    type V = ConfigView;

    open spec fn view(&self) -> ConfigView {
        ConfigView { api_url: self.api_url@, web_url: self.web_url@, user_agent: self.user_agent@ }
    }
}

/// The configuration of the public GitHub service.
pub open spec fn github_config() -> ConfigView {
    ConfigView {
        api_url: "https://api.github.com"@,
        web_url: "https://github.com"@,
        user_agent: "docker-runner"@,
    }
}

impl Config {
    /// A configuration from its three parts.
    pub fn new(api_url: String, web_url: String, user_agent: String) -> (config: Config)
        ensures
            config@ == (ConfigView {
                api_url: api_url@,
                web_url: web_url@,
                user_agent: user_agent@,
            }),
    {
        Config { api_url, web_url, user_agent }
    }

    /// The configuration of the public GitHub service.
    pub fn github() -> (config: Config)
        ensures
            config@ == github_config(),
    {
        Config {
            api_url: "https://api.github.com".to_owned(),
            web_url: "https://github.com".to_owned(),
            user_agent: "docker-runner".to_owned(),
        }
    }
}

} // verus!
