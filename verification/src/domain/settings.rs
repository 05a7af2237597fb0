//! Settings of the service, as the surrounding program loaded them.

use vstd::prelude::*;

verus! {

/// Where the web server listens.
#[derive(Debug, Clone)]
pub struct WebConfig {
    pub addr: String,
}

impl WebConfig {
    /// The address used when none is configured.
    pub open spec fn default_addr() -> Seq<char> {
        "127.0.0.1:8030"@
    }
}

impl Default for WebConfig {
    fn default() -> (web: Self)
        ensures
            web.addr@ == WebConfig::default_addr(),
    {
        Self { addr: "127.0.0.1:8030".to_owned() }
    }
}

/// The settings of one running service.
#[derive(Debug, Clone)]
pub struct AppSettings {
    /// The names of the configured projects, in the order of the registry.
    pub project_names: Vec<String>,
    pub web: WebConfig,
    /// The directory that the settings were read from.
    pub root_dir: Option<String>,
}

impl Default for AppSettings {
    fn default() -> (cfg: Self)
        ensures
            cfg.project_names@.len() == 0,
            cfg.web.addr@ == WebConfig::default_addr(),
            cfg.root_dir is None,
    {
        Self { project_names: Vec::new(), web: WebConfig::default(), root_dir: None }
    }
}

impl AppSettings {
    /// The directory that settings are read from when none is given.
    pub open spec fn default_root() -> Seq<char> {
        "./config"@
    }

    /// The directory that `load_default_config` records.
    pub fn default_config_root() -> (root: &'static str)
        ensures
            root@ == AppSettings::default_root(),
    {
        "./config"
    }

    /// Finishes settings that were read from the default directory.
    pub fn load_default_config(loaded: AppSettings) -> (cfg: AppSettings)
        ensures
            cfg.project_names == loaded.project_names,
            cfg.web == loaded.web,
            cfg.root_dir matches Some(dir) && dir@ == AppSettings::default_root(),
    {
        Self::load_config(Self::default_config_root(), loaded)
    }

    /// Finishes settings that were read from the directory `root`: they
    /// keep what was read and record where it was read from.
    pub fn load_config(root: &str, loaded: AppSettings) -> (cfg: AppSettings)
        ensures
            cfg.project_names == loaded.project_names,
            cfg.web == loaded.web,
            cfg.root_dir matches Some(dir) && dir@ == root@,
    {
        AppSettings {
            project_names: loaded.project_names,
            web: loaded.web,
            root_dir: Some(root.to_owned()),
        }
    }
}

} // verus!
