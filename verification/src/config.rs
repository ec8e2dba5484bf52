//! The configuration file's contents (`~/.config/ipano/config.toml`).

use vstd::prelude::*;

verus! {

/// Settings from the configuration file; every entry is optional.
#[derive(Debug)]
pub struct Config {
    pub lang: Option<String>,
    pub timeout: Option<u64>,
    pub no_color: Option<bool>,
    pub ping0_token: Option<String>,
    pub always: Option<AlwaysFlags>,
    /// Speed-test settings: a default selection and extra nodes.
    pub speedtest: Option<SpeedtestCfg>,
}

/// Speed-test settings.
#[derive(Debug)]
pub struct SpeedtestCfg {
    pub spec: Option<String>,
    pub custom: Option<Vec<CustomNode>>,
}

/// A speed-test node outside the catalog.
#[derive(Debug)]
pub struct CustomNode {
    pub name: String,
    /// `telecom`, `unicom`, `mobile`, `edu`, `hk`, `us`, `jp` or `sg`.
    pub carrier: String,
    pub host: String,
}

/// Checks that always run.
#[derive(Debug)]
pub struct AlwaysFlags {
    pub probe: Option<bool>,
    pub mail: Option<bool>,
    pub route: Option<bool>,
    pub dnsbl: Option<bool>,
}

impl Default for Config {
    fn default() -> (c: Config)
        ensures
            c.lang is None,
            c.timeout is None,
            c.no_color is None,
            c.ping0_token is None,
            c.always is None,
            c.speedtest is None,
    {
        Config { lang: None, timeout: None, no_color: None, ping0_token: None, always: None, speedtest: None }
    }
}

impl Default for SpeedtestCfg {
    fn default() -> (c: SpeedtestCfg)
        ensures
            c.spec is None,
            c.custom is None,
    {
        SpeedtestCfg { spec: None, custom: None }
    }
}

impl Default for AlwaysFlags {
    fn default() -> (a: AlwaysFlags)
        ensures
            a.probe is None,
            a.mail is None,
            a.route is None,
            a.dnsbl is None,
    {
        AlwaysFlags { probe: None, mail: None, route: None, dnsbl: None }
    }
}

} // verus!
