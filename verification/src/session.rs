//! Decisions of a run: effective settings (command line over configuration
//! file over built-in defaults), always-on and `--all` checks, the targets to
//! report on, and the speed-test selection.

use vstd::prelude::*;
use crate::cli::Args;
use crate::config::{AlwaysFlags, Config, SpeedtestCfg};
use crate::i18n::Lang;
use crate::probe::copy_opt;
use crate::text::{owned, push_text};

verus! {

/// Where the speed-test selection may come from.
#[derive(Debug, Clone, Copy, PartialEq, Eq, Structural)]
pub enum SpeedtestSpecSource {
    /// The command line, else the configuration file.
    CliOrConfig,
    /// The command line only (menu runs).
    CliOnly,
}

/// How a run ended.
#[derive(Debug, Clone, Copy, PartialEq, Eq, Structural)]
pub enum RunOutcome {
    Rendered,
    /// Stop the session (the speed-test catalog was listed).
    Stop,
}

/// Why no target could be chosen.
#[derive(Debug)]
pub enum TargetError {
    /// The given address is not an IP address.
    InvalidIp(String),
    /// No egress address could be detected.
    EgressUnavailable,
}

impl TargetError {
    /// Process exit status for the error.
    pub fn code(&self) -> (c: i32)
        ensures
            c == (match self { TargetError::InvalidIp(_) => 2i32, TargetError::EgressUnavailable => 1i32 }),
    {
        match self {
            TargetError::InvalidIp(_) => 2,
            TargetError::EgressUnavailable => 1,
        }
    }

    pub open spec fn message_text(&self, lang: Lang) -> Seq<char> {
        match self {
            TargetError::InvalidIp(s) => lang.text("无效 IP"@, "Invalid IP"@) + ": "@ + s@,
            TargetError::EgressUnavailable => lang.text("无法探测本机出口 IP"@, "Unable to detect local egress IP"@),
        }
    }

    /// The error in words.
    pub fn message(&self, lang: Lang) -> (m: String)
        ensures
            m@ == self.message_text(lang),
    {
        match self {
            TargetError::InvalidIp(s) => {
                let mut m = owned(lang.pick("无效 IP", "Invalid IP"));
                push_text(&mut m, ": ");
                push_text(&mut m, s.as_str());
                m
            },
            TargetError::EgressUnavailable => owned(lang.pick("无法探测本机出口 IP", "Unable to detect local egress IP")),
        }
    }
}

/// The effective settings of a run.
#[derive(Debug)]
pub struct Settings {
    pub lang: Lang,
    /// Per-source timeout in seconds.
    pub timeout: u64,
    pub no_color: bool,
    pub ping0_token: Option<String>,
}

/// `a` where present, else `b`.
pub open spec fn either<T>(a: Option<T>, b: Option<T>) -> Option<T> {
    if a is Some { a } else { b }
}

/// Settings from the command line, else the configuration file, else the
/// defaults (Chinese, 8 s); colours are off where either turns them off.
pub fn resolve_settings(args: &Args, cfg: &Config) -> (s: Settings)
    ensures
        s.lang == (match either(args.lang, cfg.lang) {
            Some(l) => if Lang::names_english(l@) { Lang::En } else { Lang::Zh },
            None => Lang::Zh,
        }),
        s.timeout == (match either(args.timeout, cfg.timeout) { Some(t) => t, None => 8u64 }),
        s.no_color == (args.no_color || cfg.no_color == Some(true)),
        s.ping0_token == either(args.ping0_token, cfg.ping0_token),
{
    let lang = match &args.lang {
        Some(l) => Lang::parse(l.as_str()),
        None => match &cfg.lang {
            Some(l) => Lang::parse(l.as_str()),
            None => Lang::Zh,
        },
    };
    let timeout = match args.timeout {
        Some(t) => t,
        None => match cfg.timeout {
            Some(t) => t,
            None => 8,
        },
    };
    let no_color = args.no_color || cfg.no_color == Some(true);
    let ping0_token = if args.ping0_token.is_some() { copy_opt(&args.ping0_token) } else { copy_opt(&cfg.ping0_token) };
    Settings { lang, timeout, no_color, ping0_token }
}

/// Turns on the checks the configuration file marks as always on; nothing
/// is turned off and no other option changes.
pub fn apply_config_always(args: &mut Args, always: Option<&AlwaysFlags>)
    ensures
        final(args).probe == (old(args).probe || (always matches Some(a) && a.probe == Some(true))),
        final(args).mail == (old(args).mail || (always matches Some(a) && a.mail == Some(true))),
        final(args).route == (old(args).route || (always matches Some(a) && a.route == Some(true))),
        final(args).dnsbl == (old(args).dnsbl || (always matches Some(a) && a.dnsbl == Some(true))),
        final(args).ip == old(args).ip,
        final(args).four == old(args).four,
        final(args).six == old(args).six,
        final(args).json == old(args).json,
        final(args).markdown == old(args).markdown,
        final(args).raw == old(args).raw,
        final(args).lang == old(args).lang,
        final(args).all == old(args).all,
        final(args).speedtest == old(args).speedtest,
        final(args).ping0_token == old(args).ping0_token,
        final(args).no_color == old(args).no_color,
        final(args).timeout == old(args).timeout,
        final(args).report == old(args).report,
{
    if let Some(always) = always {
        if always.probe == Some(true) {
            args.probe = true;
        }
        if always.mail == Some(true) {
            args.mail = true;
        }
        if always.route == Some(true) {
            args.route = true;
        }
        if always.dnsbl == Some(true) {
            args.dnsbl = true;
        }
    }
}

/// `--all` turns on the probes, mail, route and blocklist checks (not the
/// speed test); nothing else changes.
pub fn expand_all(args: &mut Args)
    ensures
        final(args).probe == (old(args).probe || old(args).all),
        final(args).mail == (old(args).mail || old(args).all),
        final(args).route == (old(args).route || old(args).all),
        final(args).dnsbl == (old(args).dnsbl || old(args).all),
        final(args).ip == old(args).ip,
        final(args).four == old(args).four,
        final(args).six == old(args).six,
        final(args).json == old(args).json,
        final(args).markdown == old(args).markdown,
        final(args).raw == old(args).raw,
        final(args).lang == old(args).lang,
        final(args).all == old(args).all,
        final(args).speedtest == old(args).speedtest,
        final(args).ping0_token == old(args).ping0_token,
        final(args).no_color == old(args).no_color,
        final(args).timeout == old(args).timeout,
        final(args).report == old(args).report,
{
    if args.all {
        args.probe = true;
        args.mail = true;
        args.route = true;
        args.dnsbl = true;
    }
}

/// The egress addresses to report on: IPv4 unless `six` (IPv6 only), then
/// IPv6 unless `four` (IPv4 only); an error where that leaves none.
pub open spec fn egress_choice<T>(v4: Option<T>, v6: Option<T>, four: bool, six: bool) -> Seq<T> {
    (if !six && v4 is Some { seq![v4->0] } else { Seq::empty() })
        + (if !four && v6 is Some { seq![v6->0] } else { Seq::empty() })
}

pub fn choose_targets<T: Copy>(v4: Option<T>, v6: Option<T>, four: bool, six: bool) -> (r: Result<Vec<T>, TargetError>)
    ensures
        match r {
            Ok(v) => v@ == egress_choice(v4, v6, four, six) && v@.len() > 0,
            Err(e) => e is EgressUnavailable && egress_choice(v4, v6, four, six).len() == 0,
        },
{
    let mut targets: Vec<T> = Vec::new();
    if !six {
        if let Some(ip) = v4 {
            targets.push(ip);
        }
    }
    if !four {
        if let Some(ip) = v6 {
            targets.push(ip);
        }
    }
    assert(targets@ =~= egress_choice(v4, v6, four, six));
    if targets.len() == 0 {
        Err(TargetError::EgressUnavailable)
    } else {
        Ok(targets)
    }
}

/// The speed-test selection: the command line's, else (where allowed) the
/// configuration file's.
pub fn speedtest_spec(cli: &Option<String>, cfg: Option<&SpeedtestCfg>, source: SpeedtestSpecSource) -> (r: Option<String>)
    ensures
        r == either(*cli, match (source, cfg) {
            (SpeedtestSpecSource::CliOrConfig, Some(c)) => c.spec,
            _ => None::<String>,
        }),
{
    if cli.is_some() {
        return copy_opt(cli);
    }
    match (source, cfg) {
        (SpeedtestSpecSource::CliOrConfig, Some(c)) => copy_opt(&c.spec),
        _ => None,
    }
}

/// Configuration turns checks on and never off: after the always-on flags
/// and `--all` are applied, every check the command line asked for is still
/// on.
pub proof fn lemma_flags_only_grow(before: Args, mid: Args, after: Args, always: Option<&AlwaysFlags>)
    requires
        mid.probe == (before.probe || (always matches Some(a) && a.probe == Some(true))),
        mid.mail == (before.mail || (always matches Some(a) && a.mail == Some(true))),
        mid.route == (before.route || (always matches Some(a) && a.route == Some(true))),
        mid.dnsbl == (before.dnsbl || (always matches Some(a) && a.dnsbl == Some(true))),
        mid.all == before.all,
        after.probe == (mid.probe || mid.all),
        after.mail == (mid.mail || mid.all),
        after.route == (mid.route || mid.all),
        after.dnsbl == (mid.dnsbl || mid.all),
    ensures
        before.probe ==> after.probe,
        before.mail ==> after.mail,
        before.route ==> after.route,
        before.dnsbl ==> after.dnsbl,
        before.all ==> (after.probe && after.mail && after.route && after.dnsbl),
{
}

} // verus!
