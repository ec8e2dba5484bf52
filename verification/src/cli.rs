//! Command-line options, as the program's argument parser fills them.

use vstd::prelude::*;
use crate::probe::copy_opt;

verus! {

/// The command-line options.
#[derive(Debug)]
pub struct Args {
    /// Address to look up; the local egress address when absent.
    pub ip: Option<String>,
    /// IPv4 only.
    pub four: bool,
    /// IPv6 only.
    pub six: bool,
    /// JSON output.
    pub json: bool,
    /// Markdown output.
    pub markdown: bool,
    /// Per-source raw table.
    pub raw: bool,
    /// Output language (`zh` or `en`).
    pub lang: Option<String>,
    /// Run every check but the speed test.
    pub all: bool,
    /// Unlock probes.
    pub probe: bool,
    /// Mail-port connectivity.
    pub mail: bool,
    /// Return routes.
    pub route: bool,
    /// DNS blocklists.
    pub dnsbl: bool,
    /// Speed-test selection (`Some("")` for the default selection).
    pub speedtest: Option<String>,
    /// Token for the ping0 source.
    pub ping0_token: Option<String>,
    /// No colours.
    pub no_color: bool,
    /// Per-source timeout in seconds.
    pub timeout: Option<u64>,
    /// Report only.
    pub report: bool,
}

impl Args {
    /// A field-by-field copy.
    pub fn copy(&self) -> (r: Args)
        ensures
            r == *self,
    {
        Args {
            ip: copy_opt(&self.ip),
            four: self.four,
            six: self.six,
            json: self.json,
            markdown: self.markdown,
            raw: self.raw,
            lang: copy_opt(&self.lang),
            all: self.all,
            probe: self.probe,
            mail: self.mail,
            route: self.route,
            dnsbl: self.dnsbl,
            speedtest: copy_opt(&self.speedtest),
            ping0_token: copy_opt(&self.ping0_token),
            no_color: self.no_color,
            timeout: self.timeout,
            report: self.report,
        }
    }
}

} // verus!
