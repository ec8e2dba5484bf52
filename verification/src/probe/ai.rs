//! AI-service probes (ChatGPT, Anthropic, Gemini).

use vstd::prelude::*;
use vstd::string::*;
use crate::probe::{ProbeResult, ProbeStatus};
use crate::probe::streaming::refused;
use crate::probe::unlock_util::{alpha2_of, between, between_spec, three_to_two, unicode_upper};
use crate::text::{owned, push_text};

verus! {

/// 200 = available in this region, 403/451 = region blocked, anything else unknown.
pub open spec fn status_verdict(status: u16) -> ProbeStatus {
    if status == 200 {
        ProbeStatus::Unlocked
    } else if refused(status) {
        ProbeStatus::Blocked
    } else {
        ProbeStatus::Unknown
    }
}

/// ChatGPT: the compliance endpoint answers 200 only where the service is offered.
pub fn classify_openai(status: u16) -> (s: ProbeStatus)
    ensures
        s == status_verdict(status),
{
    match status {
        200 => ProbeStatus::Unlocked,
        403 | 451 => ProbeStatus::Blocked,
        _ => ProbeStatus::Unknown,
    }
}

/// Anthropic's site: 200 counts as reachable, 403 or 451 as blocked by region,
/// anything else as unknown.
pub fn classify_anthropic(status: u16) -> (s: ProbeStatus)
    ensures
        s == status_verdict(status),
{
    match status {
        200 => ProbeStatus::Unlocked,
        403 | 451 => ProbeStatus::Blocked,
        _ => ProbeStatus::Unknown,
    }
}

/// Region of a Gemini page: the alpha-3 code after `,2,1,200,"`, as alpha-2.
pub open spec fn gemini_region(body: Seq<char>) -> Option<Seq<char>> {
    match between_spec(body, ",2,1,200,\""@, "\""@) {
        Some(c) => Some(alpha2_of(unicode_upper(c))),
        None => None,
    }
}

/// Gemini: 403/451 blocked; 200 unlocked with the region read from the page.
pub fn parse_gemini(status: u16, body: &str) -> (r: ProbeResult)
    ensures
        refused(status) ==> r.is_plain("Gemini"@, ProbeStatus::Blocked, None),
        status == 200 ==> r.is_plain("Gemini"@, ProbeStatus::Unlocked, gemini_region(body@)),
        !refused(status) && status != 200 ==> r.is_plain("Gemini"@, ProbeStatus::Unknown, None),
{
    if status == 403 || status == 451 {
        return ProbeResult::new("Gemini", ProbeStatus::Blocked, None);
    }
    if status == 200 {
        let region = match between(body, ",2,1,200,\"", "\"") {
            Some(c) => Some(three_to_two(c)),
            None => None,
        };
        return ProbeResult::new("Gemini", ProbeStatus::Unlocked, region);
    }
    ProbeResult::unknown("Gemini")
}

/// Probe for ChatGPT; `base` is the service's origin.
pub struct ChatGpt {
    pub base: String,
}

impl Default for ChatGpt {
    fn default() -> (r: Self)
        ensures
            r.base@ == "https://api.openai.com"@,
    {
        ChatGpt { base: owned("https://api.openai.com") }
    }
}

impl ChatGpt {
    /// Display name of the service.
    pub fn name(&self) -> (r: &'static str)
        ensures
            r@ == "ChatGPT"@,
    {
        "ChatGPT"
    }

    /// Address the probe requests.
    pub fn url(&self) -> (u: String)
        ensures
            u@ == self.base@ + "/compliance/cookie_settings"@,
    {
        let mut u = self.base.clone();
        push_text(&mut u, "/compliance/cookie_settings");
        u
    }
}

/// Probe for Anthropic's site; `base` is the site's origin.
pub struct Anthropic {
    pub base: String,
}

impl Default for Anthropic {
    fn default() -> (r: Self)
        ensures
            r.base@ == "https://www.anthropic.com"@,
    {
        Anthropic { base: owned("https://www.anthropic.com") }
    }
}

impl Anthropic {
    /// Display name of the service.
    pub fn name(&self) -> (r: &'static str)
        ensures
            r@ == "Anthropic"@,
    {
        "Anthropic"
    }

    /// Address the probe requests.
    pub fn url(&self) -> (u: String)
        ensures
            u@ == self.base@ + "/"@,
    {
        let mut u = self.base.clone();
        push_text(&mut u, "/");
        u
    }
}

/// Probe for Gemini; `base` is the service's origin.
pub struct Gemini {
    pub base: String,
}

impl Default for Gemini {
    fn default() -> (r: Self)
        ensures
            r.base@ == "https://gemini.google.com"@,
    {
        Gemini { base: owned("https://gemini.google.com") }
    }
}

impl Gemini {
    /// Display name of the service.
    pub fn name(&self) -> (r: &'static str)
        ensures
            r@ == "Gemini"@,
    {
        "Gemini"
    }

    /// Address the probe requests.
    pub fn url(&self) -> (u: String)
        ensures
            u@ == self.base@ + "/"@,
    {
        let mut u = self.base.clone();
        push_text(&mut u, "/");
        u
    }
}

} // verus!
