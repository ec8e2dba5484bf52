//! ping0.cc: risk value and native-IP mark read from the authenticated page
//! (the site guards it with a browser challenge, so a token is needed).

use vstd::prelude::*;
use crate::model::{IpType, SourceData, SourceDataV, SourceError, SourceErrorV, blank, opt_text, outcome};
use crate::sources::{HttpRequest, nonempty, secret};
use crate::text::{
    chars_of, digit_run, digits_upto, digit_prefix, find_seq, find_text, has_seq, has_text, lemma_find_seq_sound,
    non_digit_prefix, non_digit_run, occurs_at, owned, parse_digits_i64, push_text, all_digits,
};

verus! {

/// The page is a challenge (Cloudflare Turnstile or Aliyun captcha) rather
/// than the result.
pub open spec fn challenge(body: Seq<char>) -> bool {
    has_seq(body, "cf-turnstile"@) || has_seq(body, "captcha-element"@) || has_seq(body, "AliyunCaptchaConfig"@)
}

pub fn is_challenge(body: &str) -> (r: bool)
    ensures
        r == challenge(body@),
{
    let h = chars_of(body);
    has_text(h.as_slice(), "cf-turnstile") || has_text(h.as_slice(), "captcha-element")
        || has_text(h.as_slice(), "AliyunCaptchaConfig")
}

/// The first whole number after the first `label`, where it is 0 to 100:
/// non-digits are skipped, then the run of digits is read.
pub open spec fn risk_after(body: Seq<char>, label: Seq<char>) -> Option<i64> {
    match find_seq(body, label) {
        Some(i) => {
            let t = body.skip(i + label.len());
            let s = t.skip(non_digit_prefix(t) as int);
            match parse_digits_i64(s.take(digit_prefix(s) as int)) {
                Some(v) => if 0 <= v <= 100 { Some(v) } else { None },
                None => None,
            }
        },
        None => None,
    }
}

/// The risk value after `label` (see `risk_after`).
pub fn risk_after_label(body: &str, label: &str) -> (r: Option<i64>)
    ensures
        r == risk_after(body@, label@),
{
    let v = chars_of(body);
    let l = chars_of(label);
    let i = match find_text(v.as_slice(), label) {
        Some(i) => i,
        None => return None,
    };
    proof {
        lemma_find_seq_sound(v@, label@);
        assert(occurs_at(v@, label@, i as int));
        assert(l@ == label@);
        assert(i + l@.len() <= v@.len());
        assert(i + l.len() <= v.len());
    }
    let start = i + l.len();
    let ghost t = v@.skip(start as int);
    let n = non_digit_run(v.as_slice(), start);
    assert(start + n <= v.len());
    let ghost s = t.skip(non_digit_prefix(t) as int);
    assert(v@.skip(start + n) =~= s);
    let m = digit_run(v.as_slice(), start + n);
    assert(start + n + m <= v.len());
    let ghost d = s.take(digit_prefix(s) as int);
    assert(v@.subrange((start + n) as int, (start + n + m) as int) =~= d);
    if m == 0 {
        return None;
    }
    proof {
        crate::text::lemma_prefix_run_digit(s);
    }
    match digits_upto(v.as_slice(), start + n, start + n + m, 9223372036854775807u64) {
        Some(x) => {
            if x <= 100 {
                Some(x as i64)
            } else {
                None
            }
        },
        None => None,
    }
}

/// What a ping0 page means: the risk value after `风控值` and a native
/// address where the page says `原生 IP`; a page with neither is not
/// understood (the site may have changed).
pub open spec fn decode_page(body: Seq<char>) -> Result<SourceDataV, SourceErrorV> {
    let risk = risk_after(body, "风控值"@);
    let native = has_seq(body, "原生 IP"@);
    if risk is None && !native {
        Err(SourceErrorV::Parse("ping0 页面结构无法识别(可能改版)"@))
    } else {
        Ok(SourceDataV {
            risk_score: risk,
            ip_type: if native { Some(IpType::Native) } else { None },
            ..blank("ping0"@)
        })
    }
}

/// Reads a ping0 page (see `decode_page`).
pub fn parse(body: &str) -> (r: Result<SourceData, SourceError>)
    ensures
        outcome(r) == decode_page(body@),
{
    let mut d = SourceData::new("ping0");
    d.risk_score = risk_after_label(body, "风控值");
    let h = chars_of(body);
    if has_text(h.as_slice(), "原生 IP") {
        d.ip_type = Some(IpType::Native);
    }
    if d.risk_score.is_none() && d.ip_type.is_none() {
        return Err(SourceError::Parse(owned("ping0 页面结构无法识别(可能改版)")));
    }
    Ok(d)
}

/// The ping0 source: `base` is the site's origin, `token` the challenge
/// token copied from a browser (valid about a minute), `tokentype` its kind.
pub struct Ping0 {
    pub base: String,
    pub token: Option<String>,
    pub tokentype: String,
}

impl Default for Ping0 {
    /// The site's origin, no token, Cloudflare token kind.
    fn default() -> (r: Self)
        ensures
            r.base@ == "https://ping0.cc"@,
            r.token is None,
            r.tokentype@ == "cf"@,
    {
        Ping0 { base: owned("https://ping0.cc"), token: None, tokentype: owned("cf") }
    }
}

/// The error where no token is configured.
pub open spec fn no_token() -> SourceErrorV {
    SourceErrorV::NeedsKey("IPANO_PING0_TOKEN(浏览器解 Turnstile 后从 cookie 复制,60 秒内有效)"@)
}

impl Ping0 {
    /// The configured token (`IPANO_PING0_TOKEN`, an empty value counts as
    /// none) and token kind (`IPANO_PING0_TOKENTYPE`, `cf` where unset).
    pub fn configured(token: Option<String>, tokentype: Option<String>) -> (r: Self)
        ensures
            r.base@ == "https://ping0.cc"@,
            opt_text(r.token) == secret(opt_text(token)),
            r.tokentype@ == (match tokentype { Some(t) => t@, None => "cf"@ }),
    {
        let tt = match tokentype {
            Some(t) => t,
            None => owned("cf"),
        };
        Ping0 { base: owned("https://ping0.cc"), token: nonempty(token), tokentype: tt }
    }

    /// A non-empty token given on the command line replaces the configured one.
    pub fn with_token(self, token: Option<String>) -> (r: Self)
        ensures
            r.base == self.base,
            r.tokentype == self.tokentype,
            opt_text(r.token) == (match secret(opt_text(token)) { Some(t) => Some(t), None => opt_text(self.token) }),
    {
        match nonempty(token) {
            Some(t) => Ping0 { token: Some(t), ..self },
            None => self,
        }
    }

    /// The source's id in reports.
    pub fn id(&self) -> (r: &'static str)
        ensures
            r@ == "ping0"@,
    {
        "ping0"
    }

    /// The page request for `ip`, carrying the token as a cookie; without a
    /// token the source needs one.
    pub fn request(&self, ip: &str) -> (r: Result<HttpRequest, SourceError>)
        ensures
            self.token is None ==> (r matches Err(e) && e@ == no_token()),
            self.token matches Some(t) ==> (r matches Ok(q) && q.url@ == self.base@ + "/ip/"@ + ip@
                && q.headers@.map_values(|h: (String, String)| (h.0@, h.1@))
                    == seq![("Cookie"@, "token="@ + t@ + "; tokentype="@ + self.tokentype@)]),
    {
        let t = match &self.token {
            Some(t) => t,
            None => return Err(SourceError::NeedsKey(owned("IPANO_PING0_TOKEN(浏览器解 Turnstile 后从 cookie 复制,60 秒内有效)"))),
        };
        let mut u = self.base.clone();
        push_text(&mut u, "/ip/");
        push_text(&mut u, ip);
        let mut c = owned("token=");
        push_text(&mut c, t.as_str());
        push_text(&mut c, "; tokentype=");
        push_text(&mut c, self.tokentype.as_str());
        let hs: Vec<(String, String)> = vec![(owned("Cookie"), c)];
        let q = HttpRequest { url: u, headers: hs };
        assert(q.headers@.map_values(|h: (String, String)| (h.0@, h.1@))
            =~= seq![("Cookie"@, "token="@ + t@ + "; tokentype="@ + self.tokentype@)]);
        Ok(q)
    }

    /// Outcome of a page: a challenge page means the token failed; otherwise
    /// the page is read.
    pub fn interpret(&self, body: &str) -> (r: Result<SourceData, SourceError>)
        ensures
            challenge(body@) ==> outcome(r) == Err::<SourceDataV, SourceErrorV>(SourceErrorV::ChallengeFailed),
            !challenge(body@) ==> outcome(r) == decode_page(body@),
    {
        if is_challenge(body) {
            return Err(SourceError::ChallengeFailed);
        }
        parse(body)
    }
}

} // verus!
