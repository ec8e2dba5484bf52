//! DNS blocklists: the lists checked, the query name of an address in a
//! list, what counts as a listing, and the Markdown section of the results.

use vstd::prelude::*;
use crate::i18n::Lang;
use crate::net::{IpAddr, Ipv4Addr, dotted};
use crate::text::{dec_text, owned, push_text, uint_text};
use crate::render::table::{
    add_row, boxed_table, boxed_table_text, cells_view, plain_rows, green_bold_spec, green_bold_text, red_bold_spec, red_bold_text,
    row_view, texts, CellText, TableColor,
};

verus! {

/// The IP mail/abuse blocklists checked (lists of domains excluded).
pub open spec fn lists_spec() -> Seq<Seq<char>> {
    seq![
        "0spam-n.fusionzero.com"@,
        "0spam.fusionzero.com"@,
        "0spamurl.fusionzero.com"@,
        "access.redhawk.org"@,
        "all.s5h.net"@,
        "all.spamrats.com"@,
        "aspews.ext.sorbs.net"@,
        "auth.spamrats.com"@,
        "b.barracudacentral.org"@,
        "backscatter.spameatingmonkey.net"@,
        "bad.virusfree.cz"@,
        "bb.barracudacentral.org"@,
        "bip.virusfree.cz"@,
        "bl-h1.rbl.polspam.pl"@,
        "bl-h2.rbl.polspam.pl"@,
        "bl-h3.rbl.polspam.pl"@,
        "bl-h4.rbl.polspam.pl"@,
        "bl.0spam.org"@,
        "bl.blocklist.de"@,
        "bl.drmx.org"@,
        "bl.fmb.la"@,
        "bl.ipv6.spameatingmonkey.net"@,
        "bl.konstant.no"@,
        "bl.mailspike.net"@,
        "bl.mav.com.br"@,
        "bl.nordspam.com"@,
        "bl.nosolicitado.org"@,
        "bl.nszones.com"@,
        "bl.octopusdns.com"@,
        "bl.rbl.polspam.pl"@,
        "bl.rbl.scrolloutf1.com"@,
        "bl.scientificspam.net"@,
        "bl.score.senderscore.com"@,
        "bl.spamcop.net"@,
        "bl.spameatingmonkey.net"@,
        "bl.suomispam.net"@,
        "bl.worst.nosolicitado.org"@,
        "bl6.rbl.polspam.pl"@,
        "black.dnsbl.brukalai.lt"@,
        "black.junkemailfilter.com"@,
        "black.mail.abusix.zone"@,
        "blackholes.mail-abuse.org"@,
        "blacklist.netcore.co.in"@,
        "blacklist.sci.kun.nl"@,
        "blacklist.woody.ch"@,
        "block.ascams.com"@,
        "block.dnsbl.sorbs.net"@,
        "bogons.cymru.com"@,
        "bsb.spamlookup.net"@,
        "cart00ney.surriel.com"@,
        "cbl.abuseat.org"@,
        "cbl.anti-spam.org.cn"@,
        "cdl.anti-spam.org.cn"@,
        "cidr.bl.mcafee.com"@,
        "cnkr.rbl.polspam.pl"@,
        "combined.rbl.msrbl.net"@,
        "db.wpbl.info"@,
        "dnsbl-0.uceprotect.net"@,
        "dnsbl-1.uceprotect.net"@,
        "dnsbl-2.uceprotect.net"@,
        "dnsbl-3.uceprotect.net"@,
        "dnsbl.anticaptcha.net"@,
        "dnsbl.ascams.com"@,
        "dnsbl.beetjevreemd.nl"@,
        "dnsbl.calivent.com.pe"@,
        "dnsbl.cobion.com"@,
        "dnsbl.darklist.de"@,
        "dnsbl.dronebl.org"@,
        "dnsbl.inps.de"@,
        "dnsbl.isx.fr"@,
        "dnsbl.justspam.org"@,
        "dnsbl.kempt.net"@,
        "dnsbl.madavi.de"@,
        "dnsbl.net.ua"@,
        "dnsbl.rv-soft.info"@,
        "dnsbl.rymsho.ru"@,
        "dnsbl.sorbs.net"@,
        "dnsbl.spfbl.net"@,
        "dnsbl.tornevall.org"@,
        "dnsbl.zapbl.net"@,
        "dnsbl6.anticaptcha.net"@,
        "dnsblchile.org"@,
        "dnsrbl.swinog.ch"@,
        "drone.abuse.ch"@,
        "dsn.rfc-ignorant.org"@,
        "dul.dnsbl.sorbs.net"@,
        "dyn.nszones.com"@,
        "dyn.rbl.polspam.pl"@,
        "dyna.spamrats.com"@,
        "escalations.dnsbl.sorbs.net"@,
        "exploit.mail.abusix.zone"@,
        "fnrbl.fast.net"@,
        "forbidden.icm.edu.pl"@,
        "free.v4bl.org"@,
        "gl.suomispam.net"@,
        "hil.habeas.com"@,
        "hostkarma.junkemailfilter.com"@,
        "http.dnsbl.sorbs.net"@,
        "httpbl.abuse.ch"@,
        "images.rbl.msrbl.net"@,
        "ip.v4bl.org"@,
        "ip4.bl.zenrbl.pl"@,
        "iprbl.mailcleaner.net"@,
        "ips.backscatterer.org"@,
        "ipv6.blacklist.woody.ch"@,
        "ix.dnsbl.manitu.net"@,
        "korea.services.net"@,
        "l1.bbfh.ext.sorbs.net"@,
        "l2.bbfh.ext.sorbs.net"@,
        "l3.bbfh.ext.sorbs.net"@,
        "l4.bbfh.ext.sorbs.net"@,
        "lblip4.rbl.polspam.pl"@,
        "lblip6.rbl.polspam.pl"@,
        "light.dnsbl.brukalai.lt"@,
        "list.bbfh.org"@,
        "list.blogspambl.com"@,
        "mail-abuse.blacklist.jippg.org"@,
        "misc.dnsbl.sorbs.net"@,
        "nbl.0spam.org"@,
        "netbl.spameatingmonkey.net"@,
        "netblock.pedantic.org"@,
        "netblockbl.spamgrouper.to"@,
        "netscan.rbl.blockedservers.com"@,
        "new.spam.dnsbl.sorbs.net"@,
        "niprbl.mailcleaner.net"@,
        "noptr.spamrats.com"@,
        "nsbl.fmb.la"@,
        "old.spam.dnsbl.sorbs.net"@,
        "openproxy.bls.digibase.ca"@,
        "opm.tornevall.org"@,
        "orvedb.aupads.org"@,
        "pbl.spamhaus.org"@,
        "phishing.rbl.msrbl.net"@,
        "pofon.foobar.hu"@,
        "problems.dnsbl.sorbs.net"@,
        "proxies.dnsbl.sorbs.net"@,
        "proxyabuse.bls.digibase.ca"@,
        "psbl.surriel.com"@,
        "rbl-plus.mail-abuse.org"@,
        "rbl.0spam.org"@,
        "rbl.abuse.ro"@,
        "rbl.blockedservers.com"@,
        "rbl.dns-servicios.com"@,
        "rbl.efnet.org"@,
        "rbl.efnetrbl.org"@,
        "rbl.fasthosts.co.uk"@,
        "rbl.interserver.net"@,
        "rbl.iprange.net"@,
        "rbl.ircbl.org"@,
        "rbl.lugh.ch"@,
        "rbl.metunet.com"@,
        "rbl.rbldns.ru"@,
        "rbl.realtimeblacklist.com"@,
        "rbl.schulte.org"@,
        "rbl.spamlab.com"@,
        "rbl.suresupport.com"@,
        "rbl2.triumf.ca"@,
        "rblip4.rbl.polspam.pl"@,
        "rblip6.rbl.polspam.pl"@,
        "recent.spam.dnsbl.sorbs.net"@,
        "relays.bl.kundenserver.de"@,
        "relays.dnsbl.sorbs.net"@,
        "relays.mail-abuse.org"@,
        "relays.nether.net"@,
        "rep.mailspike.net"@,
        "rsbl.aupads.org"@,
        "safe.dnsbl.sorbs.net"@,
        "sbl-xbl.spamhaus.org"@,
        "sbl.nszones.com"@,
        "sbl.spamdown.org"@,
        "sbl.spamhaus.org"@,
        "short.fmb.la"@,
        "short.rbl.jp"@,
        "singular.ttk.pte.hu"@,
        "smtp.dnsbl.sorbs.net"@,
        "socks.dnsbl.sorbs.net"@,
        "spam.dnsbl.anonmails.de"@,
        "spam.dnsbl.sorbs.net"@,
        "spam.pedantic.org"@,
        "spam.rbl.blockedservers.com"@,
        "spam.rbl.msrbl.net"@,
        "spam.spamrats.com"@,
        "spambot.bls.digibase.ca"@,
        "spamguard.leadmon.net"@,
        "spamlist.or.kr"@,
        "spamrbl.imp.ch"@,
        "spamsources.fabel.dk"@,
        "st.technovision.dk"@,
        "superblock.ascams.com"@,
        "tor.dan.me.uk"@,
        "tor.efnet.org"@,
        "torexit.dan.me.uk"@,
        "truncate.gbudb.net"@,
        "ubl.unsubscore.com"@,
        "unsure.nether.net"@,
        "v4.fullbogons.cymru.com"@,
        "v6.fullbogons.cymru.com"@,
        "virbl.bit.nl"@,
        "virus.rbl.jp"@,
        "virus.rbl.msrbl.net"@,
        "vote.drbl.caravan.ru"@,
        "vote.drbl.gremlin.ru"@,
        "web.dnsbl.sorbs.net"@,
        "web.rbl.msrbl.net"@,
        "work.drbl.caravan.ru"@,
        "work.drbl.gremlin.ru"@,
        "wormrbl.imp.ch"@,
        "xbl.spamhaus.org"@,
        "z.mailspike.net"@,
        "zen.spamhaus.org"@,
        "zombie.dnsbl.sorbs.net"@
    ]
}

/// The blocklists checked, in order.
pub fn lists() -> (r: Vec<&'static str>)
    ensures
        r@.map_values(|s: &str| s@) == lists_spec(),
        r@.len() == 211,
{
    let r: Vec<&'static str> = vec![
        "0spam-n.fusionzero.com",
        "0spam.fusionzero.com",
        "0spamurl.fusionzero.com",
        "access.redhawk.org",
        "all.s5h.net",
        "all.spamrats.com",
        "aspews.ext.sorbs.net",
        "auth.spamrats.com",
        "b.barracudacentral.org",
        "backscatter.spameatingmonkey.net",
        "bad.virusfree.cz",
        "bb.barracudacentral.org",
        "bip.virusfree.cz",
        "bl-h1.rbl.polspam.pl",
        "bl-h2.rbl.polspam.pl",
        "bl-h3.rbl.polspam.pl",
        "bl-h4.rbl.polspam.pl",
        "bl.0spam.org",
        "bl.blocklist.de",
        "bl.drmx.org",
        "bl.fmb.la",
        "bl.ipv6.spameatingmonkey.net",
        "bl.konstant.no",
        "bl.mailspike.net",
        "bl.mav.com.br",
        "bl.nordspam.com",
        "bl.nosolicitado.org",
        "bl.nszones.com",
        "bl.octopusdns.com",
        "bl.rbl.polspam.pl",
        "bl.rbl.scrolloutf1.com",
        "bl.scientificspam.net",
        "bl.score.senderscore.com",
        "bl.spamcop.net",
        "bl.spameatingmonkey.net",
        "bl.suomispam.net",
        "bl.worst.nosolicitado.org",
        "bl6.rbl.polspam.pl",
        "black.dnsbl.brukalai.lt",
        "black.junkemailfilter.com",
        "black.mail.abusix.zone",
        "blackholes.mail-abuse.org",
        "blacklist.netcore.co.in",
        "blacklist.sci.kun.nl",
        "blacklist.woody.ch",
        "block.ascams.com",
        "block.dnsbl.sorbs.net",
        "bogons.cymru.com",
        "bsb.spamlookup.net",
        "cart00ney.surriel.com",
        "cbl.abuseat.org",
        "cbl.anti-spam.org.cn",
        "cdl.anti-spam.org.cn",
        "cidr.bl.mcafee.com",
        "cnkr.rbl.polspam.pl",
        "combined.rbl.msrbl.net",
        "db.wpbl.info",
        "dnsbl-0.uceprotect.net",
        "dnsbl-1.uceprotect.net",
        "dnsbl-2.uceprotect.net",
        "dnsbl-3.uceprotect.net",
        "dnsbl.anticaptcha.net",
        "dnsbl.ascams.com",
        "dnsbl.beetjevreemd.nl",
        "dnsbl.calivent.com.pe",
        "dnsbl.cobion.com",
        "dnsbl.darklist.de",
        "dnsbl.dronebl.org",
        "dnsbl.inps.de",
        "dnsbl.isx.fr",
        "dnsbl.justspam.org",
        "dnsbl.kempt.net",
        "dnsbl.madavi.de",
        "dnsbl.net.ua",
        "dnsbl.rv-soft.info",
        "dnsbl.rymsho.ru",
        "dnsbl.sorbs.net",
        "dnsbl.spfbl.net",
        "dnsbl.tornevall.org",
        "dnsbl.zapbl.net",
        "dnsbl6.anticaptcha.net",
        "dnsblchile.org",
        "dnsrbl.swinog.ch",
        "drone.abuse.ch",
        "dsn.rfc-ignorant.org",
        "dul.dnsbl.sorbs.net",
        "dyn.nszones.com",
        "dyn.rbl.polspam.pl",
        "dyna.spamrats.com",
        "escalations.dnsbl.sorbs.net",
        "exploit.mail.abusix.zone",
        "fnrbl.fast.net",
        "forbidden.icm.edu.pl",
        "free.v4bl.org",
        "gl.suomispam.net",
        "hil.habeas.com",
        "hostkarma.junkemailfilter.com",
        "http.dnsbl.sorbs.net",
        "httpbl.abuse.ch",
        "images.rbl.msrbl.net",
        "ip.v4bl.org",
        "ip4.bl.zenrbl.pl",
        "iprbl.mailcleaner.net",
        "ips.backscatterer.org",
        "ipv6.blacklist.woody.ch",
        "ix.dnsbl.manitu.net",
        "korea.services.net",
        "l1.bbfh.ext.sorbs.net",
        "l2.bbfh.ext.sorbs.net",
        "l3.bbfh.ext.sorbs.net",
        "l4.bbfh.ext.sorbs.net",
        "lblip4.rbl.polspam.pl",
        "lblip6.rbl.polspam.pl",
        "light.dnsbl.brukalai.lt",
        "list.bbfh.org",
        "list.blogspambl.com",
        "mail-abuse.blacklist.jippg.org",
        "misc.dnsbl.sorbs.net",
        "nbl.0spam.org",
        "netbl.spameatingmonkey.net",
        "netblock.pedantic.org",
        "netblockbl.spamgrouper.to",
        "netscan.rbl.blockedservers.com",
        "new.spam.dnsbl.sorbs.net",
        "niprbl.mailcleaner.net",
        "noptr.spamrats.com",
        "nsbl.fmb.la",
        "old.spam.dnsbl.sorbs.net",
        "openproxy.bls.digibase.ca",
        "opm.tornevall.org",
        "orvedb.aupads.org",
        "pbl.spamhaus.org",
        "phishing.rbl.msrbl.net",
        "pofon.foobar.hu",
        "problems.dnsbl.sorbs.net",
        "proxies.dnsbl.sorbs.net",
        "proxyabuse.bls.digibase.ca",
        "psbl.surriel.com",
        "rbl-plus.mail-abuse.org",
        "rbl.0spam.org",
        "rbl.abuse.ro",
        "rbl.blockedservers.com",
        "rbl.dns-servicios.com",
        "rbl.efnet.org",
        "rbl.efnetrbl.org",
        "rbl.fasthosts.co.uk",
        "rbl.interserver.net",
        "rbl.iprange.net",
        "rbl.ircbl.org",
        "rbl.lugh.ch",
        "rbl.metunet.com",
        "rbl.rbldns.ru",
        "rbl.realtimeblacklist.com",
        "rbl.schulte.org",
        "rbl.spamlab.com",
        "rbl.suresupport.com",
        "rbl2.triumf.ca",
        "rblip4.rbl.polspam.pl",
        "rblip6.rbl.polspam.pl",
        "recent.spam.dnsbl.sorbs.net",
        "relays.bl.kundenserver.de",
        "relays.dnsbl.sorbs.net",
        "relays.mail-abuse.org",
        "relays.nether.net",
        "rep.mailspike.net",
        "rsbl.aupads.org",
        "safe.dnsbl.sorbs.net",
        "sbl-xbl.spamhaus.org",
        "sbl.nszones.com",
        "sbl.spamdown.org",
        "sbl.spamhaus.org",
        "short.fmb.la",
        "short.rbl.jp",
        "singular.ttk.pte.hu",
        "smtp.dnsbl.sorbs.net",
        "socks.dnsbl.sorbs.net",
        "spam.dnsbl.anonmails.de",
        "spam.dnsbl.sorbs.net",
        "spam.pedantic.org",
        "spam.rbl.blockedservers.com",
        "spam.rbl.msrbl.net",
        "spam.spamrats.com",
        "spambot.bls.digibase.ca",
        "spamguard.leadmon.net",
        "spamlist.or.kr",
        "spamrbl.imp.ch",
        "spamsources.fabel.dk",
        "st.technovision.dk",
        "superblock.ascams.com",
        "tor.dan.me.uk",
        "tor.efnet.org",
        "torexit.dan.me.uk",
        "truncate.gbudb.net",
        "ubl.unsubscore.com",
        "unsure.nether.net",
        "v4.fullbogons.cymru.com",
        "v6.fullbogons.cymru.com",
        "virbl.bit.nl",
        "virus.rbl.jp",
        "virus.rbl.msrbl.net",
        "vote.drbl.caravan.ru",
        "vote.drbl.gremlin.ru",
        "web.dnsbl.sorbs.net",
        "web.rbl.msrbl.net",
        "work.drbl.caravan.ru",
        "work.drbl.gremlin.ru",
        "wormrbl.imp.ch",
        "xbl.spamhaus.org",
        "z.mailspike.net",
        "zen.spamhaus.org",
        "zombie.dnsbl.sorbs.net"
    ];
    assert(r@.map_values(|s: &str| s@) =~= lists_spec());
    r
}

/// The result for one list.
#[derive(Debug)]
pub struct DnsblResult {
    pub list: String,
    pub listed: bool,
}

/// The address with its bytes reversed, as blocklists are queried
/// (`1.2.3.4` → `"4.3.2.1"`).
pub fn reverse_ipv4(ip: Ipv4Addr) -> (r: String)
    ensures
        r@ == dotted(ip.d, ip.c, ip.b, ip.a),
{
    Ipv4Addr::new(ip.d, ip.c, ip.b, ip.a).to_text()
}

/// The name to resolve for a reversed address in a list.
pub fn query_host(reversed: &str, list: &str) -> (r: String)
    ensures
        r@ == reversed@ + "."@ + list@ + ":0"@,
{
    let mut r = owned(reversed);
    push_text(&mut r, ".");
    push_text(&mut r, list);
    push_text(&mut r, ":0");
    r
}

/// A listing is an answer in `127.0.0.0/8`, the blocklist convention; other
/// answers (such as a resolver's redirect page for unknown names) and IPv6
/// answers are no listing.
pub open spec fn listing(addr: IpAddr) -> bool {
    addr matches IpAddr::V4(v) && v.a == 127
}

pub fn is_listed_addr(addr: &IpAddr) -> (r: bool)
    ensures
        r == listing(*addr),
{
    match addr {
        IpAddr::V4(v) => v.a == 127,
        IpAddr::V6(_) => false,
    }
}

/// Whether any answer is a listing.
pub fn any_listed(addrs: &[IpAddr]) -> (r: bool)
    ensures
        r == exists|i: int| 0 <= i < addrs@.len() && listing(#[trigger] addrs@[i]),
{
    let mut i: usize = 0;
    while i < addrs.len()
        invariant
            i <= addrs@.len(),
            forall|j: int| 0 <= j < i ==> !listing(#[trigger] addrs@[j]),
        decreases addrs.len() - i,
    {
        if is_listed_addr(&addrs[i]) {
            return true;
        }
        i += 1;
    }
    false
}

/// Number of results that are listings.
pub open spec fn listed_count(rs: Seq<DnsblResult>) -> nat
    decreases rs.len(),
{
    if rs.len() == 0 { 0 } else { listed_count(rs.drop_last()) + (if rs.last().listed { 1nat } else { 0nat }) }
}

pub open spec fn status_text(listed: bool, lang: Lang) -> Seq<char> {
    if listed { lang.text("✗ 命中"@, "✗ Listed"@) } else { lang.text("✓ 清白"@, "✓ Clean"@) }
}

pub open spec fn result_rows(rs: Seq<DnsblResult>, lang: Lang) -> Seq<char>
    decreases rs.len(),
{
    if rs.len() == 0 {
        Seq::empty()
    } else {
        result_rows(rs.drop_last(), lang) + "| "@ + rs.last().list@ + " | "@ + status_text(rs.last().listed, lang) + " |\n"@
    }
}

#[verifier::opaque]
pub open spec fn section_head(rs: Seq<DnsblResult>, ip: Seq<char>, lang: Lang) -> Seq<char> {
    "## "@ + lang.text("DNSBL 黑名单检测"@, "DNSBL reputation check"@) + " "@ + ip + "\n"@ + "\n"@
        + lang.text("命中列表数"@, "Listed"@) + ": "@ + dec_text(listed_count(rs)) + "/"@ + dec_text(rs.len()) + "\n"@ + "\n"@
        + "| "@ + lang.text("黑名单"@, "Blocklist"@) + " | "@ + lang.text("状态"@, "Status"@) + " |\n"@
        + "|---|---|\n"@
}

/// The Markdown section: title with the address, how many lists of all list
/// it, and one row per list.
pub open spec fn dnsbl_section(rs: Seq<DnsblResult>, ip: Seq<char>, lang: Lang) -> Seq<char> {
    section_head(rs, ip, lang) + result_rows(rs, lang)
}

proof fn lemma_count_bound(rs: Seq<DnsblResult>)
    ensures
        listed_count(rs) <= rs.len(),
    decreases rs.len(),
{
    if rs.len() > 0 {
        lemma_count_bound(rs.drop_last());
    }
}

fn count_listed(results: &[DnsblResult]) -> (n: usize)
    ensures
        n == listed_count(results@),
{
    let mut n: usize = 0;
    let mut i: usize = 0;
    while i < results.len()
        invariant
            i <= results@.len(),
            n == listed_count(results@.take(i as int)),
        decreases results.len() - i,
    {
        assert(results@.take(i + 1).drop_last() =~= results@.take(i as int));
        proof {
            lemma_count_bound(results@.take(i as int));
        }
        if results[i].listed {
            n += 1;
        }
        i += 1;
    }
    assert(results@.take(results@.len() as int) =~= results@);
    n
}

fn push_head(out: &mut String, results: &[DnsblResult], ip: &str, lang: Lang)
    ensures
        final(out)@ == old(out)@ + section_head(results@, ip@, lang),
{
    reveal(section_head);
    let ghost start = out@;
    let listed = count_listed(results);
    push_text(out, "## ");
    push_text(out, lang.pick("DNSBL 黑名单检测", "DNSBL reputation check"));
    push_text(out, " ");
    push_text(out, ip);
    push_text(out, "\n");
    push_text(out, "\n");
    push_text(out, lang.pick("命中列表数", "Listed"));
    push_text(out, ": ");
    let a = uint_text(listed as u64);
    push_text(out, a.as_str());
    push_text(out, "/");
    let b = uint_text(results.len() as u64);
    push_text(out, b.as_str());
    push_text(out, "\n");
    push_text(out, "\n");
    push_text(out, "| ");
    push_text(out, lang.pick("黑名单", "Blocklist"));
    push_text(out, " | ");
    push_text(out, lang.pick("状态", "Status"));
    push_text(out, " |\n");
    push_text(out, "|---|---|\n");
    assert(out@ =~= start + section_head(results@, ip@, lang));
}

/// The results as a Markdown section (see `dnsbl_section`).
pub fn render_section(results: &[DnsblResult], ip: &str, lang: Lang) -> (out: String)
    ensures
        out@ == dnsbl_section(results@, ip@, lang),
{
    let mut out = String::new();
    push_head(&mut out, results, ip, lang);
    let ghost head = out@;
    let mut i: usize = 0;
    while i < results.len()
        invariant
            i <= results@.len(),
            out@ == head + result_rows(results@.take(i as int), lang),
        decreases results.len() - i,
    {
        assert(results@.take(i + 1).drop_last() =~= results@.take(i as int));
        let ghost before = out@;
        let r = &results[i];
        push_text(&mut out, "| ");
        push_text(&mut out, r.list.as_str());
        push_text(&mut out, " | ");
        if r.listed {
            push_text(&mut out, lang.pick("✗ 命中", "✗ Listed"));
        } else {
            push_text(&mut out, lang.pick("✓ 清白", "✓ Clean"));
        }
        push_text(&mut out, " |\n");
        assert(out@ =~= before + "| "@ + r.list@ + " | "@ + status_text(r.listed, lang) + " |\n"@);
        i += 1;
    }
    assert(results@.take(results@.len() as int) =~= results@);
    out
}

/// One blocklist row: the list, and the status coloured red where listed
/// and green where clean, unless colours are off.
pub open spec fn dnsbl_cells(r: DnsblResult, lang: Lang, no_color: bool) -> Seq<(Seq<char>, Option<TableColor>)> {
    seq![
        (r.list@, None::<TableColor>),
        (status_text(r.listed, lang), if no_color { None } else if r.listed { Some(TableColor::Red) } else { Some(TableColor::Green) })
    ]
}

/// The summary `listed/total`, bold red where any list has the address and
/// bold green otherwise, unless colours are off.
pub open spec fn summary_text(rs: Seq<DnsblResult>, lang: Lang, no_color: bool) -> Seq<char> {
    let s = lang.text("命中列表数"@, "Listed in"@) + ": "@ + dec_text(listed_count(rs)) + "/"@ + dec_text(rs.len());
    if no_color { s } else if listed_count(rs) > 0 { red_bold_spec(s) } else { green_bold_spec(s) }
}

/// The terminal section: title with the address, the summary, and the
/// boxed table of lists.
pub open spec fn dnsbl_terminal_text(rs: Seq<DnsblResult>, ip: Seq<char>, lang: Lang, no_color: bool, codes: bool) -> Seq<char> {
    "═══ "@ + lang.text("DNSBL 黑名单检测"@, "DNSBL reputation check"@) + " "@ + ip + " ═══\n"@
        + summary_text(rs, lang, no_color) + "\n"@
        + boxed_table_text(seq![lang.text("黑名单"@, "Blocklist"@), lang.text("状态"@, "Status"@)],
            rs.map_values(|r: DnsblResult| dnsbl_cells(r, lang, no_color)), codes) + "\n"@
}

/// With colours off no cell of the blocklist table is coloured.
proof fn lemma_dnsbl_rows_plain(rs: Seq<DnsblResult>, lang: Lang)
    ensures
        plain_rows(rs.map_values(|r: DnsblResult| dnsbl_cells(r, lang, true))),
{
    let b = rs.map_values(|r: DnsblResult| dnsbl_cells(r, lang, true));
    assert forall|i: int, j: int| 0 <= i < b.len() && 0 <= j < b[i].len() implies (#[trigger] b[i][j]).1 is None by {
        assert(b[i] == dnsbl_cells(rs[i], lang, true));
    }
}

fn dnsbl_row(r: &DnsblResult, lang: Lang, no_color: bool) -> (row: Vec<CellText>)
    ensures
        row_view(row) == dnsbl_cells(*r, lang, no_color),
{
    let label = if r.listed { lang.pick("✗ 命中", "✗ Listed") } else { lang.pick("✓ 清白", "✓ Clean") };
    let color = if no_color { None } else if r.listed { Some(TableColor::Red) } else { Some(TableColor::Green) };
    let row: Vec<CellText> = vec![(r.list.clone(), None), (owned(label), color)];
    assert(row_view(row) =~= dnsbl_cells(*r, lang, no_color));
    row
}

/// The terminal section (see `dnsbl_terminal_text`): with or without the
/// table's colour codes, and without them where colours are off.
pub fn render_terminal(results: &[DnsblResult], ip: &str, lang: Lang, no_color: bool) -> (out: String)
    ensures
        out@ == dnsbl_terminal_text(results@, ip@, lang, no_color, true)
            || out@ == dnsbl_terminal_text(results@, ip@, lang, no_color, false),
        no_color ==> out@ == dnsbl_terminal_text(results@, ip@, lang, no_color, false),
{
    let mut out = owned("═══ ");
    push_text(&mut out, lang.pick("DNSBL 黑名单检测", "DNSBL reputation check"));
    push_text(&mut out, " ");
    push_text(&mut out, ip);
    push_text(&mut out, " ═══\n");
    let listed = count_listed(results);
    let mut summary = owned(lang.pick("命中列表数", "Listed in"));
    push_text(&mut summary, ": ");
    push_text(&mut summary, uint_text(listed as u64).as_str());
    push_text(&mut summary, "/");
    push_text(&mut summary, uint_text(results.len() as u64).as_str());
    if no_color {
        push_text(&mut out, summary.as_str());
    } else if listed > 0 {
        push_text(&mut out, red_bold_text(summary.as_str()).as_str());
    } else {
        push_text(&mut out, green_bold_text(summary.as_str()).as_str());
    }
    push_text(&mut out, "\n");
    let mut rows: Vec<Vec<CellText>> = Vec::new();
    let mut i: usize = 0;
    while i < results.len()
        invariant
            i <= results@.len(),
            cells_view(rows@) == results@.take(i as int).map_values(|r: DnsblResult| dnsbl_cells(r, lang, no_color)),
        decreases results.len() - i,
    {
        add_row(&mut rows, dnsbl_row(&results[i], lang, no_color));
        assert(results@.take(i + 1).map_values(|r: DnsblResult| dnsbl_cells(r, lang, no_color))
            =~= results@.take(i as int).map_values(|r: DnsblResult| dnsbl_cells(r, lang, no_color))
                .push(dnsbl_cells(results@[i as int], lang, no_color)));
        i += 1;
    }
    assert(results@.take(results@.len() as int) =~= results@);
    let header: Vec<String> = vec![owned(lang.pick("黑名单", "Blocklist")), owned(lang.pick("状态", "Status"))];
    assert(texts(header@) =~= seq![lang.text("黑名单"@, "Blocklist"@), lang.text("状态"@, "Status"@)]);
    proof {
        if no_color {
            lemma_dnsbl_rows_plain(results@, lang);
        }
    }
    let t = boxed_table(&header, &rows);
    push_text(&mut out, t.as_str());
    push_text(&mut out, "\n");
    proof {
        let c = t@ != boxed_table_text(texts(header@), cells_view(rows@), false);
        assert(out@ =~= dnsbl_terminal_text(results@, ip@, lang, no_color, c));
    }
    out
}

} // verus!
