//! The DNS provider client: the zone-id cache, the request URLs and bodies
//! for the provider's REST surface, the extraction of ids and record content
//! from its JSON responses, and the decision of when an A record must be
//! rewritten.
//!
//! The client never talks to the network itself. The surrounding process
//! performs each GET or PUT and hands the response body (or status) back;
//! everything that can be computed from plain values — which URL to call,
//! what body to send, what a response means, whether an update is due — is
//! verified here. Only the JSON field extraction leans on an outside parser,
//! behind one trusted item.
use vstd::prelude::*;
use vstd::string::StrSliceExecFns;
use vstd::string::StringExecFns;

verus! {

/// Base of the DNS provider's REST surface.
pub open spec fn api_base() -> Seq<char> {
    "https://api.cloudflare.com/client/v4"@
}

/// The success statuses of the provider's REST surface.
pub open spec fn is_success_status(status: u16) -> bool {
    200 <= status < 300
}

/// A typed failure of a DNS client operation, as the caller sees it.
#[derive(Clone, Copy, Debug, PartialEq, Eq, Structural)]
pub enum DnsError {
    /// The provider returned zero zones matching the registrable domain.
    ZoneNotFound,
    /// The provider returned zero A records matching the hostname.
    RecordNotFound,
    /// The provider answered an update with a non-success status; the caller
    /// decides whether to retry on a later cycle.
    ProviderError,
}

/// The provider's current A-record snapshot for the configured hostname.
/// Never mutated in place, only replaced by a fresh lookup.
#[derive(Clone, Debug)]
pub struct DnsRecord {
    /// Zone the record lives in.
    pub zone_id: String,
    /// The record's own id at the provider.
    pub record_id: String,
    /// The IPv4 address the record currently holds, as text.
    pub content: String,
}

/// One update call, ready to issue: a PUT of `body` to `url`.
#[derive(Clone, Debug)]
pub struct UpdateRequest {
    /// Where the PUT goes.
    pub url: String,
    /// The JSON body it carries.
    pub body: String,
}

/// The string at `result[0].<field>` of a provider response body, when the
/// body is JSON and that spot holds a string. Named here because its exact
/// value is the parser's; the library states everything else relative to it.
pub uninterp spec fn json_first_result_str(body: Seq<char>, field: Seq<char>) -> Option<Seq<char>>;

/// Relies on serde_json: `serde_json::from_str` to parse the body, then
/// `serde_json::Value::get` down the path `result`, `0`, `field`, and
/// `serde_json::Value::as_str` to read the string there. The result depends
/// on the two arguments alone, so it is named [`json_first_result_str`];
/// nothing more is claimed of it.
#[verifier::external_body]
fn json_result_field(body: &str, field: &str) -> (r: Option<String>)
    ensures
        match r {
            Some(s) => json_first_result_str(body@, field@) == Some(s@),
            None => json_first_result_str(body@, field@) is None,
        },
{
    let parsed: serde_json::Value = match serde_json::from_str(body) {
        Ok(v) => v,
        Err(_) => return None,
    };
    let found = parsed.get("result")?.get(0)?.get(field)?.as_str()?;
    Some(found.to_string())
}

/// Greatest index below `i` holding a dot, or -1 when there is none.
pub open spec fn last_dot(s: Seq<char>, i: int) -> int
    decreases i,
{
    if i <= 0 || i > s.len() {
        -1
    } else if s[i - 1] == '.' {
        i - 1
    } else {
        last_dot(s, i - 1)
    }
}

/// The registrable parent domain of a hostname: its last two dot-separated
/// labels (the whole hostname when it has exactly two).
pub open spec fn fqdn_spec(s: Seq<char>) -> Seq<char> {
    let d1 = last_dot(s, s.len() as int);
    let d2 = if d1 >= 0 {
        last_dot(s, d1)
    } else {
        -1
    };
    s.subrange(d2 + 1, s.len() as int)
}

proof fn lemma_last_dot_at(s: Seq<char>, k: int, d: int)
    requires
        0 <= d < k <= s.len(),
        s[d] == '.',
        forall|j: int| d < j < k ==> s[j] != '.',
    ensures
        last_dot(s, k) == d,
    decreases k,
{
    if d < k - 1 {
        lemma_last_dot_at(s, k - 1, d);
    }
}

proof fn lemma_last_dot_none(s: Seq<char>, k: int)
    requires
        0 <= k <= s.len(),
        forall|j: int| 0 <= j < k ==> s[j] != '.',
    ensures
        last_dot(s, k) == -1,
    decreases k,
{
    if k > 0 {
        lemma_last_dot_none(s, k - 1);
    }
}

/// Whether a hostname has a registrable parent domain at all: at least two
/// dot-separated labels. Callers establish this before asking for the
/// hostname's zone.
pub fn has_dot(hostname: &str) -> (r: bool)
    ensures
        r == exists|j: int| 0 <= j < hostname@.len() && hostname@[j] == '.',
{
    let len: usize = hostname.unicode_len();
    let mut i: usize = 0;
    while i < len
        invariant
            i <= len,
            len == hostname@.len(),
            forall|j: int| 0 <= j < i ==> hostname@[j] != '.',
        decreases len - i,
    {
        if hostname.get_char(i) == '.' {
            proof {
                assert(hostname@[i as int] == '.');
            }
            return true;
        }
        i = i + 1;
    }
    false
}

/// Wraps the DNS provider's record-lookup and record-update surface, and
/// memoizes the resolved zone id for the client's lifetime: the zone of the
/// managed hostname does not change during a run, so one successful
/// resolution serves every later cycle.
///
/// The memo is write-once. Every operation's contract either leaves it
/// unchanged or sets it while it is unset, so across any call sequence on
/// one client it transitions at most once, from unset to the first resolved
/// id, and never changes thereafter.
pub struct CFClient {
    zone_id: Option<String>,
}

impl CFClient {
    /// The memoized zone id, if one has been resolved.
    pub closed spec fn spec_zone_id(&self) -> Option<Seq<char>> {
        match self.zone_id {
            Some(z) => Some(z@),
            None => None,
        }
    }

    /// A fresh client: no zone id resolved yet.
    pub fn new() -> (c: CFClient)
        ensures
            c.spec_zone_id() is None,
    {
        CFClient { zone_id: None }
    }

    /// The memoized zone id, if any.
    pub fn cached_zone_id(&self) -> (r: Option<String>)
        ensures
            match r {
                Some(z) => self.spec_zone_id() == Some(z@),
                None => self.spec_zone_id() is None,
            },
    {
        match &self.zone_id {
            Some(z) => Some(z.clone()),
            None => None,
        }
    }

    /// The registrable parent domain of `hostname`: its last two labels.
    pub fn get_fqdn(&self, hostname: &str) -> (r: String)
        requires
            exists|j: int| 0 <= j < hostname@.len() && hostname@[j] == '.',
        ensures
            r@ == fqdn_spec(hostname@),
    {
        let len: usize = hostname.unicode_len();
        let mut i: usize = len;
        while i > 0 && hostname.get_char(i - 1) != '.'
            invariant
                i <= len,
                len == hostname@.len(),
                forall|j: int| i <= j < len ==> hostname@[j] != '.',
            decreases i,
        {
            i = i - 1;
        }
        if i == 0 {
            proof {
                let j = choose|j: int| 0 <= j < hostname@.len() && hostname@[j] == '.';
                assert(hostname@[j] != '.');
            }
            return String::new();
        }
        proof {
            lemma_last_dot_at(hostname@, len as int, i - 1);
        }
        let mut k: usize = i - 1;
        while k > 0 && hostname.get_char(k - 1) != '.'
            invariant
                k <= i - 1 <= len,
                len == hostname@.len(),
                forall|j: int| k <= j < i - 1 ==> hostname@[j] != '.',
            decreases k,
        {
            k = k - 1;
        }
        proof {
            if k > 0 {
                lemma_last_dot_at(hostname@, i - 1, k - 1);
            } else {
                lemma_last_dot_none(hostname@, i - 1);
            }
        }
        hostname.substring_char(k, len).to_owned()
    }

    /// The URL that asks the provider for the active zone of the hostname's
    /// registrable domain.
    pub fn zone_query_url(&self, hostname: &str) -> (r: String)
        requires
            exists|j: int| 0 <= j < hostname@.len() && hostname@[j] == '.',
        ensures
            r@ == api_base() + "/zones?name="@ + fqdn_spec(hostname@) + "&status=active"@,
    {
        let fqdn = self.get_fqdn(hostname);
        let mut url = "https://api.cloudflare.com/client/v4".to_owned();
        url.append("/zones?name=");
        url.append(fqdn.as_str());
        url.append("&status=active");
        url
    }

    /// Reads the zone lookup response, caching on first use. An already
    /// resolved zone id is returned as it stands, whatever the response says:
    /// the memo is never rewritten. Otherwise a non-success status is the
    /// provider's failure, [`DnsError::ProviderError`]; on success the first
    /// matching zone's id is memoized and returned, and zero matching zones
    /// is [`DnsError::ZoneNotFound`]. Only that one path writes the memo.
    pub fn absorb_zone_response(&mut self, status: u16, body: &str) -> (r: Result<
        String,
        DnsError,
    >)
        ensures
            old(self).spec_zone_id() matches Some(z) ==> (r matches Ok(id) && id@ == z) && (final(
                self).spec_zone_id() == old(self).spec_zone_id()),
            old(self).spec_zone_id() is None && !is_success_status(status) ==> (r matches Err(e)
                && e == DnsError::ProviderError) && final(self).spec_zone_id() is None,
            old(self).spec_zone_id() is None && is_success_status(status) ==> match json_first_result_str(
                body@,
                "id"@,
            ) {
                Some(id) => {
                    &&& (r matches Ok(z) && z@ == id)
                    &&& final(self).spec_zone_id() == Some(id)
                },
                None => {
                    &&& (r matches Err(e) && e == DnsError::ZoneNotFound)
                    &&& final(self).spec_zone_id() is None
                },
            },
    {
        match &self.zone_id {
            Some(z) => {
                return Ok(z.clone());
            },
            None => {},
        }
        if !(200 <= status && status < 300) {
            return Err(DnsError::ProviderError);
        }
        match json_result_field(body, "id") {
            Some(id) => {
                self.zone_id = Some(id.clone());
                Ok(id)
            },
            None => Err(DnsError::ZoneNotFound),
        }
    }

    /// The URL that asks the provider for the A record of `hostname` in the
    /// resolved zone.
    pub fn record_query_url(&self, zone_id: &str, hostname: &str) -> (r: String)
        ensures
            r@ == api_base() + "/zones/"@ + zone_id@ + "/dns_records?name="@ + hostname@
                + "&type=A"@,
    {
        let mut url = "https://api.cloudflare.com/client/v4".to_owned();
        url.append("/zones/");
        url.append(zone_id);
        url.append("/dns_records?name=");
        url.append(hostname);
        url.append("&type=A");
        url
    }

    /// Reads the record lookup response. A non-success status is the
    /// provider's (or the credential's) failure, [`DnsError::ProviderError`];
    /// on success the first matching record becomes the [`DnsRecord`]
    /// snapshot, carrying the zone it was found in, and zero matching
    /// records (or no readable id and content) is
    /// [`DnsError::RecordNotFound`].
    pub fn dns_record(&self, zone_id: &str, status: u16, body: &str) -> (r: Result<
        DnsRecord,
        DnsError,
    >)
        ensures
            !is_success_status(status) ==> (r matches Err(e) && e == DnsError::ProviderError),
            is_success_status(status) ==> match (json_first_result_str(body@, "id"@), json_first_result_str(
                body@,
                "content"@,
            )) {
                (Some(rid), Some(content)) => (r matches Ok(rec) && rec.zone_id@ == zone_id@
                    && rec.record_id@ == rid && rec.content@ == content),
                _ => (r matches Err(e) && e == DnsError::RecordNotFound),
            },
    {
        if !(200 <= status && status < 300) {
            return Err(DnsError::ProviderError);
        }
        let rid = match json_result_field(body, "id") {
            Some(rid) => rid,
            None => return Err(DnsError::RecordNotFound),
        };
        let content = match json_result_field(body, "content") {
            Some(content) => content,
            None => return Err(DnsError::RecordNotFound),
        };
        Ok(DnsRecord { zone_id: zone_id.to_owned(), record_id: rid, content })
    }
}

/// Text that stands in a JSON string literal unescaped: free of quotes,
/// backslashes and control characters. Record ids, hostnames and IPv4
/// addresses are such text; the update body below is the JSON object of the
/// provider's surface only for such inputs.
pub open spec fn json_plain(s: Seq<char>) -> bool {
    forall|i: int| 0 <= i < s.len() ==> s[i] != '"' && s[i] != '\\' && s[i] as int >= 32
}

/// Whether `s` can stand in a JSON string literal unescaped, as
/// [`json_plain`] says. Callers establish this before building an update
/// body.
pub fn is_json_plain(s: &str) -> (r: bool)
    ensures
        r == json_plain(s@),
{
    let len: usize = s.unicode_len();
    let mut i: usize = 0;
    while i < len
        invariant
            i <= len,
            len == s@.len(),
            forall|j: int| 0 <= j < i ==> s@[j] != '"' && s@[j] != '\\' && s@[j] as int >= 32,
        decreases len - i,
    {
        let c = s.get_char(i);
        if c == '"' || c == '\\' || (c as u32) < 32 {
            return false;
        }
        i = i + 1;
    }
    true
}

/// The exact JSON body of an update call: the record keeps its id, stays an
/// A record under `hostname`, takes `ip` as content, and a fixed short TTL
/// of 300 seconds.
pub open spec fn update_body_spec(record_id: Seq<char>, hostname: Seq<char>, ip: Seq<char>) -> Seq<
    char,
> {
    "{\"id\":\""@ + record_id + "\",\"type\":\"A\",\"name\":\""@ + hostname + "\",\"content\":\""@
        + ip + "\",\"ttl\":300}"@
}

impl CFClient {
    /// Builds the one update call that rewrites `record` to `ip`: a PUT to
    /// the record's own zone/record path whose body is exactly
    /// [`update_body_spec`] — content `ip`, TTL 300. The inputs must be
    /// [`json_plain`], so that the body is the well-formed JSON object of
    /// the provider's surface.
    pub fn update_request(&self, record: &DnsRecord, hostname: &str, ip: &str) -> (r:
        UpdateRequest)
        requires
            json_plain(record.record_id@),
            json_plain(hostname@),
            json_plain(ip@),
        ensures
            r.url@ == api_base() + "/zones/"@ + record.zone_id@ + "/dns_records/"@
                + record.record_id@,
            r.body@ == update_body_spec(record.record_id@, hostname@, ip@),
    {
        let mut url = "https://api.cloudflare.com/client/v4".to_owned();
        url.append("/zones/");
        url.append(record.zone_id.as_str());
        url.append("/dns_records/");
        url.append(record.record_id.as_str());
        let mut body = "{\"id\":\"".to_owned();
        body.append(record.record_id.as_str());
        body.append("\",\"type\":\"A\",\"name\":\"");
        body.append(hostname);
        body.append("\",\"content\":\"");
        body.append(ip);
        body.append("\",\"ttl\":300}");
        UpdateRequest { url, body }
    }

    /// Reads the provider's answer to an update call: any success status
    /// means the record was rewritten; anything else is a
    /// [`DnsError::ProviderError`] for the caller to log and retry on a
    /// later cycle — never a crash.
    pub fn update_outcome(&self, status: u16) -> (r: Result<(), DnsError>)
        ensures
            (r matches Ok(u)) <==> is_success_status(status),
            !is_success_status(status) ==> (r matches Err(e) && e == DnsError::ProviderError),
    {
        if 200 <= status && status < 300 {
            Ok(())
        } else {
            Err(DnsError::ProviderError)
        }
    }
}

/// Whether the record must be rewritten: exactly when its current content
/// differs from the candidate IP.
pub open spec fn update_needed(content: Seq<char>, candidate: Seq<char>) -> bool {
    content != candidate
}

/// Decides an update cycle: issue the update call iff the record's current
/// content differs from the candidate IP.
pub fn should_update(record: &DnsRecord, candidate: &String) -> (r: bool)
    ensures
        r == update_needed(record.content@, candidate@),
{
    !record.content.eq(candidate)
}

/// Law: the update decision is idempotent across an applied update. Once a
/// record's content has been rewritten to the candidate (or already equals
/// it), the decision does not fire again for that candidate: only the first
/// divergence issues a call.
pub proof fn lemma_update_idempotent(candidate: Seq<char>)
    ensures
        !update_needed(candidate, candidate),
{
}

} // verus!
