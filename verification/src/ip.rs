//! Public-IP discovery: the provider list, the first-success policy over it,
//! and the whitespace trimming applied to a provider's response body.
//!
//! The providers are plain HTTP endpoints that echo the caller's IP as text.
//! They are tried in a fixed order; the first success wins, a failure moves
//! on to the next provider, and only when every provider has failed does a
//! fetch report the distinguished [`FetchError::AllProvidersFailed`] — never
//! an empty success value. The HTTP calls themselves are the surrounding
//! process's work: it drives an [`IpFetch`] machine, querying the provider
//! the machine asks for and handing the outcome back.
use vstd::prelude::*;
use vstd::string::StrSliceExecFns;

verus! {

/// Number of configured public-IP providers.
pub const PROVIDER_COUNT: usize = 5;

/// The provider URLs, in the fixed order they are tried.
pub open spec fn provider_spec(i: int) -> Seq<char> {
    if i == 0 {
        "https://ifconfig.me/ip"@
    } else if i == 1 {
        "https://icanhazip.com"@
    } else if i == 2 {
        "https://myip.dnsomatic.com"@
    } else if i == 3 {
        "https://myexternalip.com/raw"@
    } else {
        "https://api.ipify.org"@
    }
}

/// The URL of the `i`-th provider.
pub fn provider_url(i: usize) -> (r: &'static str)
    requires
        i < PROVIDER_COUNT,
    ensures
        r@ == provider_spec(i as int),
{
    if i == 0 {
        "https://ifconfig.me/ip"
    } else if i == 1 {
        "https://icanhazip.com"
    } else if i == 2 {
        "https://myip.dnsomatic.com"
    } else if i == 3 {
        "https://myexternalip.com/raw"
    } else {
        "https://api.ipify.org"
    }
}

/// The whitespace a provider may wrap around the IP in its response body.
pub open spec fn is_ws(c: char) -> bool {
    c == ' ' || c == '\t' || c == '\n' || c == '\r'
}

/// First index at or after `i` holding a non-whitespace character, or the
/// length when there is none.
pub open spec fn ws_start(s: Seq<char>, i: int) -> int
    decreases s.len() - i,
{
    if i < 0 || i >= s.len() {
        s.len() as int
    } else if !is_ws(s[i]) {
        i
    } else {
        ws_start(s, i + 1)
    }
}

/// End of the non-whitespace core looking down from `i`: the index one past
/// the last non-whitespace character below `i`, or 0 when there is none.
pub open spec fn ws_end(s: Seq<char>, i: int) -> int
    decreases i,
{
    if i <= 0 || i > s.len() {
        0
    } else if !is_ws(s[i - 1]) {
        i
    } else {
        ws_end(s, i - 1)
    }
}

/// `s` with leading and trailing whitespace removed.
pub open spec fn trimmed(s: Seq<char>) -> Seq<char> {
    let lo = ws_start(s, 0);
    let hi = ws_end(s, s.len() as int);
    if lo <= hi {
        s.subrange(lo, hi)
    } else {
        Seq::empty()
    }
}

proof fn lemma_ws_start_at(s: Seq<char>, k: int, i: int)
    requires
        0 <= k <= i <= s.len(),
        forall|j: int| k <= j < i ==> is_ws(s[j]),
        i < s.len() ==> !is_ws(s[i]),
    ensures
        ws_start(s, k) == i,
    decreases i - k,
{
    if k < i {
        lemma_ws_start_at(s, k + 1, i);
    }
}

proof fn lemma_ws_end_at(s: Seq<char>, k: int, i: int)
    requires
        0 <= i <= k <= s.len(),
        forall|j: int| i <= j < k ==> is_ws(s[j]),
        i > 0 ==> !is_ws(s[i - 1]),
    ensures
        ws_end(s, k) == i,
    decreases k - i,
{
    if i < k {
        lemma_ws_end_at(s, k - 1, i);
    }
}

fn char_is_ws(c: char) -> (r: bool)
    ensures
        r == is_ws(c),
{
    c == ' ' || c == '\t' || c == '\n' || c == '\r'
}

/// Removes leading and trailing whitespace, exactly as [`trimmed`] says.
pub fn trim_ws(s: &str) -> (r: String)
    ensures
        r@ == trimmed(s@),
{
    let len: usize = s.unicode_len();
    let mut lo: usize = 0;
    while lo < len && char_is_ws(s.get_char(lo))
        invariant
            lo <= len,
            len == s@.len(),
            forall|j: int| 0 <= j < lo ==> is_ws(s@[j]),
        decreases len - lo,
    {
        lo = lo + 1;
    }
    proof {
        lemma_ws_start_at(s@, 0, lo as int);
    }
    if lo == len {
        proof {
            lemma_ws_end_at(s@, len as int, 0);
            assert(trimmed(s@) =~= Seq::empty());
        }
        return String::new();
    }
    let mut hi: usize = len;
    while hi > lo && char_is_ws(s.get_char(hi - 1))
        invariant
            lo <= hi <= len,
            len == s@.len(),
            forall|j: int| hi <= j < len ==> is_ws(s@[j]),
        decreases hi,
    {
        hi = hi - 1;
    }
    proof {
        assert(!is_ws(s@[lo as int]));
        assert(hi > lo);
        lemma_ws_end_at(s@, len as int, hi as int);
    }
    s.substring_char(lo, hi).to_owned()
}

/// Fetching one IP failed for good.
#[derive(Debug, PartialEq, Eq, Structural)]
pub enum FetchError {
    /// Every configured provider failed in this round; there is no IP to
    /// report. Distinguished from a success carrying an empty value.
    AllProvidersFailed,
}

/// The outcome of one fetch round, given the response each provider would
/// have produced (`None` for a failed call): the trimmed body of the first
/// provider that succeeds, or nothing when all fail. Providers beyond the
/// first success are never consulted.
pub open spec fn fetch_result(outcomes: Seq<Option<Seq<char>>>) -> Option<Seq<char>>
    decreases outcomes.len(),
{
    if outcomes.len() == 0 {
        None
    } else if outcomes[0] is Some {
        Some(trimmed(outcomes[0]->0))
    } else {
        fetch_result(outcomes.subrange(1, outcomes.len() as int))
    }
}

/// Law: when some provider succeeds, the fetch outcome is the trimmed body
/// of the first success in provider order — the order is deterministic, so
/// the earliest index with a response decides.
pub proof fn lemma_fetch_first_success(outcomes: Seq<Option<Seq<char>>>, i: int)
    requires
        0 <= i < outcomes.len(),
        outcomes[i] is Some,
        forall|j: int| 0 <= j < i ==> outcomes[j] is None,
    ensures
        fetch_result(outcomes) == Some(trimmed(outcomes[i]->0)),
    decreases i,
{
    if i > 0 {
        lemma_fetch_first_success(outcomes.subrange(1, outcomes.len() as int), i - 1);
    }
}

/// Law: when every provider fails, the fetch outcome is the distinguished
/// failure — never a success, in particular never an empty success value.
pub proof fn lemma_fetch_all_fail(outcomes: Seq<Option<Seq<char>>>)
    requires
        forall|j: int| 0 <= j < outcomes.len() ==> outcomes[j] is None,
    ensures
        fetch_result(outcomes) is None,
    decreases outcomes.len(),
{
    if outcomes.len() > 0 {
        lemma_fetch_all_fail(outcomes.subrange(1, outcomes.len() as int));
    }
}

/// One fetch round as a step machine.
///
/// The surrounding process asks [`IpFetch::pending_provider`] which provider
/// to query, performs the HTTP call, and hands the outcome to
/// [`IpFetch::absorb`]; the machine answers as soon as the round is decided.
/// Its verdicts follow [`fetch_result`] over the outcomes absorbed so far.
pub struct IpFetch {
    next: usize,
    outcomes: Ghost<Seq<Option<Seq<char>>>>,
}

impl IpFetch {
    /// Index of the next provider to try.
    pub closed spec fn spec_next(&self) -> int {
        self.next as int
    }

    /// The outcomes absorbed so far, one per provider already tried.
    pub closed spec fn spec_outcomes(&self) -> Seq<Option<Seq<char>>> {
        self.outcomes@
    }

    /// The absorbed outcomes line up with the providers already tried.
    pub closed spec fn wf(&self) -> bool {
        &&& self.next <= PROVIDER_COUNT
        &&& self.outcomes@.len() == self.next
    }

    /// The round is still open: every provider tried so far failed.
    pub closed spec fn all_failed(&self) -> bool {
        forall|j: int| 0 <= j < self.outcomes@.len() ==> self.outcomes@[j] is None
    }

    /// Starts a fetch round at the first provider.
    pub fn new() -> (r: IpFetch)
        ensures
            r.wf(),
            r.all_failed(),
            r.spec_next() == 0,
    {
        IpFetch { next: 0, outcomes: Ghost(Seq::empty()) }
    }

    /// The provider the round will try next, or nothing when every provider
    /// has been tried.
    pub fn pending_provider(&self) -> (r: Option<usize>)
        ensures
            self.spec_next() < PROVIDER_COUNT ==> r == Some(self.spec_next() as usize),
            self.spec_next() >= PROVIDER_COUNT ==> r is None,
    {
        if self.next < PROVIDER_COUNT {
            Some(self.next)
        } else {
            None
        }
    }

    /// Absorbs the outcome of querying the pending provider. A success ends
    /// the round at once with the trimmed body; a failure moves on, and the
    /// round ends in [`FetchError::AllProvidersFailed`] only when the last
    /// provider has failed. The verdict equals [`fetch_result`] over all
    /// outcomes absorbed in this round.
    pub fn absorb(&mut self, outcome: Option<&str>) -> (r: Option<Result<String, FetchError>>)
        requires
            old(self).wf(),
            old(self).all_failed(),
            old(self).spec_next() < PROVIDER_COUNT,
        ensures
            final(self).wf(),
            outcome is None ==> final(self).all_failed(),
            final(self).spec_outcomes() == old(self).spec_outcomes().push(
                match outcome {
                    Some(body) => Some(body@),
                    None => None,
                },
            ),
            outcome matches Some(body) ==> {
                &&& (r matches Some(res) && res matches Ok(ip) && ip@ == trimmed(body@))
                &&& fetch_result(final(self).spec_outcomes()) == Some(trimmed(body@))
            },
            outcome is None && old(self).spec_next() + 1 < PROVIDER_COUNT ==> {
                &&& r is None
                &&& final(self).spec_next() == old(self).spec_next() + 1
            },
            outcome is None && old(self).spec_next() + 1 == PROVIDER_COUNT ==> {
                &&& (r matches Some(res) && res matches Err(e) && e == FetchError::AllProvidersFailed)
                &&& fetch_result(final(self).spec_outcomes()) is None
            },
    {
        match outcome {
            Some(body) => {
                let ip = trim_ws(body);
                let ghost done = self.outcomes@.push(Some(body@));
                self.outcomes = Ghost(done);
                self.next = self.next + 1;
                proof {
                    lemma_fetch_first_success(done, done.len() - 1);
                }
                Some(Ok(ip))
            },
            None => {
                let ghost done = self.outcomes@.push(None);
                self.outcomes = Ghost(done);
                self.next = self.next + 1;
                if self.next == PROVIDER_COUNT {
                    proof {
                        lemma_fetch_all_fail(done);
                    }
                    Some(Err(FetchError::AllProvidersFailed))
                } else {
                    None
                }
            },
        }
    }
}

/// Picks the address a name lookup returned for a hostname: the first
/// entry. A lookup that produced no address at all is a caller error and is
/// excluded here, not answered.
pub fn resolve(addrs: &Vec<String>) -> (r: String)
    requires
        addrs@.len() > 0,
    ensures
        r@ == addrs@[0]@,
{
    addrs[0].clone()
}

} // verus!
