//! The directory client's logic: stream-URL validation, request-URL
//! construction, mirror-list processing, and the mirror failover schedule
//! with its sticky preference for the last successful mirror.
//!
//! The HTTP requests themselves are asynchronous I/O and live outside this
//! crate; the retry loop out there asks [`MirrorAttempts`] which mirror to
//! try next and how long to back off.

use vstd::prelude::*;
use rand::seq::SliceRandom;
use crate::error::{DirectoryError, DirectoryErrorData};
use crate::json::{json_str_field, json_str_field_of};
use crate::models::strs_view;
use crate::text::{spec_trim, spec_dec, trim_str, str_eq, u32_to_string};

verus! {

broadcast use vstd::seq_lib::group_seq_properties;

// ---------------------------------------------------------------------------
// Stream-URL validation.
// ---------------------------------------------------------------------------

/// The scheme of the URL that `s` parses to, lower-cased, or `None` when `s`
/// is not an absolute URL.
pub uninterp spec fn url_scheme_of(s: Seq<char>) -> Option<Seq<char>>;

/// The normalized serialization of the URL that `s` parses to (meaningful
/// only when `s` parses).
pub uninterp spec fn url_normal_of(s: Seq<char>) -> Seq<char>;

/// Relies on url::Url::parse (the WHATWG URL parser) and on Url::scheme and
/// Url::as_str: whether `s` parses as an absolute URL, its lower-cased
/// scheme, and its normalized serialization — all functions of the input
/// string alone.
#[verifier::external_body]
fn parse_url_parts(s: &str) -> (r: Option<(String, String)>)
    ensures
        match r {
            Some(parts) => url_scheme_of(s@) == Some(parts.0@) && parts.1@ == url_normal_of(s@),
            None => url_scheme_of(s@) is None,
        },
{
    match url::Url::parse(s) {
        Ok(u) => Some((u.scheme().to_owned(), u.as_str().to_owned())),
        Err(_) => None,
    }
}

/// What `parse_stream_url` returns for the input `s`: the normalized URL
/// exactly when `s` parses with an `http`/`https` scheme; otherwise which
/// error and why.
pub open spec fn spec_stream_url_result(s: Seq<char>, r: Result<Seq<char>, DirectoryErrorData>) -> bool {
    match r {
        Ok(u) => {
            &&& (url_scheme_of(s) == Some("http"@) || url_scheme_of(s) == Some("https"@))
            &&& u == url_normal_of(s)
        },
        Err(e) => match e {
            DirectoryErrorData::Parse(m) => url_scheme_of(s) is None && m == "invalid stream URL"@,
            DirectoryErrorData::UnsupportedScheme(sch) => url_scheme_of(s) == Some(sch) && sch
                != "http"@ && sch != "https"@,
            _ => false,
        },
    }
}

/// The image of a directory-lookup result.
pub open spec fn res_view(r: Result<String, DirectoryError>) -> Result<Seq<char>, DirectoryErrorData> {
    match r {
        Ok(s) => Ok(s@),
        Err(e) => Err(e@),
    }
}

/// Validate a candidate stream URL: it must parse, and its scheme must be
/// `http` or `https`; anything else is rejected.
pub fn parse_stream_url(s: &str) -> (r: Result<String, DirectoryError>)
    ensures
        spec_stream_url_result(s@, res_view(r)),
{
    match parse_url_parts(s) {
        None => Err(DirectoryError::Parse("invalid stream URL".to_owned())),
        Some((scheme, normal)) => {
            if str_eq(scheme.as_str(), "http") || str_eq(scheme.as_str(), "https") {
                Ok(normal)
            } else {
                Err(DirectoryError::UnsupportedScheme(scheme))
            }
        },
    }
}

/// Interpret the body of a URL-resolution response: if it is a JSON object
/// with a string `url` member, that member is the candidate stream URL;
/// otherwise the trimmed body itself is. Either way the candidate must
/// validate.
pub fn interpret_resolve_body(text: &str) -> (r: Result<String, DirectoryError>)
    ensures
        match json_str_field_of(text@, "url"@) {
            Some(u) => spec_stream_url_result(u, res_view(r)),
            None => spec_stream_url_result(spec_trim(text@), res_view(r)),
        },
{
    match json_str_field(text, "url") {
        Some(u) => parse_stream_url(u.as_str()),
        None => {
            let t = trim_str(text);
            parse_stream_url(t.as_str())
        },
    }
}

// ---------------------------------------------------------------------------
// Request URLs.
// ---------------------------------------------------------------------------

/// The percent-encoding of `s`: every byte of its UTF-8 form except ASCII
/// alphanumerics and `-`, `_`, `.`, `~` appears as `%XX`.
pub uninterp spec fn pct_of(s: Seq<char>) -> Seq<char>;

/// Relies on urlencoding::encode: percent-encodes every byte except ASCII
/// alphanumerics and `-`, `_`, `.`, `~` — a function of the string alone.
#[verifier::external_body]
fn percent_encode(s: &str) -> (r: String)
    ensures
        r@ == pct_of(s@),
{
    urlencoding::encode(s).into_owned()
}

/// The bootstrap endpoint serving the mirror list.
pub fn discovery_url() -> (r: String)
    ensures
        r@ == "https://all.api.radio-browser.info/json/servers"@,
{
    "https://all.api.radio-browser.info/json/servers".to_owned()
}

/// The base URL for requests to one mirror.
pub fn base_url(server: &str) -> (r: String)
    ensures
        r@ == "https://"@ + server@,
{
    let mut r = "https://".to_owned();
    r.append(server);
    r
}

/// The search request URL: name match against the encoded query, broken
/// stations hidden, at most `limit` results, ordered by votes descending.
pub open spec fn spec_search_url(base: Seq<char>, query: Seq<char>, limit: u32) -> Seq<char> {
    base + "/json/stations/search?name="@ + pct_of(query) + "&hidebroken=true&limit="@ + spec_dec(
        limit as int,
    ) + "&order=votes&reverse=true"@
}

/// Build the search request URL for one mirror.
pub fn build_search_url(base: &str, query: &str, limit: u32) -> (r: String)
    ensures
        r@ == spec_search_url(base@, query@, limit),
{
    let mut r = base.to_owned();
    r.append("/json/stations/search?name=");
    let enc = percent_encode(query);
    r.append(enc.as_str());
    r.append("&hidebroken=true&limit=");
    let lim = u32_to_string(limit);
    r.append(lim.as_str());
    r.append("&order=votes&reverse=true");
    proof {
        assert(r@ =~= spec_search_url(base@, query@, limit));
    }
    r
}

/// The URL-resolution request URL for one station id.
pub open spec fn spec_resolve_url(base: Seq<char>, id: Seq<char>) -> Seq<char> {
    base + "/json/url/"@ + id
}

/// Build the URL-resolution request URL for one mirror.
pub fn build_resolve_url(base: &str, station_id: &str) -> (r: String)
    ensures
        r@ == spec_resolve_url(base@, station_id@),
{
    let mut r = base.to_owned();
    r.append("/json/url/");
    r.append(station_id);
    proof {
        assert(r@ =~= spec_resolve_url(base@, station_id@));
    }
    r
}

/// Trim a search query; `None` means the query is empty or whitespace and
/// the search returns no results without any network call.
pub fn normalize_query(query: &str) -> (r: Option<String>)
    ensures
        match r {
            Some(t) => t@ == spec_trim(query@) && t@.len() > 0,
            None => spec_trim(query@).len() == 0,
        },
{
    let t = trim_str(query);
    if t.as_str().is_empty() {
        None
    } else {
        Some(t)
    }
}

/// Trim a station id; an empty or whitespace id cannot be resolved.
pub fn normalize_station_id(station_id: &str) -> (r: Result<String, DirectoryError>)
    ensures
        match r {
            Ok(t) => t@ == spec_trim(station_id@) && t@.len() > 0,
            Err(e) => spec_trim(station_id@).len() == 0 && e@ == DirectoryErrorData::Parse(
                "missing station id"@,
            ),
        },
{
    let t = trim_str(station_id);
    if t.as_str().is_empty() {
        Err(DirectoryError::Parse("missing station id".to_owned()))
    } else {
        Ok(t)
    }
}

// ---------------------------------------------------------------------------
// Response size caps.
// ---------------------------------------------------------------------------

/// The body cap for mirror discovery and search responses, in bytes.
pub const MAX_BODY_BYTES: usize = 1000000;

/// The body cap for URL-resolution responses, in bytes.
pub const RESOLVE_BODY_BYTES: usize = 65536;

/// Reject a response whose declared content length already exceeds the cap.
pub fn check_content_length(len: u64, limit: u64) -> (r: Result<(), DirectoryError>)
    ensures
        r is Ok <==> len <= limit,
        r matches Err(e) ==> e@ == DirectoryErrorData::ResponseTooLarge,
{
    if len > limit {
        Err(DirectoryError::ResponseTooLarge)
    } else {
        Ok(())
    }
}

/// Append one received chunk to the body, refusing to grow past the cap.
pub fn append_chunk(body: &mut Vec<u8>, chunk: &[u8], limit: usize) -> (r: Result<
    (),
    DirectoryError,
>)
    ensures
        old(body)@.len() + chunk@.len() > limit ==> final(body)@ == old(body)@ && (
        r matches Err(e) && e@ == DirectoryErrorData::ResponseTooLarge),
        old(body)@.len() + chunk@.len() <= limit ==> final(body)@ == old(body)@ + chunk@ && r is Ok,
{
    if chunk.len() > limit || body.len() > limit - chunk.len() {
        Err(DirectoryError::ResponseTooLarge)
    } else {
        body.extend_from_slice(chunk);
        Ok(())
    }
}

// ---------------------------------------------------------------------------
// Mirror-list processing: sort and deduplicate.
// ---------------------------------------------------------------------------

/// Strict lexicographic order on character sequences, by scalar value — the
/// order `sort` puts strings in.
pub open spec fn lex_lt(a: Seq<char>, b: Seq<char>) -> bool
    decreases a.len(),
{
    if b.len() == 0 {
        false
    } else if a.len() == 0 {
        true
    } else if (a[0] as u32) < (b[0] as u32) {
        true
    } else if (a[0] as u32) > (b[0] as u32) {
        false
    } else {
        lex_lt(a.drop_first(), b.drop_first())
    }
}

/// Exactly one of `lex_lt(a, b)`, `lex_lt(b, a)`, `a == b` holds.
pub proof fn lemma_lex_trichotomy(a: Seq<char>, b: Seq<char>)
    ensures
        lex_lt(a, b) || lex_lt(b, a) || a == b,
        lex_lt(a, b) ==> !lex_lt(b, a) && a != b,
    decreases a.len(),
{
    if a.len() == 0 || b.len() == 0 {
        if a.len() == 0 && b.len() == 0 {
            assert(a =~= b);
        }
    } else {
        if (a[0] as u32) == (b[0] as u32) {
            vstd::utf8::char_u32_cast(a[0], a[0] as u32);
            vstd::utf8::char_u32_cast(b[0], b[0] as u32);
            assert(a[0] == b[0]);
            lemma_lex_trichotomy(a.drop_first(), b.drop_first());
            if a.drop_first() == b.drop_first() && a[0] == b[0] {
                assert(a =~= b);
            }
            if a == b {
                assert(a.drop_first() == b.drop_first());
            }
        }
    }
}

/// Lexicographic order is transitive.
pub proof fn lemma_lex_trans(a: Seq<char>, b: Seq<char>, c: Seq<char>)
    requires
        lex_lt(a, b),
        lex_lt(b, c),
    ensures
        lex_lt(a, c),
    decreases a.len(),
{
    if c.len() == 0 {
        assert(false);
    } else if b.len() == 0 {
        assert(false);
    } else if a.len() == 0 {
    } else {
        if (a[0] as u32) < (b[0] as u32) {
            assert((b[0] as u32) <= (c[0] as u32));
        } else if (a[0] as u32) == (b[0] as u32) {
            if (b[0] as u32) < (c[0] as u32) {
            } else {
                assert((b[0] as u32) == (c[0] as u32));
                lemma_lex_trans(a.drop_first(), b.drop_first(), c.drop_first());
            }
        } else {
            assert(false);
        }
    }
}

/// Nothing is lexicographically below itself.
pub proof fn lemma_lex_irrefl(a: Seq<char>)
    ensures
        !lex_lt(a, a),
    decreases a.len(),
{
    if a.len() > 0 {
        lemma_lex_irrefl(a.drop_first());
    }
}

/// Whether the strings are strictly increasing — sorted with no duplicates.
pub open spec fn sorted_strs(v: Seq<Seq<char>>) -> bool {
    forall|i: int, j: int| 0 <= i < j < v.len() ==> lex_lt(v[i], v[j])
}

/// Compare two strings in lexicographic order.
pub fn str_lt(a: &str, b: &str) -> (r: bool)
    ensures
        r == lex_lt(a@, b@),
{
    let na = a.unicode_len();
    let nb = b.unicode_len();
    let mut i: usize = 0;
    proof {
        assert(a@.skip(0) =~= a@);
        assert(b@.skip(0) =~= b@);
    }
    while i < na && i < nb
        invariant
            na == a@.len(),
            nb == b@.len(),
            0 <= i <= na,
            0 <= i <= nb,
            lex_lt(a@, b@) == lex_lt(a@.skip(i as int), b@.skip(i as int)),
        decreases na - i,
    {
        let ca = a.get_char(i);
        let cb = b.get_char(i);
        proof {
            assert(a@.skip(i as int)[0] == a@[i as int]);
            assert(b@.skip(i as int)[0] == b@[i as int]);
        }
        if (ca as u32) < (cb as u32) {
            return true;
        }
        if (ca as u32) > (cb as u32) {
            return false;
        }
        proof {
            assert(a@.skip(i as int).drop_first() =~= a@.skip(i as int + 1));
            assert(b@.skip(i as int).drop_first() =~= b@.skip(i as int + 1));
        }
        i += 1;
    }
    proof {
        if i < nb {
            assert(a@.skip(i as int).len() == 0);
        } else {
            assert(b@.skip(i as int).len() == 0);
        }
    }
    i < nb
}

/// Inserting `x` at `pos` in a strictly sorted list — everything before
/// `pos` below `x`, everything from `pos` on above it — keeps the list
/// strictly sorted and adds exactly `x` to its set of strings.
proof fn lemma_sorted_insert_at(vs0: Seq<Seq<char>>, pos: int, x: Seq<char>)
    requires
        sorted_strs(vs0),
        0 <= pos <= vs0.len(),
        forall|j: int| 0 <= j < pos ==> lex_lt(vs0[j], x),
        pos < vs0.len() ==> lex_lt(x, vs0[pos]),
    ensures
        sorted_strs(vs0.insert(pos, x)),
        vs0.insert(pos, x).to_set() == vs0.to_set().insert(x),
{
    let vs1 = vs0.insert(pos, x);
    assert(forall|k: int| 0 <= k < pos ==> vs1[k] == vs0[k]);
    assert(vs1[pos] == x);
    assert(forall|k: int| pos < k < vs1.len() ==> vs1[k] == vs0[k - 1]);
    assert(sorted_strs(vs1)) by {
        assert forall|p: int, q: int| 0 <= p < q < vs1.len() implies lex_lt(vs1[p], vs1[q]) by {
            if p < pos && q < pos {
            } else if p < pos && q == pos {
            } else if p < pos && q > pos {
                assert(vs1[q] == vs0[q - 1]);
                if q - 1 == pos {
                    assert(pos < vs0.len());
                    lemma_lex_trans(vs1[p], x, vs0[pos]);
                } else {
                    assert(lex_lt(vs0[p], vs0[q - 1]));
                }
            } else if p == pos && q > pos {
                assert(vs1[q] == vs0[q - 1]);
                if q - 1 == pos {
                    assert(lex_lt(x, vs0[pos]));
                } else {
                    assert(pos < vs0.len());
                    assert(lex_lt(vs0[pos], vs0[q - 1]));
                    lemma_lex_trans(x, vs0[pos], vs0[q - 1]);
                }
            } else {
                assert(vs1[p] == vs0[p - 1] && vs1[q] == vs0[q - 1]);
                assert(lex_lt(vs0[p - 1], vs0[q - 1]));
            }
        }
    }
    assert(vs1.to_set() =~= vs0.to_set().insert(x)) by {
        assert forall|y: Seq<char>| vs1.to_set().contains(y) implies vs0.to_set().insert(
            x,
        ).contains(y) by {
            let k = choose|k: int| 0 <= k < vs1.len() && vs1[k] == y;
            if k < pos {
                assert(vs0[k] == y);
            } else if k > pos {
                assert(vs0[k - 1] == y);
            }
        }
        assert forall|y: Seq<char>| vs0.to_set().insert(x).contains(y) implies vs1.to_set()
            .contains(y) by {
            if y == x {
                assert(vs1[pos] == y);
            } else {
                let k = choose|k: int| 0 <= k < vs0.len() && vs0[k] == y;
                if k < pos {
                    assert(vs1[k] == y);
                } else {
                    assert(vs1[k + 1] == y);
                }
            }
        }
    }
}

/// Insert `x` into a strictly sorted list, keeping it strictly sorted: `x`
/// goes to its place unless an equal string is already there.
fn sorted_insert(v: &mut Vec<String>, x: String)
    requires
        sorted_strs(strs_view(old(v)@)),
    ensures
        sorted_strs(strs_view(final(v)@)),
        strs_view(final(v)@).to_set() == strs_view(old(v)@).to_set().insert(x@),
{
    let ghost vs0 = strs_view(old(v)@);
    let n = v.len();
    let mut i: usize = 0;
    while i < n
        invariant
            n == v@.len(),
            0 <= i <= n,
            v@ == old(v)@,
            sorted_strs(vs0),
            vs0 == strs_view(v@),
            forall|j: int| 0 <= j < i ==> lex_lt(vs0[j], x@),
        decreases n - i,
    {
        if str_eq(v[i].as_str(), x.as_str()) {
            proof {
                assert(vs0[i as int] == x@);
                assert(vs0.to_set().contains(x@)) by {
                    assert(vs0.contains(x@)) by {
                        assert(vs0[i as int] == x@);
                    }
                }
                assert(vs0.to_set().insert(x@) =~= vs0.to_set());
            }
            return;
        }
        if !str_lt(v[i].as_str(), x.as_str()) {
            proof {
                lemma_lex_trichotomy(vs0[i as int], x@);
                assert(lex_lt(x@, vs0[i as int]));
                lemma_sorted_insert_at(vs0, i as int, x@);
            }
            v.insert(i, x);
            proof {
                assert(strs_view(v@) =~= vs0.insert(i as int, x@));
            }
            return;
        }
        i += 1;
    }
    proof {
        lemma_sorted_insert_at(vs0, n as int, x@);
    }
    v.insert(n, x);
    proof {
        assert(strs_view(v@) =~= vs0.insert(n as int, x@));
    }
}

/// Sort the discovered mirror names, drop duplicates, and reject an empty
/// list.
pub fn process_server_list(names: Vec<String>) -> (r: Result<Vec<String>, DirectoryError>)
    ensures
        match r {
            Ok(v) => {
                &&& names@.len() > 0
                &&& v@.len() > 0
                &&& sorted_strs(strs_view(v@))
                &&& strs_view(v@).to_set() == strs_view(names@).to_set()
            },
            Err(e) => names@.len() == 0 && e@ == DirectoryErrorData::EmptyMirrorList,
        },
{
    if names.len() == 0 {
        return Err(DirectoryError::EmptyMirrorList);
    }
    let ghost ns = strs_view(names@);
    let mut out: Vec<String> = Vec::new();
    let mut i: usize = 0;
    proof {
        assert(strs_view(Seq::<String>::empty()) =~= Seq::<Seq<char>>::empty());
    }
    while i < names.len()
        invariant
            0 <= i <= names@.len(),
            ns == strs_view(names@),
            sorted_strs(strs_view(out@)),
            strs_view(out@).to_set() == ns.subrange(0, i as int).to_set(),
        decreases names@.len() - i,
    {
        let x = names[i].clone();
        proof {
            assert(x@ == ns[i as int]);
            assert(ns.subrange(0, i as int + 1) =~= ns.subrange(0, i as int).push(ns[i as int]));
            assert(ns.subrange(0, i as int).push(ns[i as int]).to_set() =~= ns.subrange(
                0,
                i as int,
            ).to_set().insert(ns[i as int]));
        }
        sorted_insert(&mut out, x);
        i += 1;
    }
    proof {
        assert(ns.subrange(0, ns.len() as int) =~= ns);
        assert(strs_view(out@).to_set().contains(ns[0])) by {
            assert(ns.contains(ns[0]));
        }
        assert(out@.len() > 0) by {
            if out@.len() == 0 {
                assert(forall|y: Seq<char>| !strs_view(out@).contains(y));
            }
        }
    }
    Ok(out)
}

// ---------------------------------------------------------------------------
// Mirror failover.
// ---------------------------------------------------------------------------

/// How many mirrors one lookup tries before giving up.
pub const MAX_ATTEMPTS: u32 = 4;

/// The backoff slept after the failure of attempt `attempt` (counted from
/// zero) before the next one: 200 ms doubled per attempt.
pub open spec fn spec_backoff_ms(attempt: int) -> int
    decreases attempt,
{
    if attempt <= 0 {
        200
    } else {
        2 * spec_backoff_ms(attempt - 1)
    }
}

/// The directory client's persistent preference: the mirror that last served
/// a request successfully is tried first on the next lookup.
#[derive(Debug, Clone)]
pub struct RadioBrowserClient {
    pub last_server: Option<String>,
}

impl RadioBrowserClient {
    /// A client that will first prefer the given mirror, if any.
    pub fn new(last_server: Option<String>) -> (r: Self)
        ensures
            r.last_server == last_server,
    {
        RadioBrowserClient { last_server }
    }

    /// The mirror that last served a request successfully.
    pub fn last_server(&self) -> (r: Option<String>)
        ensures
            r == self.last_server,
    {
        match &self.last_server {
            Some(s) => Some(s.clone()),
            None => None,
        }
    }

    /// Remember the mirror that just served a request.
    pub fn record_success(&mut self, server: String)
        ensures
            final(self).last_server == Some(server),
    {
        self.last_server = Some(server);
    }

    /// Arrange the mirror pool for one lookup: shuffle it, then move the
    /// last successfully used mirror (when the pool holds it) to the front.
    #[verifier::rlimit(50)]
    #[verifier::loop_isolation(false)]
    pub fn arrange_mirrors(&self, servers: Vec<String>) -> (r: Vec<String>)
        ensures
            r@.len() == servers@.len(),
            strs_view(r@).to_multiset() == strs_view(servers@).to_multiset(),
            (match self.last_server {
                Some(ls) => strs_view(servers@).contains(ls@) ==> r@.len() > 0 && r@[0]@ == ls@,
                None => true,
            }),
    {
        broadcast use vstd::seq_lib::group_to_multiset_ensures;
        broadcast use vstd::multiset::group_multiset_axioms;

        let ghost orig = strs_view(servers@);
        let mut pool = servers;
        shuffle_strings(&mut pool);
        let ghost shuffled = strs_view(pool@);
        if let Some(ls) = &self.last_server {
            let n = pool.len();
            let mut i: usize = 0;
            while i < n
                invariant
                    n == pool@.len(),
                    n == orig.len(),
                    0 <= i <= n,
                    strs_view(pool@) == shuffled,
                    shuffled.to_multiset() == orig.to_multiset(),
                    forall|j: int| 0 <= j < i ==> shuffled[j] != ls@,
                decreases n - i,
            {
                if str_eq(pool[i].as_str(), ls.as_str()) {
                    proof {
                        assert(shuffled[i as int] == ls@);
                    }
                    let x = pool.remove(i);
                    let ghost mid = strs_view(pool@);
                    proof {
                        assert(x@ == shuffled[i as int]);
                        assert(mid =~= shuffled.remove(i as int));
                        assert(mid.to_multiset() == shuffled.to_multiset().remove(x@));
                    }
                    pool.insert(0, x);
                    proof {
                        let after = strs_view(pool@);
                        assert(after =~= mid.insert(0, x@));
                        vstd::seq_lib::to_multiset_insert(mid, 0, x@);
                        assert(after.to_multiset() == mid.to_multiset().insert(x@));
                        assert(shuffled.to_multiset().count(x@) > 0) by {
                            assert(shuffled.contains(x@)) by {
                                assert(shuffled[i as int] == x@);
                            }
                        }
                        assert(after.to_multiset() =~= shuffled.to_multiset());
                        assert(after[0] == x@);
                        assert(pool@.len() == mid.len() + 1);
                        assert(mid.len() == n - 1);
                        assert(after.to_multiset() == orig.to_multiset());
                    }
                    return pool;
                }
                i += 1;
            }
            proof {
                if orig.contains(ls@) {
                    assert(orig.to_multiset().count(ls@) > 0);
                    assert(shuffled.to_multiset().count(ls@) > 0);
                    assert(shuffled.contains(ls@));
                    let k = choose|k: int| 0 <= k < shuffled.len() && shuffled[k] == ls@;
                    assert(false);
                }
            }
        }
        pool
    }
}

/// Relies on rand's `SliceRandom::shuffle` (an in-place Fisher–Yates
/// permutation driven by the thread-local generator): the vector afterwards
/// holds the same strings rearranged; which arrangement comes back is not a
/// function of the input.
#[verifier::external_body]
fn shuffle_strings(v: &mut Vec<String>)
    ensures
        final(v)@.len() == old(v)@.len(),
        strs_view(final(v)@).to_multiset() == strs_view(old(v)@).to_multiset(),
{
    v.shuffle(&mut rand::thread_rng());
}

/// One lookup's walk over the arranged mirror pool: which mirror each
/// attempt goes to, and how long to back off after each failure.
#[derive(Debug, Clone)]
pub struct MirrorAttempts {
    pub mirrors: Vec<String>,
    pub attempt: u32,
}

impl MirrorAttempts {
    pub open spec fn wf(self) -> bool {
        self.mirrors@.len() > 0 && self.attempt <= 4
    }

    /// Begin a lookup over a non-empty arranged pool.
    pub fn start(mirrors: Vec<String>) -> (r: Self)
        requires
            mirrors@.len() > 0,
        ensures
            r.mirrors == mirrors,
            r.attempt == 0,
            r.wf(),
    {
        MirrorAttempts { mirrors, attempt: 0 }
    }

    /// The mirror the current attempt goes to — the pool in rotation,
    /// wrapping when it is smaller than the attempt budget — or `None` when
    /// the budget is spent.
    pub fn next_attempt(&self) -> (r: Option<String>)
        requires
            self.wf(),
        ensures
            match r {
                Some(srv) => self.attempt < 4 && srv@ == strs_view(self.mirrors@)[(
                self.attempt as int) % (self.mirrors@.len() as int)],
                None => self.attempt >= 4,
            },
    {
        if self.attempt >= MAX_ATTEMPTS {
            return None;
        }
        let idx = (self.attempt as usize) % self.mirrors.len();
        Some(self.mirrors[idx].clone())
    }

    /// Record that the current attempt failed. Returns the backoff to sleep
    /// before the next attempt, or `None` when the budget is now spent.
    pub fn record_failure(&mut self) -> (r: Option<u64>)
        requires
            old(self).wf(),
            old(self).attempt < 4,
        ensures
            final(self).mirrors == old(self).mirrors,
            final(self).attempt == old(self).attempt + 1,
            final(self).wf(),
            old(self).attempt + 1 < 4 ==> (r matches Some(ms) && ms == spec_backoff_ms(
                old(self).attempt as int,
            )),
            old(self).attempt + 1 == 4 ==> r is None,
    {
        let a = self.attempt;
        self.attempt = a + 1;
        if a + 1 >= MAX_ATTEMPTS {
            return None;
        }
        let ms: u64 = if a == 0 {
            200
        } else if a == 1 {
            400
        } else {
            800
        };
        proof {
            assert(spec_backoff_ms(0) == 200);
            assert(spec_backoff_ms(1) == 400);
            assert(spec_backoff_ms(2) == 800);
        }
        Some(ms)
    }
}

/// Law (mirror failover): over a pool of exactly four mirrors the four
/// attempts visit the four mirrors in arrangement order — so when the first
/// three fail and the fourth succeeds, the mirror recorded as successful is
/// the fourth of the arrangement, and `arrange_mirrors` then puts it first
/// on the next lookup. The backoffs slept between the attempts are 200, 400
/// and 800 ms.
pub proof fn lemma_failover_schedule(mirrors: Seq<Seq<char>>)
    requires
        mirrors.len() == 4,
    ensures
        forall|k: int| 0 <= k < 4 ==> #[trigger] (k % (mirrors.len() as int)) == k,
        spec_backoff_ms(0) == 200,
        spec_backoff_ms(1) == 400,
        spec_backoff_ms(2) == 800,
{
}

} // verus!
