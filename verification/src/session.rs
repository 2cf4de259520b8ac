//! Session API client logic: how a response is classified, how the client
//! re-authenticates after its session expires, and the texts it builds.

use vstd::prelude::*;
use vstd::slice::slice_subrange;

use crate::models::SessionResponse;
use crate::parsed_url::{parse_url, url_accepts, ParsedUrl};
use crate::text::{chars_eq, chars_of, concat2, decimal, decimal_string};

verus! {

/// How this session client authenticates with the controller.
#[derive(Debug, Clone, Copy, PartialEq, Eq, Structural)]
pub enum SessionAuth {
    /// Real session cookie from username/password login.
    Cookie,
    /// API key passed via `X-API-KEY` header (no session cookie).
    ApiKey,
}

/// Failures of Session API requests.
#[derive(Debug)]
pub enum Error {
    /// Login failed or a credential was rejected.
    Authentication { message: String },
    /// The API key was rejected.
    InvalidApiKey,
    /// The session cookie is no longer valid.
    SessionExpired,
    /// The controller reported an error.
    SessionApi { message: String },
    /// A response body could not be decoded.
    Deserialization { message: String, body: String },
}

/// The error a 401 stands for under the active authentication.
pub open spec fn unauthorized(auth: SessionAuth) -> Error {
    match auth {
        SessionAuth::Cookie => Error::SessionExpired,
        SessionAuth::ApiKey => Error::InvalidApiKey,
    }
}

impl SessionAuth {
    /// Classify a session 401: cookie clients see an expired session, API-key
    /// clients a rejected key.
    pub fn unauthorized_error(&self) -> (e: Error)
        ensures
            e == unauthorized(*self),
    {
        match self {
            SessionAuth::Cookie => Error::SessionExpired,
            SessionAuth::ApiKey => Error::InvalidApiKey,
        }
    }
}

// ── Texts of bodies ─────────────────────────────────────────────────

/// The text that `String::from_utf8_lossy` makes of `bytes`.
pub uninterp spec fn utf8_lossy_text(bytes: Seq<u8>) -> Seq<char>;

/// Calls `String::from_utf8_lossy`; the contract says only that the result
/// is the named lossy decoding of the bytes.
#[verifier::external_body]
pub(crate) fn utf8_lossy(bytes: &[u8]) -> (s: String)
    ensures
        s@ == utf8_lossy_text(bytes@),
{
    String::from_utf8_lossy(bytes).into_owned()
}

/// The text that `<str as Debug>` writes for `s` (quoted and escaped).
pub uninterp spec fn str_debug_text(s: Seq<char>) -> Seq<char>;

/// Formats `s` with `<str as Debug>`; the contract names the result.
#[verifier::external_body]
fn debug_str(s: &str) -> (r: String)
    ensures
        r@ == str_debug_text(s@),
{
    format!("{s:?}")
}

/// The first (at most) 200 bytes of a body.
pub open spec fn preview_bytes(body: Seq<u8>) -> Seq<u8> {
    if body.len() <= 200 {
        body
    } else {
        body.take(200)
    }
}

/// First ~200 bytes of a response body for error messages, decoded lossily
/// so a cut multi-byte character cannot fail.
pub fn body_preview(body: &[u8]) -> (s: String)
    ensures
        s@ == utf8_lossy_text(preview_bytes(body@)),
{
    let n = if body.len() <= 200 { body.len() } else { 200 };
    let head = slice_subrange(body, 0, n);
    proof {
        if body@.len() <= 200 {
            assert(head@ =~= body@);
        } else {
            assert(head@ =~= body@.take(200));
        }
    }
    utf8_lossy(head)
}

// ── Envelope classification ─────────────────────────────────────────

/// The `error` object of a UniFi OS error response
/// (`{"error":{"code":N,"message":"..."}}`, sent with HTTP 200).
#[derive(Debug, Clone)]
pub struct UnifiOsErrorInner {
    pub code: u16,
    pub message: Option<String>,
}

/// The records of `data` that decoded, in order.
pub open spec fn decoded_items<T>(records: Seq<Result<T, String>>) -> Seq<T>
    decreases records.len(),
{
    if records.len() == 0 {
        Seq::empty()
    } else {
        let rest = decoded_items(records.drop_last());
        match records.last() {
            Ok(item) => rest.push(item),
            Err(_) => rest,
        }
    }
}

/// Whether some record of `data` failed to decode.
pub open spec fn some_failed<T>(records: Seq<Result<T, String>>) -> bool {
    exists|i: int| 0 <= i < records.len() && records[i] is Err
}

/// Index of the first record that failed to decode.
pub open spec fn first_failure<T>(records: Seq<Result<T, String>>, i: int) -> bool {
    &&& 0 <= i < records.len()
    &&& records[i] is Err
    &&& forall|j: int| 0 <= j < i ==> records[j] is Ok
}

/// An error carrying a `SessionApi` message equal to `m`.
pub open spec fn is_api_error(e: Error, m: Seq<char>) -> bool {
    e matches Error::SessionApi { message } && message@ == m
}

/// An error carrying a `Deserialization` message `m` and body `b`.
pub open spec fn is_decode_error(e: Error, m: Seq<char>, b: Seq<char>) -> bool {
    e matches Error::Deserialization { message, body } && message@ == m && body@ == b
}

/// Whether an HTTP status is a success (2xx).
pub open spec fn is_success(status: u16) -> bool {
    200 <= status < 300
}

/// The message of a UniFi OS error object, empty when absent.
pub open spec fn os_message(err: UnifiOsErrorInner) -> Seq<char> {
    match err.message {
        Some(m) => m@,
        None => Seq::empty(),
    }
}

/// What a UniFi OS error object (sent with HTTP 200) is reported as.
pub open spec fn os_error_holds(auth: SessionAuth, err: UnifiOsErrorInner, e: Error) -> bool {
    let msg = os_message(err);
    if err.code == 401 {
        if msg.len() == 0 {
            e == unauthorized(auth)
        } else {
            match auth {
                SessionAuth::Cookie => e == Error::SessionExpired,
                SessionAuth::ApiKey => e matches Error::Authentication { message } && message@
                    == "API key rejected: "@ + msg,
            }
        }
    } else {
        is_api_error(e, "UniFi OS error "@ + decimal(err.code as nat) + ": "@ + msg)
    }
}

/// Unwraps a Session API response.
///
/// `status_text` is the status as the HTTP client displays it, `body` the
/// raw body, `os_error` the error object when the body has the UniFi OS
/// error shape, and `envelope` the decoded `{meta, data}` envelope with each
/// record decoded on its own (or the text of the envelope's decoding error).
/// A 401 is classified by the authentication in use, a 403 and any other
/// non-2xx status are API errors, then a UniFi OS error object, a broken
/// envelope and an `rc` other than `"ok"`; otherwise the records that decode
/// are returned, and only if none decodes and some failed is that an error.
pub fn parse_envelope<T>(
    auth: SessionAuth,
    status: u16,
    status_text: &str,
    body: &[u8],
    os_error: Option<UnifiOsErrorInner>,
    envelope: Result<SessionResponse<Result<T, String>>, String>,
) -> (r: Result<Vec<T>, Error>)
    ensures
        status == 401 ==> r == Err::<Vec<T>, Error>(unauthorized(auth)),
        status == 403 ==> (r matches Err(e) && is_api_error(e, "insufficient permissions (HTTP 403)"@)),
        status != 401 && status != 403 && !is_success(status) ==> (r matches Err(e) && is_api_error(
            e,
            "HTTP "@ + status_text@ + ": "@ + utf8_lossy_text(preview_bytes(body@)),
        )),
        is_success(status) && os_error is Some ==> (r matches Err(e) && os_error_holds(auth, os_error->0, e)),
        is_success(status) && os_error is None ==> match envelope {
            Err(text) => r matches Err(e) && is_decode_error(
                e,
                text@ + " (body preview: "@ + str_debug_text(utf8_lossy_text(preview_bytes(body@))) + ")"@,
                utf8_lossy_text(body@),
            ),
            Ok(env) => if env.meta.rc@ != "ok"@ {
                r matches Err(e) && is_api_error(
                    e,
                    match env.meta.msg {
                        Some(m) => m@,
                        None => "rc="@ + env.meta.rc@,
                    },
                )
            } else if decoded_items(env.data@).len() == 0 && some_failed(env.data@) {
                r matches Err(e) && exists|i: int|
                    first_failure(env.data@, i) && is_decode_error(
                        e,
                        env.data@[i]->Err_0@ + " (all "@ + decimal(env.data@.len()) + " records failed to decode)"@,
                        utf8_lossy_text(body@),
                    )
            } else {
                r matches Ok(items) && items@ == decoded_items(env.data@)
            },
        },
{
    if status == 401 {
        return Err(auth.unauthorized_error());
    }
    if status == 403 {
        return Err(Error::SessionApi { message: String::from_str("insufficient permissions (HTTP 403)") });
    }
    if !(200 <= status && status < 300) {
        let preview = body_preview(body);
        let a = concat2("HTTP ", status_text);
        let b = concat2(a.as_str(), ": ");
        let message = concat2(b.as_str(), preview.as_str());
        return Err(Error::SessionApi { message });
    }
    if let Some(err) = os_error {
        let msg: String = match err.message {
            Some(m) => m,
            None => String::new(),
        };
        if err.code == 401 {
            if msg.as_str().is_empty() {
                return Err(auth.unauthorized_error());
            }
            return match auth {
                SessionAuth::Cookie => Err(Error::SessionExpired),
                SessionAuth::ApiKey => Err(Error::Authentication { message: concat2("API key rejected: ", msg.as_str()) }),
            };
        }
        let code = decimal_string(err.code as u64);
        let a = concat2("UniFi OS error ", code.as_str());
        let b = concat2(a.as_str(), ": ");
        return Err(Error::SessionApi { message: concat2(b.as_str(), msg.as_str()) });
    }
    let env = match envelope {
        Err(text) => {
            let preview = body_preview(body);
            let quoted = debug_str(preview.as_str());
            let a = concat2(text.as_str(), " (body preview: ");
            let b = concat2(a.as_str(), quoted.as_str());
            let message = concat2(b.as_str(), ")");
            return Err(Error::Deserialization { message, body: utf8_lossy(body) });
        },
        Ok(env) => env,
    };
    let rc = chars_of(env.meta.rc.as_str());
    let ok = chars_of("ok");
    if !chars_eq(&rc, &ok) {
        let message = match env.meta.msg {
            Some(m) => m,
            None => concat2("rc=", env.meta.rc.as_str()),
        };
        return Err(Error::SessionApi { message });
    }
    let ghost data = env.data@;
    let total = env.data.len();
    let mut items: Vec<T> = Vec::new();
    let mut first_error: Option<String> = None;
    let ghost mut first_at: int = -1;
    for x in it: env.data.into_iter()
        invariant
            it.seq() == data,
            items@ == decoded_items(data.take(it.index() as int)),
            first_error is None ==> forall|j: int| 0 <= j < it.index() ==> data[j] is Ok,
            first_error is Some ==> first_failure(data, first_at) && first_at < it.index()
                && first_error->0@ == data[first_at]->Err_0@,
    {
        let ghost k = it.index() as int;
        proof {
            assert(data.take(k + 1).drop_last() =~= data.take(k));
        }
        match x {
            Ok(item) => {
                items.push(item);
            },
            Err(text) => {
                if first_error.is_none() {
                    proof {
                        first_at = k;
                    }
                    first_error = Some(text);
                }
            },
        }
    }
    proof {
        assert(data.take(data.len() as int) =~= data);
    }
    if items.len() == 0 {
        if let Some(text) = first_error {
            let count = decimal_string(total as u64);
            let a = concat2(text.as_str(), " (all ");
            let b = concat2(a.as_str(), count.as_str());
            let message = concat2(b.as_str(), " records failed to decode)");
            return Err(Error::Deserialization { message, body: utf8_lossy(body) });
        }
    }
    Ok(items)
}

/// Classifies the response to a raw request (one whose body is plain JSON
/// rather than the `{meta, data}` envelope): a 401 is classified by the
/// authentication in use, any other non-2xx status is an API error with a
/// body preview, and a 2xx body is the decoded value, or a decoding error
/// (`parsed` carries the decoder's message) holding the whole body.
pub fn classify_raw<V>(
    auth: SessionAuth,
    status: u16,
    status_text: &str,
    body: &[u8],
    parsed: Result<V, String>,
) -> (r: Result<V, Error>)
    ensures
        status == 401 ==> r == Err::<V, Error>(unauthorized(auth)),
        status != 401 && !is_success(status) ==> (r matches Err(e) && is_api_error(
            e,
            "HTTP "@ + status_text@ + ": "@ + utf8_lossy_text(preview_bytes(body@)),
        )),
        status != 401 && is_success(status) ==> match parsed {
            Ok(v) => r == Ok::<V, Error>(v),
            Err(text) => r matches Err(e) && is_decode_error(e, text@, utf8_lossy_text(body@)),
        },
{
    if status == 401 {
        return Err(auth.unauthorized_error());
    }
    if !(200 <= status && status < 300) {
        let preview = body_preview(body);
        let a = concat2("HTTP ", status_text);
        let b = concat2(a.as_str(), ": ");
        let message = concat2(b.as_str(), preview.as_str());
        return Err(Error::SessionApi { message });
    }
    match parsed {
        Ok(v) => Ok(v),
        Err(message) => Err(Error::Deserialization { message, body: utf8_lossy(body) }),
    }
}

} // verus!

// ── Re-authentication bookkeeping ───────────────────────────────────

verus! {

/// Minimum spacing (ms) between re-login attempts after a failure.
pub const REAUTH_COOLDOWN_MS: u64 = 30000;

/// A re-login this recent (ms) counts as already done for callers that hit
/// the same expiry.
pub const REAUTH_FRESH_MS: u64 = 5000;

/// Re-login state of a session client: the retained credentials and the
/// times (ms on a monotonic clock) of the last attempt and last success.
#[derive(Debug)]
pub struct ReauthSlot<C> {
    pub credentials: Option<C>,
    pub last_attempt_ms: Option<u64>,
    pub last_success_ms: Option<u64>,
}

/// How a request that found its session expired proceeds.
#[derive(Debug, Clone, Copy, PartialEq, Eq, Structural)]
pub enum ReauthStart {
    /// No re-login: the request's failure stands.
    Refused,
    /// Another caller re-logged in moments ago: retry the request.
    AlreadyFresh,
    /// Log in again now, then report the outcome.
    Login,
}

/// Time elapsed from `at` to `now`, zero when `at` lies ahead.
pub open spec fn elapsed(now: u64, at: u64) -> int {
    if now >= at {
        now - at
    } else {
        0
    }
}

/// `at` happened less than `window` ms before `now`.
pub open spec fn within(now: u64, at: Option<u64>, window: u64) -> bool {
    at matches Some(t) && elapsed(now, t) < window
}

/// The decision taken when a request finds its session expired.
pub open spec fn reauth_start<C>(auth: SessionAuth, slot: ReauthSlot<C>, now: u64) -> ReauthStart {
    if auth != SessionAuth::Cookie || slot.credentials is None {
        ReauthStart::Refused
    } else if within(now, slot.last_success_ms, REAUTH_FRESH_MS) {
        ReauthStart::AlreadyFresh
    } else if within(now, slot.last_attempt_ms, REAUTH_COOLDOWN_MS) {
        ReauthStart::Refused
    } else {
        ReauthStart::Login
    }
}

/// The slot after that decision: a login stamps the attempt time.
pub open spec fn slot_after_start<C>(auth: SessionAuth, slot: ReauthSlot<C>, now: u64) -> ReauthSlot<C> {
    if reauth_start(auth, slot, now) == ReauthStart::Login {
        ReauthSlot { last_attempt_ms: Some(now), ..slot }
    } else {
        slot
    }
}

/// Whether a finished login took: it succeeded and, where the client keeps
/// a cookie jar, left a session cookie different from the stale one.
pub open spec fn login_took(login_ok: bool, has_cookie_jar: bool, stale: Option<Seq<char>>, fresh: Option<Seq<char>>) -> bool {
    login_ok && !(has_cookie_jar && (fresh is None || fresh == stale))
}

/// The slot after a login that started at `now` finished.
pub open spec fn slot_after_login<C>(slot: ReauthSlot<C>, now: u64, took: bool) -> ReauthSlot<C> {
    if took {
        ReauthSlot { last_attempt_ms: None, last_success_ms: Some(now), ..slot }
    } else {
        slot
    }
}

fn elapsed_exec(now: u64, at: u64) -> (e: u64)
    ensures
        e == elapsed(now, at),
{
    if now >= at { now - at } else { 0 }
}

fn view_opt(s: &Option<String>) -> (v: Option<Vec<char>>)
    ensures
        match s {
            Some(t) => v matches Some(w) && w@ == t@,
            None => v is None,
        },
{
    match s {
        Some(t) => Some(chars_of(t.as_str())),
        None => None,
    }
}

/// The text views of an optional string.
pub open spec fn opt_view(s: Option<String>) -> Option<Seq<char>> {
    match s {
        Some(t) => Some(t@),
        None => None,
    }
}

/// Decides how a request that found its session expired proceeds, and
/// stamps the attempt time when a login starts. API-key clients and clients
/// without retained credentials never re-login; a success less than 5 s old
/// is shared; a failed attempt less than 30 s old blocks another.
pub fn begin_reauth<C>(auth: SessionAuth, slot: &mut ReauthSlot<C>, now_ms: u64) -> (r: ReauthStart)
    ensures
        r == reauth_start(auth, *old(slot), now_ms),
        *final(slot) == slot_after_start(auth, *old(slot), now_ms),
{
    if auth != SessionAuth::Cookie || slot.credentials.is_none() {
        return ReauthStart::Refused;
    }
    if let Some(at) = slot.last_success_ms {
        if elapsed_exec(now_ms, at) < REAUTH_FRESH_MS {
            return ReauthStart::AlreadyFresh;
        }
    }
    if let Some(at) = slot.last_attempt_ms {
        if elapsed_exec(now_ms, at) < REAUTH_COOLDOWN_MS {
            return ReauthStart::Refused;
        }
    }
    slot.last_attempt_ms = Some(now_ms);
    ReauthStart::Login
}

/// Records the outcome of a login that `begin_reauth` started at `now_ms`
/// and tells whether the session was re-authenticated. A login that failed,
/// or that left no new session cookie in the client's jar, keeps the
/// attempt stamp (so the cooldown throttles it); one that took clears the
/// stamp and records the success.
pub fn finish_reauth<C>(
    slot: &mut ReauthSlot<C>,
    now_ms: u64,
    login_ok: bool,
    has_cookie_jar: bool,
    stale_cookie: &Option<String>,
    fresh_cookie: &Option<String>,
) -> (took: bool)
    ensures
        took == login_took(login_ok, has_cookie_jar, opt_view(*stale_cookie), opt_view(*fresh_cookie)),
        *final(slot) == slot_after_login(*old(slot), now_ms, took),
        !login_ok ==> !took,
        login_ok && !has_cookie_jar ==> took,
        login_ok && fresh_cookie is Some && opt_view(*fresh_cookie) != opt_view(*stale_cookie) ==> took,
        has_cookie_jar && (fresh_cookie is None || opt_view(*fresh_cookie) == opt_view(*stale_cookie)) ==> !took,
        took ==> final(slot).last_success_ms == Some(now_ms) && final(slot).last_attempt_ms is None
            && final(slot).credentials == old(slot).credentials,
        !took ==> *final(slot) == *old(slot),
{
    if !login_ok {
        return false;
    }
    if has_cookie_jar {
        let stale = view_opt(stale_cookie);
        let fresh = view_opt(fresh_cookie);
        let same = match (&fresh, &stale) {
            (Some(f), Some(s)) => chars_eq(f, s),
            (None, None) => true,
            _ => false,
        };
        if fresh.is_none() || same {
            return false;
        }
    }
    slot.last_attempt_ms = None;
    slot.last_success_ms = Some(now_ms);
    true
}

/// A login takes exactly when it succeeded and, for a client with a cookie
/// jar, left a session cookie that differs from the stale one; a login that
/// took records the success and clears the attempt stamp, and one that did
/// not leaves the slot as it was.
pub proof fn law_login_takes_with_a_new_cookie<C>(
    slot: ReauthSlot<C>,
    now: u64,
    login_ok: bool,
    has_cookie_jar: bool,
    stale: Option<Seq<char>>,
    fresh: Option<Seq<char>>,
)
    ensures
        !login_ok ==> !login_took(login_ok, has_cookie_jar, stale, fresh),
        login_ok && !has_cookie_jar ==> login_took(login_ok, has_cookie_jar, stale, fresh),
        login_ok && fresh is Some && fresh != stale ==> login_took(login_ok, has_cookie_jar, stale, fresh),
        has_cookie_jar && (fresh is None || fresh == stale) ==> !login_took(login_ok, has_cookie_jar, stale, fresh),
        slot_after_login(slot, now, true).last_success_ms == Some(now),
        slot_after_login(slot, now, true).last_attempt_ms is None,
        slot_after_login(slot, now, true).credentials == slot.credentials,
        slot_after_login(slot, now, false) == slot,
{
}

/// A login that took does not arm the failure cooldown: a later expiry,
/// once the success is 5 s old, logs in again.
pub proof fn law_success_does_not_arm_cooldown<C>(slot: ReauthSlot<C>, t: u64, now: u64)
    requires
        slot.credentials is Some,
        t <= now,
        now - t >= REAUTH_FRESH_MS,
    ensures
        reauth_start(SessionAuth::Cookie, slot_after_login(slot, t, true), now) == ReauthStart::Login,
{
}

/// A login that failed blocks another attempt for 30 s, unless a success
/// less than 5 s old is shared instead.
pub proof fn law_failed_login_throttles<C>(slot: ReauthSlot<C>, t: u64, now: u64)
    requires
        reauth_start(SessionAuth::Cookie, slot, t) == ReauthStart::Login,
        t <= now,
        now - t < REAUTH_COOLDOWN_MS,
    ensures
        reauth_start(
            SessionAuth::Cookie,
            slot_after_login(slot_after_start(SessionAuth::Cookie, slot, t), t, false),
            now,
        ) != ReauthStart::Login,
{
}

/// Concurrent callers hitting the same expiry share one login: within 5 s
/// of a success, no caller logs in again.
pub proof fn law_fresh_success_is_shared<C>(slot: ReauthSlot<C>, t: u64, now: u64)
    requires
        slot.credentials is Some,
        t <= now,
        now - t < REAUTH_FRESH_MS,
    ensures
        reauth_start(SessionAuth::Cookie, slot_after_login(slot, t, true), now) == ReauthStart::AlreadyFresh,
{
}

/// An API-key client never re-authenticates and its slot never changes.
pub proof fn law_api_key_never_relogs<C>(slot: ReauthSlot<C>, now: u64)
    ensures
        reauth_start(SessionAuth::ApiKey, slot, now) == ReauthStart::Refused,
        slot_after_start(SessionAuth::ApiKey, slot, now) == slot,
{
}

} // verus!

// ── Cookies ─────────────────────────────────────────────────────────

verus! {

/// The pieces of `s` between occurrences of `sep`, as `str::split` yields
/// them (an empty text is one empty piece).
pub open spec fn split_on(s: Seq<char>, sep: char) -> Seq<Seq<char>>
    decreases s.len(),
{
    if s.len() == 0 {
        seq![Seq::empty()]
    } else {
        let rest = split_on(s.drop_last(), sep);
        if s.last() == sep {
            rest.push(Seq::empty())
        } else {
            rest.update(rest.len() - 1, rest.last().push(s.last()))
        }
    }
}

proof fn lemma_split_nonempty(s: Seq<char>, sep: char)
    ensures
        split_on(s, sep).len() >= 1,
    decreases s.len(),
{
    if s.len() > 0 {
        lemma_split_nonempty(s.drop_last(), sep);
    }
}

/// `i` is the first position of `c` in `s`.
pub open spec fn first_at(s: Seq<char>, c: char, i: int) -> bool {
    0 <= i < s.len() && s[i] == c && forall|j: int| 0 <= j < i ==> s[j] != c
}

/// The name of a `name=value` cookie pair: the trimmed pair up to its first
/// `=`, or `None` when the pair holds no `=`.
pub open spec fn cookie_name(pair: Seq<char>) -> Option<Seq<char>> {
    let p = crate::text::trim(pair);
    if exists|i: int| 0 <= i < p.len() && p[i] == '=' {
        Some(p.take(choose|i: int| first_at(p, '=', i)))
    } else {
        None
    }
}

/// The names of the pairs, in order, skipping pairs without a name.
pub open spec fn names_of(pairs: Seq<Seq<char>>) -> Seq<Seq<char>>
    decreases pairs.len(),
{
    if pairs.len() == 0 {
        Seq::empty()
    } else {
        let rest = names_of(pairs.drop_last());
        match cookie_name(pairs.last()) {
            Some(n) => rest.push(n),
            None => rest,
        }
    }
}

/// The cookie names in a `Cookie` header (`a=1; b=2`).
pub open spec fn cookie_names(header: Seq<char>) -> Seq<Seq<char>> {
    names_of(split_on(header, ';'))
}

/// The `Set-Cookie` value that expires the cookie `name`.
pub open spec fn expiry_of(name: Seq<char>) -> Seq<char> {
    name + "=; Path=/; Max-Age=0"@
}

fn split_semicolons(s: &Vec<char>) -> (parts: Vec<Vec<char>>)
    ensures
        parts@.map_values(|p: Vec<char>| p@) == split_on(s@, ';'),
{
    let mut done: Vec<Vec<char>> = Vec::new();
    let mut cur: Vec<char> = Vec::new();
    let mut i: usize = 0;
    while i < s.len()
        invariant
            i <= s@.len(),
            split_on(s@.take(i as int), ';') == done@.map_values(|p: Vec<char>| p@).push(cur@),
        decreases s@.len() - i,
    {
        proof {
            assert(s@.take(i + 1).drop_last() =~= s@.take(i as int));
            assert(s@.take(i + 1).last() == s@[i as int]);
            lemma_split_nonempty(s@.take(i as int), ';');
        }
        let ghost before = done@.map_values(|p: Vec<char>| p@);
        if s[i] == ';' {
            let finished = cur;
            done.push(finished);
            cur = Vec::new();
            assert(done@.map_values(|p: Vec<char>| p@) =~= before.push(finished@));
        } else {
            cur.push(s[i]);
        }
        i = i + 1;
        assert(done@.map_values(|p: Vec<char>| p@).push(cur@) =~= split_on(s@.take(i as int), ';'));
    }
    assert(s@.take(s@.len() as int) =~= s@);
    done.push(cur);
    assert(done@.map_values(|p: Vec<char>| p@) =~= split_on(s@, ';'));
    done
}

fn name_of_pair(pair: &Vec<char>) -> (r: Option<Vec<char>>)
    ensures
        match cookie_name(pair@) {
            Some(n) => r matches Some(v) && v@ == n,
            None => r is None,
        },
{
    let p = crate::text::trim_chars(pair);
    let mut k: usize = 0;
    while k < p.len()
        invariant
            k <= p@.len(),
            p@ == crate::text::trim(pair@),
            forall|j: int| 0 <= j < k ==> p@[j] != '=',
        decreases p@.len() - k,
    {
        if p[k] == '=' {
            let mut name: Vec<char> = Vec::new();
            let mut j: usize = 0;
            while j < k
                invariant
                    j <= k < p@.len(),
                    name@ == p@.take(j as int),
                decreases k - j,
            {
                name.push(p[j]);
                j = j + 1;
                assert(name@ =~= p@.take(j as int));
            }
            proof {
                assert(first_at(p@, '=', k as int));
                let c = choose|i: int| first_at(p@, '=', i);
                assert(first_at(p@, '=', c));
                assert(c == k);
                assert(p@[k as int] == '=');
                assert(exists|i: int| 0 <= i < p@.len() && p@[i] == '=');
                assert(cookie_name(pair@) == Some(p@.take(k as int)));
            }
            return Some(name);
        }
        k = k + 1;
    }
    None
}

/// The `Set-Cookie` values that expire every cookie named in a `Cookie`
/// header, in header order; pairs without `=` are skipped.
pub fn expired_cookie_values(header: &str) -> (r: Vec<String>)
    ensures
        r@.map_values(|s: String| s@) == cookie_names(header@).map_values(|n: Seq<char>| expiry_of(n)),
{
    let chars = chars_of(header);
    let parts = split_semicolons(&chars);
    let ghost pv = parts@.map_values(|p: Vec<char>| p@);
    let mut out: Vec<String> = Vec::new();
    let suffix = chars_of("=; Path=/; Max-Age=0");
    let mut i: usize = 0;
    while i < parts.len()
        invariant
            i <= parts@.len(),
            pv == parts@.map_values(|p: Vec<char>| p@),
            suffix@ == "=; Path=/; Max-Age=0"@,
            out@.map_values(|s: String| s@) == names_of(pv.take(i as int)).map_values(|n: Seq<char>| expiry_of(n)),
        decreases parts@.len() - i,
    {
        proof {
            assert(pv.take(i + 1).drop_last() =~= pv.take(i as int));
            assert(pv.take(i + 1).last() == parts@[i as int]@);
        }
        let ghost before = out@.map_values(|s: String| s@);
        match name_of_pair(&parts[i]) {
            Some(mut name) => {
                let ghost n = name@;
                crate::text::append_chars(&mut name, &suffix);
                let text = crate::text::string_from_chars(&name);
                out.push(text);
                assert(out@.map_values(|s: String| s@) =~= before.push(expiry_of(n)));
            },
            None => {},
        }
        i = i + 1;
        assert(out@.map_values(|s: String| s@) =~= names_of(pv.take(i as int)).map_values(|n: Seq<char>| expiry_of(n)));
    }
    assert(pv.take(pv.len() as int) =~= pv);
    out
}

} // verus!

// ── URLs and CSRF ───────────────────────────────────────────────────

verus! {

/// The text of a controller URL: the base and the platform prefix (each
/// without trailing slashes), then `middle` and `path`.
pub open spec fn url_text(base: Seq<char>, prefix: Option<Seq<char>>, middle: Seq<char>, path: Seq<char>) -> Seq<char> {
    let p = match prefix {
        Some(p) => p,
        None => Seq::empty(),
    };
    crate::text::strip_trailing(base, '/') + crate::text::strip_trailing(p, '/') + middle + path
}

/// Builds the text of a controller URL.
pub fn build_url_text(base: &str, prefix: Option<&str>, middle: &str, path: &str) -> (s: String)
    ensures
        s@ == url_text(base@, match prefix { Some(p) => Some(p@), None => None }, middle@, path@),
{
    let b = chars_of(base);
    let mut out = crate::text::strip_trailing_chars(&b, '/');
    let p: Vec<char> = match prefix {
        Some(p) => chars_of(p),
        None => Vec::new(),
    };
    let p = crate::text::strip_trailing_chars(&p, '/');
    crate::text::append_chars(&mut out, &p);
    let m = chars_of(middle);
    crate::text::append_chars(&mut out, &m);
    let q = chars_of(path);
    crate::text::append_chars(&mut out, &q);
    crate::text::string_from_chars(&out)
}

fn url_from(base: &str, prefix: Option<&str>, middle: &str, path: &str) -> (r: Option<ParsedUrl>)
    ensures
        r is Some == url_accepts(url_text(base@, match prefix { Some(p) => Some(p@), None => None }, middle@, path@)),
        r matches Some(u) ==> u@ == url_text(base@, match prefix { Some(p) => Some(p@), None => None }, middle@, path@),
{
    let text = build_url_text(base, prefix, middle, path);
    parse_url(text.as_str())
}

/// The optional text view of an optional `&str`.
pub open spec fn opt_str(s: Option<&str>) -> Option<Seq<char>> {
    match s {
        Some(p) => Some(p@),
        None => None,
    }
}

/// URL of a controller-level API path: `{base}{prefix}/api/{path}`.
/// `None` where the text is no URL.
pub fn api_url(base: &str, prefix: Option<&str>, path: &str) -> (r: Option<ParsedUrl>)
    ensures
        r is Some == url_accepts(url_text(base@, opt_str(prefix), "/api/"@, path@)),
        r matches Some(u) ==> u@ == url_text(base@, opt_str(prefix), "/api/"@, path@),
{
    url_from(base, prefix, "/api/", path)
}

/// URL of a site-scoped path: `{base}{prefix}/api/s/{site}/{path}`.
pub fn site_url(base: &str, prefix: Option<&str>, site: &str, path: &str) -> (r: Option<ParsedUrl>)
    ensures
        r is Some == url_accepts(url_text(base@, opt_str(prefix), "/api/s/"@ + site@ + "/"@, path@)),
        r matches Some(u) ==> u@ == url_text(base@, opt_str(prefix), "/api/s/"@ + site@ + "/"@, path@),
{
    let a = concat2("/api/s/", site);
    let middle = concat2(a.as_str(), "/");
    url_from(base, prefix, middle.as_str(), path)
}

/// URL of a v2 site-scoped path: `{base}{prefix}/v2/api/site/{site}/{path}`.
pub fn site_url_v2(base: &str, prefix: Option<&str>, site: &str, path: &str) -> (r: Option<ParsedUrl>)
    ensures
        r is Some == url_accepts(url_text(base@, opt_str(prefix), "/v2/api/site/"@ + site@ + "/"@, path@)),
        r matches Some(u) ==> u@ == url_text(base@, opt_str(prefix), "/v2/api/site/"@ + site@ + "/"@, path@),
{
    let a = concat2("/v2/api/site/", site);
    let middle = concat2(a.as_str(), "/");
    url_from(base, prefix, middle.as_str(), path)
}

/// URL of an arbitrary path for the raw requests: `{base}{prefix}/{path}`.
pub fn raw_url(base: &str, prefix: Option<&str>, path: &str) -> (r: Option<ParsedUrl>)
    ensures
        r is Some == url_accepts(url_text(base@, opt_str(prefix), "/"@, path@)),
        r matches Some(u) ==> u@ == url_text(base@, opt_str(prefix), "/"@, path@),
{
    url_from(base, prefix, "/", path)
}

/// The CSRF token a response rotates to. Each argument is `None` when the
/// header is absent and `Some(None)` when its value is not visible ASCII;
/// `X-Updated-CSRF-Token` is preferred whenever it is present.
pub fn rotated_csrf_token(updated: Option<Option<String>>, plain: Option<Option<String>>) -> (r: Option<String>)
    ensures
        r == match updated {
            Some(v) => v,
            None => match plain {
                Some(v) => v,
                None => None,
            },
        },
{
    match updated {
        Some(v) => v,
        None => match plain {
            Some(v) => v,
            None => None,
        },
    }
}

} // verus!
