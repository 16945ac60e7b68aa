//! License entitlement for the modes that need one: what is asked of the
//! license server, what its answers mean, and how long a cached license
//! holds without the server.
//!
//! The exchange with the server belongs to the program; it hands the
//! outcome to the functions here.

use crate::config::DeploymentMode;
use crate::text::{
    chars_of, contains, find_char, find_from, has_substring, lemma_find_char, nth_piece, opt_text,
    piece_bounds, replace_all, replaced, same_text, slice_of, string_of, trim_bounds, trimmed,
    utf8_text,
};
use vstd::utf8::{decode_utf8, valid_utf8};
use vstd::prelude::*;

verus! {

/// How long a request to the license server may take, in seconds.
pub const REQUEST_TIMEOUT_SECONDS: u64 = 30;

/// Where licenses are validated.
pub const VALIDATION_ENDPOINT: &'static str =
    "https://your-vercel-app.vercel.app/api/license/validate";

/// A license as the server issued it.
#[derive(Debug)]
pub struct License {
    pub key: String,
    pub tier: String,
    pub expires_at: String,
    pub organization_name: Option<String>,
}

/// The model of a [`License`].
pub struct LicenseView {
    pub key: Seq<char>,
    pub tier: Seq<char>,
    pub expires_at: Seq<char>,
    pub organization_name: Option<Seq<char>>,
}

impl View for License {
    type V = LicenseView;

    open spec fn view(&self) -> LicenseView {
        LicenseView {
            key: self.key@,
            tier: self.tier@,
            expires_at: self.expires_at@,
            organization_name: opt_text(self.organization_name),
        }
    }
}

/// What is sent to have a license validated.
#[derive(Debug)]
pub struct ValidationRequest {
    pub license_key: String,
    pub server_id: Option<String>,
}

/// What the server says of a license.
#[derive(Debug)]
pub struct ValidationResponse {
    pub valid: bool,
    pub tier: Option<String>,
    pub expires_at: Option<String>,
    pub organization_name: Option<String>,
    pub reason: Option<String>,
}

/// What is sent to start a trial.
#[derive(Debug)]
pub struct TrialRequest {
    pub action: String,
    pub email: String,
    pub tier: String,
}

/// How a request to the license server ended.
pub enum Reply<T> {
    /// The request did not get through; the text says why.
    Unreachable(String),
    /// The server answered with this status. The body counts only under a
    /// status of success; an `Err` says why it could not be read.
    Answered { status: u16, body: Result<T, String> },
}

/// Whether an HTTP status stands for success.
pub open spec fn is_success(status: u16) -> bool {
    200 <= status < 300
}

/// Tests [`is_success`].
pub fn status_is_success(status: u16) -> (ok: bool)
    ensures
        ok == is_success(status),
{
    200 <= status && status < 300
}

/// Whether `mode` may only be entered with a valid license. A spoke needs
/// none: it relies on the hub it talks to.
pub fn requires_license(mode: &DeploymentMode) -> (needed: bool)
    ensures
        needed == (*mode == DeploymentMode::Hub || *mode == DeploymentMode::Enterprise),
{
    match mode {
        DeploymentMode::Hub | DeploymentMode::Enterprise => true,
        _ => false,
    }
}

/// Whether a license of the tier `tier` entitles to `mode`: the tier must
/// match the mode or exceed it. A mode that needs no license is covered by any.
pub open spec fn tier_covers(tier: Seq<char>, mode: DeploymentMode) -> bool {
    match mode {
        DeploymentMode::Hub => tier == "hub"@ || tier == "enterprise"@,
        DeploymentMode::Enterprise => tier == "enterprise"@,
        _ => true,
    }
}

impl License {
    /// Tests [`tier_covers`] for this license's tier.
    pub fn covers(&self, mode: &DeploymentMode) -> (covered: bool)
        ensures
            covered == tier_covers(self.tier@, *mode),
    {
        match mode {
            DeploymentMode::Hub => same_text(self.tier.as_str(), "hub") || same_text(
                self.tier.as_str(),
                "enterprise",
            ),
            DeploymentMode::Enterprise => same_text(self.tier.as_str(), "enterprise"),
            _ => true,
        }
    }
}

/// Whether `tier` is one of the tiers that licenses come in.
pub open spec fn known_tier(tier: Seq<char>) -> bool {
    tier == "hub"@ || tier == "enterprise"@
}

impl LicenseView {
    /// Whether the license is of a known tier and its expiry can be read.
    pub open spec fn well_formed(self) -> bool {
        known_tier(self.tier) && rfc3339_instant(self.expires_at) is Some
    }
}

/// Whether the expiry that an answer carries can be read.
pub open spec fn expiry_reads(expires_at: Option<String>) -> bool {
    expires_at matches Some(text) && rfc3339_instant(text@) is Some
}

/// What an answer that was read means for the license `key`, `expiry_read`
/// telling whether its expiry, if it has one, can be read.
///
/// An answer that declares the license invalid gives its reason. One that
/// declares it valid must name a known tier and carry an expiry that can be
/// read; the license then takes tier, expiry and organization from it.
pub open spec fn answer_verdict(
    key: Seq<char>,
    response: ValidationResponse,
    expiry_read: bool,
) -> Result<LicenseView, Seq<char>> {
    if !response.valid {
        Err(
            match response.reason {
                Some(reason) => reason@,
                None => "License invalid"@,
            },
        )
    } else if !(response.tier matches Some(tier) && known_tier(tier@)) {
        Err("Invalid response: missing or unknown tier"@)
    } else if !(response.expires_at is Some && expiry_read) {
        Err("Invalid response: missing or unreadable expiry"@)
    } else {
        Ok(
            LicenseView {
                key,
                tier: response.tier.unwrap()@,
                expires_at: response.expires_at.unwrap()@,
                organization_name: opt_text(response.organization_name),
            },
        )
    }
}

/// Computes [`answer_verdict`].
pub fn license_from_answer(key: &str, response: ValidationResponse, expiry_read: bool) -> (verdict:
    Result<License, String>)
    ensures
        match verdict {
            Ok(license) => answer_verdict(key@, response, expiry_read) == Ok::<
                LicenseView,
                Seq<char>,
            >(license@),
            Err(reason) => answer_verdict(key@, response, expiry_read) == Err::<
                LicenseView,
                Seq<char>,
            >(reason@),
        },
{
    if !response.valid {
        return Err(
            match response.reason {
                Some(reason) => reason,
                None => String::from_str("License invalid"),
            },
        );
    }
    let tier = match response.tier {
        Some(tier) => tier,
        None => {
            return Err(String::from_str("Invalid response: missing or unknown tier"));
        },
    };
    if !(same_text(tier.as_str(), "hub") || same_text(tier.as_str(), "enterprise")) {
        return Err(String::from_str("Invalid response: missing or unknown tier"));
    }
    let expires_at = match response.expires_at {
        Some(expires_at) => expires_at,
        None => {
            return Err(String::from_str("Invalid response: missing or unreadable expiry"));
        },
    };
    if !expiry_read {
        return Err(String::from_str("Invalid response: missing or unreadable expiry"));
    }
    Ok(License { key: String::from_str(key), tier, expires_at, organization_name: response.organization_name })
}

/// What the answer to a validation request means for the license `key`.
pub open spec fn online_verdict(key: Seq<char>, reply: Reply<ValidationResponse>) -> Result<
    LicenseView,
    Seq<char>,
> {
    match reply {
        Reply::Unreachable(detail) => Err("Network error: "@ + detail@),
        Reply::Answered { status, body } => if !is_success(status) {
            Err("Failed to validate license"@)
        } else {
            match body {
                Err(detail) => Err("Invalid response: "@ + detail@),
                Ok(response) => answer_verdict(key, response, expiry_reads(response.expires_at)),
            }
        },
    }
}

/// Every license that an answer grants is well formed.
pub proof fn lemma_granted_license_is_well_formed(key: Seq<char>, reply: Reply<ValidationResponse>)
    ensures
        online_verdict(key, reply) matches Ok(license) ==> license.well_formed() && license.key
            == key,
{
}

/// What the answer to a trial request means.
pub open spec fn trial_verdict(reply: Reply<Option<String>>) -> Result<Seq<char>, Seq<char>> {
    match reply {
        Reply::Unreachable(detail) => Err("Network error: "@ + detail@),
        Reply::Answered { status, body } => if !is_success(status) {
            Err("Failed to start trial"@)
        } else {
            match body {
                Err(detail) => Err("Invalid response: "@ + detail@),
                Ok(None) => Err("No trial license generated"@),
                Ok(Some(license)) => Ok(license@),
            }
        },
    }
}

/// The address for trials that belongs to a validation address.
pub open spec fn purchase_address(validation: Seq<char>) -> Seq<char> {
    replaced(validation, "/validate"@, "/purchase"@)
}

fn with_detail(prefix: &str, detail: String) -> (r: String)
    ensures
        r@ == prefix@ + detail@,
{
    let mut r = String::from_str(prefix);
    r.append(detail.as_str());
    r
}

/// Validates licenses against the license server.
pub struct LicenseValidator {
    validation_endpoint: String,
}

impl LicenseValidator {
    /// The address this validator sends validation requests to.
    pub closed spec fn endpoint(&self) -> Seq<char> {
        self.validation_endpoint@
    }

    /// A validator for the fixed license server.
    pub fn new() -> (validator: Self)
        ensures
            validator.endpoint() == VALIDATION_ENDPOINT@,
    {
        LicenseValidator { validation_endpoint: String::from_str(VALIDATION_ENDPOINT) }
    }

    /// The address to send validation requests to.
    pub fn validation_endpoint(&self) -> (address: String)
        ensures
            address@ == self.endpoint(),
    {
        self.validation_endpoint.clone()
    }

    /// The address to send trial requests to.
    pub fn purchase_endpoint(&self) -> (address: String)
        ensures
            address@ == purchase_address(self.endpoint()),
    {
        let whole = chars_of(self.validation_endpoint.as_str());
        let from = chars_of("/validate");
        let to = chars_of("/purchase");
        let address = replace_all(&whole, &from, &to);
        assert(address@ == address@.subrange(0, address.len() as int));
        string_of(&address, 0, address.len())
    }

    /// The request that asks whether `key` is valid for the machine `server_id`.
    pub fn validation_request(&self, key: &str, server_id: Option<String>) -> (request:
        ValidationRequest)
        ensures
            request.license_key@ == key@,
            request.server_id == server_id,
    {
        ValidationRequest { license_key: String::from_str(key), server_id }
    }

    /// The license that the server's answer grants for `key`, or the reason
    /// why it grants none. No license comes with a failure, and none that
    /// lacks a known tier or an expiry that can be read.
    pub fn validate_online(&self, key: &str, reply: Reply<ValidationResponse>) -> (verdict: Result<
        License,
        String,
    >)
        ensures
            match verdict {
                Ok(license) => online_verdict(key@, reply) == Ok::<LicenseView, Seq<char>>(
                    license@,
                ),
                Err(reason) => online_verdict(key@, reply) == Err::<LicenseView, Seq<char>>(
                    reason@,
                ),
            },
    {
        match reply {
            Reply::Unreachable(detail) => Err(with_detail("Network error: ", detail)),
            Reply::Answered { status, body } => {
                if !status_is_success(status) {
                    return Err(String::from_str("Failed to validate license"));
                }
                match body {
                    Err(detail) => Err(with_detail("Invalid response: ", detail)),
                    Ok(response) => {
                        let expiry_read = match &response.expires_at {
                            Some(text) => parse_rfc3339(text.as_str()).is_some(),
                            None => false,
                        };
                        license_from_answer(key, response, expiry_read)
                    },
                }
            },
        }
    }

    /// The request that starts a trial of `tier` for `email`.
    pub fn trial_request(&self, email: &str, tier: &str) -> (request: TrialRequest)
        ensures
            request.action@ == "start-trial"@,
            request.email@ == email@,
            request.tier@ == tier@,
    {
        TrialRequest {
            action: String::from_str("start-trial"),
            email: String::from_str(email),
            tier: String::from_str(tier),
        }
    }

    /// The trial license that the server's answer holds, or the reason why
    /// it holds none. The body is the text under `trial_license`, if any.
    pub fn start_trial(&self, reply: Reply<Option<String>>) -> (verdict: Result<String, String>)
        ensures
            match verdict {
                Ok(license) => trial_verdict(reply) == Ok::<Seq<char>, Seq<char>>(license@),
                Err(reason) => trial_verdict(reply) == Err::<Seq<char>, Seq<char>>(reason@),
            },
    {
        match reply {
            Reply::Unreachable(detail) => Err(with_detail("Network error: ", detail)),
            Reply::Answered { status, body } => {
                if !status_is_success(status) {
                    return Err(String::from_str("Failed to start trial"));
                }
                match body {
                    Err(detail) => Err(with_detail("Invalid response: ", detail)),
                    Ok(None) => Err(String::from_str("No trial license generated")),
                    Ok(Some(license)) => Ok(license),
                }
            },
        }
    }
}

/// A point in time: whole seconds since the start of 1970 (UTC) and the
/// nanoseconds into that second. Within a leap second the nanoseconds go
/// on counting past a thousand million.
#[derive(Clone, Copy, Debug, PartialEq, Eq, Structural)]
pub struct Instant {
    pub seconds: i64,
    pub nanos: u32,
}

/// How many days past its expiry a cached license still holds without the server.
pub const GRACE_DAYS: i64 = 30;

/// The instant that `chrono::DateTime::parse_from_rfc3339` reads from
/// `text`, as seconds and nanoseconds like an [`Instant`]; none where it
/// rejects the text.
pub uninterp spec fn rfc3339_instant(text: Seq<char>) -> Option<(int, int)>;

/// Calls `chrono::DateTime::parse_from_rfc3339` and takes the result's
/// `timestamp` and `timestamp_subsec_nanos`; the result is named by
/// [`rfc3339_instant`].
#[verifier::external_body]
fn parse_rfc3339(text: &str) -> (r: Option<Instant>)
    ensures
        r matches Some(t) ==> rfc3339_instant(text@) == Some((t.seconds as int, t.nanos as int)),
        r is None ==> rfc3339_instant(text@) is None,
{
    match chrono::DateTime::parse_from_rfc3339(text) {
        Ok(t) => Some(Instant { seconds: t.timestamp(), nanos: t.timestamp_subsec_nanos() }),
        Err(_) => None,
    }
}

/// Reads the system clock with `std::time::SystemTime::now`, turns the
/// reading into a `chrono::DateTime<Utc>` with chrono's `From<SystemTime>`,
/// and takes the result's `timestamp` and `timestamp_subsec_nanos`. A
/// clock that stands before 1970 reads as a negative count of seconds.
/// Nothing is promised of the clock's value.
#[verifier::external_body]
fn utc_now() -> Instant {
    let now = chrono::DateTime::<chrono::Utc>::from(std::time::SystemTime::now());
    Instant { seconds: now.timestamp(), nanos: now.timestamp_subsec_nanos() }
}

impl License {
    /// When the license expires; none where its expiry cannot be read.
    pub fn expiry(&self) -> (expiry: Option<Instant>)
        ensures
            expiry matches Some(t) ==> rfc3339_instant(self.expires_at@) == Some(
                (t.seconds as int, t.nanos as int),
            ),
            expiry is None ==> rfc3339_instant(self.expires_at@) is None,
    {
        parse_rfc3339(self.expires_at.as_str())
    }
}

/// The last instant at which a license that expires at `expires` still
/// holds offline: `GRACE_DAYS` days later. An expiry inside a leap second
/// counts as the same fraction of the second before it.
pub open spec fn grace_deadline(expires: (int, int)) -> (int, int) {
    (
        expires.0 + GRACE_DAYS * 86400,
        if expires.1 >= 1_000_000_000 {
            expires.1 - 1_000_000_000
        } else {
            expires.1
        },
    )
}

/// Whether the instant `a` is later than the instant `b`.
pub open spec fn later(a: (int, int), b: (int, int)) -> bool {
    a.0 > b.0 || (a.0 == b.0 && a.1 > b.1)
}

/// Whether a license whose expiry reads as `expires` holds offline at `now`.
pub open spec fn offline_verdict(expires: Option<(int, int)>, now: Instant) -> Result<
    (),
    Seq<char>,
> {
    match expires {
        None => Err("Invalid expiration date format"@),
        Some(e) => if later((now.seconds as int, now.nanos as int), grace_deadline(e)) {
            Err("License expired and requires online validation"@)
        } else {
            Ok(())
        },
    }
}

/// A license that holds offline at some instant holds at every earlier one.
pub proof fn lemma_offline_holds_earlier(expires: Option<(int, int)>, now: Instant, earlier: Instant)
    requires
        offline_verdict(expires, now) is Ok,
        !later(
            (earlier.seconds as int, earlier.nanos as int),
            (now.seconds as int, now.nanos as int),
        ),
    ensures
        offline_verdict(expires, earlier) is Ok,
{
}

/// The models of an optional instant.
pub open spec fn instant_view(instant: Option<Instant>) -> Option<(int, int)> {
    match instant {
        Some(t) => Some((t.seconds as int, t.nanos as int)),
        None => None,
    }
}

/// Whether a license holds offline at `now`, `expires` being what was read
/// of its expiry (`None` where it could not be read). Computes
/// [`offline_verdict`].
pub fn holds_offline(expires: Option<Instant>, now: Instant) -> (verdict: Result<(), String>)
    ensures
        match verdict {
            Ok(_) => offline_verdict(instant_view(expires), now) is Ok,
            Err(reason) => offline_verdict(instant_view(expires), now) == Err::<(), Seq<char>>(
                reason@,
            ),
        },
{
    match expires {
        None => Err(String::from_str("Invalid expiration date format")),
        Some(expires) => {
            let end_seconds: i128 = expires.seconds as i128 + (GRACE_DAYS as i128) * 86400;
            let end_nanos: u32 = if expires.nanos >= 1_000_000_000 {
                expires.nanos - 1_000_000_000
            } else {
                expires.nanos
            };
            let seconds: i128 = now.seconds as i128;
            if seconds > end_seconds || (seconds == end_seconds && now.nanos > end_nanos) {
                Err(String::from_str("License expired and requires online validation"))
            } else {
                Ok(())
            }
        },
    }
}

impl LicenseValidator {
    /// Whether `cached_license` holds at `now` without asking the server:
    /// until `GRACE_DAYS` days past its expiry, that instant included.
    pub fn validate_offline_at(&self, cached_license: &License, now: Instant) -> (verdict: Result<
        (),
        String,
    >)
        ensures
            match verdict {
                Ok(_) => offline_verdict(rfc3339_instant(cached_license.expires_at@), now) is Ok,
                Err(reason) => offline_verdict(rfc3339_instant(cached_license.expires_at@), now)
                    == Err::<(), Seq<char>>(reason@),
            },
    {
        holds_offline(cached_license.expiry(), now)
    }

    /// Whether `cached_license` holds now without asking the server. The
    /// verdict is that of [`Self::validate_offline_at`] at the clock's reading.
    pub fn validate_offline(&self, cached_license: &License) -> (verdict: Result<(), String>)
        ensures
            exists|now: Instant|
                match verdict {
                    Ok(_) => #[trigger] offline_verdict(
                        rfc3339_instant(cached_license.expires_at@),
                        now,
                    ) is Ok,
                    Err(reason) => offline_verdict(
                        rfc3339_instant(cached_license.expires_at@),
                        now,
                    ) == Err::<(), Seq<char>>(reason@),
                },
    {
        let now = utc_now();
        let verdict = self.validate_offline_at(cached_license, now);
        proof {
            let parsed = rfc3339_instant(cached_license.expires_at@);
            assert(match verdict {
                Ok(_) => offline_verdict(parsed, now) is Ok,
                Err(reason) => offline_verdict(parsed, now) == Err::<(), Seq<char>>(reason@),
            });
        }
        verdict
    }
}

/// The operating systems whose machine lookup is understood.
#[derive(Clone, Copy, Debug, PartialEq, Eq, Structural)]
pub enum Platform {
    MacOs,
    Linux,
    Windows,
    Other,
}

/// The server id given where the machine's own cannot be had.
pub const UNKNOWN_SERVER_ID: &'static str = "unknown";

/// The name under which the macOS lookup prints the machine's identifier.
pub const PLATFORM_UUID_KEY: &'static str = "IOPlatformUUID";

/// `line` without a carriage return at its end.
pub open spec fn without_return(line: Seq<char>) -> Seq<char> {
    if line.len() > 0 && line.last() == '\r' {
        line.drop_last()
    } else {
        line
    }
}

/// The first line of `text` that holds `needle`. Lines end at a line feed;
/// a carriage return just before it is not part of the line.
pub open spec fn first_line_with(text: Seq<char>, needle: Seq<char>) -> Option<Seq<char>>
    decreases text.len(),
{
    let end = find_char(text, '\n');
    if !(0 <= end < text.len()) {
        if contains(text, needle) {
            Some(text)
        } else {
            None
        }
    } else if contains(without_return(text.take(end)), needle) {
        Some(without_return(text.take(end)))
    } else {
        first_line_with(text.skip(end + 1), needle)
    }
}

/// `text`, or the unknown id where there is none.
pub open spec fn or_unknown(text: Option<Seq<char>>) -> Seq<char> {
    match text {
        Some(t) => t,
        None => UNKNOWN_SERVER_ID@,
    }
}

/// `id`, or the unknown id where `id` is empty: an empty text identifies nothing.
pub open spec fn id_or_unknown(id: Seq<char>) -> Seq<char> {
    if id.len() == 0 {
        UNKNOWN_SERVER_ID@
    } else {
        id
    }
}

/// The text that a lookup printed, where it ran and printed well-formed UTF-8.
pub open spec fn lookup_text(output: Option<Vec<u8>>) -> Option<Seq<char>> {
    match output {
        Some(bytes) => if valid_utf8(bytes@) {
            Some(decode_utf8(bytes@))
        } else {
            None
        },
        None => None,
    }
}

/// The identifier that the macOS lookup printed: on the first line that
/// names it, what stands between the third and fourth double quote; the
/// unknown id where no line names it or nothing stands there.
pub open spec fn mac_server_id(text: Seq<char>) -> Seq<char> {
    match first_line_with(text, PLATFORM_UUID_KEY@) {
        Some(line) => id_or_unknown(or_unknown(nth_piece(line, '"', 3))),
        None => UNKNOWN_SERVER_ID@,
    }
}

/// The identifier that the Linux lookup printed: all of it, trimmed; the
/// unknown id where that leaves nothing.
pub open spec fn linux_server_id(text: Seq<char>) -> Seq<char> {
    id_or_unknown(trimmed(text))
}

/// The identifier that the Windows lookup printed: its second line,
/// trimmed; the unknown id where there is no second line or it is blank.
pub open spec fn windows_server_id(text: Seq<char>) -> Seq<char> {
    id_or_unknown(trimmed(or_unknown(nth_piece(text, '\n', 1))))
}

/// The server id that follows from what the platform's lookup printed:
/// the identifier found in it, or the unknown id where the lookup did not
/// run, printed no well-formed text, or printed no identifier.
pub open spec fn server_id_of(platform: Platform, output: Option<Vec<u8>>) -> Seq<char> {
    match lookup_text(output) {
        None => UNKNOWN_SERVER_ID@,
        Some(text) => match platform {
            Platform::MacOs => mac_server_id(text),
            Platform::Linux => linux_server_id(text),
            Platform::Windows => windows_server_id(text),
            Platform::Other => UNKNOWN_SERVER_ID@,
        },
    }
}

/// The server id is never empty.
pub proof fn lemma_server_id_is_not_empty(platform: Platform, output: Option<Vec<u8>>)
    ensures
        server_id_of(platform, output).len() > 0,
{
    reveal_strlit("unknown");
}

fn id_text(id: &Vec<char>, from: usize, to: usize) -> (r: String)
    requires
        from <= to <= id.len(),
    ensures
        r@ == id_or_unknown(id@.subrange(from as int, to as int)),
{
    if from == to {
        String::from_str(UNKNOWN_SERVER_ID)
    } else {
        string_of(id, from, to)
    }
}

fn trimmed_id(text: &Vec<char>) -> (r: String)
    ensures
        r@ == id_or_unknown(trimmed(text@)),
{
    let (from, to) = trim_bounds(text);
    id_text(text, from, to)
}

fn piece_or_unknown(text: &Vec<char>, sep: char, n: usize) -> (r: Vec<char>)
    ensures
        r@ == or_unknown(nth_piece(text@, sep, n as nat)),
{
    match piece_bounds(text, sep, n) {
        Some((from, to)) => slice_of(text, from, to),
        None => chars_of(UNKNOWN_SERVER_ID),
    }
}

fn line_with(text: &Vec<char>, needle: &Vec<char>) -> (r: Option<Vec<char>>)
    ensures
        r is Some <==> first_line_with(text@, needle@) is Some,
        r matches Some(line) ==> first_line_with(text@, needle@) == Some(line@),
{
    let mut start: usize = 0;
    assert(text@.skip(0) == text@);
    loop
        invariant
            start <= text.len(),
            first_line_with(text@, needle@) == first_line_with(text@.skip(start as int), needle@),
        decreases text.len() - start,
    {
        let ghost rest = text@.skip(start as int);
        let end = find_from(text, start, '\n');
        proof {
            lemma_find_char(rest, '\n');
            assert(rest.take(end - start) == text@.subrange(start as int, end as int));
        }
        if end >= text.len() {
            let line = slice_of(text, start, end);
            assert(line@ == rest);
            return if has_substring(&line, needle) {
                Some(line)
            } else {
                None
            };
        }
        let stop = if end > start && text[end - 1] == '\r' {
            end - 1
        } else {
            end
        };
        let line = slice_of(text, start, stop);
        assert(line@ == without_return(rest.take(end - start))) by {
            let whole = rest.take(end - start);
            if end > start {
                assert(whole.last() == text@[end - 1]);
                assert(whole.drop_last() == text@.subrange(start as int, end - 1));
            }
        }
        if has_substring(&line, needle) {
            return Some(line);
        }
        assert(rest.skip(end - start + 1) == text@.skip(end + 1));
        start = end + 1;
    }
}

/// The identifier of this machine, from what the platform's lookup printed
/// (`None` where the lookup could not be run). It is a best guess and no
/// proof of identity. Where the lookup did not run or printed no
/// identifier it is [`UNKNOWN_SERVER_ID`], never the empty text.
pub fn generate_server_id(platform: Platform, output: Option<Vec<u8>>) -> (id: String)
    ensures
        id@ == server_id_of(platform, output),
{
    let text = match output {
        Some(bytes) => match utf8_text(bytes) {
            Some(text) => chars_of(text.as_str()),
            None => {
                return String::from_str(UNKNOWN_SERVER_ID);
            },
        },
        None => {
            return String::from_str(UNKNOWN_SERVER_ID);
        },
    };
    match platform {
        Platform::MacOs => {
            let key = chars_of(PLATFORM_UUID_KEY);
            match line_with(&text, &key) {
                Some(line) => {
                    let id = piece_or_unknown(&line, '"', 3);
                    assert(id@ == id@.subrange(0, id.len() as int));
                    id_text(&id, 0, id.len())
                },
                None => String::from_str(UNKNOWN_SERVER_ID),
            }
        },
        Platform::Linux => trimmed_id(&text),
        Platform::Windows => {
            let line = piece_or_unknown(&text, '\n', 1);
            trimmed_id(&line)
        },
        Platform::Other => String::from_str(UNKNOWN_SERVER_ID),
    }
}

} // verus!
