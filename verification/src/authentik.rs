//! What the Authentik client decides on its own: API addresses, usernames,
//! which user matches an address, when a token is refreshed, and whether a
//! recovery link may be handed to a member.
use vstd::prelude::*;
use crate::decimal::{decimal, decimal_chars};
use crate::text::{
    append_chars, append_str, chars_of, eq_ignore_ascii_case, eq_ignore_case,
    is_ascii_alphanumeric, char_is_ascii_alphanumeric, same_chars, slice_of, split_once,
    split_once_chars, string_from, trim, trim_str,
};
use crate::urls::{UrlParts, parse_url, url_parts};

verus! {

/// An Authentik user as its API describes it.
#[derive(Debug)]
pub struct AuthentikUser {
    pub pk: u64,
    pub username: String,
    pub email: String,
    pub name: String,
}

// ---------------------------------------------------------------------------
// Usernames
// ---------------------------------------------------------------------------

/// A character as it may stand in a username: ASCII letters, digits, `-`
/// and `_` stay, anything else becomes `-`.
pub open spec fn username_char(c: char) -> char {
    if is_ascii_alphanumeric(c) || c == '-' || c == '_' {
        c
    } else {
        '-'
    }
}

/// The username made for a member: the part of the address before the
/// first `@` (all of it when there is none), made safe, then `-` and the
/// member's Discord ID.
pub open spec fn username_for(email: Seq<char>, discord_user_id: u64) -> Seq<char> {
    let local = match split_once(email, '@') {
        Some((l, _)) => l,
        None => email,
    };
    local.map_values(|c: char| username_char(c)) + "-"@ + decimal(discord_user_id as nat)
}

pub fn username_from_email(email: &str, discord_user_id: u64) -> (s: String)
    ensures
        s@ == username_for(email@, discord_user_id),
{
    let chars = chars_of(email);
    let local = match split_once_chars(&chars, '@') {
        Some((l, _)) => l,
        None => chars,
    };
    let mut out: Vec<char> = Vec::new();
    for i in 0..local.len()
        invariant
            out@ == local@.take(i as int).map_values(|c: char| username_char(c)),
    {
        let c = local[i];
        let safe = if char_is_ascii_alphanumeric(c) || c == '-' || c == '_' {
            c
        } else {
            '-'
        };
        out.push(safe);
        assert(local@.take(i + 1).map_values(|c: char| username_char(c)) =~= local@.take(
            i as int,
        ).map_values(|c: char| username_char(c)).push(username_char(local@[i as int])));
    }
    assert(local@.take(local.len() as int) == local@);
    append_str(&mut out, "-");
    append_chars(&mut out, &decimal_chars(discord_user_id));
    string_from(&out)
}

/// The name a new Authentik user gets: the preferred name, trimmed, or the
/// username when the preferred name is blank.
pub open spec fn new_user_name(display_name: Seq<char>, username: Seq<char>) -> Seq<char> {
    if trim(display_name).len() == 0 {
        username
    } else {
        trim(display_name)
    }
}

pub fn user_name_for(display_name: &str, username: &str) -> (s: String)
    ensures
        s@ == new_user_name(display_name@, username@),
{
    let trimmed = trim_str(display_name);
    if trimmed.len() == 0 {
        String::from_str(username)
    } else {
        string_from(&trimmed)
    }
}

// ---------------------------------------------------------------------------
// API addresses
// ---------------------------------------------------------------------------

/// `s` without trailing `c`s (`str::trim_end_matches`).
pub open spec fn trim_end_char(s: Seq<char>, c: char) -> Seq<char>
    decreases s.len(),
{
    if s.len() > 0 && s.last() == c {
        trim_end_char(s.drop_last(), c)
    } else {
        s
    }
}

/// `s` without leading `c`s (`str::trim_start_matches`).
pub open spec fn trim_start_char(s: Seq<char>, c: char) -> Seq<char>
    decreases s.len(),
{
    if s.len() > 0 && s[0] == c {
        trim_start_char(s.drop_first(), c)
    } else {
        s
    }
}

/// An API address: the base URL without trailing slashes, one slash, and
/// the path without leading slashes.
pub open spec fn api_url_text(base_url: Seq<char>, path: Seq<char>) -> Seq<char> {
    trim_end_char(base_url, '/') + "/"@ + trim_start_char(path, '/')
}

proof fn lemma_trim_end_char_take(s: Seq<char>, c: char, n: int)
    requires
        0 <= n <= s.len(),
        n == 0 || s[n - 1] != c,
        forall|k: int| n <= k < s.len() ==> s[k] == c,
    ensures
        trim_end_char(s, c) == s.take(n),
    decreases s.len(),
{
    if s.len() > n {
        assert(s.drop_last().take(n) == s.take(n));
        lemma_trim_end_char_take(s.drop_last(), c, n);
    } else {
        assert(s.take(n) == s);
    }
}

proof fn lemma_trim_start_char_skip(s: Seq<char>, c: char, n: int)
    requires
        0 <= n <= s.len(),
        n == s.len() || s[n] != c,
        forall|k: int| 0 <= k < n ==> s[k] == c,
    ensures
        trim_start_char(s, c) == s.skip(n),
    decreases n,
{
    if n > 0 {
        assert(s.drop_first().skip(n - 1) == s.skip(n));
        lemma_trim_start_char_skip(s.drop_first(), c, n - 1);
    } else {
        assert(s.skip(0) == s);
    }
}

pub fn api_url(base_url: &str, path: &str) -> (s: String)
    ensures
        s@ == api_url_text(base_url@, path@),
{
    let base = chars_of(base_url);
    let mut end = base.len();
    while end > 0 && base[end - 1] == '/'
        invariant
            end <= base@.len(),
            forall|k: int| end <= k < base@.len() ==> base@[k] == '/',
        decreases end,
    {
        end = end - 1;
    }
    proof {
        lemma_trim_end_char_take(base@, '/', end as int);
    }
    let p = chars_of(path);
    let mut start: usize = 0;
    while start < p.len() && p[start] == '/'
        invariant
            start <= p@.len(),
            forall|k: int| 0 <= k < start ==> p@[k] == '/',
        decreases p.len() - start,
    {
        start = start + 1;
    }
    proof {
        lemma_trim_start_char_skip(p@, '/', start as int);
    }
    let mut out = slice_of(&base, 0, end);
    assert(base@.subrange(0, end as int) == base@.take(end as int));
    append_str(&mut out, "/");
    let rest = slice_of(&p, start, p.len());
    assert(p@.subrange(start as int, p@.len() as int) == p@.skip(start as int));
    append_chars(&mut out, &rest);
    string_from(&out)
}

/// A configured base URL must not be blank.
pub fn check_base_url(base_url: &str) -> (r: Result<(), &'static str>)
    ensures
        r is Ok <==> trim(base_url@).len() > 0,
        r matches Err(m) ==> m@ == "AUTHENTIK_BASE_URL cannot be empty"@,
{
    if trim_str(base_url).len() == 0 {
        Err("AUTHENTIK_BASE_URL cannot be empty")
    } else {
        Ok(())
    }
}

// ---------------------------------------------------------------------------
// Users
// ---------------------------------------------------------------------------

/// The position of the first user whose address equals `email`, ignoring
/// ASCII case.
pub open spec fn matching_user(emails: Seq<Seq<char>>, email: Seq<char>) -> Option<int>
    decreases emails.len(),
{
    if emails.len() == 0 {
        None
    } else {
        match matching_user(emails.drop_last(), email) {
            Some(i) => Some(i),
            None => if eq_ignore_case(emails.last(), email) {
                Some(emails.len() - 1)
            } else {
                None
            },
        }
    }
}

pub open spec fn user_emails(users: Seq<AuthentikUser>) -> Seq<Seq<char>> {
    users.map_values(|u: AuthentikUser| u.email@)
}

proof fn lemma_matching_user_found(emails: Seq<Seq<char>>, email: Seq<char>, n: int)
    requires
        0 <= n <= emails.len(),
        matching_user(emails.take(n), email) is Some,
    ensures
        matching_user(emails, email) == matching_user(emails.take(n), email),
    decreases emails.len() - n,
{
    if n < emails.len() {
        assert(emails.drop_last().take(n) == emails.take(n));
        lemma_matching_user_found(emails.drop_last(), email, n);
    } else {
        assert(emails.take(n) == emails);
    }
}

/// Of the users a lookup by address returned, the first whose address is
/// `email` ignoring ASCII case.
pub fn find_user_by_email(users: &Vec<AuthentikUser>, email: &str) -> (r: Option<usize>)
    ensures
        match matching_user(user_emails(users@), email@) {
            Some(i) => r matches Some(j) && j as int == i,
            None => r is None,
        },
{
    let wanted = chars_of(email);
    let ghost emails = user_emails(users@);
    let mut i: usize = 0;
    while i < users.len()
        invariant
            i <= users@.len(),
            emails == user_emails(users@),
            wanted@ == email@,
            matching_user(emails.take(i as int), email@) is None,
        decreases users.len() - i,
    {
        let ghost after = emails.take(i + 1);
        assert(after.drop_last() == emails.take(i as int));
        assert(after.last() == users@[i as int].email@);
        if eq_ignore_ascii_case(&chars_of(users[i].email.as_str()), &wanted) {
            assert(matching_user(after, email@) == Some(i as int));
            proof {
                lemma_matching_user_found(emails, email@, i + 1);
            }
            return Some(i);
        }
        i = i + 1;
    }
    assert(emails.take(users.len() as int) == emails);
    None
}

// ---------------------------------------------------------------------------
// Access tokens
// ---------------------------------------------------------------------------

/// How long before a token expires it is refreshed: a tenth of its lifetime,
/// at most 30 seconds.
pub open spec fn refresh_buffer(expires_in: u64) -> u64 {
    if expires_in / 10 <= 30 {
        (expires_in / 10) as u64
    } else {
        30
    }
}

/// After how many seconds a token that lives `expires_in` seconds is
/// refreshed.
pub open spec fn refresh_after(expires_in: u64) -> u64 {
    (expires_in - refresh_buffer(expires_in)) as u64
}

pub fn token_refresh_after(expires_in: u64) -> (s: u64)
    ensures
        s == refresh_after(expires_in),
        s <= expires_in,
{
    let buffer = if expires_in / 10 <= 30 {
        expires_in / 10
    } else {
        30
    };
    expires_in - buffer
}

/// Whether a token answer can be used: a non-empty token that lives some
/// time.
pub fn token_is_valid(access_token: &str, expires_in: u64) -> (b: bool)
    ensures
        b == (access_token@.len() > 0 && expires_in > 0),
{
    chars_of(access_token).len() > 0 && expires_in > 0
}

/// A token is refreshed no later than it expires and no earlier than 30
/// seconds before; one that lives 10 seconds or more is refreshed before it
/// expires.
pub proof fn lemma_refresh_before_expiry(expires_in: u64)
    ensures
        refresh_after(expires_in) <= expires_in,
        refresh_after(expires_in) + 30 >= expires_in,
        expires_in >= 10 ==> refresh_after(expires_in) < expires_in,
{
}

// ---------------------------------------------------------------------------
// Recovery links
// ---------------------------------------------------------------------------

/// Why a recovery link is not handed to a member.
#[derive(Debug, Clone, Copy, PartialEq, Eq, Structural)]
pub enum RecoveryLinkError {
    /// The configured base URL is no URL.
    BaseUrl,
    /// Authentik sent something that is no URL.
    InvalidLink,
    /// The link leads to another origin than the configured Authentik.
    UnexpectedOrigin,
}

pub open spec fn recovery_link_error_text(e: RecoveryLinkError) -> Seq<char> {
    match e {
        RecoveryLinkError::BaseUrl => "failed to parse configured Authentik base URL"@,
        RecoveryLinkError::InvalidLink => "Authentik returned an invalid account recovery link"@,
        RecoveryLinkError::UnexpectedOrigin => "Authentik returned an account recovery link for an unexpected origin"@,
    }
}

impl RecoveryLinkError {
    pub fn to_string(&self) -> (s: String)
        ensures
            s@ == recovery_link_error_text(*self),
    {
        match self {
            RecoveryLinkError::BaseUrl => String::from_str("failed to parse configured Authentik base URL"),
            RecoveryLinkError::InvalidLink => String::from_str("Authentik returned an invalid account recovery link"),
            RecoveryLinkError::UnexpectedOrigin => String::from_str(
                "Authentik returned an account recovery link for an unexpected origin",
            ),
        }
    }
}

/// The verdict on a recovery link, from what the URL parser made of the
/// base URL and of the link: both must parse, and their origins must be the
/// same scheme-host-port tuple (an opaque origin equals no other).
pub open spec fn recovery_link_result(
    base: Option<(Seq<char>, Option<Seq<char>>)>,
    link: Option<(Seq<char>, Option<Seq<char>>)>,
) -> Result<(), RecoveryLinkError> {
    match base {
        None => Err(RecoveryLinkError::BaseUrl),
        Some((_, base_origin)) => match link {
            None => Err(RecoveryLinkError::InvalidLink),
            Some((_, link_origin)) => if base_origin is Some && base_origin == link_origin {
                Ok(())
            } else {
                Err(RecoveryLinkError::UnexpectedOrigin)
            },
        },
    }
}

pub open spec fn parts_view(p: Option<UrlParts>) -> Option<(Seq<char>, Option<Seq<char>>)> {
    match p {
        Some(q) => Some(q@),
        None => None,
    }
}

/// The verdict on a recovery link, given the parsed base URL and link.
pub fn recovery_link_verdict(base: &Option<UrlParts>, link: &Option<UrlParts>) -> (r: Result<(), RecoveryLinkError>)
    ensures
        r == recovery_link_result(parts_view(*base), parts_view(*link)),
{
    match base {
        None => Err(RecoveryLinkError::BaseUrl),
        Some(b) => match link {
            None => Err(RecoveryLinkError::InvalidLink),
            Some(l) => match (&b.origin, &l.origin) {
                (Some(bo), Some(lo)) => if same_chars(&chars_of(bo.as_str()), &chars_of(lo.as_str())) {
                    Ok(())
                } else {
                    Err(RecoveryLinkError::UnexpectedOrigin)
                },
                _ => Err(RecoveryLinkError::UnexpectedOrigin),
            },
        },
    }
}

/// Accepts a recovery link only when it leads to the configured Authentik.
pub fn validate_recovery_link(base_url: &str, link: &str) -> (r: Result<(), RecoveryLinkError>)
    ensures
        r == recovery_link_result(url_parts(base_url@), url_parts(link@)),
{
    let base = parse_url(base_url);
    let parsed = parse_url(link);
    recovery_link_verdict(&base, &parsed)
}

/// A cached access token and when it is to be refreshed, in nanoseconds of
/// a monotonic clock.
pub struct CachedToken {
    pub value: String,
    pub refresh_at: i128,
}

/// Whether the cached token can be used at `now`.
pub fn cached_token_usable(cached: &Option<CachedToken>, now: i128) -> (b: bool)
    ensures
        b == (cached matches Some(c) && now < c.refresh_at),
{
    match cached {
        Some(c) => now < c.refresh_at,
        None => false,
    }
}

/// Caches a token granted at `now` for `expires_in` seconds, to be refreshed
/// `refresh_after(expires_in)` seconds later; `None` for a token that cannot
/// be used.
pub fn cache_token(value: String, expires_in: u64, now: i128) -> (r: Option<CachedToken>)
    requires
        now + refresh_after(expires_in) * 1_000_000_000 <= i128::MAX,
    ensures
        match r {
            Some(c) => value@.len() > 0 && expires_in > 0 && c.value@ == value@ && c.refresh_at == now
                + refresh_after(expires_in) * 1_000_000_000,
            None => !(value@.len() > 0 && expires_in > 0),
        },
{
    if !token_is_valid(value.as_str(), expires_in) {
        return None;
    }
    let after = token_refresh_after(expires_in) as i128;
    assert(after * 1_000_000_000 <= 18446744073709551615 * 1_000_000_000) by (nonlinear_arith)
        requires
            0 <= after <= 18446744073709551615,
    ;
    assert(after * 1_000_000_000 >= 0) by (nonlinear_arith)
        requires
            0 <= after,
    ;
    Some(CachedToken { value, refresh_at: now + after * 1_000_000_000 })
}

/// After the API refused `rejected`, the cache is cleared only when it
/// still holds that token (another task may have refreshed it meanwhile).
pub fn should_invalidate(cached: &Option<CachedToken>, rejected: &str) -> (b: bool)
    ensures
        b == (cached matches Some(c) && c.value@ == rejected@),
{
    match cached {
        Some(c) => same_chars(&chars_of(c.value.as_str()), &chars_of(rejected)),
        None => false,
    }
}

/// A username made for a member holds only ASCII letters, digits, `-` and
/// `_`, so it is safe wherever Authentik shows or matches it.
pub proof fn lemma_username_is_safe(email: Seq<char>, discord_user_id: u64)
    ensures
        forall|i: int| 0 <= i < username_for(email, discord_user_id).len() ==> {
            let c = #[trigger] username_for(email, discord_user_id)[i];
            is_ascii_alphanumeric(c) || c == '-' || c == '_'
        },
{
    reveal_strlit("-");
    crate::decimal::lemma_decimal(discord_user_id as nat);
    let local = match split_once(email, '@') {
        Some((l, _)) => l,
        None => email,
    };
    let safe = local.map_values(|c: char| username_char(c));
    let digits = decimal(discord_user_id as nat);
    let name = username_for(email, discord_user_id);
    assert(name == safe + "-"@ + digits);
    assert forall|i: int| 0 <= i < name.len() implies {
        let c = #[trigger] name[i];
        is_ascii_alphanumeric(c) || c == '-' || c == '_'
    } by {
        if i < safe.len() {
            assert(name[i] == username_char(local[i]));
        } else if i == safe.len() {
            assert(name[i] == '-');
        } else {
            assert(name[i] == digits[i - safe.len() - 1]);
            assert(crate::text::is_ascii_digit(digits[i - safe.len() - 1]));
        }
    }
}

} // verus!
