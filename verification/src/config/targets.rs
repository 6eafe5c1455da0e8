//! Onboarding targets: what `ONBOARDING_TARGETS` lists, and the web
//! addresses and Discord role IDs inside it.
use vstd::prelude::*;
use crate::config::{ConfigError, ConfigFault};
use crate::decimal::{parse_unsigned, parse_unsigned_checked, unsigned_error, IntErrorKind};
use crate::text::{
    any_control, any_white, chars_of, eq_ignore_ascii_case, eq_ignore_case, has_control,
    has_white, is_ascii_alphanumeric, char_is_ascii_alphanumeric, same_chars, split, split_chars,
    split_str, string_from, trim, trimmed, utf8_len, utf8_len_at_most,
};
use crate::urls::{parse_url, url_parts, UrlParts};

verus! {

// ---------------------------------------------------------------------------
// Web addresses
// ---------------------------------------------------------------------------

/// Why a text is not accepted as a web address.
#[derive(Clone, Copy, Debug, PartialEq, Eq, Structural)]
pub enum WebUrlError {
    /// It is no absolute URL.
    Unparsable,
    /// Its scheme is neither `http` nor `https`.
    NotHttp,
}

/// The verdict on a text read as a URL (`parts` as `url_parts` gives it).
pub open spec fn web_url_result(parts: Option<(Seq<char>, Option<Seq<char>>)>) -> Result<(), WebUrlError> {
    match parts {
        None => Err(WebUrlError::Unparsable),
        Some((scheme, _)) => if scheme == "http"@ || scheme == "https"@ {
            Ok(())
        } else {
            Err(WebUrlError::NotHttp)
        },
    }
}

/// Whether a text is an absolute `http` or `https` URL.
pub open spec fn is_web_url(text: Seq<char>) -> bool {
    web_url_result(url_parts(text)) is Ok
}

/// The verdict on what `reqwest::Url::parse` made of a text.
pub fn web_url_verdict(parts: &Option<UrlParts>) -> (r: Result<(), WebUrlError>)
    ensures
        r == web_url_result(
            match parts {
                Some(p) => Some(p@),
                None => None,
            },
        ),
{
    match parts {
        None => Err(WebUrlError::Unparsable),
        Some(p) => {
            let scheme = chars_of(p.scheme.as_str());
            if same_chars(&scheme, &chars_of("http")) || same_chars(&scheme, &chars_of("https")) {
                Ok(())
            } else {
                Err(WebUrlError::NotHttp)
            }
        },
    }
}

/// Accepts an absolute `http` or `https` URL.
pub fn validate_web_url(value: &str) -> (r: Result<(), WebUrlError>)
    ensures
        r == web_url_result(url_parts(value@)),
{
    let parts = parse_url(value);
    web_url_verdict(&parts)
}

// ---------------------------------------------------------------------------
// Role IDs
// ---------------------------------------------------------------------------

/// Reading comma-separated role IDs from the left (each trimmed, blank ones
/// skipped): the IDs, or the error of the first that is no `u64`.
pub open spec fn role_ids_result(entries: Seq<Seq<char>>) -> Result<Seq<u64>, IntErrorKind>
    decreases entries.len(),
{
    if entries.len() == 0 {
        Ok(Seq::empty())
    } else {
        match role_ids_result(entries.drop_last()) {
            Err(e) => Err(e),
            Ok(ids) => {
                let t = trim(entries.last());
                if t.len() == 0 {
                    Ok(ids)
                } else {
                    match parse_unsigned(t, u64::MAX as nat) {
                        Some(v) => Ok(ids.push(v as u64)),
                        None => Err(unsigned_error(t, u64::MAX as nat)),
                    }
                }
            },
        }
    }
}

proof fn lemma_role_error_stays(entries: Seq<Seq<char>>, n: int)
    requires
        0 <= n <= entries.len(),
        role_ids_result(entries.take(n)) is Err,
    ensures
        role_ids_result(entries) == role_ids_result(entries.take(n)),
    decreases entries.len() - n,
{
    if n < entries.len() {
        assert(entries.drop_last().take(n) == entries.take(n));
        lemma_role_error_stays(entries.drop_last(), n);
    } else {
        assert(entries.take(n) == entries);
    }
}

/// Role IDs from characters.
pub fn role_ids_from_chars(value: &Vec<char>) -> (r: Result<Vec<u64>, ConfigError>)
    ensures
        match r {
            Ok(ids) => role_ids_result(split(value@, ',')) == Ok::<Seq<u64>, IntErrorKind>(ids@),
            Err(e) => role_ids_result(split(value@, ',')) matches Err(k) && e@ == ConfigFault::RoleId(k),
        },
{
    let entries = split_chars(value, ',');
    let ghost spec_entries = split(value@, ',');
    let mut ids: Vec<u64> = Vec::new();
    let mut i: usize = 0;
    while i < entries.len()
        invariant
            i <= entries@.len(),
            entries@.len() == spec_entries.len(),
            spec_entries == split(value@, ','),
            forall|k: int| 0 <= k < entries@.len() ==> (#[trigger] entries@[k])@ == spec_entries[k],
            role_ids_result(spec_entries.take(i as int)) == Ok::<Seq<u64>, IntErrorKind>(ids@),
        decreases entries.len() - i,
    {
        let ghost after = spec_entries.take(i + 1);
        assert(after.drop_last() == spec_entries.take(i as int));
        assert(after.last() == spec_entries[i as int]);
        let t = trimmed(&entries[i]);
        if t.len() > 0 {
            match parse_unsigned_checked(&t, u64::MAX) {
                Ok(v) => {
                    ids.push(v);
                },
                Err(kind) => {
                    proof {
                        lemma_role_error_stays(spec_entries, i + 1);
                    }
                    return Err(ConfigError::RoleId(kind));
                },
            }
        }
        i = i + 1;
    }
    assert(spec_entries.take(entries.len() as int) == spec_entries);
    Ok(ids)
}

/// Reads comma-separated Discord role IDs; blank entries are skipped.
pub fn parse_role_ids(value: &str) -> (r: Result<Vec<u64>, ConfigError>)
    ensures
        match r {
            Ok(ids) => role_ids_result(split(value@, ',')) == Ok::<Seq<u64>, IntErrorKind>(ids@),
            Err(e) => role_ids_result(split(value@, ',')) matches Err(k) && e@ == ConfigFault::RoleId(k),
        },
{
    role_ids_from_chars(&chars_of(value))
}

// ---------------------------------------------------------------------------
// Targets
// ---------------------------------------------------------------------------

/// One thing members can be onboarded into.
#[derive(Debug)]
pub struct OnboardingTargetConfig {
    pub key: String,
    pub label: String,
    pub authentik_group_uuid: String,
    pub completion_url: Option<String>,
    pub approver_role_ids: Vec<u64>,
}

pub struct TargetView {
    pub key: Seq<char>,
    pub label: Seq<char>,
    pub authentik_group_uuid: Seq<char>,
    pub completion_url: Option<Seq<char>>,
    pub approver_role_ids: Seq<u64>,
}

impl View for OnboardingTargetConfig {
    type V = TargetView;

    open spec fn view(&self) -> TargetView {
        TargetView {
            key: self.key@,
            label: self.label@,
            authentik_group_uuid: self.authentik_group_uuid@,
            completion_url: match self.completion_url {
                Some(u) => Some(u@),
                None => None,
            },
            approver_role_ids: self.approver_role_ids@,
        }
    }
}

/// The characters a target key may hold.
pub open spec fn key_char_ok(c: char) -> bool {
    is_ascii_alphanumeric(c) || c == '-' || c == '_'
}

pub open spec fn key_chars_ok(key: Seq<char>) -> bool {
    forall|i: int| 0 <= i < key.len() ==> key_char_ok(#[trigger] key[i])
}

/// What one `ONBOARDING_TARGETS` entry configures:
/// `key|label|authentik_group_uuid|[completion_url|]manager_role_ids`, each
/// field trimmed, with the checks made in this order.
pub open spec fn target_result(entry: Seq<char>) -> Result<TargetView, ConfigFault> {
    let parts = split(entry, '|');
    if parts.len() != 4 && parts.len() != 5 {
        Err(ConfigFault::TargetShape)
    } else {
        let key = trim(parts[0]);
        let label = trim(parts[1]);
        let group = trim(parts[2]);
        let completion_url = if parts.len() == 5 && trim(parts[3]).len() > 0 {
            Some(trim(parts[3]))
        } else {
            None
        };
        let roles = if parts.len() == 4 {
            parts[3]
        } else {
            parts[4]
        };
        if key.len() == 0 || label.len() == 0 || group.len() == 0 {
            Err(ConfigFault::TargetFieldsEmpty)
        } else if utf8_len(key) > 64 || !key_chars_ok(key) {
            Err(ConfigFault::TargetKey)
        } else if utf8_len(label) > 100 || has_control(label) {
            Err(ConfigFault::TargetLabel)
        } else if utf8_len(group) > 200 || has_white(group) {
            Err(ConfigFault::TargetGroup)
        } else if completion_url is Some && !is_web_url(completion_url->0) {
            Err(ConfigFault::TargetCompletionUrl)
        } else {
            match role_ids_result(split(roles, ',')) {
                Err(k) => Err(ConfigFault::RoleId(k)),
                Ok(ids) => if ids.len() == 0 {
                    Err(ConfigFault::NoManagerRoles)
                } else {
                    Ok(
                        TargetView {
                            key,
                            label,
                            authentik_group_uuid: group,
                            completion_url,
                            approver_role_ids: ids,
                        },
                    )
                },
            }
        }
    }
}

fn key_chars_allowed(key: &Vec<char>) -> (r: bool)
    ensures
        r == key_chars_ok(key@),
{
    for i in 0..key.len()
        invariant
            forall|k: int| 0 <= k < i ==> key_char_ok(#[trigger] key@[k]),
    {
        let c = key[i];
        if !(char_is_ascii_alphanumeric(c) || c == '-' || c == '_') {
            return false;
        }
    }
    true
}

/// Reads one `ONBOARDING_TARGETS` entry.
pub fn parse_onboarding_target(value: &str) -> (r: Result<OnboardingTargetConfig, ConfigError>)
    ensures
        match r {
            Ok(t) => target_result(value@) == Ok::<TargetView, ConfigFault>(t@),
            Err(e) => target_result(value@) == Err::<TargetView, ConfigFault>(e@),
        },
{
    let parts = split_str(value, '|');
    let n = parts.len();
    if n != 4 && n != 5 {
        return Err(ConfigError::TargetShape);
    }
    let key = trimmed(&parts[0]);
    let label = trimmed(&parts[1]);
    let group = trimmed(&parts[2]);
    let completion_url: Option<Vec<char>> = if n == 5 {
        let url = trimmed(&parts[3]);
        if url.len() > 0 {
            Some(url)
        } else {
            None
        }
    } else {
        None
    };
    let roles = if n == 4 {
        &parts[3]
    } else {
        &parts[4]
    };
    if key.len() == 0 || label.len() == 0 || group.len() == 0 {
        return Err(ConfigError::TargetFieldsEmpty);
    }
    if !utf8_len_at_most(&key, 64) || !key_chars_allowed(&key) {
        return Err(ConfigError::TargetKey);
    }
    if !utf8_len_at_most(&label, 100) || any_control(&label) {
        return Err(ConfigError::TargetLabel);
    }
    if !utf8_len_at_most(&group, 200) || any_white(&group) {
        return Err(ConfigError::TargetGroup);
    }
    let completion_text: Option<String> = match &completion_url {
        Some(url) => {
            let text = string_from(url);
            if validate_web_url(text.as_str()).is_err() {
                return Err(ConfigError::TargetCompletionUrl);
            }
            Some(text)
        },
        None => None,
    };
    let approver_role_ids = role_ids_from_chars(roles)?;
    if approver_role_ids.len() == 0 {
        return Err(ConfigError::NoManagerRoles);
    }
    Ok(
        OnboardingTargetConfig {
            key: string_from(&key),
            label: string_from(&label),
            authentik_group_uuid: string_from(&group),
            completion_url: completion_text,
            approver_role_ids,
        },
    )
}

/// Reading `;`-separated entries from the left (blank ones skipped): the
/// targets, or the error of the first entry that is refused.
pub open spec fn targets_from(entries: Seq<Seq<char>>) -> Result<Seq<TargetView>, ConfigFault>
    decreases entries.len(),
{
    if entries.len() == 0 {
        Ok(Seq::empty())
    } else {
        match targets_from(entries.drop_last()) {
            Err(e) => Err(e),
            Ok(ts) => if trim(entries.last()).len() == 0 {
                Ok(ts)
            } else {
                match target_result(entries.last()) {
                    Ok(t) => Ok(ts.push(t)),
                    Err(e) => Err(e),
                }
            },
        }
    }
}

/// Scanning keys from the left, the first that equals an earlier one when
/// ASCII case is ignored.
pub open spec fn first_duplicate_key(keys: Seq<Seq<char>>) -> Option<Seq<char>>
    decreases keys.len(),
{
    if keys.len() == 0 {
        None
    } else {
        match first_duplicate_key(keys.drop_last()) {
            Some(k) => Some(k),
            None => if exists|j: int| 0 <= j < keys.len() - 1 && eq_ignore_case(#[trigger] keys[j], keys.last()) {
                Some(keys.last())
            } else {
                None
            },
        }
    }
}

/// What `ONBOARDING_TARGETS` holding `value` configures.
pub open spec fn targets_result(value: Seq<char>) -> Result<Seq<TargetView>, ConfigFault> {
    match targets_from(split(value, ';')) {
        Err(e) => Err(e),
        Ok(ts) => if ts.len() == 0 {
            Err(ConfigFault::NoOnboardingTargets)
        } else {
            match first_duplicate_key(ts.map_values(|t: TargetView| t.key)) {
                Some(k) => Err(ConfigFault::DuplicateTargetKey(k)),
                None => Ok(ts),
            }
        },
    }
}

pub open spec fn target_views(ts: Seq<OnboardingTargetConfig>) -> Seq<TargetView> {
    ts.map_values(|t: OnboardingTargetConfig| t@)
}

proof fn lemma_target_error_stays(entries: Seq<Seq<char>>, n: int)
    requires
        0 <= n <= entries.len(),
        targets_from(entries.take(n)) is Err,
    ensures
        targets_from(entries) == targets_from(entries.take(n)),
    decreases entries.len() - n,
{
    if n < entries.len() {
        assert(entries.drop_last().take(n) == entries.take(n));
        lemma_target_error_stays(entries.drop_last(), n);
    } else {
        assert(entries.take(n) == entries);
    }
}

proof fn lemma_duplicate_stays(keys: Seq<Seq<char>>, n: int)
    requires
        0 <= n <= keys.len(),
        first_duplicate_key(keys.take(n)) is Some,
    ensures
        first_duplicate_key(keys) == first_duplicate_key(keys.take(n)),
    decreases keys.len() - n,
{
    if n < keys.len() {
        assert(keys.drop_last().take(n) == keys.take(n));
        lemma_duplicate_stays(keys.drop_last(), n);
    } else {
        assert(keys.take(n) == keys);
    }
}

/// The position of the first key equal to an earlier one, ignoring ASCII case.
fn find_duplicate_key(targets: &Vec<OnboardingTargetConfig>) -> (r: Option<usize>)
    ensures
        match r {
            Some(i) => i < targets@.len() && first_duplicate_key(
                target_views(targets@).map_values(|t: TargetView| t.key),
            ) == Some(targets@[i as int].key@),
            None => first_duplicate_key(target_views(targets@).map_values(|t: TargetView| t.key))
                is None,
        },
{
    let ghost keys = target_views(targets@).map_values(|t: TargetView| t.key);
    let mut i: usize = 0;
    while i < targets.len()
        invariant
            i <= targets@.len(),
            keys == target_views(targets@).map_values(|t: TargetView| t.key),
            keys.len() == targets@.len(),
            first_duplicate_key(keys.take(i as int)) is None,
        decreases targets.len() - i,
    {
        let key_i = chars_of(targets[i].key.as_str());
        assert(keys[i as int] == targets@[i as int].key@);
        let ghost after = keys.take(i + 1);
        assert(after.drop_last() == keys.take(i as int));
        assert(after.last() == keys[i as int]);
        let mut j: usize = 0;
        while j < i
            invariant
                j <= i < targets@.len(),
                keys == target_views(targets@).map_values(|t: TargetView| t.key),
                keys.len() == targets@.len(),
                key_i@ == keys[i as int],
                after == keys.take(i + 1),
                first_duplicate_key(after.drop_last()) is None,
                after.len() == i + 1,
                forall|q: int| 0 <= q < j ==> !eq_ignore_case(#[trigger] after[q], after.last()),
            decreases i - j,
        {
            let key_j = chars_of(targets[j].key.as_str());
            assert(keys[j as int] == targets@[j as int].key@);
            assert(after[j as int] == keys[j as int]);
            if eq_ignore_ascii_case(&key_j, &key_i) {
                assert(after.len() == i + 1);
                assert(eq_ignore_case(after[j as int], after.last()));
                assert(first_duplicate_key(after.drop_last()) is None);
                assert(exists|q: int| 0 <= q < after.len() - 1 && eq_ignore_case(#[trigger] after[q], after.last()));
                assert(first_duplicate_key(after) == Some(keys[i as int]));
                proof {
                    lemma_duplicate_stays(keys, i + 1);
                }
                return Some(i);
            }
            j = j + 1;
        }
        assert(first_duplicate_key(after) is None);
        i = i + 1;
    }
    assert(keys.take(targets.len() as int) == keys);
    None
}

/// Reads `ONBOARDING_TARGETS`: `;`-separated entries, blank ones skipped;
/// there must be at least one, and no two keys may be equal ignoring ASCII
/// case.
pub fn parse_onboarding_targets(value: &str) -> (r: Result<Vec<OnboardingTargetConfig>, ConfigError>)
    ensures
        match r {
            Ok(ts) => targets_result(value@) == Ok::<Seq<TargetView>, ConfigFault>(target_views(ts@)),
            Err(e) => targets_result(value@) == Err::<Seq<TargetView>, ConfigFault>(e@),
        },
{
    let entries = split_str(value, ';');
    let ghost spec_entries = split(value@, ';');
    let mut targets: Vec<OnboardingTargetConfig> = Vec::new();
    let mut i: usize = 0;
    assert(spec_entries.take(0) =~= Seq::<Seq<char>>::empty());
    assert(target_views(targets@) =~= Seq::<TargetView>::empty());
    while i < entries.len()
        invariant
            i <= entries@.len(),
            entries@.len() == spec_entries.len(),
            spec_entries == split(value@, ';'),
            forall|k: int| 0 <= k < entries@.len() ==> (#[trigger] entries@[k])@ == spec_entries[k],
            targets_from(spec_entries.take(i as int)) == Ok::<Seq<TargetView>, ConfigFault>(
                target_views(targets@),
            ),
        decreases entries.len() - i,
    {
        let ghost after = spec_entries.take(i + 1);
        assert(after.drop_last() == spec_entries.take(i as int));
        assert(after.last() == spec_entries[i as int]);
        if trimmed(&entries[i]).len() > 0 {
            let text = string_from(&entries[i]);
            match parse_onboarding_target(text.as_str()) {
                Ok(t) => {
                    let ghost old_targets = targets@;
                    let ghost tv = t@;
                    targets.push(t);
                    assert(targets@ == old_targets.push(targets@.last()));
                    assert(target_views(targets@) =~= target_views(old_targets).push(tv));
                },
                Err(e) => {
                    proof {
                        lemma_target_error_stays(spec_entries, i + 1);
                    }
                    return Err(e);
                },
            }
        }
        i = i + 1;
    }
    assert(spec_entries.take(entries.len() as int) == spec_entries);
    if targets.len() == 0 {
        return Err(ConfigError::NoOnboardingTargets);
    }
    match find_duplicate_key(&targets) {
        Some(i) => Err(ConfigError::DuplicateTargetKey(targets[i].key.clone())),
        None => Ok(targets),
    }
}

// ---------------------------------------------------------------------------
// What every accepted target list satisfies
// ---------------------------------------------------------------------------

proof fn lemma_no_duplicate_keys(keys: Seq<Seq<char>>)
    requires
        first_duplicate_key(keys) is None,
    ensures
        forall|i: int, j: int|
            0 <= i < j < keys.len() ==> !eq_ignore_case(#[trigger] keys[i], #[trigger] keys[j]),
    decreases keys.len(),
{
    if keys.len() > 0 {
        let init = keys.drop_last();
        lemma_no_duplicate_keys(init);
        assert forall|i: int, j: int|
            0 <= i < j < keys.len() implies !eq_ignore_case(#[trigger] keys[i], #[trigger] keys[j]) by {
            if j < keys.len() - 1 {
                assert(keys[i] == init[i] && keys[j] == init[j]);
            } else {
                assert(keys[j] == keys.last());
                if eq_ignore_case(keys[i], keys[j]) {
                    assert(exists|q: int| 0 <= q < keys.len() - 1 && eq_ignore_case(#[trigger] keys[q], keys.last()));
                }
            }
        }
    }
}

proof fn lemma_targets_from_valid(entries: Seq<Seq<char>>)
    requires
        targets_from(entries) is Ok,
    ensures
        forall|i: int| 0 <= i < targets_from(entries)->Ok_0.len() ==> {
            let t = #[trigger] targets_from(entries)->Ok_0[i];
            &&& t.key.len() > 0
            &&& key_chars_ok(t.key)
            &&& t.approver_role_ids.len() > 0
            &&& (t.completion_url matches Some(u) ==> is_web_url(u))
        },
    decreases entries.len(),
{
    if entries.len() > 0 {
        lemma_targets_from_valid(entries.drop_last());
    }
}

/// Every list of targets that `ONBOARDING_TARGETS` is read as holds at least
/// one target; no two keys are equal when ASCII case is ignored; every key
/// is a non-empty run of ASCII letters, digits, `-` and `_`; every target
/// names at least one approver role; and every completion URL is an `http`
/// or `https` URL.
pub proof fn lemma_accepted_targets_are_sound(value: Seq<char>)
    requires
        targets_result(value) is Ok,
    ensures
        ({
            let ts = targets_result(value)->Ok_0;
            &&& ts.len() > 0
            &&& forall|i: int, j: int|
                0 <= i < j < ts.len() ==> !eq_ignore_case(#[trigger] ts[i].key, #[trigger] ts[j].key)
            &&& forall|i: int| 0 <= i < ts.len() ==> {
                let t = #[trigger] ts[i];
                &&& t.key.len() > 0
                &&& key_chars_ok(t.key)
                &&& t.approver_role_ids.len() > 0
                &&& (t.completion_url matches Some(u) ==> is_web_url(u))
            }
        }),
{
    let entries = split(value, ';');
    lemma_targets_from_valid(entries);
    let ts = targets_from(entries)->Ok_0;
    let keys = ts.map_values(|t: TargetView| t.key);
    lemma_no_duplicate_keys(keys);
    assert forall|i: int, j: int|
        0 <= i < j < ts.len() implies !eq_ignore_case(#[trigger] ts[i].key, #[trigger] ts[j].key) by {
        assert(keys[i] == ts[i].key && keys[j] == ts[j].key);
    }
}


/// The key check refuses exactly the keys that are too long or hold a
/// character other than an ASCII letter, digit, `-` or `_`: an entry refused
/// for its key has such a key, and an accepted entry's key is its trimmed
/// first field, non-empty, at most 64 bytes, of those characters only.
pub proof fn lemma_target_key_check(entry: Seq<char>)
    ensures
        target_result(entry) == Err::<TargetView, ConfigFault>(ConfigFault::TargetKey) ==> ({
            let key = trim(split(entry, '|')[0]);
            utf8_len(key) > 64 || exists|i: int| 0 <= i < key.len() && !(('0' <= #[trigger] key[i] && key[i] <= '9')
                || ('A' <= key[i] && key[i] <= 'Z') || ('a' <= key[i] && key[i] <= 'z') || key[i] == '-' || key[i]
                == '_')
        }),
        target_result(entry) matches Ok(t) ==> {
            &&& t.key == trim(split(entry, '|')[0])
            &&& 0 < t.key.len() && utf8_len(t.key) <= 64
            &&& forall|i: int| 0 <= i < t.key.len() ==> (('0' <= #[trigger] t.key[i] && t.key[i] <= '9') || ('A'
                <= t.key[i] && t.key[i] <= 'Z') || ('a' <= t.key[i] && t.key[i] <= 'z') || t.key[i] == '-'
                || t.key[i] == '_')
        },
{
    if target_result(entry) == Err::<TargetView, ConfigFault>(ConfigFault::TargetKey) {
        let key = trim(split(entry, '|')[0]);
        if utf8_len(key) <= 64 {
            assert(!key_chars_ok(key));
            let i = choose|i: int| 0 <= i < key.len() && !key_char_ok(key[i]);
            assert(0 <= i < key.len() && !key_char_ok(key[i]));
        }
    }
    if let Ok(t) = target_result(entry) {
        assert forall|i: int| 0 <= i < t.key.len() implies (('0' <= #[trigger] t.key[i] && t.key[i] <= '9')
            || ('A' <= t.key[i] && t.key[i] <= 'Z') || ('a' <= t.key[i] && t.key[i] <= 'z') || t.key[i]
            == '-' || t.key[i] == '_') by {
            assert(key_char_ok(t.key[i]));
        }
    }
}

} // verus!
