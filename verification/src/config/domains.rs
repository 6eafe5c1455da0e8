//! The allow-list of e-mail domains that verification accepts.
use vstd::prelude::*;
use crate::config::ConfigError;
use crate::config::ConfigFault;
use crate::text::{
    any_white, contains_char, contains_text, has_white, lowercase, lowercased, split, split_str,
    string_from, texts, trim, trimmed,
};

verus! {

/// An allow-list entry as it is compared: trimmed and lowercased.
pub open spec fn domain_of_entry(entry: Seq<char>) -> Seq<char> {
    lowercase(trim(entry))
}

/// Whether an entry names a domain: it is not blank and holds neither `@`
/// nor inner white space.
pub open spec fn domain_entry_ok(entry: Seq<char>) -> bool {
    let d = domain_of_entry(entry);
    d.len() > 0 && !d.contains('@') && !has_white(d)
}

/// Scanning the entries from the left, the first that names no domain, as
/// it was written.
pub open spec fn first_bad_domain_entry(entries: Seq<Seq<char>>) -> Option<Seq<char>>
    decreases entries.len(),
{
    if entries.len() == 0 {
        None
    } else {
        match first_bad_domain_entry(entries.drop_last()) {
            Some(e) => Some(e),
            None => if domain_entry_ok(entries.last()) {
                None
            } else {
                Some(entries.last())
            },
        }
    }
}

/// The texts of `s` without repeats, each kept where it first occurs.
pub open spec fn dedup(s: Seq<Seq<char>>) -> Seq<Seq<char>>
    decreases s.len(),
{
    if s.len() == 0 {
        Seq::empty()
    } else {
        let d = dedup(s.drop_last());
        if d.contains(s.last()) {
            d
        } else {
            d.push(s.last())
        }
    }
}

/// What `VERIFICATION_ALLOWED_EMAIL_DOMAINS` holding `value` configures: the
/// comma-separated entries, trimmed and lowercased, without repeats; or the
/// first entry that names no domain.
pub open spec fn email_domains_result(value: Seq<char>) -> Result<Seq<Seq<char>>, ConfigFault> {
    let entries = split(value, ',');
    match first_bad_domain_entry(entries) {
        Some(e) => Err(ConfigFault::InvalidEmailDomain(e)),
        None => {
            let d = dedup(entries.map_values(|e: Seq<char>| domain_of_entry(e)));
            if d.len() == 0 {
                Err(ConfigFault::NoEmailDomains)
            } else {
                Ok(d)
            }
        },
    }
}

proof fn lemma_bad_domain_entry_stays(entries: Seq<Seq<char>>, n: int)
    requires
        0 <= n <= entries.len(),
        first_bad_domain_entry(entries.take(n)) is Some,
    ensures
        first_bad_domain_entry(entries) == first_bad_domain_entry(entries.take(n)),
    decreases entries.len() - n,
{
    if n < entries.len() {
        assert(entries.drop_last().take(n) == entries.take(n));
        lemma_bad_domain_entry_stays(entries.drop_last(), n);
    } else {
        assert(entries.take(n) == entries);
    }
}

/// Reads the domain allow-list.
pub fn parse_email_domains(value: &str) -> (r: Result<Vec<String>, ConfigError>)
    ensures
        match r {
            Ok(d) => email_domains_result(value@) == Ok::<Seq<Seq<char>>, ConfigFault>(texts(d@)),
            Err(e) => email_domains_result(value@) == Err::<Seq<Seq<char>>, ConfigFault>(e@),
        },
{
    let entries = split_str(value, ',');
    let ghost spec_entries = split(value@, ',');
    let ghost lowered = spec_entries.map_values(|e: Seq<char>| domain_of_entry(e));
    let mut domains: Vec<String> = Vec::new();
    let mut i: usize = 0;
    while i < entries.len()
        invariant
            i <= entries@.len(),
            entries@.len() == spec_entries.len(),
            spec_entries == split(value@, ','),
            lowered == spec_entries.map_values(|e: Seq<char>| domain_of_entry(e)),
            forall|k: int| 0 <= k < entries@.len() ==> (#[trigger] entries@[k])@ == spec_entries[k],
            first_bad_domain_entry(spec_entries.take(i as int)) is None,
            texts(domains@) == dedup(lowered.take(i as int)),
        decreases entries.len() - i,
    {
        let ghost before = spec_entries.take(i as int);
        let ghost after = spec_entries.take(i + 1);
        assert(after.drop_last() == before);
        assert(after.last() == spec_entries[i as int]);
        assert(lowered.take(i + 1).drop_last() == lowered.take(i as int));
        assert(lowered.take(i + 1).last() == domain_of_entry(spec_entries[i as int]));
        let domain = lowercased(&trimmed(&entries[i]));
        if domain.len() == 0 || contains_char(&domain, '@') || any_white(&domain) {
            proof {
                lemma_bad_domain_entry_stays(spec_entries, i + 1);
            }
            return Err(ConfigError::InvalidEmailDomain(string_from(&entries[i])));
        }
        let text = string_from(&domain);
        if !contains_text(&domains, &text) {
            domains.push(text);
            assert(texts(domains@) =~= dedup(lowered.take(i as int)).push(domain@));
        }
        i = i + 1;
    }
    assert(spec_entries.take(entries.len() as int) == spec_entries);
    assert(lowered.take(entries.len() as int) == lowered);
    if domains.len() == 0 {
        return Err(ConfigError::NoEmailDomains);
    }
    Ok(domains)
}

proof fn lemma_dedup(s: Seq<Seq<char>>)
    ensures
        forall|i: int, j: int| 0 <= i < j < dedup(s).len() ==> #[trigger] dedup(s)[i] != #[trigger] dedup(s)[j],
        forall|i: int| 0 <= i < dedup(s).len() ==> s.contains(#[trigger] dedup(s)[i]),
        forall|i: int| 0 <= i < s.len() ==> dedup(s).contains(#[trigger] s[i]),
    decreases s.len(),
{
    if s.len() > 0 {
        let init = s.drop_last();
        lemma_dedup(init);
        let d = dedup(init);
        assert forall|i: int| 0 <= i < dedup(s).len() implies s.contains(#[trigger] dedup(s)[i]) by {
            if i < d.len() {
                assert(dedup(s)[i] == d[i]);
                let k = choose|k: int| 0 <= k < init.len() && init[k] == d[i];
                assert(s[k] == init[k]);
            } else {
                assert(dedup(s)[i] == s.last());
                assert(s[s.len() - 1] == s.last());
            }
        }
        assert forall|i: int| 0 <= i < s.len() implies dedup(s).contains(#[trigger] s[i]) by {
            if i < s.len() - 1 {
                assert(s[i] == init[i]);
                assert(d.contains(init[i]));
                let k = choose|k: int| 0 <= k < d.len() && d[k] == init[i];
                assert(dedup(s)[k] == d[k]);
            } else if !d.contains(s.last()) {
                assert(dedup(s)[d.len() as int] == s.last());
            }
        }
    }
}

/// Every accepted allow-list is non-empty, names each domain once, and
/// holds only trimmed, lowercased domains without `@` or white space; each
/// comes from an entry of the list.
pub proof fn lemma_accepted_domains_are_sound(value: Seq<char>)
    requires
        email_domains_result(value) is Ok,
    ensures
        ({
            let d = email_domains_result(value)->Ok_0;
            &&& d.len() > 0
            &&& forall|i: int, j: int| 0 <= i < j < d.len() ==> #[trigger] d[i] != #[trigger] d[j]
            &&& forall|i: int| 0 <= i < d.len() ==> {
                let x = #[trigger] d[i];
                &&& x.len() > 0
                &&& !x.contains('@')
                &&& !has_white(x)
                &&& exists|k: int| 0 <= k < split(value, ',').len() && x == domain_of_entry(#[trigger] split(value, ',')[k])
            }
        }),
{
    let entries = split(value, ',');
    let lowered = entries.map_values(|e: Seq<char>| domain_of_entry(e));
    lemma_dedup(lowered);
    lemma_entries_ok(entries);
    let d = dedup(lowered);
    assert forall|i: int| 0 <= i < d.len() implies {
        let x = #[trigger] d[i];
        &&& x.len() > 0
        &&& !x.contains('@')
        &&& !has_white(x)
        &&& exists|k: int| 0 <= k < split(value, ',').len() && x == domain_of_entry(#[trigger] split(value, ',')[k])
    } by {
        let k = choose|k: int| 0 <= k < lowered.len() && lowered[k] == d[i];
        assert(domain_entry_ok(entries[k]));
        assert(lowered[k] == domain_of_entry(entries[k]));
    }
}

proof fn lemma_entries_ok(entries: Seq<Seq<char>>)
    requires
        first_bad_domain_entry(entries) is None,
    ensures
        forall|k: int| 0 <= k < entries.len() ==> domain_entry_ok(#[trigger] entries[k]),
    decreases entries.len(),
{
    if entries.len() > 0 {
        lemma_entries_ok(entries.drop_last());
        assert forall|k: int| 0 <= k < entries.len() implies domain_entry_ok(#[trigger] entries[k]) by {
            if k < entries.len() - 1 {
                assert(entries[k] == entries.drop_last()[k]);
            }
        }
    }
}

} // verus!
