//! The optional parts of the bot that `BOT_FEATURES` switches on.
use vstd::prelude::*;
use crate::config::{ConfigError, ConfigFault, Environment, EnvView, required, required_spec};
use crate::text::{chars_of, same_chars, split, split_str, string_from, trim, trimmed};

verus! {

#[derive(Clone, Copy, Debug, PartialEq, Eq, Hash, Structural)]
pub enum Feature {
    Age,
    Verification,
    Onboarding,
}

/// The name a feature has in `BOT_FEATURES`.
pub open spec fn feature_name(f: Feature) -> Seq<char> {
    match f {
        Feature::Age => "age"@,
        Feature::Verification => "verification"@,
        Feature::Onboarding => "onboarding"@,
    }
}

/// The feature an entry names, if any (`Feature::from_str`).
pub open spec fn feature_named(s: Seq<char>) -> Option<Feature> {
    if s == "age"@ {
        Some(Feature::Age)
    } else if s == "verification"@ {
        Some(Feature::Verification)
    } else if s == "onboarding"@ {
        Some(Feature::Onboarding)
    } else {
        None
    }
}

impl Feature {
    pub fn name(self) -> (s: &'static str)
        ensures
            s@ == feature_name(self),
    {
        match self {
            Feature::Age => "age",
            Feature::Verification => "verification",
            Feature::Onboarding => "onboarding",
        }
    }

    /// The feature that `text` names exactly.
    pub fn from_name(text: &Vec<char>) -> (r: Option<Feature>)
        ensures
            r == feature_named(text@),
    {
        if same_chars(text, &chars_of("age")) {
            Some(Feature::Age)
        } else if same_chars(text, &chars_of("verification")) {
            Some(Feature::Verification)
        } else if same_chars(text, &chars_of("onboarding")) {
            Some(Feature::Onboarding)
        } else {
            None
        }
    }
}

/// Scanning the comma-separated entries of a feature list from the left
/// (each trimmed, blank ones skipped), the first that names no feature.
pub open spec fn first_unknown_feature(entries: Seq<Seq<char>>) -> Option<Seq<char>>
    decreases entries.len(),
{
    if entries.len() == 0 {
        None
    } else {
        match first_unknown_feature(entries.drop_last()) {
            Some(u) => Some(u),
            None => {
                let t = trim(entries.last());
                if t.len() > 0 && feature_named(t) is None {
                    Some(t)
                } else {
                    None
                }
            },
        }
    }
}

/// Whether some entry of a feature list names `f`.
pub open spec fn lists_feature(entries: Seq<Seq<char>>, f: Feature) -> bool {
    exists|i: int| 0 <= i < entries.len() && feature_named(trim(#[trigger] entries[i])) == Some(f)
}

/// The features a list names.
pub open spec fn listed_features(entries: Seq<Seq<char>>) -> Set<Feature> {
    Set::new(|f: Feature| lists_feature(entries, f))
}

/// What `BOT_FEATURES` holding `value` configures: the named features, or
/// the first unknown entry, or a set that is empty or that has onboarding
/// without verification.
pub open spec fn feature_set_result(value: Seq<char>) -> Result<Set<Feature>, ConfigFault> {
    let entries = split(value, ',');
    match first_unknown_feature(entries) {
        Some(u) => Err(ConfigFault::UnknownFeature(u)),
        None => {
            let s = listed_features(entries);
            if !s.contains(Feature::Age) && !s.contains(Feature::Verification) && !s.contains(
                Feature::Onboarding,
            ) {
                Err(ConfigFault::NoFeatures)
            } else if s.contains(Feature::Onboarding) && !s.contains(Feature::Verification) {
                Err(ConfigFault::OnboardingWithoutVerification)
            } else {
                Ok(s)
            }
        },
    }
}

/// The names of the features in `s`, in the order age, verification, onboarding.
pub open spec fn feature_names(s: Set<Feature>) -> Seq<Seq<char>> {
    (if s.contains(Feature::Age) {
        seq!["age"@]
    } else {
        Seq::empty()
    }) + (if s.contains(Feature::Verification) {
        seq!["verification"@]
    } else {
        Seq::empty()
    }) + (if s.contains(Feature::Onboarding) {
        seq!["onboarding"@]
    } else {
        Seq::empty()
    })
}

/// The enabled features.
#[derive(Clone, Debug)]
pub struct FeatureSet {
    age: bool,
    verification: bool,
    onboarding: bool,
}

impl View for FeatureSet {
    type V = Set<Feature>;

    closed spec fn view(&self) -> Set<Feature> {
        Set::new(
            |f: Feature|
                match f {
                    Feature::Age => self.age,
                    Feature::Verification => self.verification,
                    Feature::Onboarding => self.onboarding,
                },
        )
    }
}

impl FeatureSet {
    pub fn contains(&self, feature: Feature) -> (r: bool)
        ensures
            r == self@.contains(feature),
    {
        match feature {
            Feature::Age => self.age,
            Feature::Verification => self.verification,
            Feature::Onboarding => self.onboarding,
        }
    }

    /// The names of the enabled features, in the order age, verification,
    /// onboarding.
    pub fn names(&self) -> (out: Vec<&'static str>)
        ensures
            out@.map_values(|s: &'static str| s@) == feature_names(self@),
    {
        let mut out: Vec<&'static str> = Vec::new();
        if self.contains(Feature::Age) {
            out.push(Feature::Age.name());
        }
        if self.contains(Feature::Verification) {
            out.push(Feature::Verification.name());
        }
        if self.contains(Feature::Onboarding) {
            out.push(Feature::Onboarding.name());
        }
        assert(out@.map_values(|s: &'static str| s@) =~= feature_names(self@));
        out
    }

    /// Reads a `BOT_FEATURES` value: comma-separated feature names, each
    /// trimmed, blank entries skipped.
    pub fn parse(value: &str) -> (r: Result<FeatureSet, ConfigError>)
        ensures
            match r {
                Ok(s) => feature_set_result(value@) == Ok::<Set<Feature>, ConfigFault>(s@),
                Err(e) => feature_set_result(value@) == Err::<Set<Feature>, ConfigFault>(e@),
            },
    {
        let entries = split_str(value, ',');
        let ghost spec_entries = split(value@, ',');
        let mut age = false;
        let mut verification = false;
        let mut onboarding = false;
        let mut i: usize = 0;
        while i < entries.len()
            invariant
                i <= entries@.len(),
                entries@.len() == spec_entries.len(),
                spec_entries == split(value@, ','),
                forall|k: int| 0 <= k < entries@.len() ==> (#[trigger] entries@[k])@ == spec_entries[k],
                first_unknown_feature(spec_entries.take(i as int)) is None,
                age == lists_feature(spec_entries.take(i as int), Feature::Age),
                verification == lists_feature(spec_entries.take(i as int), Feature::Verification),
                onboarding == lists_feature(spec_entries.take(i as int), Feature::Onboarding),
            decreases entries.len() - i,
        {
            let t = trimmed(&entries[i]);
            let ghost before = spec_entries.take(i as int);
            let ghost after = spec_entries.take(i + 1);
            assert(after.drop_last() == before);
            assert(after.last() == spec_entries[i as int]);
            proof {
                assert forall|f: Feature| lists_feature(after, f) == (lists_feature(before, f)
                    || feature_named(trim(spec_entries[i as int])) == Some(f)) by {
                    if lists_feature(after, f) {
                        let k = choose|k: int| 0 <= k < after.len() && feature_named(trim(#[trigger] after[k])) == Some(f);
                        if k < i {
                            assert(before[k] == after[k]);
                        }
                    }
                    if lists_feature(before, f) {
                        let k = choose|k: int| 0 <= k < before.len() && feature_named(trim(#[trigger] before[k])) == Some(f);
                        assert(before[k] == after[k]);
                    }
                    if feature_named(trim(spec_entries[i as int])) == Some(f) {
                        assert(after[i as int] == spec_entries[i as int]);
                    }
                }
            }
            if t.len() > 0 {
                match Feature::from_name(&t) {
                    Some(Feature::Age) => {
                        age = true;
                    },
                    Some(Feature::Verification) => {
                        verification = true;
                    },
                    Some(Feature::Onboarding) => {
                        onboarding = true;
                    },
                    None => {
                        proof {
                            lemma_unknown_feature_stays(spec_entries, (i + 1) as int);
                        }
                        return Err(ConfigError::UnknownFeature(string_from(&t)));
                    },
                }
            } else {
                proof {
                    reveal_strlit("age");
                    reveal_strlit("verification");
                    reveal_strlit("onboarding");
                }
                assert(feature_named(t@) is None);
            }
            i = i + 1;
        }
        assert(spec_entries.take(entries.len() as int) == spec_entries);
        let set = FeatureSet { age, verification, onboarding };
        assert forall|f: Feature| #[trigger] set@.contains(f) == listed_features(spec_entries).contains(f) by {
            match f {
                Feature::Age => {},
                Feature::Verification => {},
                Feature::Onboarding => {},
            }
        }
        assert(set@ =~= listed_features(spec_entries));
        if !age && !verification && !onboarding {
            return Err(ConfigError::NoFeatures);
        }
        if onboarding && !verification {
            return Err(ConfigError::OnboardingWithoutVerification);
        }
        Ok(set)
    }

    /// `BOT_FEATURES`, which is required.
    pub fn from_env(env: &Environment) -> (r: Result<FeatureSet, ConfigError>)
        ensures
            match r {
                Ok(s) => feature_set_from_env(env@) == Ok::<Set<Feature>, ConfigFault>(s@),
                Err(e) => feature_set_from_env(env@) == Err::<Set<Feature>, ConfigFault>(e@),
            },
    {
        let value = required(env, "BOT_FEATURES")?;
        FeatureSet::parse(value.as_str())
    }
}

/// `BOT_FEATURES` read from an environment.
pub open spec fn feature_set_from_env(env: EnvView) -> Result<Set<Feature>, ConfigFault> {
    match required_spec(env, "BOT_FEATURES"@) {
        Err(e) => Err(e),
        Ok(v) => feature_set_result(v),
    }
}

/// Once an unknown entry is found, the entries after it do not change it.
proof fn lemma_unknown_feature_stays(entries: Seq<Seq<char>>, n: int)
    requires
        0 <= n <= entries.len(),
        first_unknown_feature(entries.take(n)) is Some,
    ensures
        first_unknown_feature(entries) == first_unknown_feature(entries.take(n)),
    decreases entries.len() - n,
{
    if n < entries.len() {
        assert(entries.drop_last().take(n) == entries.take(n));
        lemma_unknown_feature_stays(entries.drop_last(), n);
    } else {
        assert(entries.take(n) == entries);
    }
}

impl core::str::FromStr for FeatureSet {
    type Err = ConfigError;

    fn from_str(value: &str) -> (r: Result<FeatureSet, ConfigError>)
        ensures
            match r {
                Ok(s) => feature_set_result(value@) == Ok::<Set<Feature>, ConfigFault>(s@),
                Err(e) => feature_set_result(value@) == Err::<Set<Feature>, ConfigFault>(e@),
            },
    {
        FeatureSet::parse(value)
    }
}

/// The slash commands the enabled features bring, in the order age,
/// verification, onboarding.
pub open spec fn command_names(s: Set<Feature>) -> Seq<Seq<char>> {
    (if s.contains(Feature::Age) {
        seq!["age"@]
    } else {
        Seq::empty()
    }) + (if s.contains(Feature::Verification) {
        seq!["verify"@]
    } else {
        Seq::empty()
    }) + (if s.contains(Feature::Onboarding) {
        seq!["onboard"@]
    } else {
        Seq::empty()
    })
}

pub fn enabled_commands(features: &FeatureSet) -> (out: Vec<&'static str>)
    ensures
        out@.map_values(|s: &'static str| s@) == command_names(features@),
{
    let mut out: Vec<&'static str> = Vec::new();
    if features.contains(Feature::Age) {
        out.push("age");
    }
    if features.contains(Feature::Verification) {
        out.push("verify");
    }
    if features.contains(Feature::Onboarding) {
        out.push("onboard");
    }
    assert(out@.map_values(|s: &'static str| s@) =~= command_names(features@));
    out
}

/// Every accepted feature set enables at least one feature, and never
/// onboarding without verification.
pub proof fn lemma_accepted_features_are_consistent(value: Seq<char>)
    requires
        feature_set_result(value) is Ok,
    ensures
        ({
            let s = feature_set_result(value)->Ok_0;
            &&& s.contains(Feature::Age) || s.contains(Feature::Verification) || s.contains(Feature::Onboarding)
            &&& s.contains(Feature::Onboarding) ==> s.contains(Feature::Verification)
        }),
{
}

} // verus!
