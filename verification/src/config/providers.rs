//! Online Bible providers the reader may use, with their API keys.
use vstd::prelude::*;
use vstd::string::*;

verus! {

/// Kinds of online providers.
#[derive(Debug, Clone, Copy, PartialEq, Eq, Structural)]
pub enum ProviderKind {
    YouVersion,
}

/// Display name of a provider kind.
pub open spec fn spec_provider_label(k: ProviderKind) -> Seq<char> {
    match k {
        ProviderKind::YouVersion => "YouVersion Platform"@,
    }
}

impl ProviderKind {
    /// Display name of this provider kind.
    pub fn label(&self) -> (r: &'static str)
        ensures
            r@ == spec_provider_label(*self),
    {
        match self {
            ProviderKind::YouVersion => "YouVersion Platform",
        }
    }
}

/// One configured provider.
pub struct ProviderConfig {
    pub kind: ProviderKind,
    pub app_key: String,
    pub enabled: bool,
}

/// All configured providers, in the order they were configured.
pub struct ProvidersConfig {
    pub providers: Vec<ProviderConfig>,
}

impl Default for ProvidersConfig {
    fn default() -> (c: Self)
        ensures
            c.providers@.len() == 0,
    {
        ProvidersConfig { providers: Vec::new() }
    }
}

/// Index of the first enabled provider of `kind` at or after `i`.
pub open spec fn active_pos_from(s: Seq<ProviderConfig>, kind: ProviderKind, i: int) -> Option<int>
    decreases s.len() - i,
{
    if i < 0 || i >= s.len() {
        None
    } else if s[i].kind == kind && s[i].enabled {
        Some(i)
    } else {
        active_pos_from(s, kind, i + 1)
    }
}

/// Index of the first enabled provider of `kind`.
pub open spec fn active_pos(s: Seq<ProviderConfig>, kind: ProviderKind) -> Option<int> {
    active_pos_from(s, kind, 0)
}

proof fn lemma_active_pos_from(s: Seq<ProviderConfig>, kind: ProviderKind, i: int)
    requires
        0 <= i,
    ensures
        active_pos_from(s, kind, i) matches Some(j) ==> i <= j < s.len() && s[j].kind == kind
            && s[j].enabled,
    decreases s.len() - i,
{
    if i < s.len() && !(s[i].kind == kind && s[i].enabled) {
        lemma_active_pos_from(s, kind, i + 1);
    }
}

impl ProvidersConfig {
    /// The first enabled provider of `kind`, if any.
    pub fn active_provider(&self, kind: ProviderKind) -> (r: Option<&ProviderConfig>)
        ensures
            match r {
                Some(p) => active_pos(self.providers@, kind) matches Some(i) && *p
                    == self.providers@[i],
                None => active_pos(self.providers@, kind) is None,
            },
    {
        proof {
            lemma_active_pos_from(self.providers@, kind, 0);
        }
        let mut i: usize = 0;
        while i < self.providers.len()
            invariant
                i <= self.providers.len(),
                active_pos(self.providers@, kind) == active_pos_from(
                    self.providers@,
                    kind,
                    i as int,
                ),
            decreases self.providers.len() - i,
        {
            let p = &self.providers[i];
            if p.kind == kind && p.enabled {
                return Some(p);
            }
            i = i + 1;
        }
        None
    }

    /// Whether an enabled YouVersion provider is configured.
    pub fn has_youversion(&self) -> (r: bool)
        ensures
            r == active_pos(self.providers@, ProviderKind::YouVersion) is Some,
    {
        self.active_provider(ProviderKind::YouVersion).is_some()
    }

    /// The key of the first enabled YouVersion provider, if any.
    pub open spec fn spec_youversion_key(&self) -> Option<Seq<char>> {
        match active_pos(self.providers@, ProviderKind::YouVersion) {
            Some(i) => Some(self.providers@[i].app_key@),
            None => None,
        }
    }

    /// The key of the first enabled YouVersion provider, if any.
    pub fn youversion_key(&self) -> (r: Option<&str>)
        ensures
            match r {
                Some(k) => active_pos(self.providers@, ProviderKind::YouVersion) matches Some(i)
                    && k@ == self.providers@[i].app_key@,
                None => active_pos(self.providers@, ProviderKind::YouVersion) is None,
            },
    {
        match self.active_provider(ProviderKind::YouVersion) {
            Some(p) => Some(p.app_key.as_str()),
            None => None,
        }
    }
}

/// Whether any provider of `kind` is configured, enabled or not.
pub open spec fn has_kind(s: Seq<ProviderConfig>, kind: ProviderKind) -> bool {
    exists|i: int| 0 <= i < s.len() && (#[trigger] s[i]).kind == kind
}

/// Adds an enabled YouVersion provider with the key from the environment,
/// when no YouVersion provider is configured and the key is not empty.
/// Returns whether one was added.
pub fn apply_env_key(config: &mut ProvidersConfig, key: Option<String>) -> (added: bool)
    ensures
        added == (!has_kind(old(config).providers@, ProviderKind::YouVersion) && key is Some
            && key->0@.len() > 0),
        added ==> final(config).providers@.len() == old(config).providers@.len() + 1,
        added ==> final(config).providers@.drop_last() == old(config).providers@,
        added ==> final(config).providers@.last().kind == ProviderKind::YouVersion,
        added ==> final(config).providers@.last().enabled,
        added ==> final(config).providers@.last().app_key@ == key->0@,
        !added ==> final(config).providers@ == old(config).providers@,
{
    let mut i: usize = 0;
    while i < config.providers.len()
        invariant
            i <= config.providers.len(),
            config.providers@ == old(config).providers@,
            forall|m: int| 0 <= m < i ==> (#[trigger] config.providers@[m]).kind != ProviderKind::YouVersion,
        decreases config.providers.len() - i,
    {
        if config.providers[i].kind == ProviderKind::YouVersion {
            return false;
        }
        i = i + 1;
    }
    match key {
        Some(k) => {
            if k.as_str().unicode_len() == 0 {
                return false;
            }
            let ghost kv = k@;
            config.providers.push(ProviderConfig { kind: ProviderKind::YouVersion, app_key: k, enabled: true });
            assert(config.providers@.drop_last() =~= old(config).providers@);
            true
        },
        None => false,
    }
}

} // verus!
