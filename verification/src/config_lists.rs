//! The list-valued settings: safe paths, proxy variables and per-provider
//! ACP defaults.
use vstd::prelude::*;
use vstd::string::*;

use crate::config::{default_safe_path, AcpProviderDefaults, AcpProviderDefaultsConfig, AppConfig};
use crate::text::{
    ascii_lowercase_spec, owned, str_to_ascii_lowercase, str_trim, trim_spec, trimmed_nonempty,
    trimmed_setting,
};

verus! {

/// The trimmed, non-blank entries of `paths`, in order.
pub open spec fn trimmed_paths(paths: Seq<Seq<char>>) -> Seq<Seq<char>>
    decreases paths.len(),
{
    if paths.len() == 0 {
        Seq::empty()
    } else {
        let prev = trimmed_paths(paths.drop_last());
        let t = trim_spec(paths.last());
        if t.len() > 0 {
            prev.push(t)
        } else {
            prev
        }
    }
}

/// `s` with every repeated element dropped; first occurrences keep their
/// order.
pub open spec fn dedup_spec(s: Seq<Seq<char>>) -> Seq<Seq<char>>
    decreases s.len(),
{
    if s.len() == 0 {
        Seq::empty()
    } else {
        let prev = dedup_spec(s.drop_last());
        if prev.contains(s.last()) {
            prev
        } else {
            prev.push(s.last())
        }
    }
}

/// Dropping repeats leaves no repeats, keeps exactly the same elements, and
/// keeps the first element first.
pub proof fn lemma_dedup(s: Seq<Seq<char>>)
    ensures
        dedup_spec(s).no_duplicates(),
        forall|x: Seq<char>| dedup_spec(s).contains(x) <==> s.contains(x),
        s.len() > 0 ==> dedup_spec(s).len() > 0 && dedup_spec(s)[0] == s[0],
    decreases s.len(),
{
    if s.len() > 0 {
        let init = s.drop_last();
        lemma_dedup(init);
        let prev = dedup_spec(init);
        assert(s =~= init.push(s.last()));
        assert forall|x: Seq<char>| dedup_spec(s).contains(x) <==> s.contains(x) by {
            lemma_push_contains(init, s.last(), x);
            lemma_push_contains(prev, s.last(), x);
        }
        if !prev.contains(s.last()) {
            assert forall|a: int, b: int|
                0 <= a < prev.push(s.last()).len() && 0 <= b < prev.push(s.last()).len() && a != b
                implies prev.push(s.last())[a] != prev.push(s.last())[b] by {
                if a == prev.len() {
                    assert(prev.contains(prev[b]));
                } else if b == prev.len() {
                    assert(prev.contains(prev[a]));
                }
            }
        }
        if init.len() == 0 {
            assert(prev =~= Seq::<Seq<char>>::empty());
            assert(!prev.contains(s.last()));
        } else {
            assert(init[0] == s[0]);
        }
    }
}

/// A sequence with one element appended holds exactly the old elements and
/// the new one.
pub proof fn lemma_push_contains(s: Seq<Seq<char>>, e: Seq<char>, x: Seq<char>)
    ensures
        s.push(e).contains(x) <==> (s.contains(x) || x == e),
{
    if s.contains(x) {
        let i = choose|i: int| 0 <= i < s.len() && s[i] == x;
        assert(s.push(e)[i] == x);
    }
    if x == e {
        assert(s.push(e)[s.len() as int] == e);
    }
    if s.push(e).contains(x) {
        let i = choose|i: int| 0 <= i < s.push(e).len() && s.push(e)[i] == x;
        if i < s.len() {
            assert(s[i] == x);
        }
    }
}

/// Whether `v` holds an element equal to `s`.
fn contains_string(v: &Vec<String>, s: &String) -> (res: bool)
    ensures
        res == v.deep_view().contains(s@),
{
    let mut i: usize = 0;
    while i < v.len()
        invariant
            i <= v.len(),
            forall|j: int| 0 <= j < i ==> v.deep_view()[j] != s@,
        decreases v.len() - i,
    {
        if v[i] == *s {
            assert(v.deep_view()[i as int] == s@);
            return true;
        }
        i = i + 1;
    }
    proof {
        if v.deep_view().contains(s@) {
            let j = choose|j: int| 0 <= j < v.deep_view().len() && v.deep_view()[j] == s@;
            assert(v.deep_view()[j] != s@);
        }
    }
    false
}

/// The environment entries a proxy setting produces: the upper- and
/// lower-case variable, both with the value as written; none when the
/// setting is absent.
pub open spec fn proxy_pairs(name_upper: Seq<char>, name_lower: Seq<char>, v: Option<Seq<char>>) -> Seq<(Seq<char>, Seq<char>)> {
    match v {
        Some(val) => seq![(name_upper, val), (name_lower, val)],
        None => Seq::empty(),
    }
}

/// The settings of one ACP provider as a pair `(mode, model)`.
pub open spec fn defaults_pair(d: AcpProviderDefaults) -> (Option<Seq<char>>, Option<Seq<char>>) {
    (d.default_mode.deep_view(), d.default_model.deep_view())
}

/// The provider name a table key stands for: trimmed and ASCII lower-cased.
pub open spec fn provider_key(k: Seq<char>) -> Seq<char> {
    ascii_lowercase_spec(trim_spec(k))
}

/// The provider defaults named by the `provider_defaults` table, read in
/// order; an entry whose name is blank, or whose mode and model are both
/// blank, is skipped, and a later entry for the same provider replaces an
/// earlier one.
pub open spec fn provider_map(entries: Seq<(String, AcpProviderDefaultsConfig)>) -> Map<Seq<char>, (Option<Seq<char>>, Option<Seq<char>>)>
    decreases entries.len(),
{
    if entries.len() == 0 {
        Map::empty()
    } else {
        let prev = provider_map(entries.drop_last());
        let key = provider_key(entries.last().0@);
        let mode = trimmed_nonempty(entries.last().1.default_mode.deep_view());
        let model = trimmed_nonempty(entries.last().1.default_model.deep_view());
        if key.len() == 0 || (mode is None && model is None) {
            prev
        } else {
            prev.insert(key, (mode, model))
        }
    }
}

/// The provider name the legacy `codex_acp` settings apply to.
pub open spec fn codex_key() -> Seq<char> {
    "codex"@
}

/// The legacy mode and model filled into the `codex` provider where its own
/// entry leaves them unset.
pub open spec fn with_legacy_codex(
    m: Map<Seq<char>, (Option<Seq<char>>, Option<Seq<char>>)>,
    legacy_mode: Option<Seq<char>>,
    legacy_model: Option<Seq<char>>,
) -> Map<Seq<char>, (Option<Seq<char>>, Option<Seq<char>>)> {
    if legacy_mode is None && legacy_model is None {
        m
    } else {
        let cur = if m.contains_key(codex_key()) { m[codex_key()] } else { (None, None) };
        m.insert(codex_key(), (
            if cur.0 is Some { cur.0 } else { legacy_mode },
            if cur.1 is Some { cur.1 } else { legacy_model },
        ))
    }
}

/// A copy of an optional string.
fn copy_opt(o: &Option<String>) -> (res: Option<String>)
    ensures
        res.deep_view() == o.deep_view(),
{
    match o {
        Some(s) => Some(s.clone()),
        None => None,
    }
}

/// A copy of one provider's defaults.
fn copy_defaults(d: &AcpProviderDefaults) -> (res: AcpProviderDefaults)
    ensures
        defaults_pair(res) == defaults_pair(*d),
{
    AcpProviderDefaults { default_mode: copy_opt(&d.default_mode), default_model: copy_opt(&d.default_model) }
}

/// The map of effective defaults per provider name.
pub type ProviderDefaultsView = Map<Seq<char>, (Option<Seq<char>>, Option<Seq<char>>)>;

/// The entries hold each provider name once and are exactly the bindings
/// of `m`.
pub open spec fn entries_represent(entries: Seq<(String, AcpProviderDefaults)>, m: ProviderDefaultsView) -> bool {
    &&& forall|a: int, b: int|
        0 <= a < b < entries.len() ==> #[trigger] entries[a].0@ != #[trigger] entries[b].0@
    &&& forall|j: int|
        0 <= j < entries.len() ==> m.contains_key(#[trigger] entries[j].0@)
            && m[entries[j].0@] == defaults_pair(entries[j].1)
    &&& forall|k: Seq<char>|
        #[trigger] m.contains_key(k) ==> exists|j: int| 0 <= j < entries.len() && entries[j].0@ == k
}

/// Per-provider ACP defaults, one entry per provider name. The entries are
/// kept in a `Vec` with a ghost map of their meaning rather than in a
/// `HashMap`: vstd's `HashMap` specification gives nothing for `String`
/// keys, whose hashing it does not model.
pub struct AcpProviderDefaultsMap {
    entries: Vec<(String, AcpProviderDefaults)>,
    contents: Ghost<ProviderDefaultsView>,
}

impl View for AcpProviderDefaultsMap {
    type V = ProviderDefaultsView;

    /// The defaults, as `(mode, model)`, by provider name.
    closed spec fn view(&self) -> ProviderDefaultsView {
        self.contents@
    }
}

impl AcpProviderDefaultsMap {
    #[verifier::type_invariant]
    spec fn inv(self) -> bool {
        entries_represent(self.entries@, self.contents@)
    }

    /// A map with no provider.
    fn new() -> (res: Self)
        ensures
            res@ == ProviderDefaultsView::empty(),
    {
        AcpProviderDefaultsMap { entries: Vec::new(), contents: Ghost(Map::empty()) }
    }

    /// The number of providers.
    pub fn len(&self) -> (res: usize)
        ensures
            res == self@.dom().len(),
    {
        proof {
            use_type_invariant(self);
            let es = self.entries@;
            let keys = es.map_values(|e: (String, AcpProviderDefaults)| e.0@);
            assert(keys.no_duplicates()) by {
                assert forall|a: int, b: int| 0 <= a < keys.len() && 0 <= b < keys.len() && a != b
                    implies keys[a] != keys[b] by {
                    if a < b {
                        assert(es[a].0@ != es[b].0@);
                    } else {
                        assert(es[b].0@ != es[a].0@);
                    }
                }
            }
            keys.unique_seq_to_set();
            assert forall|k: Seq<char>| keys.to_set().contains(k) <==> self@.dom().contains(k) by {
                if keys.to_set().contains(k) {
                    let j = choose|j: int| 0 <= j < keys.len() && keys[j] == k;
                    assert(es[j].0@ == k);
                }
                if self@.dom().contains(k) {
                    let j = choose|j: int| 0 <= j < es.len() && es[j].0@ == k;
                    assert(keys[j] == k);
                }
            }
            assert(keys.to_set() =~= self@.dom());
        }
        self.entries.len()
    }

    /// The defaults of `provider`, when it has an entry.
    pub fn get(&self, provider: &str) -> (res: Option<&AcpProviderDefaults>)
        ensures
            match res {
                Some(d) => self@.contains_key(provider@) && defaults_pair(*d) == self@[provider@],
                None => !self@.contains_key(provider@),
            },
    {
        proof {
            use_type_invariant(self);
        }
        let key = owned(provider);
        let idx = self.position(&key);
        match idx {
            Some(i) => Some(&self.entries[i].1),
            None => None,
        }
    }

    /// The index of `key`, when it has an entry.
    fn position(&self, key: &String) -> (res: Option<usize>)
        ensures
            match res {
                Some(i) => i < self.entries.len() && self.entries[i as int].0@ == key@,
                None => forall|j: int| 0 <= j < self.entries.len() ==> self.entries[j].0@ != key@,
            },
    {
        let mut i: usize = 0;
        while i < self.entries.len()
            invariant
                i <= self.entries.len(),
                forall|j: int| 0 <= j < i ==> self.entries[j].0@ != key@,
            decreases self.entries.len() - i,
        {
            if self.entries[i].0 == *key {
                return Some(i);
            }
            i = i + 1;
        }
        None
    }

    /// Binds `key` to `value`, replacing an existing binding.
    fn upsert(&mut self, key: String, value: AcpProviderDefaults)
        ensures
            final(self)@ == old(self)@.insert(key@, defaults_pair(value)),
    {
        proof {
            use_type_invariant(&*self);
        }
        let idx = self.position(&key);
        let ghost m = self.contents@;
        let ghost m2 = m.insert(key@, defaults_pair(value));
        let mut whole = Self::new();
        std::mem::swap(&mut whole, self);
        let AcpProviderDefaultsMap { entries, contents: _ } = whole;
        let ghost old_entries = entries@;
        let mut entries = entries;
        match idx {
            Some(i) => {
                entries.set(i, (key, value));
                assert forall|k: Seq<char>| #[trigger] m2.contains_key(k) implies exists|j: int|
                    0 <= j < entries.len() && entries[j].0@ == k by {
                    if k != entries[i as int].0@ {
                        assert(m.contains_key(k));
                        let j = choose|j: int| 0 <= j < old_entries.len() && old_entries[j].0@ == k;
                        assert(entries[j].0@ == k);
                    }
                }
                assert forall|a: int, b: int| 0 <= a < b < entries.len() implies
                    #[trigger] entries[a].0@ != #[trigger] entries[b].0@ by {
                    assert(old_entries[a].0@ != old_entries[b].0@);
                }
            },
            None => {
                let ghost n = entries.len() as int;
                entries.push((key, value));
                assert forall|k: Seq<char>| #[trigger] m2.contains_key(k) implies exists|j: int|
                    0 <= j < entries.len() && entries[j].0@ == k by {
                    if k != entries[n].0@ {
                        assert(m.contains_key(k));
                        let j = choose|j: int| 0 <= j < old_entries.len() && old_entries[j].0@ == k;
                        assert(entries[j].0@ == k);
                    }
                }
                assert forall|j: int| 0 <= j < entries.len() implies m2.contains_key(#[trigger] entries[j].0@)
                    && m2[entries[j].0@] == defaults_pair(entries[j].1) by {
                    if j < n {
                        assert(entries[j] == old_entries[j]);
                    }
                }
                assert forall|a: int, b: int| 0 <= a < b < entries.len() implies
                    #[trigger] entries[a].0@ != #[trigger] entries[b].0@ by {
                    if b < n {
                        assert(old_entries[a].0@ != old_entries[b].0@);
                    } else {
                        assert(entries[a] == old_entries[a]);
                    }
                }
            },
        }
        assert(entries_represent(entries@, m2));
        *self = AcpProviderDefaultsMap { entries, contents: Ghost(m2) };
    }
}

impl AppConfig {
    pub open spec fn spec_safe_paths(self) -> Option<Seq<Seq<char>>> {
        match self.safe_paths {
            Some(v) => Some(v.deep_view()),
            None => None,
        }
    }

    /// The candidate safe paths before repeats are dropped: the default
    /// worktree root, then each configured path trimmed, blanks skipped.
    pub open spec fn spec_safe_path_candidates(self) -> Seq<Seq<char>> {
        seq![default_safe_path()] + match self.spec_safe_paths() {
            Some(v) => trimmed_paths(v),
            None => Seq::empty(),
        }
    }

    /// The directories agents may work in: `~/.agenthub/worktrees` first,
    /// then each configured path trimmed, blank entries skipped and repeats
    /// dropped (the first occurrence stays).
    pub fn safe_paths(&self) -> (res: Vec<String>)
        ensures
            res.deep_view() == dedup_spec(self.spec_safe_path_candidates()),
    {
        let mut paths: Vec<String> = Vec::new();
        paths.push(owned("~/.agenthub/worktrees"));
        let ghost configured: Seq<Seq<char>> = match self.spec_safe_paths() {
            Some(v) => v,
            None => Seq::empty(),
        };
        proof {
            assert(paths.deep_view() =~= seq![default_safe_path()] + trimmed_paths(configured.take(0)));
        }
        match &self.safe_paths {
            Some(configured_paths) => {
                let mut i: usize = 0;
                while i < configured_paths.len()
                    invariant
                        i <= configured_paths.len(),
                        configured == configured_paths.deep_view(),
                        paths.deep_view() == seq![default_safe_path()] + trimmed_paths(configured.take(i as int)),
                    decreases configured_paths.len() - i,
                {
                    let trimmed = str_trim(configured_paths[i].as_str());
                    proof {
                        assert(configured.take(i + 1).drop_last() =~= configured.take(i as int));
                        assert(configured.take(i + 1).last() == configured_paths[i as int]@);
                    }
                    if !trimmed.is_empty() {
                        let ghost before = paths.deep_view();
                        paths.push(owned(trimmed));
                        proof {
                            assert(paths.deep_view() =~= before.push(trimmed@));
                        }
                    }
                    proof {
                        assert(paths.deep_view() =~= seq![default_safe_path()] + trimmed_paths(configured.take(i + 1)));
                    }
                    i = i + 1;
                }
                proof {
                    assert(configured.take(configured_paths.len() as int) =~= configured);
                }
            },
            None => {
                proof {
                    assert(trimmed_paths(configured.take(0)) =~= Seq::<Seq<char>>::empty());
                }
            },
        }
        let ghost cands = paths.deep_view();
        assert(cands == self.spec_safe_path_candidates());
        let mut out: Vec<String> = Vec::new();
        let mut i: usize = 0;
        while i < paths.len()
            invariant
                i <= paths.len(),
                cands == paths.deep_view(),
                out.deep_view() == dedup_spec(cands.take(i as int)),
            decreases paths.len() - i,
        {
            proof {
                assert(cands.take(i + 1).drop_last() =~= cands.take(i as int));
                assert(cands.take(i + 1).last() == paths[i as int]@);
            }
            if !contains_string(&out, &paths[i]) {
                let ghost before = out.deep_view();
                out.push(paths[i].clone());
                proof {
                    assert(out.deep_view() =~= before.push(paths[i as int]@));
                }
            }
            i = i + 1;
        }
        proof {
            assert(cands.take(paths.len() as int) =~= cands);
        }
        out
    }

    /// The configured `proxy.http`, if any.
    pub open spec fn spec_http_proxy(self) -> Option<Seq<char>> {
        match self.proxy {
            Some(p) => p.http.deep_view(),
            None => None,
        }
    }

    /// The configured `proxy.https`, if any.
    pub open spec fn spec_https_proxy(self) -> Option<Seq<char>> {
        match self.proxy {
            Some(p) => p.https.deep_view(),
            None => None,
        }
    }

    /// The configured `proxy.all`, if any.
    pub open spec fn spec_all_proxy(self) -> Option<Seq<char>> {
        match self.proxy {
            Some(p) => p.all.deep_view(),
            None => None,
        }
    }

    pub open spec fn spec_proxy_env(self) -> Seq<(Seq<char>, Seq<char>)> {
        match self.proxy {
            Some(p) => proxy_pairs("HTTP_PROXY"@, "http_proxy"@, p.http.deep_view())
                + proxy_pairs("HTTPS_PROXY"@, "https_proxy"@, p.https.deep_view())
                + proxy_pairs("ALL_PROXY"@, "all_proxy"@, p.all.deep_view()),
            None => Seq::empty(),
        }
    }

    /// The proxy environment for agent processes: for each configured proxy
    /// (`http`, `https`, `all`, in that order) the upper- and lower-case
    /// variable, both set to the value as written.
    pub fn proxy_env(&self) -> (res: Vec<(String, String)>)
        ensures
            res.deep_view() == self.spec_proxy_env(),
    {
        let mut items: Vec<(String, String)> = Vec::new();
        match &self.proxy {
            Some(proxy) => {
                let ghost p0 = proxy_pairs("HTTP_PROXY"@, "http_proxy"@, proxy.http.deep_view());
                let ghost p1 = proxy_pairs("HTTPS_PROXY"@, "https_proxy"@, proxy.https.deep_view());
                let ghost p2 = proxy_pairs("ALL_PROXY"@, "all_proxy"@, proxy.all.deep_view());
                match &proxy.http {
                    Some(val) => {
                        items.push((owned("HTTP_PROXY"), val.clone()));
                        items.push((owned("http_proxy"), val.clone()));
                    },
                    None => {},
                }
                assert(items.deep_view() =~= p0);
                match &proxy.https {
                    Some(val) => {
                        items.push((owned("HTTPS_PROXY"), val.clone()));
                        items.push((owned("https_proxy"), val.clone()));
                    },
                    None => {},
                }
                assert(items.deep_view() =~= p0 + p1);
                match &proxy.all {
                    Some(val) => {
                        items.push((owned("ALL_PROXY"), val.clone()));
                        items.push((owned("all_proxy"), val.clone()));
                    },
                    None => {},
                }
                assert(items.deep_view() =~= p0 + p1 + p2);
            },
            None => {
                assert(items.deep_view() =~= Seq::<(Seq<char>, Seq<char>)>::empty());
            },
        }
        items
    }

    pub open spec fn spec_provider_entries(self) -> Seq<(String, AcpProviderDefaultsConfig)> {
        match self.codex_acp {
            Some(c) => match c.provider_defaults {
                Some(v) => v@,
                None => Seq::empty(),
            },
            None => Seq::empty(),
        }
    }

    /// The effective ACP defaults per provider.
    pub open spec fn spec_acp_provider_defaults(self) -> Map<Seq<char>, (Option<Seq<char>>, Option<Seq<char>>)> {
        with_legacy_codex(
            provider_map(self.spec_provider_entries()),
            trimmed_nonempty(self.spec_codex_default_mode()),
            trimmed_nonempty(self.spec_codex_default_model()),
        )
    }

    /// The default mode and model of each ACP provider. Providers are named
    /// by their table key trimmed and lower-cased; blank names, and entries
    /// whose mode and model are both blank, are skipped; values are trimmed.
    /// The legacy `codex_acp.default_mode`/`default_model` fill in the
    /// `codex` provider where its own entry leaves a value unset.
    pub fn acp_provider_defaults(&self) -> (res: AcpProviderDefaultsMap)
        ensures
            res@ == self.spec_acp_provider_defaults(),
    {
        let mut defaults = AcpProviderDefaultsMap::new();
        let ghost entries = self.spec_provider_entries();
        let empty: Vec<(String, AcpProviderDefaultsConfig)> = Vec::new();
        let provider_defaults = match &self.codex_acp {
            Some(c) => match &c.provider_defaults {
                Some(v) => v,
                None => &empty,
            },
            None => &empty,
        };
        assert(provider_defaults@ == entries);
        proof {
            assert(entries.take(0) =~= Seq::<(String, AcpProviderDefaultsConfig)>::empty());
        }
        let mut i: usize = 0;
        while i < provider_defaults.len()
            invariant
                i <= provider_defaults.len(),
                provider_defaults@ == entries,
                defaults@ == provider_map(entries.take(i as int)),
            decreases provider_defaults.len() - i,
        {
            let (provider_key_raw, config) = &provider_defaults[i];
            let provider = str_to_ascii_lowercase(str_trim(provider_key_raw.as_str()));
            let default_mode = trimmed_setting(&config.default_mode);
            let default_model = trimmed_setting(&config.default_model);
            proof {
                assert(entries.take(i + 1).drop_last() =~= entries.take(i as int));
                assert(entries.take(i + 1).last() == provider_defaults[i as int]);
            }
            if provider.as_str().is_empty() || (default_mode.is_none() && default_model.is_none()) {
                assert(provider_map(entries.take(i + 1)) == provider_map(entries.take(i as int)));
            } else {
                let value = AcpProviderDefaults { default_mode, default_model };
                defaults.upsert(provider, value);
            }
            i = i + 1;
        }
        proof {
            assert(entries.take(provider_defaults.len() as int) =~= entries);
        }
        let ghost m = provider_map(entries);
        let legacy_default_mode = self.codex_acp_default_mode();
        let legacy_default_model = self.codex_acp_default_model();
        if legacy_default_mode.is_some() || legacy_default_model.is_some() {
            let current = match defaults.get("codex") {
                Some(d) => copy_defaults(d),
                None => AcpProviderDefaults { default_mode: None, default_model: None },
            };
            proof {
                reveal_strlit("codex");
            }
            let merged_mode = match current.default_mode {
                Some(v) => Some(v),
                None => legacy_default_mode,
            };
            let merged_model = match current.default_model {
                Some(v) => Some(v),
                None => legacy_default_model,
            };
            defaults.upsert(owned("codex"), AcpProviderDefaults { default_mode: merged_mode, default_model: merged_model });
        }
        defaults
    }
}

/// The proxy environment holds, for each configured proxy, its upper- and
/// lower-case variable set to the configured value, and nothing else:
/// every entry is one of those variables with its configured value.
pub proof fn law_proxy_env(config: AppConfig)
    ensures
        ({
            let env = config.spec_proxy_env();
            &&& forall|v: Seq<char>| config.spec_http_proxy() == Some(v)
                ==> env.contains(("HTTP_PROXY"@, v)) && env.contains(("http_proxy"@, v))
            &&& forall|v: Seq<char>| config.spec_https_proxy() == Some(v)
                ==> env.contains(("HTTPS_PROXY"@, v)) && env.contains(("https_proxy"@, v))
            &&& forall|v: Seq<char>| config.spec_all_proxy() == Some(v)
                ==> env.contains(("ALL_PROXY"@, v)) && env.contains(("all_proxy"@, v))
            &&& forall|i: int| 0 <= i < env.len() ==> {
                let (k, v) = #[trigger] env[i];
                ||| (k == "HTTP_PROXY"@ || k == "http_proxy"@) && config.spec_http_proxy() == Some(v)
                ||| (k == "HTTPS_PROXY"@ || k == "https_proxy"@) && config.spec_https_proxy() == Some(v)
                ||| (k == "ALL_PROXY"@ || k == "all_proxy"@) && config.spec_all_proxy() == Some(v)
            }
            &&& env.len() == 2 * ((if config.spec_http_proxy() is Some { 1int } else { 0int })
                + (if config.spec_https_proxy() is Some { 1int } else { 0int })
                + (if config.spec_all_proxy() is Some { 1int } else { 0int }))
        }),
{
    let env = config.spec_proxy_env();
    if let Some(p) = config.proxy {
        let a = proxy_pairs("HTTP_PROXY"@, "http_proxy"@, p.http.deep_view());
        let b = proxy_pairs("HTTPS_PROXY"@, "https_proxy"@, p.https.deep_view());
        let c = proxy_pairs("ALL_PROXY"@, "all_proxy"@, p.all.deep_view());
        assert(env == a + b + c);
        if let Some(v) = p.http.deep_view() {
            assert(env[0] == ("HTTP_PROXY"@, v));
            assert(env[1] == ("http_proxy"@, v));
        }
        if let Some(v) = p.https.deep_view() {
            assert(env[a.len() as int] == ("HTTPS_PROXY"@, v));
            assert(env[a.len() as int + 1] == ("https_proxy"@, v));
        }
        if let Some(v) = p.all.deep_view() {
            assert(env[a.len() as int + b.len()] == ("ALL_PROXY"@, v));
            assert(env[a.len() as int + b.len() + 1] == ("all_proxy"@, v));
        }
        assert forall|i: int| 0 <= i < env.len() implies {
            let (k, v) = #[trigger] env[i];
            ||| (k == "HTTP_PROXY"@ || k == "http_proxy"@) && config.spec_http_proxy() == Some(v)
            ||| (k == "HTTPS_PROXY"@ || k == "https_proxy"@) && config.spec_https_proxy() == Some(v)
            ||| (k == "ALL_PROXY"@ || k == "all_proxy"@) && config.spec_all_proxy() == Some(v)
        } by {
            if i < a.len() {
                assert(env[i] == a[i]);
            } else if i < a.len() + b.len() {
                assert(env[i] == b[i - a.len()]);
            } else {
                assert(env[i] == c[i - a.len() - b.len()]);
            }
        }
    }
}

} // verus!
