//! What holds of the derived settings for every configuration.
use vstd::prelude::*;

use crate::config::{default_safe_path, env_override_key_list, set_env_keys, AppConfig};
use crate::config_lists::{
    codex_key, dedup_spec, lemma_dedup, lemma_push_contains, provider_key, provider_map, trimmed_paths,
    with_legacy_codex,
};
use crate::config::AcpProviderDefaultsConfig;
use crate::text::{
    ascii_lower, ascii_lowercase_spec, lemma_lower_keeps_whitespace, lemma_lowercase_twice,
    lemma_trim_ends, lemma_trim_of_trimmed, starts_with_spec, trim_spec, trimmed_nonempty,
};

verus! {

/// The trimmed paths are exactly the non-blank trimmed entries.
pub proof fn lemma_trimmed_paths_contains(s: Seq<Seq<char>>, x: Seq<char>)
    ensures
        trimmed_paths(s).contains(x) <==> (x.len() > 0 && exists|i: int| 0 <= i < s.len() && trim_spec(#[trigger] s[i]) == x),
    decreases s.len(),
{
    if s.len() > 0 {
        let init = s.drop_last();
        lemma_trimmed_paths_contains(init, x);
        let t = trim_spec(s.last());
        if t.len() > 0 {
            lemma_push_contains(trimmed_paths(init), t, x);
        }
        if exists|i: int| 0 <= i < s.len() && trim_spec(#[trigger] s[i]) == x {
            let i = choose|i: int| 0 <= i < s.len() && trim_spec(#[trigger] s[i]) == x;
            if i < s.len() - 1 {
                assert(trim_spec(init[i]) == x);
            }
        }
        if exists|i: int| 0 <= i < init.len() && trim_spec(#[trigger] init[i]) == x {
            let i = choose|i: int| 0 <= i < init.len() && trim_spec(#[trigger] init[i]) == x;
            assert(trim_spec(s[i]) == x);
        }
    }
}

/// The configured safe paths, as written; none when the setting is absent.
pub open spec fn configured_safe_paths(config: AppConfig) -> Seq<Seq<char>> {
    match config.spec_safe_paths() {
        Some(v) => v,
        None => Seq::empty(),
    }
}

/// The safe paths always start with the default worktree root, hold no
/// path twice, and hold exactly the default root and the non-blank
/// configured paths, trimmed.
pub proof fn law_safe_paths(config: AppConfig)
    ensures
        ({
            let r = dedup_spec(config.spec_safe_path_candidates());
            let configured = configured_safe_paths(config);
            &&& r.len() >= 1
            &&& r[0] == default_safe_path()
            &&& r.no_duplicates()
            &&& forall|x: Seq<char>| r.contains(x) <==> (x == default_safe_path() || (x.len() > 0
                && exists|i: int| 0 <= i < configured.len() && trim_spec(#[trigger] configured[i]) == x))
        }),
{
    let c = config.spec_safe_path_candidates();
    let configured = configured_safe_paths(config);
    assert(config.spec_safe_path_candidates() == seq![default_safe_path()] + trimmed_paths(configured)) by {
        if config.spec_safe_paths() is None {
            assert(trimmed_paths(configured) =~= Seq::<Seq<char>>::empty());
        }
    }
    assert(c.len() >= 1 && c[0] == default_safe_path());
    lemma_dedup(c);
    assert forall|x: Seq<char>| dedup_spec(c).contains(x) <==> (x == default_safe_path() || (x.len() > 0
        && exists|i: int| 0 <= i < configured.len() && trim_spec(#[trigger] configured[i]) == x)) by {
        lemma_trimmed_paths_contains(configured, x);
        let tp = trimmed_paths(configured);
        if tp.contains(x) {
            let j = choose|j: int| 0 <= j < tp.len() && tp[j] == x;
            assert(c[j + 1] == x);
        }
        if c.contains(x) && x != default_safe_path() {
            let j = choose|j: int| 0 <= j < c.len() && c[j] == x;
            assert(j != 0);
            assert(tp[j - 1] == x);
        }
        assert(c[0] == default_safe_path());
    }
}

/// Every provider named by the table is a non-blank lower-case name with at
/// least one default.
pub proof fn lemma_provider_map_entries(entries: Seq<(String, crate::config::AcpProviderDefaultsConfig)>)
    ensures
        forall|k: Seq<char>| #[trigger] provider_map(entries).contains_key(k) ==> k.len() > 0
            && ascii_lowercase_spec(k) == k
            && (provider_map(entries)[k].0 is Some || provider_map(entries)[k].1 is Some),
    decreases entries.len(),
{
    if entries.len() > 0 {
        lemma_provider_map_entries(entries.drop_last());
        let key = provider_key(entries.last().0@);
        lemma_lowercase_twice(trim_spec(entries.last().0@));
        assert(key.len() == trim_spec(entries.last().0@).len());
    }
}

/// The effective ACP defaults: every provider listed has a non-blank
/// lower-case name and at least one default; for `codex`, a value set in
/// its own table entry wins over the legacy setting, which only fills what
/// the entry leaves unset.
pub proof fn law_acp_provider_defaults(config: AppConfig)
    ensures
        ({
            let r = config.spec_acp_provider_defaults();
            let table = provider_map(config.spec_provider_entries());
            let legacy_mode = trimmed_nonempty(config.spec_codex_default_mode());
            let legacy_model = trimmed_nonempty(config.spec_codex_default_model());
            &&& forall|k: Seq<char>| #[trigger] r.contains_key(k) ==> k.len() > 0
                && ascii_lowercase_spec(k) == k && (r[k].0 is Some || r[k].1 is Some)
            &&& forall|k: Seq<char>| k != codex_key() ==> (#[trigger] r.contains_key(k) == table.contains_key(k))
                && (table.contains_key(k) ==> r[k] == table[k])
            &&& table.contains_key(codex_key()) && table[codex_key()].0 is Some
                ==> r[codex_key()].0 == table[codex_key()].0
            &&& table.contains_key(codex_key()) && table[codex_key()].1 is Some
                ==> r[codex_key()].1 == table[codex_key()].1
            &&& (legacy_mode is Some || legacy_model is Some) ==> r.contains_key(codex_key())
                && (!(table.contains_key(codex_key()) && table[codex_key()].0 is Some) ==> r[codex_key()].0 == legacy_mode)
                && (!(table.contains_key(codex_key()) && table[codex_key()].1 is Some) ==> r[codex_key()].1 == legacy_model)
        }),
{
    let table = provider_map(config.spec_provider_entries());
    lemma_provider_map_entries(config.spec_provider_entries());
    reveal_strlit("codex");
    let ck = codex_key();
    assert(ck.len() == 5);
    assert(ascii_lowercase_spec(ck) =~= ck) by {
        assert forall|i: int| 0 <= i < ck.len() implies ascii_lower(ck[i]) == ck[i] by {
            assert(!('A' <= ck[i] && ck[i] <= 'Z'));
        }
    }
}

/// Whether a looked-up variable holds something.
pub open spec fn is_set(value: Option<Seq<char>>) -> bool {
    match value {
        Some(v) => v.len() > 0,
        None => false,
    }
}

/// The overrides reported are exactly the looked-up variables that are set
/// to something non-empty.
pub proof fn law_reported_overrides(found: Seq<(Seq<char>, Option<Seq<char>>)>, k: Seq<char>)
    ensures
        set_env_keys(found).contains(k) <==> exists|i: int|
            0 <= i < found.len() && (#[trigger] found[i]).0 == k && is_set(found[i].1),
    decreases found.len(),
{
    if found.len() > 0 {
        let init = found.drop_last();
        law_reported_overrides(init, k);
        let last = found.last();
        let prev = set_env_keys(init);
        if is_set(last.1) {
            lemma_push_contains(prev, last.0, k);
        }
        if exists|i: int| 0 <= i < init.len() && (#[trigger] init[i]).0 == k && is_set(init[i].1) {
            let i = choose|i: int| 0 <= i < init.len() && (#[trigger] init[i]).0 == k && is_set(init[i].1);
            assert(found[i] == init[i]);
        }
        if exists|i: int| 0 <= i < found.len() && (#[trigger] found[i]).0 == k && is_set(found[i].1) {
            let i = choose|i: int| 0 <= i < found.len() && (#[trigger] found[i]).0 == k && is_set(found[i].1);
            if i < found.len() - 1 {
                assert(init[i] == found[i]);
            }
        }
    }
}

/// A setting value as the defaults keep it: absent, or non-blank and
/// already trimmed.
pub open spec fn is_normal_value(v: Option<Seq<char>>) -> bool {
    match v {
        Some(s) => s.len() > 0 && trim_spec(s) == s,
        None => true,
    }
}

/// A provider name as the defaults keep it: non-blank, trimmed and
/// lower-case.
pub open spec fn is_normal_provider_name(k: Seq<char>) -> bool {
    k.len() > 0 && trim_spec(k) == k && ascii_lowercase_spec(k) == k
}

/// Whether a table entry sets a default: its mode or its model is
/// non-blank.
pub open spec fn sets_a_default(c: AcpProviderDefaultsConfig) -> bool {
    trimmed_nonempty(c.default_mode.deep_view()) is Some || trimmed_nonempty(c.default_model.deep_view()) is Some
}

/// A value kept by `trimmed_nonempty` is normal.
proof fn lemma_trimmed_nonempty_normal(v: Option<Seq<char>>)
    ensures
        is_normal_value(trimmed_nonempty(v)),
{
    if let Some(x) = v {
        let t = trim_spec(x);
        if t.len() > 0 {
            lemma_trim_ends(x);
            lemma_trim_of_trimmed(t);
        }
    }
}

/// A non-blank provider key is a normal provider name.
proof fn lemma_provider_key_normal(k: Seq<char>)
    ensures
        provider_key(k).len() > 0 ==> is_normal_provider_name(provider_key(k)),
{
    let t = trim_spec(k);
    let n = provider_key(k);
    if n.len() > 0 {
        lemma_trim_ends(k);
        lemma_lower_keeps_whitespace(t[0]);
        lemma_lower_keeps_whitespace(t.last());
        assert(n[0] == ascii_lower(t[0]));
        assert(n.last() == ascii_lower(t.last()));
        lemma_trim_of_trimmed(n);
        lemma_lowercase_twice(t);
    }
}

/// Every binding of the provider table has a normal name, normal values
/// and at least one value.
proof fn lemma_provider_map_normal(entries: Seq<(String, AcpProviderDefaultsConfig)>)
    ensures
        forall|k: Seq<char>| #[trigger] provider_map(entries).contains_key(k) ==> is_normal_provider_name(k)
            && is_normal_value(provider_map(entries)[k].0) && is_normal_value(provider_map(entries)[k].1)
            && (provider_map(entries)[k].0 is Some || provider_map(entries)[k].1 is Some),
    decreases entries.len(),
{
    if entries.len() > 0 {
        lemma_provider_map_normal(entries.drop_last());
        let last = entries.last();
        lemma_provider_key_normal(last.0@);
        lemma_trimmed_nonempty_normal(last.1.default_mode.deep_view());
        lemma_trimmed_nonempty_normal(last.1.default_model.deep_view());
    }
}

/// The provider table names exactly the non-blank keys of the entries that
/// set a default.
proof fn lemma_provider_map_domain(entries: Seq<(String, AcpProviderDefaultsConfig)>, k: Seq<char>)
    ensures
        provider_map(entries).contains_key(k) <==> exists|i: int| 0 <= i < entries.len()
            && provider_key((#[trigger] entries[i]).0@) == k && k.len() > 0 && sets_a_default(entries[i].1),
    decreases entries.len(),
{
    if entries.len() > 0 {
        let init = entries.drop_last();
        lemma_provider_map_domain(init, k);
        if exists|i: int| 0 <= i < init.len() && provider_key((#[trigger] init[i]).0@) == k && k.len() > 0
            && sets_a_default(init[i].1) {
            let i = choose|i: int| 0 <= i < init.len() && provider_key((#[trigger] init[i]).0@) == k && k.len() > 0
                && sets_a_default(init[i].1);
            assert(entries[i] == init[i]);
        }
        if exists|i: int| 0 <= i < entries.len() && provider_key((#[trigger] entries[i]).0@) == k && k.len() > 0
            && sets_a_default(entries[i].1) {
            let i = choose|i: int| 0 <= i < entries.len() && provider_key((#[trigger] entries[i]).0@) == k
                && k.len() > 0 && sets_a_default(entries[i].1);
            if i < entries.len() - 1 {
                assert(init[i] == entries[i]);
            }
        }
    }
}

/// The name `codex` is a normal provider name.
proof fn lemma_codex_key_normal()
    ensures
        is_normal_provider_name(codex_key()),
{
    reveal_strlit("codex");
    let ck = codex_key();
    assert(ck.len() == 5);
    assert(ck[0] == 'c' && ck[4] == 'x');
    lemma_trim_of_trimmed(ck);
    assert(ascii_lowercase_spec(ck) =~= ck) by {
        assert forall|i: int| 0 <= i < ck.len() implies ascii_lower(ck[i]) == ck[i] by {
            assert(!('A' <= ck[i] && ck[i] <= 'Z'));
        }
    }
}

/// Every provider in the effective defaults has a name that is non-blank,
/// trimmed and lower-case, and at least one default; every default present
/// is non-blank and trimmed.
pub proof fn law_acp_provider_defaults_normal(config: AppConfig)
    ensures
        forall|k: Seq<char>| #[trigger] config.spec_acp_provider_defaults().contains_key(k) ==> {
            let v = config.spec_acp_provider_defaults()[k];
            &&& is_normal_provider_name(k)
            &&& v.0 is Some || v.1 is Some
            &&& is_normal_value(v.0)
            &&& is_normal_value(v.1)
        },
{
    lemma_provider_map_normal(config.spec_provider_entries());
    lemma_codex_key_normal();
    lemma_trimmed_nonempty_normal(config.spec_codex_default_mode());
    lemma_trimmed_nonempty_normal(config.spec_codex_default_model());
}

/// The providers in the effective defaults are exactly the trimmed,
/// lower-cased non-blank keys of the table entries that set a default, and
/// `codex` when a legacy default is set; without a `[codex_acp]` section
/// there are none.
pub proof fn law_acp_provider_names(config: AppConfig, k: Seq<char>)
    ensures
        ({
            let entries = config.spec_provider_entries();
            let legacy = trimmed_nonempty(config.spec_codex_default_mode()) is Some
                || trimmed_nonempty(config.spec_codex_default_model()) is Some;
            config.spec_acp_provider_defaults().contains_key(k) <==> (
                (exists|i: int| 0 <= i < entries.len() && provider_key((#[trigger] entries[i]).0@) == k
                    && k.len() > 0 && sets_a_default(entries[i].1))
                || (k == codex_key() && legacy))
        }),
        config.codex_acp is None ==> !config.spec_acp_provider_defaults().contains_key(k),
{
    lemma_provider_map_domain(config.spec_provider_entries(), k);
}

/// The keys whose value is set, in the order of `keys` (`values[i]` being
/// the value looked up for `keys[i]`).
pub open spec fn set_keys_in_order(keys: Seq<Seq<char>>, values: Seq<Option<Seq<char>>>) -> Seq<Seq<char>>
    decreases keys.len(),
{
    if keys.len() == 0 {
        Seq::empty()
    } else {
        let prev = set_keys_in_order(keys.drop_last(), values.drop_last());
        if is_set(values.last()) {
            prev.push(keys.last())
        } else {
            prev
        }
    }
}

/// Each key paired with the value looked up for it.
pub open spec fn key_value_pairs(keys: Seq<Seq<char>>, values: Seq<Option<Seq<char>>>) -> Seq<(Seq<char>, Option<Seq<char>>)> {
    Seq::new(keys.len(), |i: int| (keys[i], values[i]))
}

/// Reporting over pairs built from a key list keeps the keys whose value
/// is set, in list order.
proof fn lemma_pairs_report(keys: Seq<Seq<char>>, values: Seq<Option<Seq<char>>>)
    requires
        values.len() == keys.len(),
    ensures
        set_env_keys(key_value_pairs(keys, values)) == set_keys_in_order(keys, values),
    decreases keys.len(),
{
    if keys.len() > 0 {
        lemma_pairs_report(keys.drop_last(), values.drop_last());
        assert(key_value_pairs(keys, values).drop_last() =~= key_value_pairs(keys.drop_last(), values.drop_last()));
    }
}

/// The kept keys are keys of the list; over a list without repeats they
/// hold no repeats.
proof fn lemma_set_keys_subsequence(keys: Seq<Seq<char>>, values: Seq<Option<Seq<char>>>)
    requires
        values.len() == keys.len(),
    ensures
        forall|k: Seq<char>| #[trigger] set_keys_in_order(keys, values).contains(k) ==> keys.contains(k),
        keys.no_duplicates() ==> set_keys_in_order(keys, values).no_duplicates(),
    decreases keys.len(),
{
    if keys.len() > 0 {
        let init = keys.drop_last();
        lemma_set_keys_subsequence(init, values.drop_last());
        let prev = set_keys_in_order(init, values.drop_last());
        assert(keys.drop_last() == init);
        assert forall|k: Seq<char>| set_keys_in_order(keys, values).contains(k) implies keys.contains(k) by {
            if is_set(values.last()) {
                lemma_push_contains(prev, keys.last(), k);
            }
            if prev.contains(k) {
                assert(init.contains(k));
                let j = choose|j: int| 0 <= j < init.len() && init[j] == k;
                assert(init[j] == keys[j]);
                assert(keys.contains(k));
            } else {
                assert(k == keys.last());
                assert(keys[keys.len() - 1] == k);
            }
        }
        if keys.no_duplicates() && is_set(values.last()) {
            assert(init.no_duplicates()) by {
                assert forall|a: int, b: int| 0 <= a < init.len() && 0 <= b < init.len() && a != b
                    implies init[a] != init[b] by {
                    assert(keys[a] == init[a] && keys[b] == init[b]);
                }
            }
            assert(!prev.contains(keys.last())) by {
                if prev.contains(keys.last()) {
                    assert(init.contains(keys.last()));
                    let j = choose|j: int| 0 <= j < init.len() && init[j] == keys.last();
                    assert(keys[j] == keys[keys.len() - 1]);
                }
            }
            let r = prev.push(keys.last());
            assert forall|a: int, b: int| 0 <= a < r.len() && 0 <= b < r.len() && a != b implies r[a] != r[b] by {
                if a == prev.len() {
                    assert(prev.contains(r[b]));
                } else if b == prev.len() {
                    assert(prev.contains(r[a]));
                }
            }
        } else if keys.no_duplicates() {
            assert forall|a: int, b: int| 0 <= a < init.len() && 0 <= b < init.len() && a != b
                implies init[a] != init[b] by {
                assert(keys[a] == init[a] && keys[b] == init[b]);
            }
        }
    }
}

/// The override variables form a list without repeats, each named
/// `AGENTHUB_...`.
proof fn lemma_override_key_list()
    ensures
        env_override_key_list().no_duplicates(),
        forall|i: int| 0 <= i < env_override_key_list().len()
            ==> starts_with_spec(#[trigger] env_override_key_list()[i], "AGENTHUB_"@),
{
    reveal_strlit("AGENTHUB_LISTEN");
    reveal_strlit("AGENTHUB_RP_ID");
    reveal_strlit("AGENTHUB_RP_ORIGIN");
    reveal_strlit("AGENTHUB_RP_NAME");
    reveal_strlit("AGENTHUB_SAFE_PATHS");
    reveal_strlit("AGENTHUB_WEB_DIR");
    reveal_strlit("AGENTHUB_LOG_PATH");
    reveal_strlit("AGENTHUB_CODEX_ACP_BINARY");
    reveal_strlit("AGENTHUB_CODEX_ACP_DEFAULT_MODE");
    reveal_strlit("AGENTHUB_CODEX_ACP_DEFAULT_MODEL");
    reveal_strlit("AGENTHUB_HISTORY_EVENT_RETENTION_DAYS");
    reveal_strlit("AGENTHUB_HISTORY_VACUUM_ON_CLEANUP");
    reveal_strlit("AGENTHUB_INTERNAL_GRPC_ENABLED");
    reveal_strlit("AGENTHUB_INTERNAL_GRPC_LISTEN");
    reveal_strlit("AGENTHUB_INTERNAL_GRPC_SECURITY_MODE");
    reveal_strlit("AGENTHUB_INTERNAL_GRPC_CERT_DIR");
    reveal_strlit("AGENTHUB_INTERNAL_GRPC_AUTH_SHARED_SECRET");
    reveal_strlit("AGENTHUB_INTERNAL_GRPC_AUTH_ISSUER");
    reveal_strlit("AGENTHUB_INTERNAL_GRPC_AUTH_AUDIENCE");
    reveal_strlit("AGENTHUB_INTERNAL_GRPC_BOOTSTRAP_TOKEN");
    reveal_strlit("AGENTHUB_HTTP_PROXY");
    reveal_strlit("AGENTHUB_HTTPS_PROXY");
    reveal_strlit("AGENTHUB_ALL_PROXY");
    reveal_strlit("AGENTHUB_VAPID_SUBJECT");
    reveal_strlit("AGENTHUB_VAPID_PUBLIC_KEY");
    reveal_strlit("AGENTHUB_VAPID_PRIVATE_KEY");
    reveal_strlit("AGENTHUB_");
    let l = env_override_key_list();
    assert forall|i: int| 0 <= i < l.len() implies starts_with_spec(#[trigger] l[i], "AGENTHUB_"@) by {
        assert(l[i].subrange(0, 9) =~= "AGENTHUB_"@);
    }
    assert forall|a: int, b: int| 0 <= a < l.len() && 0 <= b < l.len() && a != b implies l[a] != l[b] by {
        if l[a].len() == l[b].len() {
            assert(l[a][9] != l[b][9] || l[a][23] != l[b][23]);
        }
    }
}

/// The keys kept from a list without repeats whose keys all start with
/// `prefix` hold no repeats and all start with `prefix`.
proof fn lemma_kept_keys(keys: Seq<Seq<char>>, values: Seq<Option<Seq<char>>>, prefix: Seq<char>)
    requires
        values.len() == keys.len(),
        keys.no_duplicates(),
        forall|i: int| 0 <= i < keys.len() ==> starts_with_spec(#[trigger] keys[i], prefix),
    ensures
        set_keys_in_order(keys, values).no_duplicates(),
        forall|i: int| 0 <= i < set_keys_in_order(keys, values).len()
            ==> starts_with_spec(#[trigger] set_keys_in_order(keys, values)[i], prefix),
{
    lemma_set_keys_subsequence(keys, values);
    let r = set_keys_in_order(keys, values);
    assert forall|i: int| 0 <= i < r.len() implies starts_with_spec(#[trigger] r[i], prefix) by {
        assert(r.contains(r[i]));
        assert(keys.contains(r[i]));
        let j = choose|j: int| 0 <= j < keys.len() && keys[j] == r[i];
        assert(starts_with_spec(keys[j], prefix));
    }
}

/// The reported overrides, when each listed variable is looked up, are the
/// listed variables whose value is set and non-empty, in list order, each
/// once, and each named `AGENTHUB_...`.
pub proof fn law_overrides_follow_key_list(values: Seq<Option<Seq<char>>>)
    requires
        values.len() == env_override_key_list().len(),
    ensures
        ({
            let r = set_env_keys(key_value_pairs(env_override_key_list(), values));
            &&& r == set_keys_in_order(env_override_key_list(), values)
            &&& r.no_duplicates()
            &&& forall|i: int| 0 <= i < r.len() ==> starts_with_spec(#[trigger] r[i], "AGENTHUB_"@)
        }),
{
    lemma_pairs_report(env_override_key_list(), values);
    lemma_override_key_list();
    lemma_kept_keys(env_override_key_list(), values, "AGENTHUB_"@);
}

} // verus!
