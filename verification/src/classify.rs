//! The naming classifier: rules that sort container records into shared
//! infrastructure services or components of a named application
//! environment, and that derive the logical environment name from a
//! backend container's name.

use vstd::prelude::*;
use vstd::string::*;
use crate::text::{
    contains_seq, contains_sub, ends_with, ends_with_seq, starts_with, starts_with_seq, str_eq,
    strip_prefix_all, strip_prefix_repeated, strip_suffix_all, strip_suffix_repeated,
};

verus! {

/// The fixed keys of the known infrastructure services, in the order the
/// rules try them.
pub open spec fn infra_keys() -> Seq<Seq<char>> {
    seq!["mongo"@, "redis"@, "neo4j"@, "qdrant"@]
}

/// The display names of the known infrastructure services, aligned with
/// `infra_keys`.
pub open spec fn infra_displays() -> Seq<Seq<char>> {
    seq!["MongoDB"@, "Redis"@, "Neo4j"@, "Qdrant"@]
}

/// A container name designates the service with key `key` when it equals
/// the key, ends with `-<key>`, or ends with `-<key>-1` (the orchestration
/// tool's automatic numbering).
pub open spec fn infra_match(name: Seq<char>, key: Seq<char>) -> bool {
    name == key || ends_with_seq(name, seq!['-'] + key) || ends_with_seq(
        name,
        seq!['-'] + key + seq!['-', '1'],
    )
}

/// The index of the first infrastructure key at or after row `k` that the
/// name matches, in the fixed table order.
pub open spec fn infra_key_index_from(name: Seq<char>, k: int) -> Option<int>
    decreases infra_keys().len() - k,
{
    if k < 0 || k >= infra_keys().len() {
        None
    } else if infra_match(name, infra_keys()[k]) {
        Some(k)
    } else {
        infra_key_index_from(name, k + 1)
    }
}

/// The index of the first infrastructure key the name matches, in the
/// fixed table order.
pub open spec fn infra_key_index(name: Seq<char>) -> Option<int> {
    infra_key_index_from(name, 0)
}

/// Whether `name` designates the infrastructure service with key `key`.
pub fn infra_key_match(name: &str, key: &str) -> (r: bool)
    ensures
        r == infra_match(name@, key@),
{
    proof {
        reveal_strlit("-");
        reveal_strlit("-1");
        assert("-"@ =~= seq!['-']);
        assert("-1"@ =~= seq!['-', '1']);
    }
    if str_eq(name, key) {
        return true;
    }
    let dashed = crate::text::concat2("-", key);
    if ends_with(name, dashed.as_str()) {
        return true;
    }
    let numbered = crate::text::concat3("-", key, "-1");
    proof {
        assert(numbered@ =~= seq!['-'] + key@ + seq!['-', '1']);
    }
    ends_with(name, numbered.as_str())
}

/// The rule table of the known infrastructure services: each row pairs a
/// key with its display name, and the rows are tried in order, so a new
/// service kind is one more row.
pub fn infra_patterns() -> (r: Vec<(&'static str, &'static str)>)
    ensures
        r@.len() == infra_keys().len(),
        forall|k: int|
            0 <= k < r@.len() ==> r@[k].0@ == infra_keys()[k] && r@[k].1@ == infra_displays()[k],
{
    let r: Vec<(&'static str, &'static str)> = vec![
        ("mongo", "MongoDB"),
        ("redis", "Redis"),
        ("neo4j", "Neo4j"),
        ("qdrant", "Qdrant"),
    ];
    r
}

/// The first infrastructure key the name matches, together with its
/// display name: the rule table is tried in its fixed order and the first
/// matching row wins.
pub fn classify_infra(name: &str) -> (r: Option<(&'static str, &'static str)>)
    ensures
        match r {
            Some(kd) => infra_key_index(name@) is Some && {
                let k = infra_key_index(name@)->Some_0;
                kd.0@ == infra_keys()[k] && kd.1@ == infra_displays()[k]
            },
            None => infra_key_index(name@) is None,
        },
{
    let patterns = infra_patterns();
    let mut k: usize = 0;
    while k < patterns.len()
        invariant
            0 <= k <= patterns@.len(),
            infra_key_index(name@) == infra_key_index_from(name@, k as int),
        decreases patterns@.len() - k,
    {
        let (key, display) = patterns[k];
        if infra_key_match(name, key) {
            return Some((key, display));
        }
        k += 1;
    }
    None
}

/// The environment-backend rule: the container name mentions `backend`,
/// carries the application prefix, and does not belong to the bundled
/// sub-product whose backend must never be classified as a user
/// environment.
pub open spec fn is_env_backend(name: Seq<char>) -> bool {
    contains_seq(name, "backend"@) && starts_with_seq(name, "app"@) && !contains_seq(
        name,
        "chronicle"@,
    )
}

/// The logical environment name derived from a backend container name:
/// the bare `app-backend` container anchors the environment `default`;
/// any other name is stripped of the application prefix and of a trailing
/// `-backend` suffix.
pub open spec fn env_name_spec(name: Seq<char>) -> Seq<char> {
    if name == "app-backend"@ {
        "default"@
    } else {
        strip_suffix_all(strip_prefix_all(name, "app-"@), "-backend"@)
    }
}

/// Whether the environment-backend rule accepts `name`.
pub fn is_env_backend_name(name: &str) -> (r: bool)
    ensures
        r == is_env_backend(name@),
{
    contains_sub(name, "backend") && starts_with(name, "app") && !contains_sub(name, "chronicle")
}

/// Derive the logical environment name from a backend container name.
pub fn env_name_of(name: &str) -> (r: String)
    ensures
        r@ == env_name_spec(name@),
{
    proof {
        reveal_strlit("app-");
        reveal_strlit("-backend");
    }
    if str_eq(name, "app-backend") {
        String::from_str("default")
    } else {
        String::from_str(strip_suffix_repeated(strip_prefix_repeated(name, "app-"), "-backend"))
    }
}

} // verus!
