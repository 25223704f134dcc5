//! Project identity, deduplication and search ranking.

use vstd::prelude::*;

use crate::model::{ProjectTarget, RecentProject};
use crate::paths::PlatformKind;
use crate::sort::{
    insert_stable, is_sorted_by, lemma_insert_split, lemma_sort_multiset, lemma_sort_sorted, sort_stable,
    strict_weak_order,
};
use crate::text::{
    ascii_lower, ascii_lower_chars, chars_of, contains, contains_seq, is_prefix, lemma_lex_irreflexive,
    lemma_lex_total, lemma_lex_transitive, lex_less, lex_lt,
    push_char, replace_char, replace_chars, spec_to_lowercase, starts_with, string_from,
    to_lowercase, trim, trim_end_char, trim_end_chars, trim_str,
};

verus! {

/// How local paths are compared when deciding whether two targets are the same project.
#[derive(Debug, Clone, Copy, PartialEq, Eq, Structural)]
pub enum TargetIdentityPolicy {
    CaseInsensitiveAscii,
    CaseSensitive,
}

/// The identity policy of a platform: Windows paths ignore ASCII case;
/// Linux and macOS paths do not.
pub open spec fn policy_of(platform: PlatformKind) -> TargetIdentityPolicy {
    if platform == PlatformKind::Windows {
        TargetIdentityPolicy::CaseInsensitiveAscii
    } else {
        TargetIdentityPolicy::CaseSensitive
    }
}

impl TargetIdentityPolicy {
    /// The policy of `platform`: case-insensitive on Windows, case-sensitive
    /// on Linux and macOS.
    pub fn current(platform: PlatformKind) -> (r: Self)
        ensures
            r == policy_of(platform),
    {
        match platform {
            PlatformKind::Windows => TargetIdentityPolicy::CaseInsensitiveAscii,
            PlatformKind::Linux | PlatformKind::MacOs => TargetIdentityPolicy::CaseSensitive,
        }
    }
}

// ---------------------------------------------------------------------------
// Target identity
// ---------------------------------------------------------------------------

pub open spec fn path_prefix() -> Seq<char> {
    seq!['p', 'a', 't', 'h', ':']
}

pub open spec fn uri_prefix() -> Seq<char> {
    seq!['u', 'r', 'i', ':']
}

/// A local path with `\` written as `/`, trailing `/` removed, and ASCII case
/// folded when the policy says so.
pub open spec fn normalized_path(path: Seq<char>, policy: TargetIdentityPolicy) -> Seq<char> {
    let slashed = trim_end_char(replace_char(path, '\\', '/'), '/');
    if policy == TargetIdentityPolicy::CaseInsensitiveAscii {
        ascii_lower(slashed)
    } else {
        slashed
    }
}

/// The identity key of a target: two targets are the same project exactly when their keys are equal.
pub open spec fn spec_target_key(target: ProjectTarget, policy: TargetIdentityPolicy) -> Seq<char> {
    match target {
        ProjectTarget::LocalPath(path) => path_prefix() + normalized_path(path@, policy),
        ProjectTarget::Uri(uri) => uri_prefix() + trim_end_char(uri@, '/'),
    }
}

fn append_chars(s: &mut String, v: &Vec<char>)
    ensures
        final(s)@ == old(s)@ + v@,
{
    let ghost start = s@;
    let mut i: usize = 0;
    while i < v.len()
        invariant
            i <= v@.len(),
            s@ == start + v@.subrange(0, i as int),
        decreases v.len() - i,
    {
        push_char(s, v[i]);
        i = i + 1;
        assert(s@ =~= start + v@.subrange(0, i as int));
    }
    assert(v@.subrange(0, v@.len() as int) =~= v@);
}

fn prefixed(prefix: &Vec<char>, body: &Vec<char>) -> (r: String)
    ensures
        r@ == prefix@ + body@,
{
    let mut r = string_from(prefix);
    append_chars(&mut r, body);
    r
}

/// The identity key of `target` under the policy of `platform`.
pub fn target_key(target: &ProjectTarget, platform: PlatformKind) -> (r: String)
    ensures
        r@ == spec_target_key(*target, policy_of(platform)),
{
    target_key_with_policy(target, TargetIdentityPolicy::current(platform))
}

/// The identity key of `target` under `policy`.
pub fn target_key_with_policy(target: &ProjectTarget, policy: TargetIdentityPolicy) -> (r: String)
    ensures
        r@ == spec_target_key(*target, policy),
{
    match target {
        ProjectTarget::LocalPath(path) => {
            let chars = chars_of(path.as_str());
            let slashed = replace_chars(&chars, '\\', '/');
            let trimmed = trim_end_chars(&slashed, '/');
            let normalized = match policy {
                TargetIdentityPolicy::CaseInsensitiveAscii => ascii_lower_chars(&trimmed),
                TargetIdentityPolicy::CaseSensitive => trimmed,
            };
            let prefix = vec!['p', 'a', 't', 'h', ':'];
            assert(prefix@ =~= path_prefix());
            prefixed(&prefix, &normalized)
        },
        ProjectTarget::Uri(uri) => {
            let chars = chars_of(uri.as_str());
            let trimmed = trim_end_chars(&chars, '/');
            let prefix = vec!['u', 'r', 'i', ':'];
            assert(prefix@ =~= uri_prefix());
            prefixed(&prefix, &trimmed)
        },
    }
}

proof fn lemma_lower_trim_commute(s: Seq<char>)
    ensures
        ascii_lower(trim_end_char(s, '/')) == trim_end_char(ascii_lower(s), '/'),
    decreases s.len(),
{
    if s.len() > 0 {
        assert(ascii_lower(s).last() == crate::text::ascii_lower_char(s.last()));
        assert(ascii_lower(s).drop_last() =~= ascii_lower(s.drop_last()));
        if s.last() == '/' {
            lemma_lower_trim_commute(s.drop_last());
        } else {
            assert(crate::text::ascii_lower_char(s.last()) != '/');
        }
    } else {
        assert(ascii_lower(s) =~= s);
    }
}

/// Which targets are the same project: a local path and a URI never are;
/// a trailing separator (`/` or `\`) does not change a local path's
/// identity, nor a trailing `/` a URI's; and under the case-insensitive
/// policy two local paths that differ only in ASCII case are the same, while
/// under the case-sensitive policy two local paths without `\` and without a
/// trailing `/` are the same only when they are equal.
pub proof fn lemma_target_identity(a: String, b: String, policy: TargetIdentityPolicy)
    ensures
        spec_target_key(ProjectTarget::LocalPath(a), policy) != spec_target_key(
            ProjectTarget::Uri(b),
            policy,
        ),
        (b@ == a@.push('/') || b@ == a@.push('\\')) ==> spec_target_key(
            ProjectTarget::LocalPath(b),
            policy,
        ) == spec_target_key(ProjectTarget::LocalPath(a), policy),
        b@ == a@.push('/') ==> spec_target_key(ProjectTarget::Uri(b), policy) == spec_target_key(
            ProjectTarget::Uri(a),
            policy,
        ),
        policy == TargetIdentityPolicy::CaseInsensitiveAscii && ascii_lower(a@) == ascii_lower(b@)
            ==> spec_target_key(ProjectTarget::LocalPath(a), policy) == spec_target_key(
            ProjectTarget::LocalPath(b),
            policy,
        ),
        policy == TargetIdentityPolicy::CaseSensitive && !a@.contains('\\') && !b@.contains('\\')
            && (a@.len() == 0 || a@.last() != '/') && (b@.len() == 0 || b@.last() != '/')
            && spec_target_key(ProjectTarget::LocalPath(a), policy) == spec_target_key(
            ProjectTarget::LocalPath(b),
            policy,
        ) ==> a@ == b@,
{
    let ka = spec_target_key(ProjectTarget::LocalPath(a), policy);
    let kb = spec_target_key(ProjectTarget::Uri(b), policy);
    assert(ka[0] == 'p');
    assert(kb[0] == 'u');
    let ra = replace_char(a@, '\\', '/');
    if b@ == a@.push('/') || b@ == a@.push('\\') {
        assert(replace_char(b@, '\\', '/') =~= ra.push('/'));
        assert(ra.push('/').drop_last() =~= ra);
    }
    if b@ == a@.push('/') {
        assert(b@.drop_last() =~= a@);
    }
    if policy == TargetIdentityPolicy::CaseInsensitiveAscii && ascii_lower(a@) == ascii_lower(b@) {
        let rb = replace_char(b@, '\\', '/');
        lemma_lower_trim_commute(ra);
        lemma_lower_trim_commute(rb);
        assert(ascii_lower(a@).len() == a@.len());
        assert(ascii_lower(ra) =~= replace_char(ascii_lower(a@), '\\', '/')) by {
            assert forall|i: int| 0 <= i < ra.len() implies #[trigger] ascii_lower(ra)[i] == replace_char(
                ascii_lower(a@),
                '\\',
                '/',
            )[i] by {
                assert(crate::text::ascii_lower_char(a@[i]) == '\\' <==> a@[i] == '\\');
            }
        }
        assert(ascii_lower(rb) =~= replace_char(ascii_lower(b@), '\\', '/')) by {
            assert forall|i: int| 0 <= i < rb.len() implies #[trigger] ascii_lower(rb)[i] == replace_char(
                ascii_lower(b@),
                '\\',
                '/',
            )[i] by {
                assert(crate::text::ascii_lower_char(b@[i]) == '\\' <==> b@[i] == '\\');
            }
        }
    }
    if policy == TargetIdentityPolicy::CaseSensitive && !a@.contains('\\') && !b@.contains('\\') {
        assert(ra =~= a@);
        assert(replace_char(b@, '\\', '/') =~= b@);
        let ka2 = spec_target_key(ProjectTarget::LocalPath(a), policy);
        let kb2 = spec_target_key(ProjectTarget::LocalPath(b), policy);
        if (a@.len() == 0 || a@.last() != '/') && (b@.len() == 0 || b@.last() != '/') && ka2 == kb2 {
            assert(ka2 == path_prefix() + a@);
            assert(kb2 == path_prefix() + b@);
            assert(a@ =~= ka2.subrange(5, ka2.len() as int));
            assert(b@ =~= kb2.subrange(5, kb2.len() as int));
        }
    }
}

// ---------------------------------------------------------------------------
// Deduplication
// ---------------------------------------------------------------------------

/// Strict order by recent index: more recent first.
pub open spec fn by_recent_index() -> spec_fn(RecentProject, RecentProject) -> bool {
    |a: RecentProject, b: RecentProject| a.recent_index < b.recent_index
}

/// Whether an element before position `i` has the same identity key as `s[i]`.
pub open spec fn key_seen_before(s: Seq<RecentProject>, i: int, policy: TargetIdentityPolicy) -> bool {
    exists|j: int|
        0 <= j < i && #[trigger] spec_target_key(s[j].target, policy) == spec_target_key(
            s[i].target,
            policy,
        )
}

/// The elements of `s` whose identity key has not occurred earlier in `s`, in order.
pub open spec fn first_of_each_key(s: Seq<RecentProject>, policy: TargetIdentityPolicy) -> Seq<
    RecentProject,
>
    decreases s.len(),
{
    if s.len() == 0 {
        Seq::empty()
    } else {
        let previous = first_of_each_key(s.drop_last(), policy);
        if key_seen_before(s, s.len() - 1, policy) {
            previous
        } else {
            previous.push(s.last())
        }
    }
}

/// Deduplication: order by recent index (stably), then keep the first project of each identity.
pub open spec fn spec_deduplicate(projects: Seq<RecentProject>, policy: TargetIdentityPolicy) -> Seq<
    RecentProject,
> {
    first_of_each_key(sort_stable(projects, by_recent_index()), policy)
}

/// Whether some project among the first `n` of `s` has identity key `k`.
pub open spec fn key_occurs(s: Seq<RecentProject>, n: int, k: Seq<char>, policy: TargetIdentityPolicy) -> bool {
    exists|j: int| 0 <= j < n && #[trigger] spec_target_key(s[j].target, policy) == k
}

/// Whether some string of `v` has view `k`.
pub open spec fn strings_contain(v: Seq<String>, k: Seq<char>) -> bool {
    exists|m: int| 0 <= m < v.len() && #[trigger] v[m]@ == k
}

/// Stable sort by recent index.
fn sort_by_recent_index(projects: &[RecentProject]) -> (r: Vec<RecentProject>)
    ensures
        r@ == sort_stable(projects@, by_recent_index()),
{
    let mut out: Vec<RecentProject> = Vec::new();
    let mut i: usize = 0;
    while i < projects.len()
        invariant
            i <= projects@.len(),
            out@ == sort_stable(projects@.subrange(0, i as int), by_recent_index()),
        decreases projects.len() - i,
    {
        let x = projects[i].copied();
        let mut j = out.len();
        while j > 0 && x.recent_index < out[j - 1].recent_index
            invariant
                j <= out@.len(),
                forall|k: int| j <= k < out@.len() ==> x.recent_index < (#[trigger] out@[k]).recent_index,
            decreases j,
        {
            j = j - 1;
        }
        proof {
            lemma_insert_split(out@, x, by_recent_index(), j as int);
            let s = projects@.subrange(0, i + 1);
            assert(s.drop_last() =~= projects@.subrange(0, i as int));
            assert(s.last() == projects@[i as int]);
        }
        let ghost before = out@;
        out.insert(j, x);
        assert(out@ =~= before.subrange(0, j as int).push(x) + before.subrange(j as int, before.len() as int));
        i = i + 1;
    }
    assert(projects@.subrange(0, projects@.len() as int) =~= projects@);
    out
}

/// Keeps the first project of each identity key, in order.
fn keep_first_of_each_key(s: &Vec<RecentProject>, policy: TargetIdentityPolicy) -> (r: Vec<RecentProject>)
    ensures
        r@ == first_of_each_key(s@, policy),
{
    let mut out: Vec<RecentProject> = Vec::new();
    let mut seen: Vec<String> = Vec::new();
    let mut i: usize = 0;
    while i < s.len()
        invariant
            i <= s@.len(),
            out@ == first_of_each_key(s@.subrange(0, i as int), policy),
            forall|k: Seq<char>|
                #![trigger key_occurs(s@, i as int, k, policy)]
                #![trigger strings_contain(seen@, k)]
                key_occurs(s@, i as int, k, policy) <==> strings_contain(seen@, k),
        decreases s.len() - i,
    {
        let key = target_key_with_policy(&s[i].target, policy);
        let mut found = false;
        let mut m: usize = 0;
        while m < seen.len()
            invariant
                m <= seen@.len(),
                found <==> exists|q: int| 0 <= q < m && (#[trigger] seen@[q])@ == key@,
            decreases seen.len() - m,
        {
            if seen[m] == key {
                found = true;
            }
            m = m + 1;
        }
        let ghost t = s@.subrange(0, i + 1);
        proof {
            assert(t.drop_last() =~= s@.subrange(0, i as int));
            assert(t.last() == s@[i as int]);
            if found {
                assert(strings_contain(seen@, key@));
                assert(key_occurs(s@, i as int, key@, policy));
                let j = choose|j: int| 0 <= j < i && #[trigger] spec_target_key(s@[j].target, policy) == key@;
                assert(t[j] == s@[j]);
                assert(spec_target_key(t[j].target, policy) == spec_target_key(t[i as int].target, policy));
                assert(key_seen_before(t, i as int, policy));
            } else {
                if key_seen_before(t, i as int, policy) {
                    let j = choose|j: int| 0 <= j < i && #[trigger] spec_target_key(t[j].target, policy)
                        == spec_target_key(t[i as int].target, policy);
                    assert(t[j] == s@[j]);
                    assert(key_occurs(s@, i as int, key@, policy));
                    assert(strings_contain(seen@, key@));
                    let q = choose|q: int| 0 <= q < seen@.len() && (#[trigger] seen@[q])@ == key@;
                }
            }
        }
        let ghost seen_before = seen@;
        if !found {
            out.push(s[i].copied());
            seen.push(key);
        }
        proof {
            assert forall|k: Seq<char>|
                key_occurs(s@, i + 1, k, policy) <==> strings_contain(seen@, k) by {
                if key_occurs(s@, i + 1, k, policy) {
                    let j = choose|j: int| 0 <= j < i + 1 && #[trigger] spec_target_key(s@[j].target, policy) == k;
                    if j < i {
                        assert(key_occurs(s@, i as int, k, policy));
                        assert(strings_contain(seen_before, k));
                        let m = choose|m: int| 0 <= m < seen_before.len() && #[trigger] seen_before[m]@ == k;
                        assert(seen@[m] == seen_before[m]);
                    } else if found {
                        let q = choose|q: int| 0 <= q < seen_before.len() && (#[trigger] seen_before[q])@ == key@;
                        assert(seen@[q] == seen_before[q]);
                    } else {
                        assert(seen@[seen@.len() - 1]@ == k);
                    }
                }
                if strings_contain(seen@, k) {
                    let m = choose|m: int| 0 <= m < seen@.len() && #[trigger] seen@[m]@ == k;
                    if m < seen_before.len() {
                        assert(seen_before[m] == seen@[m]);
                        assert(strings_contain(seen_before, k));
                        assert(key_occurs(s@, i as int, k, policy));
                        let j = choose|j: int| 0 <= j < i && #[trigger] spec_target_key(s@[j].target, policy) == k;
                    } else {
                        assert(spec_target_key(s@[i as int].target, policy) == k);
                    }
                }
            }
        }
        i = i + 1;
    }
    assert(s@.subrange(0, s@.len() as int) =~= s@);
    out
}

/// Deduplicates with the policy of `platform`.
pub fn deduplicate(projects: Vec<RecentProject>, platform: PlatformKind) -> (r: Vec<RecentProject>)
    ensures
        r@ == spec_deduplicate(projects@, policy_of(platform)),
{
    deduplicate_with_policy(projects, TargetIdentityPolicy::current(platform))
}

/// Orders projects by recent index and keeps the most recent project of each identity.
pub fn deduplicate_with_policy(projects: Vec<RecentProject>, policy: TargetIdentityPolicy) -> (r: Vec<
    RecentProject,
>)
    ensures
        r@ == spec_deduplicate(projects@, policy),
{
    let sorted = sort_by_recent_index(projects.as_slice());
    keep_first_of_each_key(&sorted, policy)
}

// ---------------------------------------------------------------------------
// Search
// ---------------------------------------------------------------------------

/// Whether the characters of `needle` occur in `haystack` in order, matched greedily.
pub open spec fn is_fuzzy_match(haystack: Seq<char>, needle: Seq<char>) -> bool
    decreases haystack.len(),
{
    if needle.len() == 0 {
        true
    } else if haystack.len() == 0 {
        false
    } else if haystack[0] == needle[0] {
        is_fuzzy_match(haystack.drop_first(), needle.drop_first())
    } else {
        is_fuzzy_match(haystack.drop_first(), needle)
    }
}

/// The tier of a match of the lower-cased query `q` against a lower-cased name and detail.
pub open spec fn spec_base_score(name: Seq<char>, detail: Seq<char>, q: Seq<char>) -> Option<int> {
    if name == q {
        Some(10_000)
    } else if is_prefix(q, name) {
        Some(7_500)
    } else if contains_seq(name, q) {
        Some(5_000)
    } else if contains_seq(detail, q) {
        Some(3_000)
    } else if is_fuzzy_match(name, q) {
        Some(1_500)
    } else if is_fuzzy_match(detail, q) {
        Some(1_000)
    } else {
        None
    }
}

/// The score of a match: its tier plus ten per query character; `None` when nothing matches.
pub open spec fn spec_score_of(name: Seq<char>, detail: Seq<char>, q: Seq<char>) -> Option<int> {
    match spec_base_score(name, detail, q) {
        Some(base) => Some(base + 10 * q.len()),
        None => None,
    }
}

/// The score of `project` for the lower-cased query `q`.
pub open spec fn spec_score(project: RecentProject, q: Seq<char>) -> Option<int> {
    spec_score_of(spec_to_lowercase(project.name@), spec_to_lowercase(project.detail@), q)
}

/// The matching projects in input order, each with its score and lower-cased name.
pub open spec fn scored_entries(projects: Seq<RecentProject>, q: Seq<char>) -> Seq<
    (int, Seq<char>, RecentProject),
>
    decreases projects.len(),
{
    if projects.len() == 0 {
        Seq::empty()
    } else {
        let previous = scored_entries(projects.drop_last(), q);
        let p = projects.last();
        match spec_score(p, q) {
            Some(score) => previous.push((score, spec_to_lowercase(p.name@), p)),
            None => previous,
        }
    }
}

/// Result order: higher score first, then more recent, then lower-cased name.
pub open spec fn by_rank() -> spec_fn(
    (int, Seq<char>, RecentProject),
    (int, Seq<char>, RecentProject),
) -> bool {
    |a: (int, Seq<char>, RecentProject), b: (int, Seq<char>, RecentProject)|
        a.0 > b.0 || (a.0 == b.0 && (a.2.recent_index < b.2.recent_index || (a.2.recent_index
            == b.2.recent_index && lex_lt(a.1, b.1))))
}

/// The normalized query: trimmed, then lower-cased.
pub open spec fn normalized_query(query: Seq<char>) -> Seq<char> {
    spec_to_lowercase(trim(query))
}

/// Search: a blank query lists every project by recent index; otherwise the
/// matching projects ordered by rank.
pub open spec fn spec_search(projects: Seq<RecentProject>, query: Seq<char>) -> Seq<RecentProject> {
    let q = normalized_query(query);
    if q.len() == 0 {
        sort_stable(projects, by_recent_index())
    } else {
        sort_stable(scored_entries(projects, q), by_rank()).map_values(
            |e: (int, Seq<char>, RecentProject)| e.2,
        )
    }
}

/// Whether `needle` matches `haystack` fuzzily.
fn fuzzy_match(haystack: &Vec<char>, needle: &Vec<char>) -> (r: bool)
    ensures
        r == is_fuzzy_match(haystack@, needle@),
{
    if needle.len() == 0 {
        return true;
    }
    let mut k: usize = 0;
    let mut i: usize = 0;
    assert(haystack@.subrange(0, haystack@.len() as int) =~= haystack@);
    assert(needle@.subrange(0, needle@.len() as int) =~= needle@);
    while i < haystack.len()
        invariant
            i <= haystack@.len(),
            k < needle@.len(),
            needle@.len() <= usize::MAX,
            is_fuzzy_match(haystack@, needle@) == is_fuzzy_match(
                haystack@.subrange(i as int, haystack@.len() as int),
                needle@.subrange(k as int, needle@.len() as int),
            ),
        decreases haystack.len() - i,
    {
        let ghost h = haystack@.subrange(i as int, haystack@.len() as int);
        let ghost n = needle@.subrange(k as int, needle@.len() as int);
        assert(h[0] == haystack@[i as int]);
        assert(n[0] == needle@[k as int]);
        assert(h.drop_first() =~= haystack@.subrange(i + 1, haystack@.len() as int));
        assert(n.drop_first() =~= needle@.subrange(k + 1, needle@.len() as int));
        if haystack[i] == needle[k] {
            k = k + 1;
            if k == needle.len() {
                assert(n.drop_first().len() == 0);
                assert(is_fuzzy_match(h.drop_first(), n.drop_first()));
                return true;
            }
        }
        i = i + 1;
    }
    assert(haystack@.subrange(i as int, haystack@.len() as int).len() == 0);
    false
}

/// The score of a lower-cased name and detail for the lower-cased query `q`.
fn score(name: &Vec<char>, detail: &Vec<char>, q: &Vec<char>) -> (r: Option<u128>)
    ensures
        match r {
            Some(v) => spec_score_of(name@, detail@, q@) == Some(v as int),
            None => spec_score_of(name@, detail@, q@) is None,
        },
{
    let base: u128 = if crate::text::chars_eq(name, q) {
        10_000
    } else if starts_with(name, q) {
        7_500
    } else if contains(name, q) {
        5_000
    } else if contains(detail, q) {
        3_000
    } else if fuzzy_match(name, q) {
        1_500
    } else if fuzzy_match(detail, q) {
        1_000
    } else {
        return None;
    };
    let n = q.len() as u128;
    Some(base + n * 10)
}

/// A matching project together with the keys it is ordered by.
struct RankedProject {
    score: u128,
    name_key: Vec<char>,
    project: RecentProject,
}

spec fn entry_of(r: RankedProject) -> (int, Seq<char>, RecentProject) {
    (r.score as int, r.name_key@, r.project)
}

spec fn entries(v: Seq<RankedProject>) -> Seq<(int, Seq<char>, RecentProject)> {
    v.map_values(|r: RankedProject| entry_of(r))
}

fn rank_less(a: &RankedProject, b: &RankedProject) -> (r: bool)
    ensures
        r == (by_rank())(entry_of(*a), entry_of(*b)),
{
    if a.score != b.score {
        a.score > b.score
    } else if a.project.recent_index != b.project.recent_index {
        a.project.recent_index < b.project.recent_index
    } else {
        lex_less(&a.name_key, &b.name_key)
    }
}

/// Stable sort of ranked projects by rank.
fn sort_ranked(items: Vec<RankedProject>) -> (r: Vec<RankedProject>)
    ensures
        entries(r@) == sort_stable(entries(items@), by_rank()),
{
    let mut out: Vec<RankedProject> = Vec::new();
    let mut rest = items;
    let ghost all = entries(rest@);
    assert(all.len() == rest@.len());
    let mut taken: usize = 0;
    // Items are taken from the front: reverse once so that `pop` yields them in order.
    let mut reversed: Vec<RankedProject> = Vec::new();
    while rest.len() > 0
        invariant
            entries(reversed@).len() + entries(rest@).len() == all.len(),
            entries(rest@) == all.subrange(0, entries(rest@).len() as int),
            forall|k: int| 0 <= k < reversed@.len() ==> entry_of(#[trigger] reversed@[k]) == all[all.len() - 1 - k],
        decreases rest.len(),
    {
        let ghost before = rest@;
        let ghost rev_before = reversed@;
        let x = rest.pop().unwrap();
        proof {
            assert(before =~= rest@.push(x));
            assert(entries(rest@) =~= entries(before).drop_last());
            assert(entries(before)[before.len() - 1] == entry_of(x));
            assert(entry_of(x) == all[before.len() - 1]);
        }
        reversed.push(x);
        proof {
            assert forall|k: int| 0 <= k < reversed@.len() implies entry_of(#[trigger] reversed@[k]) == all[all.len() - 1 - k] by {
                if k < rev_before.len() {
                    assert(reversed@[k] == rev_before[k]);
                }
            }
        }
    }
    assert(entries(out@) =~= sort_stable(all.subrange(0, 0), by_rank()));
    assert(entries(reversed@).len() == reversed@.len());
    assert(entries(rest@).len() == rest@.len());
    let total = reversed.len();
    assert(all.len() == total);
    while reversed.len() > 0
        invariant
            taken + reversed@.len() == all.len(),
            all.len() <= usize::MAX,
            forall|k: int| 0 <= k < reversed@.len() ==> entry_of(#[trigger] reversed@[k]) == all[all.len() - 1 - k],
            entries(out@) == sort_stable(all.subrange(0, taken as int), by_rank()),
        decreases reversed.len(),
    {
        let ghost before = reversed@;
        let x = reversed.pop().unwrap();
        assert(before[before.len() - 1] == x);
        assert(entry_of(x) == all[taken as int]);
        let mut j = out.len();
        while j > 0 && rank_less(&x, &out[j - 1])
            invariant
                j <= out@.len(),
                forall|k: int| j <= k < out@.len() ==> (by_rank())(entry_of(x), entry_of(#[trigger] out@[k])),
            decreases j,
        {
            j = j - 1;
        }
        let ghost old_entries = entries(out@);
        proof {
            assert forall|k: int| j <= k < old_entries.len() implies (by_rank())(entry_of(x), #[trigger] old_entries[k]) by {
                assert(old_entries[k] == entry_of(out@[k]));
            }
            if j > 0 {
                assert(old_entries[j - 1] == entry_of(out@[j - 1]));
            }
            lemma_insert_split(old_entries, entry_of(x), by_rank(), j as int);
            let s = all.subrange(0, taken + 1);
            assert(s.drop_last() =~= all.subrange(0, taken as int));
            assert(s.last() == all[taken as int]);
        }
        let ghost out_before = out@;
        out.insert(j, x);
        proof {
            assert(entries(out@) =~= old_entries.subrange(0, j as int).push(entry_of(x)) + old_entries.subrange(j as int, old_entries.len() as int));
        }
        taken = taken + 1;
    }
    assert(all.subrange(0, all.len() as int) =~= all);
    out
}

/// The projects matching `query`, best first; a blank query lists every
/// project from most to least recent.
pub fn search_projects(projects: &[RecentProject], query: &str) -> (r: Vec<RecentProject>)
    ensures
        r@ == spec_search(projects@, query@),
        normalized_query(query@).len() == 0 <==> trim(query@).len() == 0,
        trim(query@).len() == 0 ==> r@.to_multiset() == projects@.to_multiset() && recency_ordered(r@),
{
    let trimmed = trim_str(query);
    let lowered = to_lowercase(trimmed.as_str());
    let q = chars_of(lowered.as_str());
    if q.len() == 0 {
        proof {
            lemma_blank_query_lists_every_project(projects@, query@);
        }
        return sort_by_recent_index(projects);
    }
    let mut ranked: Vec<RankedProject> = Vec::new();
    let mut i: usize = 0;
    while i < projects.len()
        invariant
            i <= projects@.len(),
            q@ == normalized_query(query@),
            entries(ranked@) == scored_entries(projects@.subrange(0, i as int), q@),
        decreases projects.len() - i,
    {
        let p = &projects[i];
        let name_key = chars_of(to_lowercase(p.name.as_str()).as_str());
        let detail_key = chars_of(to_lowercase(p.detail.as_str()).as_str());
        let s = score(&name_key, &detail_key, &q);
        proof {
            let t = projects@.subrange(0, i + 1);
            assert(t.drop_last() =~= projects@.subrange(0, i as int));
            assert(t.last() == projects@[i as int]);
        }
        match s {
            Some(v) => {
                let ghost before = ranked@;
                ranked.push(RankedProject { score: v, name_key, project: p.copied() });
                assert(entries(ranked@) =~= entries(before).push(entry_of(ranked@[ranked@.len() - 1])));
            },
            None => {},
        }
        i = i + 1;
    }
    assert(projects@.subrange(0, projects@.len() as int) =~= projects@);
    let sorted = sort_ranked(ranked);
    let mut out: Vec<RecentProject> = Vec::new();
    let mut k: usize = 0;
    while k < sorted.len()
        invariant
            k <= sorted@.len(),
            out@ == entries(sorted@).subrange(0, k as int).map_values(
                |e: (int, Seq<char>, RecentProject)| e.2,
            ),
        decreases sorted.len() - k,
    {
        out.push(sorted[k].project.copied());
        k = k + 1;
        assert(out@ =~= entries(sorted@).subrange(0, k as int).map_values(
            |e: (int, Seq<char>, RecentProject)| e.2,
        ));
    }
    assert(entries(sorted@).subrange(0, sorted@.len() as int) =~= entries(sorted@));
    out
}

// ---------------------------------------------------------------------------
// Laws
// ---------------------------------------------------------------------------

broadcast use vstd::seq_lib::group_to_multiset_ensures;

proof fn lemma_by_recent_index_order()
    ensures
        strict_weak_order(by_recent_index()),
{
}

proof fn lemma_by_rank_order()
    ensures
        strict_weak_order(by_rank()),
{
    let lt = by_rank();
    assert forall|a: (int, Seq<char>, RecentProject)| !#[trigger] lt(a, a) by {
        lemma_lex_irreflexive(a.1);
    }
    assert forall|a: (int, Seq<char>, RecentProject), b: (int, Seq<char>, RecentProject), c: (
        int,
        Seq<char>,
        RecentProject,
    )| #![trigger lt(a, b), lt(b, c)] lt(a, b) && lt(b, c) implies lt(a, c) by {
        if a.0 == b.0 && b.0 == c.0 && a.2.recent_index == b.2.recent_index && b.2.recent_index
            == c.2.recent_index {
            lemma_lex_transitive(a.1, b.1, c.1);
        }
    }
    assert forall|a: (int, Seq<char>, RecentProject), b: (int, Seq<char>, RecentProject), c: (
        int,
        Seq<char>,
        RecentProject,
    )| #![trigger lt(a, b), lt(b, c)] lt(a, c) implies lt(a, b) || lt(b, c) by {
        lemma_lex_total(a.1, b.1);
        lemma_lex_total(b.1, c.1);
        if !lt(a, b) && !lt(b, c) {
            if a.0 == b.0 && b.0 == c.0 && a.2.recent_index == b.2.recent_index
                && b.2.recent_index == c.2.recent_index {
                if lex_lt(b.1, a.1) && lex_lt(c.1, b.1) {
                    lemma_lex_transitive(c.1, b.1, a.1);
                }
                if lex_lt(a.1, c.1) && lex_lt(c.1, a.1) {
                    lemma_lex_transitive(a.1, c.1, a.1);
                    lemma_lex_irreflexive(a.1);
                }
                if a.1 == b.1 && lex_lt(a.1, c.1) && lex_lt(c.1, b.1) {
                    lemma_lex_transitive(a.1, c.1, b.1);
                    lemma_lex_irreflexive(a.1);
                }
                if b.1 == c.1 && lex_lt(a.1, c.1) && lex_lt(b.1, a.1) {
                    lemma_lex_transitive(a.1, c.1, a.1);
                    lemma_lex_irreflexive(a.1);
                }
            }
        }
    }
}

/// A blank query (empty after trimming) lists every project, ordered by recent index.
pub proof fn lemma_blank_query_lists_every_project(projects: Seq<RecentProject>, query: Seq<char>)
    requires
        normalized_query(query).len() == 0,
    ensures
        spec_search(projects, query).to_multiset() =~= projects.to_multiset(),
        is_sorted_by(spec_search(projects, query), by_recent_index()),
        recency_ordered(spec_search(projects, query)),
{
    lemma_sorted_by_recency(projects);
    lemma_sort_multiset(projects, by_recent_index());
    lemma_by_recent_index_order();
    lemma_sort_sorted(projects, by_recent_index());
}

proof fn lemma_scored_entries_match(projects: Seq<RecentProject>, q: Seq<char>)
    ensures
        forall|i: int|
            0 <= i < scored_entries(projects, q).len() ==> {
                let e = #[trigger] scored_entries(projects, q)[i];
                spec_score(e.2, q) == Some(e.0) && e.1 == spec_to_lowercase(e.2.name@)
            },
        scored_entries(projects, q).map_values(|e: (int, Seq<char>, RecentProject)| e.2)
            == projects.filter(|p: RecentProject| spec_score(p, q) is Some),
    decreases projects.len(),
{
    reveal_with_fuel(Seq::filter, 1);
    if projects.len() > 0 {
        lemma_scored_entries_match(projects.drop_last(), q);
        let prev = scored_entries(projects.drop_last(), q);
        let cur = scored_entries(projects, q);
        assert forall|i: int| 0 <= i < cur.len() implies {
            let e = #[trigger] cur[i];
            spec_score(e.2, q) == Some(e.0) && e.1 == spec_to_lowercase(e.2.name@)
        } by {
            if i < prev.len() {
                assert(cur[i] == prev[i]);
            }
        }
        assert(cur.map_values(|e: (int, Seq<char>, RecentProject)| e.2) =~= projects.filter(
            |p: RecentProject| spec_score(p, q) is Some,
        ));
    } else {
        assert(scored_entries(projects, q).map_values(|e: (int, Seq<char>, RecentProject)| e.2)
            =~= projects.filter(|p: RecentProject| spec_score(p, q) is Some));
    }
}

proof fn lemma_insert_map_multiset<A, B>(
    sorted: Seq<A>,
    x: A,
    lt: spec_fn(A, A) -> bool,
    f: spec_fn(A) -> B,
)
    ensures
        insert_stable(sorted, x, lt).map_values(f).to_multiset() =~= sorted.map_values(
            f,
        ).to_multiset().insert(f(x)),
    decreases sorted.len(),
{
    if sorted.len() == 0 {
        assert(insert_stable(sorted, x, lt).map_values(f) =~= seq![f(x)]);
        assert(seq![f(x)] =~= Seq::<B>::empty().push(f(x)));
        assert(sorted.map_values(f) =~= Seq::<B>::empty());
    } else if lt(x, sorted.last()) {
        let t = sorted.drop_last();
        lemma_insert_map_multiset(t, x, lt, f);
        assert(insert_stable(sorted, x, lt).map_values(f) =~= insert_stable(t, x, lt).map_values(
            f,
        ).push(f(sorted.last())));
        assert(sorted.map_values(f) =~= t.map_values(f).push(f(sorted.last())));
    } else {
        assert(sorted.push(x).map_values(f) =~= sorted.map_values(f).push(f(x)));
    }
}

proof fn lemma_sort_map_multiset<A, B>(s: Seq<A>, lt: spec_fn(A, A) -> bool, f: spec_fn(A) -> B)
    ensures
        sort_stable(s, lt).map_values(f).to_multiset() =~= s.map_values(f).to_multiset(),
    decreases s.len(),
{
    if s.len() > 0 {
        lemma_sort_map_multiset(s.drop_last(), lt, f);
        lemma_insert_map_multiset(sort_stable(s.drop_last(), lt), s.last(), lt, f);
        assert(s.map_values(f) =~= s.drop_last().map_values(f).push(f(s.last())));
    } else {
        assert(sort_stable(s, lt).map_values(f) =~= Seq::<B>::empty());
        assert(s.map_values(f) =~= Seq::<B>::empty());
    }
}

/// A non-blank query returns exactly the matching projects, each as many times as it
/// was given; every result matches; and results are ordered by score (higher first),
/// then recent index (lower first), then lower-cased name.
pub proof fn lemma_text_query_ranks_matches(projects: Seq<RecentProject>, query: Seq<char>)
    requires
        normalized_query(query).len() > 0,
    ensures
        ({
            let q = normalized_query(query);
            let r = spec_search(projects, query);
            &&& r.to_multiset() =~= projects.filter(|p: RecentProject| spec_score(p, q) is Some).to_multiset()
            &&& forall|i: int| 0 <= i < r.len() ==> (#[trigger] spec_score(r[i], q)) is Some
            &&& forall|i: int, j: int|
                0 <= i < j < r.len() ==> {
                    let si = spec_score(#[trigger] r[i], q)->0;
                    let sj = spec_score(#[trigger] r[j], q)->0;
                    si > sj || (si == sj && (r[i].recent_index < r[j].recent_index || (
                    r[i].recent_index == r[j].recent_index && !lex_lt(
                        spec_to_lowercase(r[j].name@),
                        spec_to_lowercase(r[i].name@),
                    ))))
                }
        }),
{
    let q = normalized_query(query);
    let e = scored_entries(projects, q);
    let f = |x: (int, Seq<char>, RecentProject)| x.2;
    let sorted = sort_stable(e, by_rank());
    let r = spec_search(projects, query);
    assert(r == sorted.map_values(f));
    lemma_scored_entries_match(projects, q);
    lemma_sort_map_multiset(e, by_rank(), f);
    lemma_sort_multiset(e, by_rank());
    lemma_by_rank_order();
    lemma_sort_sorted(e, by_rank());
    crate::sort::lemma_sort_len(e, by_rank());
    assert forall|i: int| 0 <= i < sorted.len() implies {
        let x = #[trigger] sorted[i];
        spec_score(x.2, q) == Some(x.0) && x.1 == spec_to_lowercase(x.2.name@)
    } by {
        let x = sorted[i];
        assert(sorted.to_multiset().count(x) > 0);
        assert(e.to_multiset().count(x) > 0);
        assert(e.contains(x));
        let k = choose|k: int| 0 <= k < e.len() && e[k] == x;
        assert(e[k] == x);
    }
    assert forall|i: int| 0 <= i < r.len() implies (#[trigger] spec_score(r[i], q)) is Some by {
        assert(r[i] == sorted[i].2);
        let x = sorted[i];
    }
    assert forall|i: int, j: int| 0 <= i < j < r.len() implies {
        let si = spec_score(#[trigger] r[i], q)->0;
        let sj = spec_score(#[trigger] r[j], q)->0;
        si > sj || (si == sj && (r[i].recent_index < r[j].recent_index || (r[i].recent_index
            == r[j].recent_index && !lex_lt(
            spec_to_lowercase(r[j].name@),
            spec_to_lowercase(r[i].name@),
        ))))
    } by {
        let a = sorted[i];
        let b = sorted[j];
        assert(r[i] == a.2 && r[j] == b.2);
        assert(!(by_rank())(b, a));
        lemma_lex_total(a.1, b.1);
    }
}

/// Whether the lower-cased name of `p` contains the normalized query `q`.
pub open spec fn name_contains(p: RecentProject, q: Seq<char>) -> bool {
    contains_seq(spec_to_lowercase(p.name@), q)
}

proof fn lemma_name_match_tiers(p: RecentProject, q: Seq<char>)
    requires
        spec_score(p, q) is Some,
    ensures
        name_contains(p, q) ==> spec_score(p, q)->0 >= 5_000 + 10 * q.len(),
        !name_contains(p, q) ==> spec_score(p, q)->0 <= 3_000 + 10 * q.len(),
{
    let name = spec_to_lowercase(p.name@);
    if name == q || is_prefix(q, name) {
        assert(name.subrange(0, 0 + q.len() as int) =~= q);
        assert(contains_seq(name, q));
    }
}

/// A text query lists every project whose name contains it before any
/// project that matches only by path or loosely.
pub proof fn lemma_name_matches_rank_first(projects: Seq<RecentProject>, query: Seq<char>)
    requires
        normalized_query(query).len() > 0,
    ensures
        forall|i: int, j: int|
            0 <= i < j < spec_search(projects, query).len() && name_contains(
                #[trigger] spec_search(projects, query)[j],
                normalized_query(query),
            ) ==> name_contains(#[trigger] spec_search(projects, query)[i], normalized_query(query)),
{
    let q = normalized_query(query);
    let r = spec_search(projects, query);
    lemma_text_query_ranks_matches(projects, query);
    assert forall|i: int, j: int|
        0 <= i < j < r.len() && name_contains(#[trigger] r[j], q) implies name_contains(#[trigger] r[i], q) by {
        assert(spec_score(r[i], q) is Some);
        assert(spec_score(r[j], q) is Some);
        lemma_name_match_tiers(r[i], q);
        lemma_name_match_tiers(r[j], q);
    }
}

/// For a non-blank query, a name equal to the query scores strictly higher
/// than a different name that merely starts with it, whatever the details.
pub proof fn lemma_exact_name_outscores_prefix(
    exact_detail: Seq<char>,
    name: Seq<char>,
    detail: Seq<char>,
    q: Seq<char>,
)
    requires
        q.len() > 0,
        is_prefix(q, name),
        name != q,
    ensures
        spec_score_of(q, exact_detail, q) is Some,
        spec_score_of(name, detail, q) is Some,
        spec_score_of(q, exact_detail, q)->0 > spec_score_of(name, detail, q)->0,
{
}

/// For a non-blank query, how two matches compare: a name equal to the
/// query beats any other name; a name starting with it beats any name not
/// starting with it; a name containing it beats any match whose name does
/// not contain it; any contiguous match (in name or path) beats a match that
/// is only scattered; and a scattered match in the name beats one only in the
/// path. Two matches of the same kind score alike.
pub proof fn lemma_match_kinds_rank_in_order(
    n1: Seq<char>,
    d1: Seq<char>,
    n2: Seq<char>,
    d2: Seq<char>,
    q: Seq<char>,
)
    requires
        q.len() > 0,
        spec_score_of(n1, d1, q) is Some,
        spec_score_of(n2, d2, q) is Some,
    ensures
        ({
            let s1 = spec_score_of(n1, d1, q)->0;
            let s2 = spec_score_of(n2, d2, q)->0;
            &&& n1 == q && n2 != q ==> s1 > s2
            &&& is_prefix(q, n1) && !is_prefix(q, n2) ==> s1 > s2
            &&& contains_seq(n1, q) && !contains_seq(n2, q) ==> s1 > s2
            &&& (contains_seq(n1, q) || contains_seq(d1, q)) && !contains_seq(n2, q) && !contains_seq(
                d2,
                q,
            ) ==> s1 > s2
            &&& !contains_seq(n1, q) && !contains_seq(d1, q) && !contains_seq(n2, q)
                && !contains_seq(d2, q) && is_fuzzy_match(n1, q) && !is_fuzzy_match(n2, q) ==> s1 > s2
            &&& spec_base_score(n1, d1, q) == spec_base_score(n2, d2, q) ==> s1 == s2
        }),
{
    if is_prefix(q, n1) {
        assert(n1.subrange(0, 0 + q.len() as int) =~= q);
    }
    if is_prefix(q, n2) {
        assert(n2.subrange(0, 0 + q.len() as int) =~= q);
    }
    if n1 == q {
        assert(n1.subrange(0, q.len() as int) =~= q);
    }
    if n2 == q {
        assert(n2.subrange(0, q.len() as int) =~= q);
    }
}

/// A text query lists every project whose lower-cased name equals the query
/// before any project whose lower-cased name only starts with it.
pub proof fn lemma_exact_name_matches_rank_first(projects: Seq<RecentProject>, query: Seq<char>)
    requires
        normalized_query(query).len() > 0,
    ensures
        forall|i: int, j: int|
            0 <= i < j < spec_search(projects, query).len() && spec_to_lowercase(
                (#[trigger] spec_search(projects, query)[j]).name@,
            ) == normalized_query(query) ==> !(is_prefix(
                normalized_query(query),
                spec_to_lowercase((#[trigger] spec_search(projects, query)[i]).name@),
            ) && spec_to_lowercase(spec_search(projects, query)[i].name@) != normalized_query(query)),
{
    let q = normalized_query(query);
    let r = spec_search(projects, query);
    lemma_text_query_ranks_matches(projects, query);
    assert forall|i: int, j: int|
        0 <= i < j < r.len() && spec_to_lowercase((#[trigger] r[j]).name@) == q implies !(is_prefix(
        q,
        spec_to_lowercase((#[trigger] r[i]).name@),
    ) && spec_to_lowercase(r[i].name@) != q) by {
        let a = r[i];
        let b = r[j];
        assert(spec_score(a, q) is Some);
        assert(spec_score(b, q) is Some);
        if is_prefix(q, spec_to_lowercase(a.name@)) && spec_to_lowercase(a.name@) != q {
            lemma_exact_name_outscores_prefix(
                spec_to_lowercase(b.detail@),
                spec_to_lowercase(a.name@),
                spec_to_lowercase(a.detail@),
                q,
            );
            assert(spec_score(b, q) == spec_score_of(q, spec_to_lowercase(b.detail@), q));
            assert(spec_score(a, q)->0 < spec_score(b, q)->0);
        }
    }
}

/// After deduplication no two projects share an identity key.
pub proof fn lemma_deduplicate_unique_keys(projects: Seq<RecentProject>, policy: TargetIdentityPolicy)
    ensures
        forall|i: int, j: int|
            0 <= i < j < spec_deduplicate(projects, policy).len() ==> spec_target_key(
                (#[trigger] spec_deduplicate(projects, policy)[i]).target,
                policy,
            ) != spec_target_key((#[trigger] spec_deduplicate(projects, policy)[j]).target, policy),
{
    lemma_first_of_each_key_unique(sort_stable(projects, by_recent_index()), policy);
}

proof fn lemma_first_of_each_key_elements(s: Seq<RecentProject>, policy: TargetIdentityPolicy)
    ensures
        forall|i: int|
            0 <= i < first_of_each_key(s, policy).len() ==> exists|k: int|
                0 <= k < s.len() && s[k] == #[trigger] first_of_each_key(s, policy)[i],
    decreases s.len(),
{
    if s.len() > 0 {
        lemma_first_of_each_key_elements(s.drop_last(), policy);
        let prev = first_of_each_key(s.drop_last(), policy);
        let cur = first_of_each_key(s, policy);
        assert forall|i: int| 0 <= i < cur.len() implies exists|k: int|
            0 <= k < s.len() && s[k] == #[trigger] cur[i] by {
            if i < prev.len() {
                assert(cur[i] == prev[i]);
                let k = choose|k: int| 0 <= k < s.drop_last().len() && s.drop_last()[k] == prev[i];
                assert(s[k] == s.drop_last()[k]);
            } else {
                assert(cur[i] == s[s.len() - 1]);
            }
        }
    }
}

proof fn lemma_first_of_each_key_unique(s: Seq<RecentProject>, policy: TargetIdentityPolicy)
    ensures
        forall|i: int, j: int|
            0 <= i < j < first_of_each_key(s, policy).len() ==> spec_target_key(
                (#[trigger] first_of_each_key(s, policy)[i]).target,
                policy,
            ) != spec_target_key((#[trigger] first_of_each_key(s, policy)[j]).target, policy),
    decreases s.len(),
{
    if s.len() > 0 {
        let t = s.drop_last();
        lemma_first_of_each_key_unique(t, policy);
        lemma_first_of_each_key_elements(t, policy);
        let prev = first_of_each_key(t, policy);
        let cur = first_of_each_key(s, policy);
        assert forall|i: int, j: int| 0 <= i < j < cur.len() implies spec_target_key(
            (#[trigger] cur[i]).target,
            policy,
        ) != spec_target_key((#[trigger] cur[j]).target, policy) by {
            if j < prev.len() {
                assert(cur[i] == prev[i] && cur[j] == prev[j]);
            } else {
                assert(cur[j] == s.last());
                assert(!key_seen_before(s, s.len() - 1, policy));
                assert(cur[i] == prev[i]);
                let k = choose|k: int| 0 <= k < t.len() && t[k] == #[trigger] prev[i];
                assert(s[k] == t[k]);
                if spec_target_key(cur[i].target, policy) == spec_target_key(cur[j].target, policy) {
                    assert(spec_target_key(s[k].target, policy) == spec_target_key(
                        s[s.len() - 1].target,
                        policy,
                    ));
                }
            }
        }
    }
}

/// Whether recent indices never decrease along `s`.
pub open spec fn recency_ordered(s: Seq<RecentProject>) -> bool {
    forall|i: int, j: int| 0 <= i < j < s.len() ==> (#[trigger] s[i]).recent_index <= (#[trigger] s[j]).recent_index
}

proof fn lemma_seen_before_prefix(s: Seq<RecentProject>, k: int, policy: TargetIdentityPolicy)
    requires
        0 <= k < s.len() - 1,
    ensures
        key_seen_before(s.drop_last(), k, policy) == key_seen_before(s, k, policy),
{
    let t = s.drop_last();
    if key_seen_before(s, k, policy) {
        let j = choose|j: int| 0 <= j < k && #[trigger] spec_target_key(s[j].target, policy) == spec_target_key(s[k].target, policy);
        assert(t[j] == s[j] && t[k] == s[k]);
        assert(spec_target_key(t[j].target, policy) == spec_target_key(t[k].target, policy));
    }
    if key_seen_before(t, k, policy) {
        let j = choose|j: int| 0 <= j < k && #[trigger] spec_target_key(t[j].target, policy) == spec_target_key(t[k].target, policy);
        assert(t[j] == s[j] && t[k] == s[k]);
        assert(spec_target_key(s[j].target, policy) == spec_target_key(s[k].target, policy));
    }
}

proof fn lemma_first_positions(s: Seq<RecentProject>, policy: TargetIdentityPolicy)
    ensures
        forall|i: int|
            0 <= i < first_of_each_key(s, policy).len() ==> exists|k: int|
                0 <= k < s.len() && s[k] == #[trigger] first_of_each_key(s, policy)[i]
                    && !key_seen_before(s, k, policy),
    decreases s.len(),
{
    if s.len() > 0 {
        let t = s.drop_last();
        lemma_first_positions(t, policy);
        let prev = first_of_each_key(t, policy);
        let cur = first_of_each_key(s, policy);
        assert forall|i: int| 0 <= i < cur.len() implies exists|k: int|
            0 <= k < s.len() && s[k] == #[trigger] cur[i] && !key_seen_before(s, k, policy) by {
            if i < prev.len() {
                assert(cur[i] == prev[i]);
                let k = choose|k: int| 0 <= k < t.len() && t[k] == #[trigger] prev[i] && !key_seen_before(t, k, policy);
                lemma_seen_before_prefix(s, k, policy);
                assert(s[k] == t[k]);
            } else {
                assert(cur[i] == s[s.len() - 1]);
            }
        }
    }
}

proof fn lemma_first_covers(s: Seq<RecentProject>, policy: TargetIdentityPolicy)
    ensures
        forall|m: int|
            0 <= m < s.len() ==> exists|i: int|
                0 <= i < first_of_each_key(s, policy).len() && spec_target_key(
                    (#[trigger] first_of_each_key(s, policy)[i]).target,
                    policy,
                ) == spec_target_key((#[trigger] s[m]).target, policy),
    decreases s.len(),
{
    if s.len() > 0 {
        let t = s.drop_last();
        lemma_first_covers(t, policy);
        let prev = first_of_each_key(t, policy);
        let cur = first_of_each_key(s, policy);
        assert forall|m: int| 0 <= m < s.len() implies exists|i: int|
            0 <= i < cur.len() && spec_target_key((#[trigger] cur[i]).target, policy) == spec_target_key(
                (#[trigger] s[m]).target,
                policy,
            ) by {
            if m < s.len() - 1 {
                assert(s[m] == t[m]);
                let i = choose|i: int| 0 <= i < prev.len() && spec_target_key((#[trigger] prev[i]).target, policy)
                    == spec_target_key((#[trigger] t[m]).target, policy);
                assert(cur[i] == prev[i]);
            } else if key_seen_before(s, m, policy) {
                let j = choose|j: int| 0 <= j < m && #[trigger] spec_target_key(s[j].target, policy) == spec_target_key(s[m].target, policy);
                assert(s[j] == t[j]);
                let i = choose|i: int| 0 <= i < prev.len() && spec_target_key((#[trigger] prev[i]).target, policy)
                    == spec_target_key((#[trigger] t[j]).target, policy);
                assert(cur[i] == prev[i]);
            } else {
                assert(cur[cur.len() - 1] == s[m]);
            }
        }
    }
}

proof fn lemma_first_ordered(s: Seq<RecentProject>, policy: TargetIdentityPolicy)
    requires
        recency_ordered(s),
    ensures
        recency_ordered(first_of_each_key(s, policy)),
    decreases s.len(),
{
    if s.len() > 0 {
        let t = s.drop_last();
        assert(recency_ordered(t)) by {
            assert forall|i: int, j: int| 0 <= i < j < t.len() implies (#[trigger] t[i]).recent_index
                <= (#[trigger] t[j]).recent_index by {
                assert(t[i] == s[i] && t[j] == s[j]);
            }
        }
        lemma_first_ordered(t, policy);
        lemma_first_positions(t, policy);
        let prev = first_of_each_key(t, policy);
        let cur = first_of_each_key(s, policy);
        assert forall|i: int, j: int| 0 <= i < j < cur.len() implies (#[trigger] cur[i]).recent_index
            <= (#[trigger] cur[j]).recent_index by {
            if j < prev.len() {
                assert(cur[i] == prev[i] && cur[j] == prev[j]);
            } else {
                assert(cur[j] == s[s.len() - 1]);
                assert(cur[i] == prev[i]);
                let k = choose|k: int| 0 <= k < t.len() && t[k] == #[trigger] prev[i] && !key_seen_before(t, k, policy);
                assert(s[k] == t[k]);
                assert(s[k].recent_index <= s[s.len() - 1].recent_index);
            }
        }
    }
}

/// Deduplication keeps, of each identity among the projects, exactly the
/// most recent project (the lowest recent index; among equal indices, the
/// one given first), nothing that was not given, and lists the kept projects
/// from most to least recent.
pub proof fn lemma_deduplicate_keeps_newest(projects: Seq<RecentProject>, policy: TargetIdentityPolicy)
    ensures
        forall|i: int|
            0 <= i < spec_deduplicate(projects, policy).len() ==> projects.contains(
                #[trigger] spec_deduplicate(projects, policy)[i],
            ),
        forall|j: int|
            0 <= j < projects.len() ==> exists|i: int|
                0 <= i < spec_deduplicate(projects, policy).len() && spec_target_key(
                    (#[trigger] spec_deduplicate(projects, policy)[i]).target,
                    policy,
                ) == spec_target_key((#[trigger] projects[j]).target, policy),
        forall|i: int, j: int|
            0 <= i < spec_deduplicate(projects, policy).len() && 0 <= j < projects.len()
                && spec_target_key((#[trigger] spec_deduplicate(projects, policy)[i]).target, policy)
                == spec_target_key((#[trigger] projects[j]).target, policy) ==> spec_deduplicate(
                projects,
                policy,
            )[i].recent_index <= projects[j].recent_index,
        recency_ordered(spec_deduplicate(projects, policy)),
{
    let s = sort_stable(projects, by_recent_index());
    lemma_sorted_by_recency(projects);
    lemma_dedup_members(projects, policy);
    lemma_dedup_covers(projects, policy);
    lemma_dedup_newest(projects, policy);
    lemma_first_ordered(s, policy);
}

/// The stable sort by recent index is recency-ordered and has the same elements.
proof fn lemma_sorted_by_recency(projects: Seq<RecentProject>)
    ensures
        recency_ordered(sort_stable(projects, by_recent_index())),
        forall|x: RecentProject| #[trigger] projects.contains(x) <==> sort_stable(projects, by_recent_index()).contains(x),
{
    let lt = by_recent_index();
    let s = sort_stable(projects, lt);
    lemma_by_recent_index_order();
    lemma_sort_multiset(projects, lt);
    lemma_sort_sorted(projects, lt);
    assert forall|i: int, j: int| 0 <= i < j < s.len() implies (#[trigger] s[i]).recent_index
        <= (#[trigger] s[j]).recent_index by {
        assert(!lt(s[j], s[i]));
    }
    assert forall|x: RecentProject| #[trigger] projects.contains(x) <==> s.contains(x) by {
        assert(projects.to_multiset().count(x) == s.to_multiset().count(x));
    }
}

proof fn lemma_dedup_members(projects: Seq<RecentProject>, policy: TargetIdentityPolicy)
    ensures
        forall|i: int|
            0 <= i < spec_deduplicate(projects, policy).len() ==> projects.contains(
                #[trigger] spec_deduplicate(projects, policy)[i],
            ),
{
    let s = sort_stable(projects, by_recent_index());
    let d = spec_deduplicate(projects, policy);
    lemma_sorted_by_recency(projects);
    lemma_first_positions(s, policy);
    assert forall|i: int| 0 <= i < d.len() implies projects.contains(#[trigger] d[i]) by {
        let k = choose|k: int| 0 <= k < s.len() && s[k] == #[trigger] d[i] && !key_seen_before(s, k, policy);
        assert(s.contains(s[k]));
    }
}

proof fn lemma_dedup_covers(projects: Seq<RecentProject>, policy: TargetIdentityPolicy)
    ensures
        forall|j: int|
            0 <= j < projects.len() ==> exists|i: int|
                0 <= i < spec_deduplicate(projects, policy).len() && spec_target_key(
                    (#[trigger] spec_deduplicate(projects, policy)[i]).target,
                    policy,
                ) == spec_target_key((#[trigger] projects[j]).target, policy),
{
    let s = sort_stable(projects, by_recent_index());
    let d = spec_deduplicate(projects, policy);
    lemma_sorted_by_recency(projects);
    lemma_first_covers(s, policy);
    assert forall|j: int| 0 <= j < projects.len() implies exists|i: int|
        0 <= i < d.len() && spec_target_key((#[trigger] d[i]).target, policy) == spec_target_key(
            (#[trigger] projects[j]).target,
            policy,
        ) by {
        assert(projects.contains(projects[j]));
        let m = choose|m: int| 0 <= m < s.len() && s[m] == projects[j];
        let i = choose|i: int| 0 <= i < d.len() && spec_target_key((#[trigger] d[i]).target, policy)
            == spec_target_key((#[trigger] s[m]).target, policy);
    }
}

proof fn lemma_dedup_newest(projects: Seq<RecentProject>, policy: TargetIdentityPolicy)
    ensures
        forall|i: int, j: int|
            0 <= i < spec_deduplicate(projects, policy).len() && 0 <= j < projects.len()
                && spec_target_key((#[trigger] spec_deduplicate(projects, policy)[i]).target, policy)
                == spec_target_key((#[trigger] projects[j]).target, policy) ==> spec_deduplicate(
                projects,
                policy,
            )[i].recent_index <= projects[j].recent_index,
{
    let s = sort_stable(projects, by_recent_index());
    let d = spec_deduplicate(projects, policy);
    lemma_sorted_by_recency(projects);
    lemma_first_positions(s, policy);
    assert forall|i: int, j: int|
        0 <= i < d.len() && 0 <= j < projects.len() && spec_target_key((#[trigger] d[i]).target, policy)
            == spec_target_key((#[trigger] projects[j]).target, policy) implies d[i].recent_index
        <= projects[j].recent_index by {
        let k = choose|k: int| 0 <= k < s.len() && s[k] == #[trigger] d[i] && !key_seen_before(s, k, policy);
        assert(projects.contains(projects[j]));
        let m = choose|m: int| 0 <= m < s.len() && s[m] == projects[j];
        if m < k {
            assert(spec_target_key(s[m].target, policy) == spec_target_key(s[k].target, policy));
            assert(key_seen_before(s, k, policy));
        } else if m > k {
            assert(s[k].recent_index <= s[m].recent_index);
        }
    }
}

} // verus!
