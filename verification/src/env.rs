//! Environment variables of services: which variables match a query, and
//! how the matches are listed.
use vstd::prelude::*;
use crate::appcatalog::{find_captures, regex_captures};
use crate::text::{decimal, decimal_string, lex_le, str_equal, str_less_eq};

verus! {

/// A service with the environment variables whose value matched a query,
/// each with the value as it is shown.
pub struct ServiceEnvMatches {
    pub service_id: String,
    pub instances: u64,
    pub matches: Vec<(String, String)>,
}

/// A matching environment variable of a service.
pub struct EnvMatch {
    pub service_id: String,
    pub instances: u64,
    pub env_var: String,
    pub value: String,
}

impl View for EnvMatch {
    type V = (Seq<char>, u64, Seq<char>, Seq<char>);

    open spec fn view(&self) -> (Seq<char>, u64, Seq<char>, Seq<char>) {
        (self.service_id@, self.instances, self.env_var@, self.value@)
    }
}

/// Views of a list of matches.
pub open spec fn match_views(v: Seq<EnvMatch>) -> Seq<(Seq<char>, u64, Seq<char>, Seq<char>)> {
    v.map_values(|m: EnvMatch| m@)
}

/// Whether a service is searched: it is started (`include_started`) or
/// stopped (`include_stopped`).
pub open spec fn searched(instances: u64, include_started: bool, include_stopped: bool) -> bool {
    (instances > 0 && include_started) || (instances == 0 && include_stopped)
}

/// The matches of one service.
pub open spec fn service_matches(service_id: Seq<char>, instances: u64, matches: Seq<(String, String)>) -> Seq<(Seq<char>, u64, Seq<char>, Seq<char>)> {
    matches.map_values(|m: (String, String)| (service_id, instances, m.0@, m.1@))
}

/// The matches of the searched services, in the order given.
pub open spec fn listed_matches(services: Seq<ServiceEnvMatches>, include_started: bool, include_stopped: bool) -> Seq<(Seq<char>, u64, Seq<char>, Seq<char>)>
    decreases services.len(),
{
    if services.len() == 0 {
        Seq::empty()
    } else {
        let s = services.last();
        listed_matches(services.drop_last(), include_started, include_stopped)
            + if searched(s.instances, include_started, include_stopped) {
                service_matches(s.service_id@, s.instances, s.matches@)
            } else {
                Seq::empty()
            }
    }
}

/// Order by service identifier, then by variable name.
pub open spec fn match_le(a: (Seq<char>, u64, Seq<char>, Seq<char>), b: (Seq<char>, u64, Seq<char>, Seq<char>)) -> bool {
    if a.0 == b.0 {
        lex_le(a.2, b.2)
    } else {
        lex_le(a.0, b.0)
    }
}

/// The order on matches is total.
proof fn lemma_match_total(a: (Seq<char>, u64, Seq<char>, Seq<char>), b: (Seq<char>, u64, Seq<char>, Seq<char>))
    ensures
        match_le(a, b) || match_le(b, a),
{
    crate::text::lemma_lex_total(a.0, b.0);
    crate::text::lemma_lex_total(a.2, b.2);
}

/// The order on matches is transitive.
proof fn lemma_match_transitive(
    a: (Seq<char>, u64, Seq<char>, Seq<char>),
    b: (Seq<char>, u64, Seq<char>, Seq<char>),
    c: (Seq<char>, u64, Seq<char>, Seq<char>),
)
    requires
        match_le(a, b),
        match_le(b, c),
    ensures
        match_le(a, c),
{
    if a.0 == b.0 && b.0 == c.0 {
        crate::text::lemma_lex_transitive(a.2, b.2, c.2);
    } else if a.0 != b.0 && b.0 != c.0 {
        crate::text::lemma_lex_transitive(a.0, b.0, c.0);
        if a.0 == c.0 {
            crate::text::lemma_lex_antisymmetric(a.0, b.0);
        }
    }
}

/// Whether the matches are ordered by service identifier, then by variable name.
pub open spec fn sorted_matches(m: Seq<(Seq<char>, u64, Seq<char>, Seq<char>)>) -> bool {
    forall|i: int, j: int| 0 <= i < j < m.len() ==> match_le(#[trigger] m[i], #[trigger] m[j])
}

/// Whether match `a` comes before or equals match `b`.
fn match_less_eq(a: &EnvMatch, b: &EnvMatch) -> (res: bool)
    ensures
        res == match_le(a@, b@),
{
    if str_equal(a.service_id.as_str(), b.service_id.as_str()) {
        str_less_eq(a.env_var.as_str(), b.env_var.as_str())
    } else {
        str_less_eq(a.service_id.as_str(), b.service_id.as_str())
    }
}

/// Inserts `m` after the matches that come before or equal it.
fn insert_match(matches: &mut Vec<EnvMatch>, m: EnvMatch)
    requires
        sorted_matches(match_views(old(matches)@)),
    ensures
        sorted_matches(match_views(final(matches)@)),
        match_views(final(matches)@).to_multiset() == match_views(old(matches)@).to_multiset().insert(m@),
{
    broadcast use vstd::seq_lib::group_to_multiset_ensures;
    let ghost before = match_views(matches@);
    let ghost mv = m@;
    let mut p: usize = 0;
    while p < matches.len()
        invariant
            p <= matches.len(),
            before == match_views(matches@),
            mv == m@,
            forall|i: int| 0 <= i < p ==> match_le((#[trigger] matches@[i])@, m@),
        ensures
            p <= matches.len(),
            before == match_views(matches@),
            forall|i: int| 0 <= i < p ==> match_le((#[trigger] matches@[i])@, m@),
            p < matches.len() ==> !match_le(matches@[p as int]@, m@),
        decreases matches.len() - p,
    {
        if !match_less_eq(&matches[p], &m) {
            break;
        }
        p = p + 1;
    }
    matches.insert(p, m);
    let ghost after = match_views(matches@);
    assert(after =~= before.insert(p as int, mv));
    assert forall|a: int, b: int| 0 <= a < b < after.len() implies match_le(#[trigger] after[a], #[trigger] after[b]) by {
        if a == p {
            assert(after[b] == before[b - 1]);
            lemma_match_total(before[p as int], mv);
            if b - 1 > p {
                lemma_match_transitive(mv, before[p as int], before[b - 1]);
            }
        } else if b == p {
            assert(after[a] == before[a]);
            assert(before[a] == old(matches)@[a]@);
        } else {
            let oa = if a < p { a } else { a - 1 };
            let ob = if b < p { b } else { b - 1 };
            assert(after[a] == before[oa] && after[b] == before[ob]);
        }
    }
}

/// The matching environment variables of the services that are started or
/// stopped as asked, ordered by service identifier and then by variable name.
pub fn env_matches(services: &Vec<ServiceEnvMatches>, include_started: bool, include_stopped: bool) -> (res: Vec<EnvMatch>)
    ensures
        sorted_matches(match_views(res@)),
        match_views(res@).to_multiset() == listed_matches(services@, include_started, include_stopped).to_multiset(),
{
    broadcast use vstd::seq_lib::group_to_multiset_ensures;
    let mut res: Vec<EnvMatch> = Vec::new();
    let mut i: usize = 0;
    assert(match_views(res@) =~= Seq::<(Seq<char>, u64, Seq<char>, Seq<char>)>::empty());
    assert(services@.take(0) =~= Seq::<ServiceEnvMatches>::empty());
    while i < services.len()
        invariant
            i <= services.len(),
            sorted_matches(match_views(res@)),
            match_views(res@).to_multiset() == listed_matches(services@.take(i as int), include_started, include_stopped).to_multiset(),
        decreases services.len() - i,
    {
        let s = &services[i];
        assert(services@.take(i + 1).drop_last() =~= services@.take(i as int));
        assert(services@.take(i + 1).last() == *s);
        let ghost done = listed_matches(services@.take(i as int), include_started, include_stopped);
        if (s.instances > 0 && include_started) || (s.instances == 0 && include_stopped) {
            let ghost all = service_matches(s.service_id@, s.instances, s.matches@);
            let mut k: usize = 0;
            assert(all.take(0) =~= Seq::<(Seq<char>, u64, Seq<char>, Seq<char>)>::empty());
            assert(done + all.take(0) =~= done);
            while k < s.matches.len()
                invariant
                    k <= s.matches.len(),
                    all == service_matches(s.service_id@, s.instances, s.matches@),
                    sorted_matches(match_views(res@)),
                    match_views(res@).to_multiset() == (done + all.take(k as int)).to_multiset(),
                decreases s.matches.len() - k,
            {
                let m = EnvMatch {
                    service_id: s.service_id.clone(),
                    instances: s.instances,
                    env_var: s.matches[k].0.clone(),
                    value: s.matches[k].1.clone(),
                };
                assert(m@ == all[k as int]);
                insert_match(&mut res, m);
                assert(done + all.take(k + 1) =~= (done + all.take(k as int)).push(all[k as int]));
                proof {
                    vstd::seq_lib::to_multiset_build(done + all.take(k as int), all[k as int]);
                }
                k = k + 1;
            }
            assert(all.take(s.matches.len() as int) =~= all);
            assert(listed_matches(services@.take(i + 1), include_started, include_stopped) == done + all);
        } else {
            assert(listed_matches(services@.take(i + 1), include_started, include_stopped) =~= done);
        }
        i = i + 1;
    }
    assert(services@.take(services.len() as int) =~= services@);
    res
}

/// What texts are searched for: exactly a given text, or the texts in which
/// a regular expression matches somewhere.
pub enum TextQuery {
    Exact(String),
    Pattern(String),
}

/// Whether a text matches the query.
pub open spec fn value_matches_spec(query: TextQuery, value: Seq<char>) -> bool {
    match query {
        TextQuery::Exact(e) => e@ == value,
        TextQuery::Pattern(p) => regex_captures(p@, value) is Some,
    }
}

/// Whether a text matches the query; a pattern that is not a valid regular
/// expression matches nothing.
pub fn value_matches(query: &TextQuery, value: &str) -> (b: bool)
    ensures
        b == value_matches_spec(*query, value@),
{
    match query {
        TextQuery::Exact(e) => str_equal(e.as_str(), value),
        TextQuery::Pattern(p) => find_captures(p.as_str(), value).is_some(),
    }
}

/// A service with its number of instances and its environment variables.
pub struct ServiceEnv {
    pub service_id: String,
    pub instances: u64,
    pub env: Vec<(String, String)>,
}

/// The variables whose value matches the query, in the order given.
pub open spec fn matching_env(query: TextQuery, env: Seq<(String, String)>) -> Seq<(String, String)>
    decreases env.len(),
{
    if env.len() == 0 {
        Seq::empty()
    } else {
        let rest = matching_env(query, env.drop_last());
        if value_matches_spec(query, env.last().1@) {
            rest.push(env.last())
        } else {
            rest
        }
    }
}

/// The matches of the searched services, in the order given.
pub open spec fn found_matches(services: Seq<ServiceEnv>, query: TextQuery, include_started: bool, include_stopped: bool) -> Seq<(Seq<char>, u64, Seq<char>, Seq<char>)>
    decreases services.len(),
{
    if services.len() == 0 {
        Seq::empty()
    } else {
        let s = services.last();
        found_matches(services.drop_last(), query, include_started, include_stopped)
            + if searched(s.instances, include_started, include_stopped) {
                service_matches(s.service_id@, s.instances, matching_env(query, s.env@))
            } else {
                Seq::empty()
            }
    }
}

/// The variables of an environment whose value matches the query.
fn matching_variables(query: &TextQuery, env: &Vec<(String, String)>) -> (m: Vec<(String, String)>)
    ensures
        m@ == matching_env(*query, env@),
{
    let mut m: Vec<(String, String)> = Vec::new();
    let mut i: usize = 0;
    assert(env@.take(0) =~= Seq::<(String, String)>::empty());
    while i < env.len()
        invariant
            i <= env.len(),
            m@ == matching_env(*query, env@.take(i as int)),
        decreases env.len() - i,
    {
        assert(env@.take(i + 1).drop_last() =~= env@.take(i as int));
        assert(env@.take(i + 1).last() == env@[i as int]);
        if value_matches(query, env[i].1.as_str()) {
            let key = env[i].0.clone();
            let value = env[i].1.clone();
            m.push((key, value));
        }
        i = i + 1;
    }
    assert(env@.take(env.len() as int) =~= env@);
    m
}

/// Finds the environment variables whose value matches the query in the
/// services that are started or stopped as asked, ordered by service
/// identifier and then by variable name.
pub fn find_env_matches(services: &Vec<ServiceEnv>, query: &TextQuery, include_started: bool, include_stopped: bool) -> (res: Vec<EnvMatch>)
    ensures
        sorted_matches(match_views(res@)),
        match_views(res@).to_multiset() == found_matches(services@, *query, include_started, include_stopped).to_multiset(),
{
    let mut found: Vec<ServiceEnvMatches> = Vec::new();
    let mut i: usize = 0;
    assert(services@.take(0) =~= Seq::<ServiceEnv>::empty());
    assert(found@ =~= Seq::<ServiceEnvMatches>::empty());
    while i < services.len()
        invariant
            i <= services.len(),
            found@.len() == i,
            listed_matches(found@, include_started, include_stopped)
                == found_matches(services@.take(i as int), *query, include_started, include_stopped),
        decreases services.len() - i,
    {
        let s = &services[i];
        assert(services@.take(i + 1).drop_last() =~= services@.take(i as int));
        assert(services@.take(i + 1).last() == *s);
        let matches = matching_variables(query, &s.env);
        let ghost before = found@;
        found.push(ServiceEnvMatches { service_id: s.service_id.clone(), instances: s.instances, matches });
        assert(found@.drop_last() =~= before);
        i = i + 1;
    }
    assert(services@.take(services.len() as int) =~= services@);
    env_matches(&found, include_started, include_stopped)
}

/// An exact query matches exactly its own text; a pattern matches exactly
/// the texts in which the regular expression finds a match.
pub proof fn lemma_value_matches(text: String, value: Seq<char>)
    ensures
        value_matches_spec(TextQuery::Exact(text), value) <==> text@ == value,
        value_matches_spec(TextQuery::Pattern(text), value) <==> regex_captures(text@, value) is Some,
{
}

/// The variables found are exactly the matching ones: each kept variable
/// is one of the environment and matches, and each matching variable of
/// the environment is kept.
pub proof fn lemma_matching_env(query: TextQuery, env: Seq<(String, String)>)
    ensures
        matching_env(query, env).len() <= env.len(),
        forall|k: int| 0 <= k < matching_env(query, env).len() ==>
            env.contains(#[trigger] matching_env(query, env)[k]) && value_matches_spec(query, matching_env(query, env)[k].1@),
        forall|i: int| 0 <= i < env.len() && value_matches_spec(query, (#[trigger] env[i]).1@) ==>
            matching_env(query, env).contains(env[i]),
    decreases env.len(),
{
    if env.len() > 0 {
        let front = env.drop_last();
        lemma_matching_env(query, front);
        let rest = matching_env(query, front);
        let all = matching_env(query, env);
        assert forall|k: int| 0 <= k < all.len() implies
            env.contains(#[trigger] all[k]) && value_matches_spec(query, all[k].1@) by {
            if k < rest.len() {
                assert(all[k] == rest[k]);
                assert(front.contains(rest[k]));
                let j = choose|j: int| 0 <= j < front.len() && front[j] == rest[k];
                assert(env[j] == front[j]);
            } else {
                assert(all[k] == env.last());
                assert(env[env.len() - 1] == env.last());
            }
        }
        assert forall|i: int| 0 <= i < env.len() && value_matches_spec(query, (#[trigger] env[i]).1@) implies all.contains(env[i]) by {
            if i < front.len() {
                assert(front[i] == env[i]);
                assert(rest.contains(front[i]));
                let k = choose|k: int| 0 <= k < rest.len() && rest[k] == front[i];
                assert(all[k] == rest[k]);
            } else {
                assert(env[i] == env.last());
                assert(all[all.len() - 1] == env.last());
            }
        }
    }
}

/// Labels under which environment variables found in services are shown.
#[derive(Debug, PartialEq, Eq, Structural, Clone, Copy)]
pub enum ServiceEnvLabel {
    EnvVar,
    Instances,
    Service,
    Value,
}

impl ServiceEnvLabel {
    /// The text under which the label is shown.
    pub open spec fn text(self) -> Seq<char> {
        match self {
            ServiceEnvLabel::EnvVar => "environment variable"@,
            ServiceEnvLabel::Instances => "#"@,
            ServiceEnvLabel::Service => "service id"@,
            ServiceEnvLabel::Value => "value"@,
        }
    }

    /// The text under which the label is shown.
    pub fn as_str(&self) -> (s: &'static str)
        ensures
            s@ == self.text(),
    {
        match self {
            ServiceEnvLabel::EnvVar => "environment variable",
            ServiceEnvLabel::Instances => "#",
            ServiceEnvLabel::Service => "service id",
            ServiceEnvLabel::Value => "value",
        }
    }

    /// Whether the label shows the identifier of the subject.
    pub fn is_target_label(&self) -> (b: bool)
        ensures
            b == (*self == ServiceEnvLabel::Service),
    {
        match self {
            ServiceEnvLabel::Service => true,
            _ => false,
        }
    }
}


/// The text shown under `label` for a match.
pub open spec fn env_match_text(m: (Seq<char>, u64, Seq<char>, Seq<char>), label: ServiceEnvLabel) -> Seq<char> {
    match label {
        ServiceEnvLabel::EnvVar => m.2,
        ServiceEnvLabel::Instances => decimal(m.1 as nat),
        ServiceEnvLabel::Service => m.0,
        ServiceEnvLabel::Value => m.3,
    }
}

impl EnvMatch {
    /// The text shown under `label` for this match.
    pub fn value(&self, label: ServiceEnvLabel) -> (s: String)
        ensures
            s@ == env_match_text(self@, label),
    {
        match label {
            ServiceEnvLabel::EnvVar => self.env_var.clone(),
            ServiceEnvLabel::Instances => decimal_string(self.instances),
            ServiceEnvLabel::Service => self.service_id.clone(),
            ServiceEnvLabel::Value => self.value.clone(),
        }
    }
}

} // verus!
