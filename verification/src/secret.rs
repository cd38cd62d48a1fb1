//! Secrets: the secret subject, secret metadata and the issues found in secrets.
use vstd::prelude::*;
use crate::issues::{
    before_issue, expiry_issue, issue_views, kept_issues, notification_issues, notification_views, push_notification_issues,
    kept, severity_of, AllocationStatus, Issue, IssueView, Severity,
};
use crate::subjects::Dependant;

verus! {

/// The secret subject of the command line tool.
pub struct SecretSubject {}

impl SecretSubject {
    /// The name under which the subject is addressed.
    pub fn subject(&self) -> (s: &'static str)
        ensures
            s@ == "secret"@,
    {
        "secret"
    }

    /// Short help text of the subject.
    pub fn subject_command_about(&self) -> (s: String)
        ensures
            s@ == "Show, manage and list DSH secrets."@,
    {
        String::from_str("Show, manage and list DSH secrets.")
    }

    /// Long help text of the subject.
    pub fn subject_command_long_about(&self) -> (s: String)
        ensures
            s@ == "Show, manage and list secrets used by the services and apps on the DSH."@,
    {
        String::from_str("Show, manage and list secrets used by the services and apps on the DSH.")
    }

    /// Short alias of the subject.
    pub fn subject_command_alias(&self) -> (s: Option<&'static str>)
        ensures
            s is Some && s->0@ == "s"@,
    {
        Some("s")
    }
}

/// The validity period of one certificate in a secret, in seconds since the epoch.
pub struct CertificatePart {
    pub not_before: u64,
    pub not_after: u64,
}

/// What a secret value was found to contain.
#[allow(inconsistent_fields)]
pub enum SecretMetadata {
    /// One or more certificates.
    Certificate { parts: Vec<CertificatePart> },
    /// Nothing.
    Empty,
    /// The value could not be read.
    Error { message: String },
    /// The secret is misconfigured.
    Misconfiguration { message: String },
    /// The secret was not found.
    NotFound { message: Option<String> },
    /// A private or public key.
    Pki { labels: Vec<String>, private: bool, algorithm: Option<String> },
    /// A regular value.
    Regular,
    /// Settings.
    Settings,
}

/// A secret with its metadata.
pub struct SecretWithMetadata {
    /// Secret name.
    pub name: String,
    /// Secret id when it is a system secret.
    pub id: Option<String>,
    /// What the secret value contains.
    pub metadata: SecretMetadata,
    /// Allocation status, for secrets that have one.
    pub allocation_status: Option<AllocationStatus>,
    /// The apps, services and proxies that depend on the secret.
    pub dependants: Vec<Dependant>,
}

/// The expiry and validity issues of the certificate parts, part by part.
pub open spec fn parts_issues(parts: Seq<CertificatePart>, days: Option<u64>, now: i64) -> Seq<IssueView>
    decreases parts.len(),
{
    if parts.len() == 0 {
        Seq::empty()
    } else {
        let last = parts.last();
        let prev = parts_issues(parts.drop_last(), days, now);
        let with_expiry = match expiry_issue(last.not_after as i64, days, now) {
            Some(i) => prev.push(i),
            None => prev,
        };
        match before_issue(last.not_before as i64, now) {
            Some(i) => with_expiry.push(i),
            None => with_expiry,
        }
    }
}

/// The issues found in secret metadata.
pub open spec fn metadata_issues(metadata: SecretMetadata, days: Option<u64>, now: i64) -> Seq<IssueView> {
    match metadata {
        SecretMetadata::Certificate { parts } => parts_issues(parts@, days, now),
        SecretMetadata::Empty => seq![IssueView::Empty],
        SecretMetadata::Error { message } => seq![IssueView::IncorrectValue { explanation: message@ }],
        SecretMetadata::Misconfiguration { message } => seq![IssueView::Misconfiguration { explanation: message@ }],
        SecretMetadata::NotFound { message } => seq![IssueView::Misconfiguration {
            explanation: match message { Some(m) => m@, None => Seq::empty() },
        }],
        _ => Seq::empty(),
    }
}

/// All issues found in a secret: those in its metadata, then `NotUsed` for a
/// non-system secret that nothing depends on, then `NotProvisioned` and the
/// notification issues from its allocation status.
pub open spec fn secret_issue_list(secret: SecretWithMetadata, days: Option<u64>, now: i64) -> Seq<IssueView> {
    let from_metadata = metadata_issues(secret.metadata, days, now);
    let with_usage = if secret.id is None && secret.dependants@.len() == 0 {
        from_metadata.push(IssueView::NotUsed)
    } else {
        from_metadata
    };
    match secret.allocation_status {
        Some(status) => {
            let with_provisioning = if !status.provisioned {
                with_usage.push(IssueView::NotProvisioned)
            } else {
                with_usage
            };
            with_provisioning + notification_issues(notification_views(status.notifications@))
        },
        None => with_usage,
    }
}

/// Finds the issues in secret metadata, at moment `now` and warning for
/// certificates that expire within `days` days.
pub fn issues_from_secret_metadata(secret_metadata: &SecretMetadata, days: Option<u64>, now: i64) -> (issues: Vec<Issue>)
    ensures
        issue_views(issues@) == metadata_issues(*secret_metadata, days, now),
{
    let mut issues: Vec<Issue> = Vec::new();
    match secret_metadata {
        SecretMetadata::Certificate { parts } => {
            let mut i: usize = 0;
            assert(parts@.take(0) =~= Seq::<CertificatePart>::empty());
            assert(issue_views(issues@) =~= Seq::<IssueView>::empty());
            while i < parts.len()
                invariant
                    i <= parts.len(),
                    issue_views(issues@) == parts_issues(parts@.take(i as int), days, now),
                decreases parts.len() - i,
            {
                assert(parts@.take(i + 1).drop_last() =~= parts@.take(i as int));
                assert(parts@.take(i + 1).last() == parts@[i as int]);
                let ghost before = issue_views(issues@);
                let expired = Issue::timestamp_expired(parts[i].not_after as i64, days, now);
                match expired {
                    Some(issue) => {
                        issues.push(issue);
                        assert(issue_views(issues@) =~= before.push(issue_views(issues@).last()));
                    }
                    None => {}
                }
                let ghost middle = issue_views(issues@);
                let before_start = Issue::timestamp_before(parts[i].not_before as i64, now);
                match before_start {
                    Some(issue) => {
                        issues.push(issue);
                        assert(issue_views(issues@) =~= middle.push(issue_views(issues@).last()));
                    }
                    None => {}
                }
                i = i + 1;
            }
            assert(parts@.take(parts.len() as int) =~= parts@);
        }
        SecretMetadata::Empty => {
            issues.push(Issue::Empty);
            assert(issue_views(issues@) =~= seq![IssueView::Empty]);
        }
        SecretMetadata::Error { message } => {
            issues.push(Issue::IncorrectValue { explanation: message.clone() });
            assert(issue_views(issues@) =~= seq![IssueView::IncorrectValue { explanation: message@ }]);
        }
        SecretMetadata::Misconfiguration { message } => {
            issues.push(Issue::Misconfiguration { explanation: message.clone() });
            assert(issue_views(issues@) =~= seq![IssueView::Misconfiguration { explanation: message@ }]);
        }
        SecretMetadata::NotFound { message } => {
            let explanation = match message {
                Some(m) => m.clone(),
                None => String::new(),
            };
            issues.push(Issue::Misconfiguration { explanation });
            assert(issue_views(issues@) =~= metadata_issues(*secret_metadata, days, now));
        }
        _ => {
            assert(issue_views(issues@) =~= Seq::<IssueView>::empty());
        }
    }
    issues
}

/// Checks a secret for issues: `Some` with the issues found (at least one),
/// or `None` when there are none.
pub fn has_issues(secret: &SecretWithMetadata, days: Option<u64>, now: i64) -> (res: Option<Vec<Issue>>)
    ensures
        res is None <==> secret_issue_list(*secret, days, now).len() == 0,
        res is Some ==> issue_views(res->0@) == secret_issue_list(*secret, days, now),
{
    let mut issues = issues_from_secret_metadata(&secret.metadata, days, now);
    if secret.id.is_none() && secret.dependants.len() == 0 {
        let ghost before = issue_views(issues@);
        issues.push(Issue::NotUsed);
        assert(issue_views(issues@) =~= before.push(IssueView::NotUsed));
    }
    match &secret.allocation_status {
        Some(allocation_status) => {
            if !allocation_status.provisioned {
                let ghost before = issue_views(issues@);
                issues.push(Issue::NotProvisioned);
                assert(issue_views(issues@) =~= before.push(IssueView::NotProvisioned));
            }
            push_notification_issues(&mut issues, &allocation_status.notifications);
        }
        None => {}
    }
    if issues.len() == 0 {
        assert(issue_views(issues@).len() == 0);
        None
    } else {
        Some(issues)
    }
}

/// The rows listed for the issues of secrets: for each secret in order, the
/// issues that are kept, each with the name of the secret.
pub open spec fn secret_issue_rows(secrets: Seq<SecretWithMetadata>, days: Option<u64>, only_errors: bool, now: i64) -> Seq<(Seq<char>, IssueView)>
    decreases secrets.len(),
{
    if secrets.len() == 0 {
        Seq::empty()
    } else {
        let s = secrets.last();
        secret_issue_rows(secrets.drop_last(), days, only_errors, now)
            + kept_issues(secret_issue_list(s, days, now), only_errors).map_values(|i: IssueView| (s.name@, i))
    }
}

/// The views of rows of secret names and issues.
pub open spec fn issue_row_views(rows: Seq<(String, Issue)>) -> Seq<(Seq<char>, IssueView)> {
    rows.map_values(|r: (String, Issue)| (r.0@, r.1@))
}

/// Lists the issues of secrets, one row per issue, at moment `now` and
/// warning for certificates that expire within `days` days; warnings are
/// left out when only errors are asked for.
pub fn list_secret_issues(secrets: &Vec<SecretWithMetadata>, days: Option<u64>, only_errors: bool, now: i64) -> (rows: Vec<(String, Issue)>)
    ensures
        issue_row_views(rows@) == secret_issue_rows(secrets@, days, only_errors, now),
{
    let mut rows: Vec<(String, Issue)> = Vec::new();
    let mut i: usize = 0;
    assert(secrets@.take(0) =~= Seq::<SecretWithMetadata>::empty());
    assert(issue_row_views(rows@) =~= Seq::<(Seq<char>, IssueView)>::empty());
    while i < secrets.len()
        invariant
            i <= secrets.len(),
            issue_row_views(rows@) == secret_issue_rows(secrets@.take(i as int), days, only_errors, now),
        decreases secrets.len() - i,
    {
        assert(secrets@.take(i + 1).drop_last() =~= secrets@.take(i as int));
        assert(secrets@.take(i + 1).last() == secrets@[i as int]);
        let ghost s = secrets@[i as int];
        let ghost base = issue_row_views(rows@);
        match has_issues(&secrets[i], days, now) {
            Some(issues) => {
                let ghost all = issue_views(issues@);
                let mut k: usize = 0;
                assert(all.take(0) =~= Seq::<IssueView>::empty());
                assert(base + kept_issues(all.take(0), only_errors).map_values(|j: IssueView| (s.name@, j)) =~= base);
                while k < issues.len()
                    invariant
                        k <= issues.len(),
                        i < secrets.len(),
                        s == secrets@[i as int],
                        all == issue_views(issues@),
                        all == secret_issue_list(s, days, now),
                        issue_row_views(rows@) == base + kept_issues(all.take(k as int), only_errors).map_values(|j: IssueView| (s.name@, j)),
                    decreases issues.len() - k,
                {
                    assert(all.take(k + 1).drop_last() =~= all.take(k as int));
                    assert(all.take(k + 1).last() == issues@[k as int]@);
                    let severity = issues[k].severity();
                    let is_kept = !only_errors || severity == Severity::Error;
                    if is_kept {
                        let ghost before = issue_row_views(rows@);
                        rows.push((secrets[i].name.clone(), issues[k].clone()));
                        assert(issue_row_views(rows@) =~= before.push((s.name@, issues@[k as int]@)));
                        assert(kept_issues(all.take(k + 1), only_errors).map_values(|j: IssueView| (s.name@, j))
                            =~= kept_issues(all.take(k as int), only_errors).map_values(|j: IssueView| (s.name@, j)).push((s.name@, issues@[k as int]@)));
                    } else {
                        assert(kept_issues(all.take(k + 1), only_errors) == kept_issues(all.take(k as int), only_errors));
                    }
                    k = k + 1;
                }
                assert(all.take(issues.len() as int) =~= all);
            }
            None => {
                assert(kept_issues(secret_issue_list(s, days, now), only_errors) =~= Seq::<IssueView>::empty());
                assert(base + Seq::<IssueView>::empty().map_values(|j: IssueView| (s.name@, j)) =~= base);
            }
        }
        i = i + 1;
    }
    assert(secrets@.take(secrets.len() as int) =~= secrets@);
    rows
}

/// Every issue that the filter keeps passes it.
proof fn lemma_kept_issues_pass(issues: Seq<IssueView>, only_errors: bool)
    ensures
        forall|i: int| 0 <= i < kept_issues(issues, only_errors).len() ==> kept(only_errors, #[trigger] kept_issues(issues, only_errors)[i]),
    decreases issues.len(),
{
    if issues.len() > 0 {
        let front = issues.drop_last();
        lemma_kept_issues_pass(front, only_errors);
        let rest = kept_issues(front, only_errors);
        assert forall|i: int| 0 <= i < kept_issues(issues, only_errors).len() implies
            kept(only_errors, #[trigger] kept_issues(issues, only_errors)[i]) by {
            if i < rest.len() {
                assert(kept_issues(issues, only_errors)[i] == rest[i]);
            }
        }
    }
}

/// When only errors are asked for, every listed issue of a secret is an error.
pub proof fn lemma_only_error_rows(secrets: Seq<SecretWithMetadata>, days: Option<u64>, now: i64)
    ensures
        forall|i: int| 0 <= i < secret_issue_rows(secrets, days, true, now).len() ==>
            severity_of((#[trigger] secret_issue_rows(secrets, days, true, now)[i]).1) == Severity::Error,
    decreases secrets.len(),
{
    if secrets.len() > 0 {
        let s = secrets.last();
        let front = secrets.drop_last();
        lemma_only_error_rows(front, days, now);
        let kept_list = kept_issues(secret_issue_list(s, days, now), true);
        lemma_kept_issues_pass(secret_issue_list(s, days, now), true);
        let rest = secret_issue_rows(front, days, true, now);
        assert forall|i: int| 0 <= i < secret_issue_rows(secrets, days, true, now).len() implies
            severity_of((#[trigger] secret_issue_rows(secrets, days, true, now)[i]).1) == Severity::Error by {
            if i >= rest.len() {
                assert(kept(true, kept_list[i - rest.len()]));
            }
        }
    }
}

/// Metadata that is empty, unreadable, misconfigured or not found always
/// gives exactly one issue, an error, carrying the message where there is
/// one; keys, regular values and settings give none.
pub proof fn lemma_metadata_issues(metadata: SecretMetadata, days: Option<u64>, now: i64)
    ensures
        (metadata is Empty || metadata is Error || metadata is Misconfiguration || metadata is NotFound) ==>
            metadata_issues(metadata, days, now).len() == 1 && severity_of(metadata_issues(metadata, days, now)[0]) == Severity::Error,
        metadata is Empty ==> metadata_issues(metadata, days, now) == seq![IssueView::Empty],
        (metadata matches SecretMetadata::Error { message }
            && metadata_issues(metadata, days, now) == seq![IssueView::IncorrectValue { explanation: message@ }])
            || !(metadata is Error),
        (metadata matches SecretMetadata::Misconfiguration { message }
            && metadata_issues(metadata, days, now) == seq![IssueView::Misconfiguration { explanation: message@ }])
            || !(metadata is Misconfiguration),
        (metadata matches SecretMetadata::NotFound { message }
            && metadata_issues(metadata, days, now) == seq![IssueView::Misconfiguration {
                explanation: match message { Some(m) => m@, None => Seq::empty() },
            }])
            || !(metadata is NotFound),
        (metadata is Pki || metadata is Regular || metadata is Settings) ==> metadata_issues(metadata, days, now).len() == 0,
{
}

/// The issues of a secret start with those of its metadata; a non-system
/// secret that nothing depends on is reported as not used, and nothing
/// else adds a not-used issue.
pub proof fn lemma_secret_issue_list(secret: SecretWithMetadata, days: Option<u64>, now: i64)
    ensures
        secret_issue_list(secret, days, now).len() >= metadata_issues(secret.metadata, days, now).len(),
        secret_issue_list(secret, days, now).take(metadata_issues(secret.metadata, days, now).len() as int)
            == metadata_issues(secret.metadata, days, now),
        secret.id is None && secret.dependants@.len() == 0 ==>
            secret_issue_list(secret, days, now)[metadata_issues(secret.metadata, days, now).len() as int] == IssueView::NotUsed,
        secret.allocation_status is None ==> secret_issue_list(secret, days, now).len()
            == metadata_issues(secret.metadata, days, now).len() + if secret.id is None && secret.dependants@.len() == 0 { 1int } else { 0int },
{
    let m = metadata_issues(secret.metadata, days, now);
    let with_usage = if secret.id is None && secret.dependants@.len() == 0 { m.push(IssueView::NotUsed) } else { m };
    assert(with_usage.take(m.len() as int) =~= m);
    match secret.allocation_status {
        Some(status) => {
            let with_provisioning = if !status.provisioned { with_usage.push(IssueView::NotProvisioned) } else { with_usage };
            let all = with_provisioning + notification_issues(notification_views(status.notifications@));
            assert(all.take(m.len() as int) =~= m);
            if secret.id is None && secret.dependants@.len() == 0 {
                assert(all[m.len() as int] == with_usage[m.len() as int]);
            }
        },
        None => {},
    }
}

} // verus!
