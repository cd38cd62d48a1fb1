//! Allocation status, notifications and the issues found in subjects.
//!
//! Moments are seconds since the epoch. The checks that depend on the current
//! moment take it as an argument, so that they are a function of their inputs.
use vstd::prelude::*;

verus! {

/// A notification from the platform about a resource: either about its
/// creation or update, or about its removal.
#[derive(Debug, PartialEq)]
pub struct Notification {
    /// Whether the notification is about the removal of the resource.
    pub remove: bool,
    /// The notification as it is displayed.
    pub description: String,
}

/// View of a [`Notification`].
pub struct NotificationView {
    pub remove: bool,
    pub description: Seq<char>,
}

impl View for Notification {
    type V = NotificationView;

    open spec fn view(&self) -> NotificationView {
        NotificationView { remove: self.remove, description: self.description@ }
    }
}

impl Clone for Notification {
    fn clone(&self) -> (res: Self)
        ensures
            res@ == self@,
    {
        Notification { remove: self.remove, description: self.description.clone() }
    }
}

/// Views of a list of notifications.
pub open spec fn notification_views(v: Seq<Notification>) -> Seq<NotificationView> {
    v.map_values(|n: Notification| n@)
}

/// The allocation status of a resource on the platform.
pub struct AllocationStatus {
    /// The resource that this resource was derived from, if any.
    pub derived_from: Option<String>,
    /// Notifications about the resource.
    pub notifications: Vec<Notification>,
    /// Whether the resource is provisioned.
    pub provisioned: bool,
}

/// The severity of an issue.
#[derive(Debug, PartialEq, Eq, Structural, Clone, Copy)]
pub enum Severity {
    Error,
    Warning,
}

/// An issue found in a subject.
#[derive(Debug, PartialEq)]
pub enum Issue {
    /// A notification about the creation or update of the resource.
    CreationUpdateNotification { notification: Notification },
    /// The value is empty.
    Empty,
    /// The moment `not_after` has passed.
    Expired { not_after: i64 },
    /// The moment `not_after` falls within the next `days` days.
    ExpiresSoon { not_after: i64, days: u64 },
    /// The moment `not_before` has not been reached yet.
    Before { not_before: i64 },
    /// The value is not correct.
    IncorrectValue { explanation: String },
    /// The subject is not configured correctly.
    Misconfiguration { explanation: String },
    /// A referred resource does not exist.
    NotFound,
    /// The resource is not provisioned.
    NotProvisioned,
    /// The resource is not used.
    NotUsed,
    /// A notification about the removal of the resource.
    RemovalNotification { notification: Notification },
    /// Something unexpected happened while looking for issues.
    Unexpected { message: String },
}

/// View of an [`Issue`].
pub enum IssueView {
    CreationUpdateNotification { notification: NotificationView },
    Empty,
    Expired { not_after: i64 },
    ExpiresSoon { not_after: i64, days: u64 },
    Before { not_before: i64 },
    IncorrectValue { explanation: Seq<char> },
    Misconfiguration { explanation: Seq<char> },
    NotFound,
    NotProvisioned,
    NotUsed,
    RemovalNotification { notification: NotificationView },
    Unexpected { message: Seq<char> },
}

impl View for Issue {
    type V = IssueView;

    open spec fn view(&self) -> IssueView {
        match self {
            Issue::CreationUpdateNotification { notification } => IssueView::CreationUpdateNotification { notification: notification@ },
            Issue::Empty => IssueView::Empty,
            Issue::Expired { not_after } => IssueView::Expired { not_after: *not_after },
            Issue::ExpiresSoon { not_after, days } => IssueView::ExpiresSoon { not_after: *not_after, days: *days },
            Issue::Before { not_before } => IssueView::Before { not_before: *not_before },
            Issue::IncorrectValue { explanation } => IssueView::IncorrectValue { explanation: explanation@ },
            Issue::Misconfiguration { explanation } => IssueView::Misconfiguration { explanation: explanation@ },
            Issue::NotFound => IssueView::NotFound,
            Issue::NotProvisioned => IssueView::NotProvisioned,
            Issue::NotUsed => IssueView::NotUsed,
            Issue::RemovalNotification { notification } => IssueView::RemovalNotification { notification: notification@ },
            Issue::Unexpected { message } => IssueView::Unexpected { message: message@ },
        }
    }
}

/// Views of a list of issues.
pub open spec fn issue_views(v: Seq<Issue>) -> Seq<IssueView> {
    v.map_values(|i: Issue| i@)
}

/// Seconds in a day.
pub const SECONDS_PER_DAY: i64 = 86400;

/// The severity of an issue: warnings for what is about to go wrong or only
/// informs, errors for the rest.
pub open spec fn severity_of(issue: IssueView) -> Severity {
    match issue {
        IssueView::CreationUpdateNotification { .. } => Severity::Warning,
        IssueView::ExpiresSoon { .. } => Severity::Warning,
        IssueView::NotUsed => Severity::Warning,
        IssueView::RemovalNotification { .. } => Severity::Warning,
        _ => Severity::Error,
    }
}

/// The expiry issue, if any, of something that is valid until `not_after`,
/// at moment `now`, warning `days` days ahead.
pub open spec fn expiry_issue(not_after: i64, days: Option<u64>, now: i64) -> Option<IssueView> {
    if not_after <= now {
        Some(IssueView::Expired { not_after })
    } else {
        match days {
            Some(d) => if (not_after - now) < d * SECONDS_PER_DAY {
                Some(IssueView::ExpiresSoon { not_after, days: d })
            } else {
                None
            },
            None => None,
        }
    }
}

/// The issue, if any, of something that is valid from `not_before`, at moment `now`.
pub open spec fn before_issue(not_before: i64, now: i64) -> Option<IssueView> {
    if now < not_before {
        Some(IssueView::Before { not_before })
    } else {
        None
    }
}

/// The view of an optional issue.
pub open spec fn option_issue_view(o: Option<Issue>) -> Option<IssueView> {
    match o {
        Some(i) => Some(i@),
        None => None,
    }
}

/// The issues that the notifications of an allocation status raise, in order.
pub open spec fn notification_issues(ns: Seq<NotificationView>) -> Seq<IssueView> {
    ns.map_values(|n: NotificationView| if n.remove {
        IssueView::RemovalNotification { notification: n }
    } else {
        IssueView::CreationUpdateNotification { notification: n }
    })
}

impl Issue {
    /// The severity of this issue.
    pub fn severity(&self) -> (s: Severity)
        ensures
            s == severity_of(self@),
    {
        match self {
            Issue::CreationUpdateNotification { .. } => Severity::Warning,
            Issue::ExpiresSoon { .. } => Severity::Warning,
            Issue::NotUsed => Severity::Warning,
            Issue::RemovalNotification { .. } => Severity::Warning,
            _ => Severity::Error,
        }
    }

    /// The expiry issue, if any, of something that is valid until `not_after`.
    pub fn timestamp_expired(not_after: i64, days: Option<u64>, now: i64) -> (res: Option<Issue>)
        ensures
            option_issue_view(res) == expiry_issue(not_after, days, now),
    {
        if not_after <= now {
            Some(Issue::Expired { not_after })
        } else {
            match days {
                Some(d) => {
                    let remaining: i128 = not_after as i128 - now as i128;
                    assert(d * 86400 <= u64::MAX as int * 86400) by (nonlinear_arith)
                        requires d <= u64::MAX;
                    let window: i128 = d as i128 * SECONDS_PER_DAY as i128;
                    if remaining < window {
                        Some(Issue::ExpiresSoon { not_after, days: d })
                    } else {
                        None
                    }
                }
                None => None,
            }
        }
    }

    /// The issue, if any, of something that is valid from `not_before`.
    pub fn timestamp_before(not_before: i64, now: i64) -> (res: Option<Issue>)
        ensures
            option_issue_view(res) == before_issue(not_before, now),
    {
        if now < not_before {
            Some(Issue::Before { not_before })
        } else {
            None
        }
    }
}

impl Clone for Issue {
    fn clone(&self) -> (res: Self)
        ensures
            res@ == self@,
    {
        match self {
            Issue::CreationUpdateNotification { notification } => Issue::CreationUpdateNotification { notification: notification.clone() },
            Issue::Empty => Issue::Empty,
            Issue::Expired { not_after } => Issue::Expired { not_after: *not_after },
            Issue::ExpiresSoon { not_after, days } => Issue::ExpiresSoon { not_after: *not_after, days: *days },
            Issue::Before { not_before } => Issue::Before { not_before: *not_before },
            Issue::IncorrectValue { explanation } => Issue::IncorrectValue { explanation: explanation.clone() },
            Issue::Misconfiguration { explanation } => Issue::Misconfiguration { explanation: explanation.clone() },
            Issue::NotFound => Issue::NotFound,
            Issue::NotProvisioned => Issue::NotProvisioned,
            Issue::NotUsed => Issue::NotUsed,
            Issue::RemovalNotification { notification } => Issue::RemovalNotification { notification: notification.clone() },
            Issue::Unexpected { message } => Issue::Unexpected { message: message.clone() },
        }
    }
}

/// Whether an issue is kept when only errors are asked for or not.
pub open spec fn kept(only_errors: bool, issue: IssueView) -> bool {
    !only_errors || severity_of(issue) == Severity::Error
}

/// The issues that are kept, in order.
pub open spec fn kept_issues(issues: Seq<IssueView>, only_errors: bool) -> Seq<IssueView>
    decreases issues.len(),
{
    if issues.len() == 0 {
        Seq::empty()
    } else {
        let rest = kept_issues(issues.drop_last(), only_errors);
        if kept(only_errors, issues.last()) {
            rest.push(issues.last())
        } else {
            rest
        }
    }
}

/// Appends the issues that the notifications raise to `issues`.
pub fn push_notification_issues(issues: &mut Vec<Issue>, notifications: &Vec<Notification>)
    ensures
        issue_views(final(issues)@) == issue_views(old(issues)@) + notification_issues(notification_views(notifications@)),
{
    let ghost start = issue_views(issues@);
    let mut i: usize = 0;
    while i < notifications.len()
        invariant
            i <= notifications.len(),
            issue_views(issues@) == start + notification_issues(notification_views(notifications@).take(i as int)),
        decreases notifications.len() - i,
    {
        let notification = notifications[i].clone();
        let ghost before = issue_views(issues@);
        if notification.remove {
            issues.push(Issue::RemovalNotification { notification });
        } else {
            issues.push(Issue::CreationUpdateNotification { notification });
        }
        assert(notification_views(notifications@).take(i + 1) =~= notification_views(notifications@).take(i as int).push(notifications@[i as int]@));
        assert(issue_views(issues@) =~= before.push(issue_views(issues@).last()));
        assert(notification_issues(notification_views(notifications@).take(i + 1)) =~=
            notification_issues(notification_views(notifications@).take(i as int)).push(issue_views(issues@).last()));
        i = i + 1;
    }
    assert(notification_views(notifications@).take(notifications.len() as int) =~= notification_views(notifications@));
}

} // verus!

verus! {

/// The displayed texts of the notifications, in order.
pub open spec fn notification_texts(ns: Seq<NotificationView>) -> Seq<Seq<char>> {
    ns.map_values(|n: NotificationView| n.description)
}

/// Collects the displayed texts of the notifications.
pub fn notification_strings(notifications: &Vec<Notification>) -> (texts: Vec<String>)
    ensures
        crate::text::views(texts@) == notification_texts(notification_views(notifications@)),
{
    let mut texts: Vec<String> = Vec::new();
    let mut i: usize = 0;
    while i < notifications.len()
        invariant
            i <= notifications.len(),
            texts.len() == i,
            crate::text::views(texts@) == notification_texts(notification_views(notifications@)).take(i as int),
        decreases notifications.len() - i,
    {
        texts.push(notifications[i].description.clone());
        assert(texts@[i as int]@ == notification_views(notifications@)[i as int].description);
        assert(crate::text::views(texts@) =~= notification_texts(notification_views(notifications@)).take(i + 1));
        i = i + 1;
    }
    assert(notification_texts(notification_views(notifications@)).take(notifications.len() as int)
        =~= notification_texts(notification_views(notifications@)));
    texts
}

} // verus!
