//! Buckets: how a bucket, its status and the resources that depend on it
//! are shown.
use vstd::prelude::*;
use crate::issues::{notification_strings, notification_texts, notification_views, AllocationStatus};
use crate::subjects::{lines, Dependant};
use crate::text::{bool_text, join, views};
use crate::value::{some_or_empty_view, some_or_hide_view, Value, ValueView};

verus! {

/// The configuration of a bucket.
pub struct Bucket {
    pub encrypted: bool,
    pub versioned: bool,
}

/// A bucket's allocation status with its configuration, if it has one.
pub struct BucketStatus {
    pub status: AllocationStatus,
    pub configuration: Option<Bucket>,
}

/// The key and the lines under which a dependant is listed.
pub open spec fn dependant_row(dependant: Dependant) -> (Seq<char>, Seq<Seq<char>>) {
    match dependant {
        Dependant::App { app_id, resources } => ("app:"@ + app_id@, views(resources@)),
        Dependant::Application { application_id, injections, .. } => ("service:"@ + application_id@, views(injections@)),
        Dependant::Certificate { certificate_id, secret_kind } => ("certificate:"@ + certificate_id@, seq![secret_kind@]),
        Dependant::Proxy { proxy_id, .. } => ("proxy:"@ + proxy_id@, seq![Seq::<char>::empty()]),
        Dependant::Trifonius { trifonius_id, .. } => ("trifonius:"@ + trifonius_id@, seq![Seq::<char>::empty()]),
    }
}

/// Copies a list of strings.
fn copy_strings(v: &Vec<String>) -> (res: Vec<String>)
    ensures
        views(res@) == views(v@),
{
    let mut res: Vec<String> = Vec::new();
    let mut i: usize = 0;
    while i < v.len()
        invariant
            i <= v.len(),
            views(res@) == views(v@).take(i as int),
        decreases v.len() - i,
    {
        let ghost before = views(res@);
        res.push(v[i].clone());
        assert(views(res@) =~= before.push(v@[i as int]@));
        assert(views(v@).take(i + 1) =~= views(v@).take(i as int).push(v@[i as int]@));
        i = i + 1;
    }
    assert(views(v@).take(v.len() as int) =~= views(v@));
    res
}

/// `prefix` followed by `id`.
fn keyed(prefix: &str, id: &str) -> (s: String)
    ensures
        s@ == prefix@ + id@,
{
    let mut s = String::from_str(prefix);
    s.append(id);
    s
}

/// The key and the lines under which a dependant is listed: its kind and
/// identifier, and the resources or injections through which it depends.
pub fn dependant_to_tuple(dependant: &Dependant) -> (row: (String, Vec<String>))
    ensures
        (row.0@, views(row.1@)) == dependant_row(*dependant),
{
    match dependant {
        Dependant::App { app_id, resources } => (keyed("app:", app_id.as_str()), copy_strings(resources)),
        Dependant::Application { application_id, injections, .. } => (keyed("service:", application_id.as_str()), copy_strings(injections)),
        Dependant::Certificate { certificate_id, secret_kind } => {
            let v = vec![secret_kind.clone()];
            assert(views(v@) =~= seq![secret_kind@]);
            (keyed("certificate:", certificate_id.as_str()), v)
        }
        Dependant::Proxy { proxy_id, .. } => {
            let v = vec![String::new()];
            assert(views(v@) =~= seq![Seq::<char>::empty()]);
            (keyed("proxy:", proxy_id.as_str()), v)
        }
        Dependant::Trifonius { trifonius_id, .. } => {
            let v = vec![String::new()];
            assert(views(v@) =~= seq![Seq::<char>::empty()]);
            (keyed("trifonius:", trifonius_id.as_str()), v)
        }
    }
}

/// Labels under which buckets are shown.
#[derive(Debug, PartialEq, Eq, Structural, Clone, Copy)]
pub enum BucketLabel {
    Dependants,
    DerivedFrom,
    Encrypted,
    Name,
    Notifications,
    Provisioned,
    Target,
    Versioned,
}

impl BucketLabel {
    /// The text under which the label is shown.
    pub open spec fn text(self) -> Seq<char> {
        match self {
            BucketLabel::Dependants => "dependants"@,
            BucketLabel::DerivedFrom => "derived from"@,
            BucketLabel::Encrypted => "encrypted"@,
            BucketLabel::Name => "name"@,
            BucketLabel::Notifications => "notifications"@,
            BucketLabel::Provisioned => "provisioned"@,
            BucketLabel::Target => "bucket id"@,
            BucketLabel::Versioned => "versioned"@,
        }
    }

    /// The text under which the label is shown.
    pub fn as_str(&self) -> (s: &'static str)
        ensures
            s@ == self.text(),
    {
        match self {
            BucketLabel::Dependants => "dependants",
            BucketLabel::DerivedFrom => "derived from",
            BucketLabel::Encrypted => "encrypted",
            BucketLabel::Name => "name",
            BucketLabel::Notifications => "notifications",
            BucketLabel::Provisioned => "provisioned",
            BucketLabel::Target => "bucket id",
            BucketLabel::Versioned => "versioned",
        }
    }

    /// Whether the label shows the identifier of the subject.
    pub fn is_target_label(&self) -> (b: bool)
        ensures
            b == (*self == BucketLabel::Target),
    {
        match self {
            BucketLabel::Target => true,
            _ => false,
        }
    }
}


/// What is shown under `label` for the status of a bucket named `bucket_name`.
pub open spec fn bucket_status_value_view(s: BucketStatus, bucket_name: Seq<char>, label: BucketLabel, target_id: Seq<char>) -> ValueView {
    match label {
        BucketLabel::Dependants => ValueView::Hide,
        BucketLabel::DerivedFrom => some_or_hide_view(match s.status.derived_from { Some(d) => Some(d@), None => None }),
        BucketLabel::Encrypted => ValueView::Plain(bool_text(match s.configuration { Some(b) => b.encrypted, None => false })),
        BucketLabel::Name => ValueView::Plain(bucket_name),
        BucketLabel::Notifications => if s.status.notifications@.len() == 0 {
            ValueView::Hide
        } else {
            ValueView::Warning(lines(notification_texts(notification_views(s.status.notifications@))))
        },
        BucketLabel::Provisioned => ValueView::Plain(bool_text(s.status.provisioned)),
        BucketLabel::Target => ValueView::Target(target_id),
        BucketLabel::Versioned => some_or_empty_view(match s.configuration { Some(b) => Some(bool_text(b.versioned)), None => None }),
    }
}

/// What is shown under `label` for the status of a bucket named `bucket_name`.
pub fn bucket_status_value(status: &BucketStatus, bucket_name: &str, label: BucketLabel, target_id: &str) -> (v: Value)
    ensures
        v@ == bucket_status_value_view(*status, bucket_name@, label, target_id@),
{
    match label {
        BucketLabel::Dependants => Value::Hide,
        BucketLabel::DerivedFrom => match &status.status.derived_from {
            Some(d) => Value::plain(d.as_str()),
            None => Value::Hide,
        },
        BucketLabel::Encrypted => Value::plain_bool(match &status.configuration { Some(b) => b.encrypted, None => false }),
        BucketLabel::Name => Value::plain(bucket_name),
        BucketLabel::Notifications => {
            if status.status.notifications.len() == 0 {
                Value::Hide
            } else {
                let texts = notification_strings(&status.status.notifications);
                Value::Warning(join(&texts, "\n"))
            }
        }
        BucketLabel::Provisioned => Value::plain_bool(status.status.provisioned),
        BucketLabel::Target => Value::target(target_id),
        BucketLabel::Versioned => match &status.configuration {
            Some(b) => Value::plain_bool(b.versioned),
            None => Value::Empty,
        },
    }
}

/// The rows of the dependants of a bucket.
pub open spec fn dependant_rows(dependants: Seq<Dependant>) -> Seq<(Seq<char>, Seq<Seq<char>>)> {
    dependants.map_values(|d: Dependant| dependant_row(d))
}

/// What is shown under `label` for a bucket with identifier `bucket_id`,
/// its status and the resources that depend on it.
pub open spec fn bucket_usage_value_view(
    bucket_id: Seq<char>,
    s: BucketStatus,
    bucket_name: Seq<char>,
    dependants: Seq<Dependant>,
    label: BucketLabel,
    target_id: Seq<char>,
) -> ValueView {
    match label {
        BucketLabel::Dependants => ValueView::Rows(dependant_rows(dependants)),
        BucketLabel::Target => ValueView::Target(bucket_id),
        _ => bucket_status_value_view(s, bucket_name, label, target_id),
    }
}

/// What is shown under `label` for a bucket, its status and the resources
/// that depend on it.
pub fn bucket_usage_value(
    bucket_id: &str,
    status: &BucketStatus,
    bucket_name: &str,
    dependants: &Vec<Dependant>,
    label: BucketLabel,
    target_id: &str,
) -> (v: Value)
    ensures
        v@ == bucket_usage_value_view(bucket_id@, *status, bucket_name@, dependants@, label, target_id@),
{
    match label {
        BucketLabel::Dependants => {
            let mut rows: Vec<(String, Vec<String>)> = Vec::new();
            let mut i: usize = 0;
            while i < dependants.len()
                invariant
                    i <= dependants.len(),
                    rows@.map_values(|r: (String, Vec<String>)| (r.0@, views(r.1@))) == dependant_rows(dependants@).take(i as int),
                decreases dependants.len() - i,
            {
                let row = dependant_to_tuple(&dependants[i]);
                let ghost before = rows@.map_values(|r: (String, Vec<String>)| (r.0@, views(r.1@)));
                rows.push(row);
                assert(rows@.map_values(|r: (String, Vec<String>)| (r.0@, views(r.1@))) =~= before.push(dependant_row(dependants@[i as int])));
                assert(dependant_rows(dependants@).take(i + 1) =~= dependant_rows(dependants@).take(i as int).push(dependant_row(dependants@[i as int])));
                i = i + 1;
            }
            assert(dependant_rows(dependants@).take(dependants.len() as int) =~= dependant_rows(dependants@));
            Value::Rows(rows)
        }
        BucketLabel::Target => Value::target(bucket_id),
        _ => bucket_status_value(status, bucket_name, label, target_id),
    }
}

/// What is shown under `label` for a bucket configuration.
pub open spec fn bucket_value_view(b: Bucket, label: BucketLabel, target_id: Seq<char>) -> ValueView {
    match label {
        BucketLabel::Encrypted => ValueView::Plain(bool_text(b.encrypted)),
        BucketLabel::Target => ValueView::Target(target_id),
        BucketLabel::Versioned => ValueView::Plain(bool_text(b.versioned)),
        _ => ValueView::NotApplicable,
    }
}

impl Bucket {
    /// What is shown under `label` for this bucket, whose identifier is `target_id`.
    pub fn value(&self, label: BucketLabel, target_id: &str) -> (v: Value)
        ensures
            v@ == bucket_value_view(*self, label, target_id@),
    {
        match label {
            BucketLabel::Encrypted => Value::plain_bool(self.encrypted),
            BucketLabel::Target => Value::target(target_id),
            BucketLabel::Versioned => Value::plain_bool(self.versioned),
            _ => Value::NotApplicable,
        }
    }
}

} // verus!
