//! Robot credentials: the robot subject and how stored robot credentials are shown.
use vstd::prelude::*;
use crate::value::{Value, ValueView};

verus! {

/// The robot subject of the command line tool, which manages robot secrets.
pub struct RobotSubject {}

impl RobotSubject {
    /// The name under which the subject is addressed.
    pub fn subject(&self) -> (s: &'static str)
        ensures
            s@ == "robot"@,
    {
        "robot"
    }

    /// Short help text of the subject.
    pub fn subject_command_about(&self) -> (s: String)
        ensures
            s@ == "Manage and store robot secrets."@,
    {
        String::from_str("Manage and store robot secrets.")
    }

    /// Long help text of the subject.
    pub fn subject_command_long_about(&self) -> (s: String)
        ensures
            s@ == "Manage and store robot secrets."@,
    {
        String::from_str("Manage and store robot secrets.")
    }
}

/// Labels under which robot credentials are shown.
#[derive(Debug, PartialEq, Eq, Structural, Clone, Copy)]
pub enum RobotLabel {
    PlatformName,
    TenantName,
}

impl RobotLabel {
    /// The text under which the label is shown.
    pub open spec fn text(self) -> Seq<char> {
        match self {
            RobotLabel::PlatformName => "platform"@,
            RobotLabel::TenantName => "tenant"@,
        }
    }

    /// The text under which the label is shown.
    pub fn as_str(&self) -> (s: &'static str)
        ensures
            s@ == self.text(),
    {
        match self {
            RobotLabel::PlatformName => "platform",
            RobotLabel::TenantName => "tenant",
        }
    }

    /// Whether the label shows the identifier of the subject.
    pub fn is_target_label(&self) -> (b: bool)
        ensures
            b == (*self == RobotLabel::PlatformName),
    {
        match self {
            RobotLabel::PlatformName => true,
            _ => false,
        }
    }
}

/// The value shown under `label` for the credentials of a platform and tenant.
pub fn robot_value(platform_name: &str, tenant_name: &str, label: RobotLabel) -> (v: Value)
    ensures
        v@ == match label {
            RobotLabel::PlatformName => ValueView::Plain(platform_name@),
            RobotLabel::TenantName => ValueView::Plain(tenant_name@),
        },
{
    match label {
        RobotLabel::PlatformName => Value::plain(platform_name),
        RobotLabel::TenantName => Value::plain(tenant_name),
    }
}


/// The platform and tenant of every robot secret in the keyring: for each
/// platform, in order, each of its tenants, in order.
pub open spec fn target_pairs(targets: Seq<(String, Vec<String>)>) -> Seq<(Seq<char>, Seq<char>)>
    decreases targets.len(),
{
    if targets.len() == 0 {
        Seq::empty()
    } else {
        let last = targets.last();
        target_pairs(targets.drop_last()) + last.1@.map_values(|t: String| (last.0@, t@))
    }
}

/// The platform and tenant of every robot secret in the keyring, given the
/// tenants per platform.
pub fn robot_targets(secret_targets: &Vec<(String, Vec<String>)>) -> (pairs: Vec<(String, String)>)
    ensures
        crate::platform::row_views(pairs@) == target_pairs(secret_targets@),
{
    let mut pairs: Vec<(String, String)> = Vec::new();
    let mut i: usize = 0;
    assert(secret_targets@.take(0) =~= Seq::<(String, Vec<String>)>::empty());
    while i < secret_targets.len()
        invariant
            i <= secret_targets.len(),
            crate::platform::row_views(pairs@) == target_pairs(secret_targets@.take(i as int)),
        decreases secret_targets.len() - i,
    {
        let platform = &secret_targets[i].0;
        let tenants = &secret_targets[i].1;
        let ghost done = crate::platform::row_views(pairs@);
        let ghost all = tenants@.map_values(|t: String| (platform@, t@));
        let mut k: usize = 0;
        assert(done + all.take(0) =~= done);
        while k < tenants.len()
            invariant
                k <= tenants.len(),
                all == tenants@.map_values(|t: String| (platform@, t@)),
                crate::platform::row_views(pairs@) == done + all.take(k as int),
            decreases tenants.len() - k,
        {
            let ghost before = crate::platform::row_views(pairs@);
            pairs.push((platform.clone(), tenants[k].clone()));
            assert(crate::platform::row_views(pairs@) =~= before.push(all[k as int]));
            assert(done + all.take(k + 1) =~= (done + all.take(k as int)).push(all[k as int]));
            k = k + 1;
        }
        assert(all.take(tenants.len() as int) =~= all);
        assert(secret_targets@.take(i + 1).drop_last() =~= secret_targets@.take(i as int));
        i = i + 1;
    }
    assert(secret_targets@.take(secret_targets.len() as int) =~= secret_targets@);
    pairs
}

/// Fails, with the message that is shown, when the entered robot secret is
/// empty, which cancels renewing it.
pub fn check_robot_secret(robot_secret: &str) -> (res: Result<(), String>)
    ensures
        res is Ok <==> robot_secret@.len() > 0,
        res matches Err(m) ==> m@ == "robot secret cannot be empty, update cancelled"@,
{
    if robot_secret.unicode_len() == 0 {
        Err(String::from_str("robot secret cannot be empty, update cancelled"))
    } else {
        Ok(())
    }
}

} // verus!
