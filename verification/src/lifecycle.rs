//! Starting, stopping and restarting a service: what each request leads to,
//! given how many instances the service is configured with, and the
//! messages that report it.
use vstd::prelude::*;
use crate::text::{decimal, decimal_string};

verus! {

/// `service '<id>'`.
pub open spec fn service_text(service_id: Seq<char>) -> Seq<char> {
    "service '"@ + service_id + "'"@
}

/// `<prefix>service '<id>'<suffix>`, and ` (<n> instances)` behind it
/// unless `n` is one.
pub open spec fn counted_text(prefix: Seq<char>, service_id: Seq<char>, suffix: Seq<char>, n: nat) -> Seq<char> {
    if n == 1 {
        prefix + service_text(service_id) + suffix
    } else {
        prefix + service_text(service_id) + suffix + " ("@ + decimal(n) + " instances)"@
    }
}

fn service_message(service_id: &str) -> (m: String)
    ensures
        m@ == service_text(service_id@),
{
    let mut m = String::from_str("service '");
    m.append(service_id);
    m.append("'");
    m
}

fn counted_message(prefix: &str, service_id: &str, suffix: &str, n: u64) -> (m: String)
    ensures
        m@ == counted_text(prefix@, service_id@, suffix@, n as nat),
{
    let mut m = String::from_str(prefix);
    let service = service_message(service_id);
    m.append(service.as_str());
    m.append(suffix);
    if n != 1 {
        m.append(" (");
        let count = decimal_string(n);
        m.append(count.as_str());
        m.append(" instances)");
    }
    m
}

/// The error when the service does not exist.
pub fn missing_service_error(service_id: &str) -> (m: String)
    ensures
        m@ == service_text(service_id@) + " does not exist"@,
{
    let mut m = service_message(service_id);
    m.append(" does not exist");
    m
}

/// What starting `instances` instances of a service is explained as.
pub open spec fn start_explanation_text(service_id: Seq<char>, instances: nat) -> Seq<char> {
    if instances == 1 {
        "start "@ + service_text(service_id)
    } else {
        "start "@ + decimal(instances) + " instances of "@ + service_text(service_id)
    }
}

/// The explanation of a request to start `instances` instances of a service.
pub fn start_explanation(service_id: &str, instances: u64) -> (m: String)
    ensures
        m@ == start_explanation_text(service_id@, instances as nat),
{
    let mut m = String::from_str("start ");
    if instances != 1 {
        let count = decimal_string(instances);
        m.append(count.as_str());
        m.append(" instances of ");
    }
    let service = service_message(service_id);
    m.append(service.as_str());
    m
}

/// What a request to start, stop or restart a service leads to.
#[derive(Debug, PartialEq)]
pub enum LifecycleAction {
    /// Nothing is changed; the warning says why.
    Warn(String),
    /// The service is configured with `instances` instances, after which
    /// `outcome` is reported.
    Configure { instances: u64, outcome: String },
}

/// What a request to start a service leads to.
pub open spec fn start_action_view(service_id: Seq<char>, instances: nat, running: nat, dry_run: bool) -> (bool, nat, Seq<char>) {
    if running > 0 {
        (false, 0, service_text(service_id) + " already started"@)
    } else if dry_run {
        (false, 0, "dry-run mode, service not started"@)
    } else {
        (true, instances, counted_text(Seq::empty(), service_id, " started"@, instances))
    }
}

/// The view of an action: whether it configures, how many instances, and
/// the warning or the outcome.
pub open spec fn action_view(a: LifecycleAction) -> (bool, nat, Seq<char>) {
    match a {
        LifecycleAction::Warn(w) => (false, 0, w@),
        LifecycleAction::Configure { instances, outcome } => (true, instances as nat, outcome@),
    }
}

/// Starting `instances` instances of a service that runs `running`
/// instances now: a service that runs is left alone, and so is any in
/// dry-run mode; else it gets the requested instances.
pub fn start_action(service_id: &str, instances: u64, running: u64, dry_run: bool) -> (a: LifecycleAction)
    ensures
        action_view(a) == start_action_view(service_id@, instances as nat, running as nat, dry_run),
{
    if running > 0 {
        let mut w = service_message(service_id);
        w.append(" already started");
        LifecycleAction::Warn(w)
    } else if dry_run {
        LifecycleAction::Warn(String::from_str("dry-run mode, service not started"))
    } else {
        proof {
            reveal_strlit("");
        }
        LifecycleAction::Configure { instances, outcome: counted_message("", service_id, " started", instances) }
    }
}

/// The explanation of a request to stop a service.
pub fn stop_explanation(service_id: &str) -> (m: String)
    ensures
        m@ == "stop "@ + service_text(service_id@),
{
    let mut m = String::from_str("stop ");
    let service = service_message(service_id);
    m.append(service.as_str());
    m
}

/// What a request to stop a service leads to.
pub open spec fn stop_action_view(service_id: Seq<char>, running: nat, dry_run: bool) -> (bool, nat, Seq<char>) {
    if running == 0 {
        (false, 0, service_text(service_id) + " already stopped"@)
    } else if dry_run {
        (false, 0, "dry-run mode, service not stopped"@)
    } else {
        (true, 0, counted_text(Seq::empty(), service_id, " stopped"@, running))
    }
}

/// Stopping a service that runs `running` instances: a stopped service is
/// left alone, and so is any in dry-run mode; else it gets no instances.
pub fn stop_action(service_id: &str, running: u64, dry_run: bool) -> (a: LifecycleAction)
    ensures
        action_view(a) == stop_action_view(service_id@, running as nat, dry_run),
{
    if running == 0 {
        let mut w = service_message(service_id);
        w.append(" already stopped");
        LifecycleAction::Warn(w)
    } else if dry_run {
        LifecycleAction::Warn(String::from_str("dry-run mode, service not stopped"))
    } else {
        proof {
            reveal_strlit("");
        }
        LifecycleAction::Configure { instances: 0, outcome: counted_message("", service_id, " stopped", running) }
    }
}

/// The explanation of a request to restart a service.
pub fn restart_explanation(service_id: &str) -> (m: String)
    ensures
        m@ == "restart "@ + service_text(service_id@),
{
    let mut m = String::from_str("restart ");
    let service = service_message(service_id);
    m.append(service.as_str());
    m
}

/// Why a service with `instances` configured instances is not restarted,
/// if it is not: it is not started, or dry-run mode is on.
pub open spec fn restart_refusal_text(service_id: Seq<char>, instances: nat, dry_run: bool) -> Option<Seq<char>> {
    if instances == 0 {
        Some(service_text(service_id) + " not started"@)
    } else if dry_run {
        Some("dry-run mode, service not restarted"@)
    } else {
        None
    }
}

/// The warning why a service is not restarted, or `None` when it is.
pub fn restart_refusal(service_id: &str, instances: u64, dry_run: bool) -> (w: Option<String>)
    ensures
        match w { Some(t) => Some(t@), None => None } == restart_refusal_text(service_id@, instances as nat, dry_run),
{
    if instances == 0 {
        let mut w = service_message(service_id);
        w.append(" not started");
        Some(w)
    } else if dry_run {
        Some(String::from_str("dry-run mode, service not restarted"))
    } else {
        None
    }
}

/// The actual state of a task, as far as restarting looks at it.
#[derive(Debug, PartialEq, Eq, Structural, Clone, Copy)]
pub enum TaskRunState {
    Running,
    Killed,
    Other,
}

/// The tasks among `task_ids` whose actual state, in `states` at the same
/// position, is running; in their order.
pub open spec fn running_task_ids(task_ids: Seq<Seq<char>>, states: Seq<Option<TaskRunState>>) -> Seq<Seq<char>>
    decreases task_ids.len(),
{
    if task_ids.len() == 0 {
        Seq::empty()
    } else {
        let rest = running_task_ids(task_ids.drop_last(), states.take(task_ids.len() - 1));
        if states[task_ids.len() - 1] == Some(TaskRunState::Running) {
            rest.push(task_ids.last())
        } else {
            rest
        }
    }
}

/// The views of a vector of strings.
pub open spec fn string_views(v: Seq<String>) -> Seq<Seq<char>> {
    v.map_values(|s: String| s@)
}

/// The tasks that run, which restarting waits for to be killed.
pub fn running_tasks(task_ids: &Vec<String>, states: &Vec<Option<TaskRunState>>) -> (running: Vec<String>)
    requires
        task_ids.len() == states.len(),
    ensures
        string_views(running@) == running_task_ids(string_views(task_ids@), states@),
{
    let mut running: Vec<String> = Vec::new();
    let mut i: usize = 0;
    while i < task_ids.len()
        invariant
            i <= task_ids.len(),
            task_ids.len() == states.len(),
            string_views(running@) == running_task_ids(string_views(task_ids@).take(i as int), states@.take(i as int)),
        decreases task_ids.len() - i,
    {
        let ghost ids = string_views(task_ids@);
        assert(ids.take(i + 1).drop_last() =~= ids.take(i as int));
        assert(states@.take(i + 1).take(i as int) =~= states@.take(i as int));
        let is_running = match states[i] {
            Some(TaskRunState::Running) => true,
            _ => false,
        };
        if is_running {
            running.push(task_ids[i].clone());
        }
        assert(string_views(running@) =~= running_task_ids(ids.take(i + 1), states@.take(i + 1)));
        i = i + 1;
    }
    assert(string_views(task_ids@).take(task_ids.len() as int) =~= string_views(task_ids@));
    assert(states@.take(states.len() as int) =~= states@);
    running
}

/// Whether every polled task has been killed, which ends the wait.
pub fn all_killed(states: &Vec<Option<TaskRunState>>) -> (b: bool)
    ensures
        b <==> forall|i: int| 0 <= i < states.len() ==> #[trigger] states@[i] == Some(TaskRunState::Killed),
{
    let mut i: usize = 0;
    while i < states.len()
        invariant
            i <= states.len(),
            forall|j: int| 0 <= j < i ==> #[trigger] states@[j] == Some(TaskRunState::Killed),
        decreases states.len() - i,
    {
        match states[i] {
            Some(TaskRunState::Killed) => {},
            _ => {
                return false;
            },
        }
        i = i + 1;
    }
    true
}

/// The report that `n` running instances are being stopped for a restart.
pub fn restart_stopping_message(service_id: &str, n: u64) -> (m: String)
    ensures
        m@ == counted_text("stop "@, service_id@, Seq::empty(), n as nat),
{
    proof {
        reveal_strlit("");
    }
    counted_message("stop ", service_id, "", n)
}

/// The report that the `n` instances stopped for a restart have stopped.
pub fn restart_stopped_message(service_id: &str, n: u64) -> (m: String)
    ensures
        m@ == counted_text("\n"@, service_id@, " stopped"@, n as nat),
{
    counted_message("\n", service_id, " stopped", n)
}

/// The report that a service was started again with `instances` instances.
pub fn started_message(service_id: &str, instances: u64) -> (m: String)
    ensures
        m@ == counted_text(Seq::empty(), service_id@, " started"@, instances as nat),
{
    proof {
        reveal_strlit("");
    }
    counted_message("", service_id, " started", instances)
}

/// What a request to update a service leads to.
#[derive(Debug, PartialEq)]
pub enum UpdateDecision {
    /// No setting was given: the new configuration is read as json.
    FromJson,
    /// The given settings equal the current ones; the message says so.
    Unchanged(String),
    /// Dry-run mode: nothing is changed; the warning says so.
    Warn(String),
    /// The service is configured with these instances and memory, after which
    /// `outcome` is reported.
    Update { instances: u64, mem: u64, outcome: String },
}

/// The report that a service was updated.
pub fn updated_message(service_id: &str) -> (m: String)
    ensures
        m@ == service_text(service_id@) + " updated"@,
{
    let mut m = service_message(service_id);
    m.append(" updated");
    m
}

/// The explanation of a request to update a service, from arguments or from
/// a json configuration.
pub fn update_explanation(service_id: &str, from_arguments: bool) -> (m: String)
    ensures
        m@ == "update "@ + service_text(service_id@) + if from_arguments { " from arguments"@ } else { " from json configuration"@ },
{
    let mut m = String::from_str("update ");
    let service = service_message(service_id);
    m.append(service.as_str());
    if from_arguments {
        m.append(" from arguments");
    } else {
        m.append(" from json configuration");
    }
    m
}

/// Whether an optional new setting differs from the current one.
pub open spec fn differs(new: Option<u64>, current: u64) -> bool {
    match new {
        Some(n) => n != current,
        None => false,
    }
}

/// Updating a service from the given settings: `cpus_given` and
/// `cpus_changed` tell whether a cpu share was given and whether it differs
/// from the current one. Without any setting the configuration is read as
/// json; settings equal to the current ones change nothing, and neither does
/// dry-run mode; else the given settings replace the current ones.
pub fn update_decision(
    service_id: &str,
    cpus_given: bool,
    cpus_changed: bool,
    instances: Option<u64>,
    current_instances: u64,
    mem: Option<u64>,
    current_mem: u64,
    dry_run: bool,
) -> (d: UpdateDecision)
    ensures
        !(cpus_given || instances is Some || mem is Some) ==> d == UpdateDecision::FromJson,
        (cpus_given || instances is Some || mem is Some) && !(cpus_changed || differs(instances, current_instances) || differs(mem, current_mem)) ==>
            d is Unchanged && d->Unchanged_0@ == "provided arguments are equal to the current configuration, service not updated"@,
        (cpus_given || instances is Some || mem is Some) && (cpus_changed || differs(instances, current_instances) || differs(mem, current_mem)) && dry_run ==>
            d is Warn && d->Warn_0@ == "dry-run mode, service not updated"@,
        (cpus_given || instances is Some || mem is Some) && (cpus_changed || differs(instances, current_instances) || differs(mem, current_mem)) && !dry_run ==>
            (d matches UpdateDecision::Update { instances: i, mem: m, outcome: o }
                && i == (match instances { Some(n) => n, None => current_instances })
                && m == (match mem { Some(n) => n, None => current_mem })
                && o@ == service_text(service_id@) + " updated"@),
{
    let given = cpus_given || instances.is_some() || mem.is_some();
    if !given {
        return UpdateDecision::FromJson;
    }
    let instances_changed = match instances {
        Some(n) => n != current_instances,
        None => false,
    };
    let mem_changed = match mem {
        Some(n) => n != current_mem,
        None => false,
    };
    if !(cpus_changed || instances_changed || mem_changed) {
        UpdateDecision::Unchanged(String::from_str("provided arguments are equal to the current configuration, service not updated"))
    } else if dry_run {
        UpdateDecision::Warn(String::from_str("dry-run mode, service not updated"))
    } else {
        let new_instances = match instances {
            Some(n) => n,
            None => current_instances,
        };
        let new_mem = match mem {
            Some(n) => n,
            None => current_mem,
        };
        UpdateDecision::Update { instances: new_instances, mem: new_mem, outcome: updated_message(service_id) }
    }
}

/// How an action is seen: a warning configures nothing and carries its
/// text; a configuration carries its instances and its outcome.
pub proof fn lemma_action_view(w: String, instances: u64, outcome: String)
    ensures
        action_view(LifecycleAction::Warn(w)) == (false, 0nat, w@),
        action_view(LifecycleAction::Configure { instances, outcome }) == (true, instances as nat, outcome@),
{
}

/// Counted texts: the plain text for one instance, and the count behind it
/// for any other number.
pub proof fn lemma_counted_text(prefix: Seq<char>, service_id: Seq<char>, suffix: Seq<char>, n: nat)
    ensures
        n == 1 ==> counted_text(prefix, service_id, suffix, n) == prefix + "service '"@ + service_id + "'"@ + suffix,
        n != 1 ==> counted_text(prefix, service_id, suffix, n)
            == prefix + "service '"@ + service_id + "'"@ + suffix + " ("@ + decimal(n) + " instances)"@,
{
}

/// Starting a service changes it exactly when it runs no instance and
/// dry-run mode is off, and then it gets the requested instances; a service
/// that runs any instance is left alone with the warning that it is started.
pub proof fn lemma_start_action(service_id: Seq<char>, instances: nat, running: nat, dry_run: bool)
    ensures
        ({
            let v = start_action_view(service_id, instances, running, dry_run);
            &&& v.0 <==> (running == 0 && !dry_run)
            &&& v.0 ==> v.1 == instances && v.2 == counted_text(Seq::empty(), service_id, " started"@, instances)
            &&& running > 0 ==> v.2 == "service '"@ + service_id + "'"@ + " already started"@
            &&& running == 0 && dry_run ==> v.2 == "dry-run mode, service not started"@
        }),
{
}

/// Stopping a service changes it exactly when it runs some instance and
/// dry-run mode is off, and then it gets no instances; a stopped service is
/// left alone with the warning that it is stopped.
pub proof fn lemma_stop_action(service_id: Seq<char>, running: nat, dry_run: bool)
    ensures
        ({
            let v = stop_action_view(service_id, running, dry_run);
            &&& v.0 <==> (running > 0 && !dry_run)
            &&& v.0 ==> v.1 == 0 && v.2 == counted_text(Seq::empty(), service_id, " stopped"@, running)
            &&& running == 0 ==> v.2 == "service '"@ + service_id + "'"@ + " already stopped"@
            &&& running > 0 && dry_run ==> v.2 == "dry-run mode, service not stopped"@
        }),
{
}

/// A service is restarted exactly when it is started and dry-run mode is off.
pub proof fn lemma_restart_refusal(service_id: Seq<char>, instances: nat, dry_run: bool)
    ensures
        restart_refusal_text(service_id, instances, dry_run) is None <==> (instances > 0 && !dry_run),
        instances == 0 ==> restart_refusal_text(service_id, instances, dry_run) == Some("service '"@ + service_id + "'"@ + " not started"@),
        instances > 0 && dry_run ==> restart_refusal_text(service_id, instances, dry_run) == Some("dry-run mode, service not restarted"@),
{
}

/// Whether `x` is a task whose actual state is running.
pub open spec fn is_running_task(task_ids: Seq<Seq<char>>, states: Seq<Option<TaskRunState>>, x: Seq<char>) -> bool {
    exists|i: int| 0 <= i < task_ids.len() && states[i] == Some(TaskRunState::Running) && x == #[trigger] task_ids[i]
}

/// The tasks waited for are exactly the running ones: every running task is
/// among them, each of them is a running task, and there are no more of
/// them than tasks.
pub proof fn lemma_running_task_ids(task_ids: Seq<Seq<char>>, states: Seq<Option<TaskRunState>>)
    requires
        task_ids.len() == states.len(),
    ensures
        running_task_ids(task_ids, states).len() <= task_ids.len(),
        forall|i: int| 0 <= i < task_ids.len() && states[i] == Some(TaskRunState::Running) ==>
            running_task_ids(task_ids, states).contains(#[trigger] task_ids[i]),
        forall|k: int| 0 <= k < running_task_ids(task_ids, states).len() ==>
            is_running_task(task_ids, states, #[trigger] running_task_ids(task_ids, states)[k]),
    decreases task_ids.len(),
{
    if task_ids.len() > 0 {
        let n = task_ids.len() - 1;
        let front = task_ids.drop_last();
        let front_states = states.take(n);
        lemma_running_task_ids(front, front_states);
        let rest = running_task_ids(front, front_states);
        let all = running_task_ids(task_ids, states);
        assert forall|i: int| 0 <= i < task_ids.len() && states[i] == Some(TaskRunState::Running) implies
            all.contains(#[trigger] task_ids[i]) by {
            if i < n {
                assert(front[i] == task_ids[i]);
                assert(front_states[i] == states[i]);
                assert(rest.contains(front[i]));
                let k = choose|k: int| 0 <= k < rest.len() && rest[k] == front[i];
                assert(all[k] == rest[k]);
            } else {
                assert(all[all.len() - 1] == task_ids.last());
            }
        }
        assert forall|k: int| 0 <= k < running_task_ids(task_ids, states).len() implies
            is_running_task(task_ids, states, #[trigger] running_task_ids(task_ids, states)[k]) by {
            if k < rest.len() {
                assert(all[k] == rest[k]);
                assert(is_running_task(front, front_states, rest[k]));
                let i = choose|i: int| 0 <= i < front.len() && front_states[i] == Some(TaskRunState::Running) && rest[k] == #[trigger] front[i];
                assert(task_ids[i] == front[i] && states[i] == front_states[i]);
                assert(0 <= i < task_ids.len() && states[i] == Some(TaskRunState::Running) && all[k] == task_ids[i]);
            } else {
                assert(states[n] == Some(TaskRunState::Running));
                assert(all[k] == task_ids[n]);
            }
        }
    } else {
        assert(running_task_ids(task_ids, states).len() == 0);
    }
}

} // verus!
