//! Deploying and undeploying a Kafka proxy, step by step: from the state of
//! the conversation and what was just learned (an answer, whether a resource
//! exists, a write that finished), the next state and what to do next.
use vstd::prelude::*;
use crate::proxy::{
    proxy_certificate, proxy_deployment, proxy_instances, proxy_resource_names, CertificateSecrets, KafkaProxy, KafkaProxyZone,
    ProxyResourceNames,
};

verus! {

/// Where deploying a proxy stands.
#[derive(Debug, PartialEq, Eq, Structural, Clone, Copy)]
pub enum ProxyDeployState {
    CheckingProxy,
    CheckingBundle,
    CheckingResources,
    Configuring,
    Confirming,
    PostingSecrets,
    PuttingCertificate,
    PuttingProxy,
    Finished,
}

/// What deploying a proxy learns.
#[derive(Debug, PartialEq, Eq, Structural, Clone, Copy)]
pub enum ProxyDeployEvent {
    /// Whether a proxy of that name exists already.
    ProxyFound(bool),
    /// Whether the certificate bundle of the proxy exists.
    BundleFound(bool),
    /// Whether any of the certificate and secrets that deploying creates exists already.
    ResourcesFound(bool),
    /// The number of instances that was asked for.
    Configured(u64),
    /// The user's answer to the question whether to deploy.
    Answered(bool),
    /// A write finished; `false` when it failed.
    Written(bool),
}

/// What is reported when deploying a proxy.
#[derive(Debug, PartialEq, Eq, Structural, Clone, Copy)]
pub enum ProxyDeployNote {
    AlreadyExists,
    BundleMissing,
    ResourcesExist,
    NoInstances,
    Declined,
    DryRun,
    CertificateWriteFailed,
    ProxyWriteFailed,
    CertificateCreated,
    ProxyDeployed,
}

/// What deploying a proxy does next.
#[derive(Debug, PartialEq, Eq, Structural, Clone, Copy)]
pub enum ProxyDeployCommand {
    /// Check whether the certificate bundle exists.
    CheckBundle,
    /// Check whether the certificate and secrets exist already.
    CheckResources,
    /// Read the bundle and ask for processors, memory and instances.
    Configure,
    /// Show what will be deployed and ask whether to deploy it.
    AskConfirmation,
    /// Post the server certificate, private key and ca certificate secrets.
    PostSecrets,
    /// Put the certificate configuration.
    PutCertificate,
    /// Put the proxy configuration.
    PutProxy,
    /// Stop with the reported error.
    Fail,
    /// Stop.
    Stop,
    /// Nothing: the event does not belong to this state.
    Nothing,
}

/// What deploying a proxy reports, if anything, and then does.
#[derive(Debug, PartialEq, Eq, Structural, Clone, Copy)]
pub struct ProxyDeployAction {
    pub report: Option<ProxyDeployNote>,
    pub command: ProxyDeployCommand,
}

/// The step of deploying a proxy: a proxy that exists, a missing bundle,
/// resources that exist, no instances and a refusal each end it with an
/// error; dry-run mode ends it with a warning after the confirmation; else
/// the secrets are posted, then the certificate and then the proxy are put,
/// where a failed secret does not stop it but a failed certificate or proxy
/// does.
pub open spec fn proxy_deploy_transition(
    state: ProxyDeployState,
    event: ProxyDeployEvent,
    dry_run: bool,
) -> (ProxyDeployState, ProxyDeployAction) {
    let fail = |n: ProxyDeployNote| (ProxyDeployState::Finished, ProxyDeployAction { report: Some(n), command: ProxyDeployCommand::Fail });
    let go = |s: ProxyDeployState, c: ProxyDeployCommand| (s, ProxyDeployAction { report: None, command: c });
    match (state, event) {
        (ProxyDeployState::CheckingProxy, ProxyDeployEvent::ProxyFound(found)) =>
            if found { fail(ProxyDeployNote::AlreadyExists) } else { go(ProxyDeployState::CheckingBundle, ProxyDeployCommand::CheckBundle) },
        (ProxyDeployState::CheckingBundle, ProxyDeployEvent::BundleFound(found)) =>
            if found { go(ProxyDeployState::CheckingResources, ProxyDeployCommand::CheckResources) } else { fail(ProxyDeployNote::BundleMissing) },
        (ProxyDeployState::CheckingResources, ProxyDeployEvent::ResourcesFound(found)) =>
            if found { fail(ProxyDeployNote::ResourcesExist) } else { go(ProxyDeployState::Configuring, ProxyDeployCommand::Configure) },
        (ProxyDeployState::Configuring, ProxyDeployEvent::Configured(instances)) =>
            if instances == 0 { fail(ProxyDeployNote::NoInstances) } else { go(ProxyDeployState::Confirming, ProxyDeployCommand::AskConfirmation) },
        (ProxyDeployState::Confirming, ProxyDeployEvent::Answered(yes)) =>
            if !yes {
                fail(ProxyDeployNote::Declined)
            } else if dry_run {
                (ProxyDeployState::Finished, ProxyDeployAction { report: Some(ProxyDeployNote::DryRun), command: ProxyDeployCommand::Stop })
            } else {
                go(ProxyDeployState::PostingSecrets, ProxyDeployCommand::PostSecrets)
            },
        (ProxyDeployState::PostingSecrets, ProxyDeployEvent::Written(_)) => go(ProxyDeployState::PuttingCertificate, ProxyDeployCommand::PutCertificate),
        (ProxyDeployState::PuttingCertificate, ProxyDeployEvent::Written(ok)) =>
            if ok {
                (ProxyDeployState::PuttingProxy, ProxyDeployAction { report: Some(ProxyDeployNote::CertificateCreated), command: ProxyDeployCommand::PutProxy })
            } else {
                fail(ProxyDeployNote::CertificateWriteFailed)
            },
        (ProxyDeployState::PuttingProxy, ProxyDeployEvent::Written(ok)) =>
            if ok {
                (ProxyDeployState::Finished, ProxyDeployAction { report: Some(ProxyDeployNote::ProxyDeployed), command: ProxyDeployCommand::Stop })
            } else {
                fail(ProxyDeployNote::ProxyWriteFailed)
            },
        _ => go(state, ProxyDeployCommand::Nothing),
    }
}

fn deploy_fail(n: ProxyDeployNote) -> (next: (ProxyDeployState, ProxyDeployAction))
    ensures
        next == (ProxyDeployState::Finished, ProxyDeployAction { report: Some(n), command: ProxyDeployCommand::Fail }),
{
    (ProxyDeployState::Finished, ProxyDeployAction { report: Some(n), command: ProxyDeployCommand::Fail })
}

fn deploy_go(s: ProxyDeployState, c: ProxyDeployCommand) -> (next: (ProxyDeployState, ProxyDeployAction))
    ensures
        next == (s, ProxyDeployAction { report: None, command: c }),
{
    (s, ProxyDeployAction { report: None, command: c })
}

/// The next step of deploying a proxy.
pub fn proxy_deploy_step(state: ProxyDeployState, event: ProxyDeployEvent, dry_run: bool) -> (next: (ProxyDeployState, ProxyDeployAction))
    ensures
        next == proxy_deploy_transition(state, event, dry_run),
{
    match (state, event) {
        (ProxyDeployState::CheckingProxy, ProxyDeployEvent::ProxyFound(found)) =>
            if found { deploy_fail(ProxyDeployNote::AlreadyExists) } else { deploy_go(ProxyDeployState::CheckingBundle, ProxyDeployCommand::CheckBundle) },
        (ProxyDeployState::CheckingBundle, ProxyDeployEvent::BundleFound(found)) =>
            if found { deploy_go(ProxyDeployState::CheckingResources, ProxyDeployCommand::CheckResources) } else { deploy_fail(ProxyDeployNote::BundleMissing) },
        (ProxyDeployState::CheckingResources, ProxyDeployEvent::ResourcesFound(found)) =>
            if found { deploy_fail(ProxyDeployNote::ResourcesExist) } else { deploy_go(ProxyDeployState::Configuring, ProxyDeployCommand::Configure) },
        (ProxyDeployState::Configuring, ProxyDeployEvent::Configured(instances)) =>
            match proxy_instances(instances) {
                Ok(_) => deploy_go(ProxyDeployState::Confirming, ProxyDeployCommand::AskConfirmation),
                Err(_) => deploy_fail(ProxyDeployNote::NoInstances),
            },
        (ProxyDeployState::Confirming, ProxyDeployEvent::Answered(yes)) =>
            if !yes {
                deploy_fail(ProxyDeployNote::Declined)
            } else if dry_run {
                (ProxyDeployState::Finished, ProxyDeployAction { report: Some(ProxyDeployNote::DryRun), command: ProxyDeployCommand::Stop })
            } else {
                deploy_go(ProxyDeployState::PostingSecrets, ProxyDeployCommand::PostSecrets)
            },
        (ProxyDeployState::PostingSecrets, ProxyDeployEvent::Written(_)) => deploy_go(ProxyDeployState::PuttingCertificate, ProxyDeployCommand::PutCertificate),
        (ProxyDeployState::PuttingCertificate, ProxyDeployEvent::Written(ok)) =>
            if ok {
                (ProxyDeployState::PuttingProxy, ProxyDeployAction { report: Some(ProxyDeployNote::CertificateCreated), command: ProxyDeployCommand::PutProxy })
            } else {
                deploy_fail(ProxyDeployNote::CertificateWriteFailed)
            },
        (ProxyDeployState::PuttingProxy, ProxyDeployEvent::Written(ok)) =>
            if ok {
                (ProxyDeployState::Finished, ProxyDeployAction { report: Some(ProxyDeployNote::ProxyDeployed), command: ProxyDeployCommand::Stop })
            } else {
                deploy_fail(ProxyDeployNote::ProxyWriteFailed)
            },
        _ => deploy_go(state, ProxyDeployCommand::Nothing),
    }
}

/// The text of what is reported when deploying the proxy of bundle `bundle_id`.
pub open spec fn proxy_deploy_note_text(note: ProxyDeployNote, bundle_id: Seq<char>) -> Seq<char> {
    match note {
        ProxyDeployNote::AlreadyExists => "proxy '"@ + bundle_id + "' already exists"@,
        ProxyDeployNote::BundleMissing => "proxy certificate bundle '"@ + bundle_id + "' does not exist"@,
        ProxyDeployNote::ResourcesExist => "cancelled, some resources already exist"@,
        ProxyDeployNote::NoInstances => "number of instances cannot be zero"@,
        ProxyDeployNote::Declined => "cancelled, proxy '"@ + bundle_id + "' not deployed"@,
        ProxyDeployNote::DryRun => "dry-run mode, proxy not deployed"@,
        ProxyDeployNote::CertificateWriteFailed => "error writing certificate configuration '"@ + bundle_id + "-cert'"@,
        ProxyDeployNote::ProxyWriteFailed => "error writing proxy configuration '"@ + bundle_id + "'"@,
        ProxyDeployNote::CertificateCreated => "certificate '"@ + bundle_id + "-cert' created"@,
        ProxyDeployNote::ProxyDeployed => "proxy '"@ + bundle_id + "' deployed"@,
    }
}

fn framed(before: &str, middle: &str, after: &str) -> (m: String)
    ensures
        m@ == before@ + middle@ + after@,
{
    let mut m = String::from_str(before);
    m.append(middle);
    m.append(after);
    m
}

/// The text of what is reported when deploying the proxy of bundle `bundle_id`.
pub fn proxy_deploy_note(note: ProxyDeployNote, bundle_id: &str) -> (m: String)
    ensures
        m@ == proxy_deploy_note_text(note, bundle_id@),
{
    match note {
        ProxyDeployNote::AlreadyExists => framed("proxy '", bundle_id, "' already exists"),
        ProxyDeployNote::BundleMissing => framed("proxy certificate bundle '", bundle_id, "' does not exist"),
        ProxyDeployNote::ResourcesExist => String::from_str("cancelled, some resources already exist"),
        ProxyDeployNote::NoInstances => String::from_str("number of instances cannot be zero"),
        ProxyDeployNote::Declined => framed("cancelled, proxy '", bundle_id, "' not deployed"),
        ProxyDeployNote::DryRun => String::from_str("dry-run mode, proxy not deployed"),
        ProxyDeployNote::CertificateWriteFailed => framed("error writing certificate configuration '", bundle_id, "-cert'"),
        ProxyDeployNote::ProxyWriteFailed => framed("error writing proxy configuration '", bundle_id, "'"),
        ProxyDeployNote::CertificateCreated => framed("certificate '", bundle_id, "-cert' created"),
        ProxyDeployNote::ProxyDeployed => framed("proxy '", bundle_id, "' deployed"),
    }
}

/// The question whether to deploy the proxy.
pub fn deploy_question(bundle_id: &str) -> (q: String)
    ensures
        q@ == "deploy proxy '"@ + bundle_id@ + "'?"@,
{
    framed("deploy proxy '", bundle_id, "'?")
}

/// What deploying a proxy writes: the secrets in the order they are posted
/// (server certificate, private key, ca certificate), each as name and
/// value, the certificate and the proxy.
pub struct ProxyDeployWrites {
    pub names: ProxyResourceNames,
    pub secrets: Vec<(String, String)>,
    pub certificate: CertificateSecrets,
    pub proxy: KafkaProxy,
}

/// What deploying the proxy of bundle `bundle_id` writes, from the contents
/// of the bundle and the asked processors, memory and instances.
pub fn proxy_deploy_writes(
    bundle_id: &str,
    server_certificate: String,
    private_key: String,
    ca_certificate: String,
    cpus: &str,
    mem: u64,
    instances: u64,
    acl_group_enabled: bool,
    enable_schema_store: bool,
    zone: KafkaProxyZone,
) -> (w: ProxyDeployWrites)
    ensures
        w.names.certificate@ == bundle_id@ + "-cert"@,
        w.names.ca_certificate_secret@ == bundle_id@ + "-ca-cert"@,
        w.names.private_key_secret@ == bundle_id@ + "-key"@,
        w.names.server_certificate_secret@ == bundle_id@ + "-server-cert"@,
        w.secrets@.len() == 3,
        w.secrets@[0].0@ == w.names.server_certificate_secret@ && w.secrets@[0].1 == server_certificate,
        w.secrets@[1].0@ == w.names.private_key_secret@ && w.secrets@[1].1 == private_key,
        w.secrets@[2].0@ == w.names.ca_certificate_secret@ && w.secrets@[2].1 == ca_certificate,
        w.certificate.cert_chain_secret@ == w.names.server_certificate_secret@,
        w.certificate.key_secret@ == w.names.private_key_secret@,
        w.certificate.passphrase_secret is None,
        (w.proxy.name matches Some(n) && n@ == bundle_id@),
        w.proxy.secret_name_ca_chain@ == w.names.ca_certificate_secret@,
        w.proxy.certificate@ == w.names.certificate@,
        w.proxy.cpus@ == cpus@,
        w.proxy.mem == mem as i64,
        w.proxy.instances == instances,
        w.proxy.enable_kafka_acl_groups == Some(acl_group_enabled),
        w.proxy.validations@.len() == 1 && w.proxy.validations@[0] is None,
        w.proxy.schema_store == Some(enable_schema_store),
        (w.proxy.schema_store_cpus matches Some(c) && c@ == "0.1"@),
        w.proxy.schema_store_mem == Some(256i64),
        w.proxy.zone == zone,
{
    let names = proxy_resource_names(bundle_id);
    let certificate = proxy_certificate(&names);
    let proxy = proxy_deployment(bundle_id, &names, cpus, mem, instances, acl_group_enabled, enable_schema_store, zone);
    let mut secrets: Vec<(String, String)> = Vec::new();
    secrets.push((names.server_certificate_secret.clone(), server_certificate));
    secrets.push((names.private_key_secret.clone(), private_key));
    secrets.push((names.ca_certificate_secret.clone(), ca_certificate));
    ProxyDeployWrites { names, secrets, certificate, proxy }
}

/// Nothing is written before the user has agreed to deploy outside dry-run
/// mode, and the certificate and the proxy are put only after the step before
/// them has finished.
pub proof fn lemma_deploy_writes_follow_confirmation(state: ProxyDeployState, event: ProxyDeployEvent, dry_run: bool)
    ensures
        ({
            let c = proxy_deploy_transition(state, event, dry_run).1.command;
            &&& c == ProxyDeployCommand::PostSecrets ==> state == ProxyDeployState::Confirming && event == ProxyDeployEvent::Answered(true) && !dry_run
            &&& c == ProxyDeployCommand::PutCertificate ==> state == ProxyDeployState::PostingSecrets
            &&& c == ProxyDeployCommand::PutProxy ==> state == ProxyDeployState::PuttingCertificate && event == ProxyDeployEvent::Written(true)
        }),
{
}

/// Each check that fails ends deploying with its error, whatever the
/// mode: a proxy that exists, a missing bundle, resources that exist, no
/// instances and a refusal. Each check that passes leads to the next step,
/// and after the secrets the certificate and then the proxy are put.
pub proof fn lemma_deploy_checks(dry_run: bool, instances: u64, secrets_written: bool)
    ensures
        proxy_deploy_transition(ProxyDeployState::CheckingProxy, ProxyDeployEvent::ProxyFound(true), dry_run)
            == (ProxyDeployState::Finished, ProxyDeployAction { report: Some(ProxyDeployNote::AlreadyExists), command: ProxyDeployCommand::Fail }),
        proxy_deploy_transition(ProxyDeployState::CheckingProxy, ProxyDeployEvent::ProxyFound(false), dry_run)
            == (ProxyDeployState::CheckingBundle, ProxyDeployAction { report: None, command: ProxyDeployCommand::CheckBundle }),
        proxy_deploy_transition(ProxyDeployState::CheckingBundle, ProxyDeployEvent::BundleFound(false), dry_run)
            == (ProxyDeployState::Finished, ProxyDeployAction { report: Some(ProxyDeployNote::BundleMissing), command: ProxyDeployCommand::Fail }),
        proxy_deploy_transition(ProxyDeployState::CheckingBundle, ProxyDeployEvent::BundleFound(true), dry_run)
            == (ProxyDeployState::CheckingResources, ProxyDeployAction { report: None, command: ProxyDeployCommand::CheckResources }),
        proxy_deploy_transition(ProxyDeployState::CheckingResources, ProxyDeployEvent::ResourcesFound(true), dry_run)
            == (ProxyDeployState::Finished, ProxyDeployAction { report: Some(ProxyDeployNote::ResourcesExist), command: ProxyDeployCommand::Fail }),
        proxy_deploy_transition(ProxyDeployState::CheckingResources, ProxyDeployEvent::ResourcesFound(false), dry_run)
            == (ProxyDeployState::Configuring, ProxyDeployAction { report: None, command: ProxyDeployCommand::Configure }),
        instances == 0 ==> proxy_deploy_transition(ProxyDeployState::Configuring, ProxyDeployEvent::Configured(instances), dry_run)
            == (ProxyDeployState::Finished, ProxyDeployAction { report: Some(ProxyDeployNote::NoInstances), command: ProxyDeployCommand::Fail }),
        instances > 0 ==> proxy_deploy_transition(ProxyDeployState::Configuring, ProxyDeployEvent::Configured(instances), dry_run)
            == (ProxyDeployState::Confirming, ProxyDeployAction { report: None, command: ProxyDeployCommand::AskConfirmation }),
        proxy_deploy_transition(ProxyDeployState::Confirming, ProxyDeployEvent::Answered(false), dry_run)
            == (ProxyDeployState::Finished, ProxyDeployAction { report: Some(ProxyDeployNote::Declined), command: ProxyDeployCommand::Fail }),
        dry_run ==> proxy_deploy_transition(ProxyDeployState::Confirming, ProxyDeployEvent::Answered(true), dry_run)
            == (ProxyDeployState::Finished, ProxyDeployAction { report: Some(ProxyDeployNote::DryRun), command: ProxyDeployCommand::Stop }),
        !dry_run ==> proxy_deploy_transition(ProxyDeployState::Confirming, ProxyDeployEvent::Answered(true), dry_run)
            == (ProxyDeployState::PostingSecrets, ProxyDeployAction { report: None, command: ProxyDeployCommand::PostSecrets }),
        proxy_deploy_transition(ProxyDeployState::PostingSecrets, ProxyDeployEvent::Written(secrets_written), dry_run)
            == (ProxyDeployState::PuttingCertificate, ProxyDeployAction { report: None, command: ProxyDeployCommand::PutCertificate }),
        proxy_deploy_transition(ProxyDeployState::PuttingCertificate, ProxyDeployEvent::Written(true), dry_run)
            == (ProxyDeployState::PuttingProxy, ProxyDeployAction { report: Some(ProxyDeployNote::CertificateCreated), command: ProxyDeployCommand::PutProxy }),
        proxy_deploy_transition(ProxyDeployState::PuttingCertificate, ProxyDeployEvent::Written(false), dry_run)
            == (ProxyDeployState::Finished, ProxyDeployAction { report: Some(ProxyDeployNote::CertificateWriteFailed), command: ProxyDeployCommand::Fail }),
        proxy_deploy_transition(ProxyDeployState::PuttingProxy, ProxyDeployEvent::Written(true), dry_run)
            == (ProxyDeployState::Finished, ProxyDeployAction { report: Some(ProxyDeployNote::ProxyDeployed), command: ProxyDeployCommand::Stop }),
        proxy_deploy_transition(ProxyDeployState::PuttingProxy, ProxyDeployEvent::Written(false), dry_run)
            == (ProxyDeployState::Finished, ProxyDeployAction { report: Some(ProxyDeployNote::ProxyWriteFailed), command: ProxyDeployCommand::Fail }),
{
}

/// In dry-run mode deploying writes nothing: from the states before the
/// writes every step stays before them or ends, and no write is issued.
pub proof fn lemma_deploy_dry_run_writes_nothing(state: ProxyDeployState, event: ProxyDeployEvent)
    requires
        state == ProxyDeployState::CheckingProxy || state == ProxyDeployState::CheckingBundle || state == ProxyDeployState::CheckingResources
            || state == ProxyDeployState::Configuring || state == ProxyDeployState::Confirming || state == ProxyDeployState::Finished,
    ensures
        ({
            let next = proxy_deploy_transition(state, event, true);
            &&& next.1.command != ProxyDeployCommand::PostSecrets
            &&& next.1.command != ProxyDeployCommand::PutCertificate
            &&& next.1.command != ProxyDeployCommand::PutProxy
            &&& (next.0 == ProxyDeployState::CheckingProxy || next.0 == ProxyDeployState::CheckingBundle || next.0 == ProxyDeployState::CheckingResources
                || next.0 == ProxyDeployState::Configuring || next.0 == ProxyDeployState::Confirming || next.0 == ProxyDeployState::Finished)
        }),
{
}

/// The texts name the proxy and the resources it is made of.
pub proof fn lemma_proxy_texts(bundle_id: Seq<char>, proxy_id: Seq<char>, certificate: Seq<char>)
    ensures
        proxy_deploy_note_text(ProxyDeployNote::AlreadyExists, bundle_id) == "proxy '"@ + bundle_id + "' already exists"@,
        proxy_deploy_note_text(ProxyDeployNote::BundleMissing, bundle_id) == "proxy certificate bundle '"@ + bundle_id + "' does not exist"@,
        proxy_deploy_note_text(ProxyDeployNote::Declined, bundle_id) == "cancelled, proxy '"@ + bundle_id + "' not deployed"@,
        proxy_deploy_note_text(ProxyDeployNote::DryRun, bundle_id) == "dry-run mode, proxy not deployed"@,
        proxy_deploy_note_text(ProxyDeployNote::ProxyDeployed, bundle_id) == "proxy '"@ + bundle_id + "' deployed"@,
        proxy_undeploy_note_text(ProxyUndeployNote::Declined, proxy_id, certificate) == "cancelled, proxy '"@ + proxy_id + "' not undeployed"@,
        proxy_undeploy_note_text(ProxyUndeployNote::DryRunProxy, proxy_id, certificate) == "dry-run mode, proxy not undeployed"@,
        proxy_undeploy_note_text(ProxyUndeployNote::ProxyUndeployed, proxy_id, certificate) == "proxy '"@ + proxy_id + "' undeployed"@,
        proxy_undeploy_note_text(ProxyUndeployNote::CertificateDeleted, proxy_id, certificate) == "certificate '"@ + certificate + "' deleted"@,
{
}

/// Where undeploying a proxy stands.
#[derive(Debug, PartialEq, Eq, Structural, Clone, Copy)]
pub enum ProxyUndeployState {
    Confirming,
    DeletingProxy,
    ConfirmingCertificate,
    WaitingForProxy,
    DeletingCertificate,
    ConfirmingSecrets,
    WaitingForCertificate,
    DeletingSecrets,
    Finished,
}

/// What undeploying a proxy learns.
#[derive(Debug, PartialEq, Eq, Structural, Clone, Copy)]
pub enum ProxyUndeployEvent {
    /// The user's answer to the last question.
    Answered(bool),
    /// A deletion finished.
    Deleted,
    /// Whether the resource waited for is gone.
    Gone(bool),
}

/// What is reported when undeploying a proxy.
#[derive(Debug, PartialEq, Eq, Structural, Clone, Copy)]
pub enum ProxyUndeployNote {
    Declined,
    DryRunProxy,
    DryRunCertificate,
    DryRunSecrets,
    ProxyUndeployed,
    CertificateDeleted,
    SecretsDeleted,
}

/// What undeploying a proxy does next.
#[derive(Debug, PartialEq, Eq, Structural, Clone, Copy)]
pub enum ProxyUndeployCommand {
    /// Delete the proxy configuration.
    DeleteProxy,
    /// Ask whether to delete the certificate.
    AskCertificate,
    /// Wait a moment and check whether the proxy is gone.
    PollProxy,
    /// Delete the certificate configuration.
    DeleteCertificate,
    /// Ask whether to delete the secrets.
    AskSecrets,
    /// Wait a moment and check whether the certificate is gone.
    PollCertificate,
    /// Delete the secrets.
    DeleteSecrets,
    /// Stop.
    Stop,
    /// Nothing: the event does not belong to this state.
    Nothing,
}

/// What undeploying a proxy reports, if anything, and then does.
#[derive(Debug, PartialEq, Eq, Structural, Clone, Copy)]
pub struct ProxyUndeployAction {
    pub report: Option<ProxyUndeployNote>,
    pub command: ProxyUndeployCommand,
}

/// The step of undeploying a proxy: after the user agrees, outside dry-run
/// mode, the proxy is deleted; after the user agrees to delete the
/// certificate and the proxy is gone, the certificate is deleted; after the
/// user agrees to delete the secrets and the certificate is gone, the secrets
/// are deleted. Declining to undeploy cancels; declining a later question
/// stops; dry-run mode stops with a warning.
pub open spec fn proxy_undeploy_transition(
    state: ProxyUndeployState,
    event: ProxyUndeployEvent,
    dry_run: bool,
) -> (ProxyUndeployState, ProxyUndeployAction) {
    let go = |s: ProxyUndeployState, c: ProxyUndeployCommand| (s, ProxyUndeployAction { report: None, command: c });
    let stop = |n: Option<ProxyUndeployNote>| (ProxyUndeployState::Finished, ProxyUndeployAction { report: n, command: ProxyUndeployCommand::Stop });
    match (state, event) {
        (ProxyUndeployState::Confirming, ProxyUndeployEvent::Answered(yes)) =>
            if !yes {
                stop(Some(ProxyUndeployNote::Declined))
            } else if dry_run {
                stop(Some(ProxyUndeployNote::DryRunProxy))
            } else {
                go(ProxyUndeployState::DeletingProxy, ProxyUndeployCommand::DeleteProxy)
            },
        (ProxyUndeployState::DeletingProxy, ProxyUndeployEvent::Deleted) =>
            (ProxyUndeployState::ConfirmingCertificate, ProxyUndeployAction { report: Some(ProxyUndeployNote::ProxyUndeployed), command: ProxyUndeployCommand::AskCertificate }),
        (ProxyUndeployState::ConfirmingCertificate, ProxyUndeployEvent::Answered(yes)) =>
            if !yes {
                stop(None)
            } else if dry_run {
                stop(Some(ProxyUndeployNote::DryRunCertificate))
            } else {
                go(ProxyUndeployState::WaitingForProxy, ProxyUndeployCommand::PollProxy)
            },
        (ProxyUndeployState::WaitingForProxy, ProxyUndeployEvent::Gone(gone)) =>
            if gone {
                go(ProxyUndeployState::DeletingCertificate, ProxyUndeployCommand::DeleteCertificate)
            } else {
                go(ProxyUndeployState::WaitingForProxy, ProxyUndeployCommand::PollProxy)
            },
        (ProxyUndeployState::DeletingCertificate, ProxyUndeployEvent::Deleted) =>
            (ProxyUndeployState::ConfirmingSecrets, ProxyUndeployAction { report: Some(ProxyUndeployNote::CertificateDeleted), command: ProxyUndeployCommand::AskSecrets }),
        (ProxyUndeployState::ConfirmingSecrets, ProxyUndeployEvent::Answered(yes)) =>
            if !yes {
                stop(None)
            } else if dry_run {
                stop(Some(ProxyUndeployNote::DryRunSecrets))
            } else {
                go(ProxyUndeployState::WaitingForCertificate, ProxyUndeployCommand::PollCertificate)
            },
        (ProxyUndeployState::WaitingForCertificate, ProxyUndeployEvent::Gone(gone)) =>
            if gone {
                go(ProxyUndeployState::DeletingSecrets, ProxyUndeployCommand::DeleteSecrets)
            } else {
                go(ProxyUndeployState::WaitingForCertificate, ProxyUndeployCommand::PollCertificate)
            },
        (ProxyUndeployState::DeletingSecrets, ProxyUndeployEvent::Deleted) => stop(Some(ProxyUndeployNote::SecretsDeleted)),
        _ => go(state, ProxyUndeployCommand::Nothing),
    }
}

fn undeploy_go(s: ProxyUndeployState, c: ProxyUndeployCommand) -> (next: (ProxyUndeployState, ProxyUndeployAction))
    ensures
        next == (s, ProxyUndeployAction { report: None, command: c }),
{
    (s, ProxyUndeployAction { report: None, command: c })
}

fn undeploy_stop(n: Option<ProxyUndeployNote>) -> (next: (ProxyUndeployState, ProxyUndeployAction))
    ensures
        next == (ProxyUndeployState::Finished, ProxyUndeployAction { report: n, command: ProxyUndeployCommand::Stop }),
{
    (ProxyUndeployState::Finished, ProxyUndeployAction { report: n, command: ProxyUndeployCommand::Stop })
}

/// The next step of undeploying a proxy.
pub fn proxy_undeploy_step(state: ProxyUndeployState, event: ProxyUndeployEvent, dry_run: bool) -> (next: (ProxyUndeployState, ProxyUndeployAction))
    ensures
        next == proxy_undeploy_transition(state, event, dry_run),
{
    match (state, event) {
        (ProxyUndeployState::Confirming, ProxyUndeployEvent::Answered(yes)) =>
            if !yes {
                undeploy_stop(Some(ProxyUndeployNote::Declined))
            } else if dry_run {
                undeploy_stop(Some(ProxyUndeployNote::DryRunProxy))
            } else {
                undeploy_go(ProxyUndeployState::DeletingProxy, ProxyUndeployCommand::DeleteProxy)
            },
        (ProxyUndeployState::DeletingProxy, ProxyUndeployEvent::Deleted) =>
            (ProxyUndeployState::ConfirmingCertificate, ProxyUndeployAction { report: Some(ProxyUndeployNote::ProxyUndeployed), command: ProxyUndeployCommand::AskCertificate }),
        (ProxyUndeployState::ConfirmingCertificate, ProxyUndeployEvent::Answered(yes)) =>
            if !yes {
                undeploy_stop(None)
            } else if dry_run {
                undeploy_stop(Some(ProxyUndeployNote::DryRunCertificate))
            } else {
                undeploy_go(ProxyUndeployState::WaitingForProxy, ProxyUndeployCommand::PollProxy)
            },
        (ProxyUndeployState::WaitingForProxy, ProxyUndeployEvent::Gone(gone)) =>
            if gone {
                undeploy_go(ProxyUndeployState::DeletingCertificate, ProxyUndeployCommand::DeleteCertificate)
            } else {
                undeploy_go(ProxyUndeployState::WaitingForProxy, ProxyUndeployCommand::PollProxy)
            },
        (ProxyUndeployState::DeletingCertificate, ProxyUndeployEvent::Deleted) =>
            (ProxyUndeployState::ConfirmingSecrets, ProxyUndeployAction { report: Some(ProxyUndeployNote::CertificateDeleted), command: ProxyUndeployCommand::AskSecrets }),
        (ProxyUndeployState::ConfirmingSecrets, ProxyUndeployEvent::Answered(yes)) =>
            if !yes {
                undeploy_stop(None)
            } else if dry_run {
                undeploy_stop(Some(ProxyUndeployNote::DryRunSecrets))
            } else {
                undeploy_go(ProxyUndeployState::WaitingForCertificate, ProxyUndeployCommand::PollCertificate)
            },
        (ProxyUndeployState::WaitingForCertificate, ProxyUndeployEvent::Gone(gone)) =>
            if gone {
                undeploy_go(ProxyUndeployState::DeletingSecrets, ProxyUndeployCommand::DeleteSecrets)
            } else {
                undeploy_go(ProxyUndeployState::WaitingForCertificate, ProxyUndeployCommand::PollCertificate)
            },
        (ProxyUndeployState::DeletingSecrets, ProxyUndeployEvent::Deleted) => undeploy_stop(Some(ProxyUndeployNote::SecretsDeleted)),
        _ => undeploy_go(state, ProxyUndeployCommand::Nothing),
    }
}

/// Whether a command deletes something.
pub open spec fn deletes(c: ProxyUndeployCommand) -> bool {
    c == ProxyUndeployCommand::DeleteProxy || c == ProxyUndeployCommand::DeleteCertificate || c == ProxyUndeployCommand::DeleteSecrets
}

/// In dry-run mode undeploying deletes nothing: from the start, and from the
/// end, every step stays at the start or the end and deletes nothing.
pub proof fn lemma_dry_run_deletes_nothing(state: ProxyUndeployState, event: ProxyUndeployEvent)
    requires
        state == ProxyUndeployState::Confirming || state == ProxyUndeployState::Finished,
    ensures
        ({
            let next = proxy_undeploy_transition(state, event, true);
            &&& next.0 == ProxyUndeployState::Confirming || next.0 == ProxyUndeployState::Finished
            &&& !deletes(next.1.command)
        }),
{
}

/// The proxy is deleted only after the user agreed to undeploy; the
/// certificate only once the proxy is gone, which is waited for only after
/// the user agreed to delete the certificate; the secrets only once the
/// certificate is gone, which is waited for only after the user agreed to
/// delete the secrets. The questions about the certificate and the secrets
/// are reached only from the deletion before them.
pub proof fn lemma_undeploy_order(state: ProxyUndeployState, event: ProxyUndeployEvent, dry_run: bool)
    ensures
        ({
            let next = proxy_undeploy_transition(state, event, dry_run);
            &&& next.1.command == ProxyUndeployCommand::DeleteProxy
                ==> state == ProxyUndeployState::Confirming && event == ProxyUndeployEvent::Answered(true) && !dry_run
            &&& next.1.command == ProxyUndeployCommand::DeleteCertificate
                ==> state == ProxyUndeployState::WaitingForProxy && event == ProxyUndeployEvent::Gone(true)
            &&& next.1.command == ProxyUndeployCommand::DeleteSecrets
                ==> state == ProxyUndeployState::WaitingForCertificate && event == ProxyUndeployEvent::Gone(true)
            &&& next.0 == ProxyUndeployState::WaitingForProxy
                ==> state == ProxyUndeployState::WaitingForProxy
                    || (state == ProxyUndeployState::ConfirmingCertificate && event == ProxyUndeployEvent::Answered(true))
            &&& next.0 == ProxyUndeployState::WaitingForCertificate
                ==> state == ProxyUndeployState::WaitingForCertificate
                    || (state == ProxyUndeployState::ConfirmingSecrets && event == ProxyUndeployEvent::Answered(true))
            &&& next.0 == ProxyUndeployState::ConfirmingSecrets && state != ProxyUndeployState::ConfirmingSecrets
                ==> state == ProxyUndeployState::DeletingCertificate
            &&& next.0 == ProxyUndeployState::ConfirmingCertificate && state != ProxyUndeployState::ConfirmingCertificate
                ==> state == ProxyUndeployState::DeletingProxy
        }),
{
}

/// Undeploying goes on until it is done: a resource that is not yet gone is
/// polled again, one that is gone is deleted next, every deletion leads to
/// the next question or to the end, and once the user agreed to delete the
/// secrets the conversation ends only through deleting them.
pub proof fn lemma_undeploy_progress(dry_run: bool, state: ProxyUndeployState, event: ProxyUndeployEvent)
    ensures
        proxy_undeploy_transition(ProxyUndeployState::WaitingForProxy, ProxyUndeployEvent::Gone(false), dry_run)
            == (ProxyUndeployState::WaitingForProxy, ProxyUndeployAction { report: None, command: ProxyUndeployCommand::PollProxy }),
        proxy_undeploy_transition(ProxyUndeployState::WaitingForCertificate, ProxyUndeployEvent::Gone(false), dry_run)
            == (ProxyUndeployState::WaitingForCertificate, ProxyUndeployAction { report: None, command: ProxyUndeployCommand::PollCertificate }),
        proxy_undeploy_transition(ProxyUndeployState::WaitingForProxy, ProxyUndeployEvent::Gone(true), dry_run)
            == (ProxyUndeployState::DeletingCertificate, ProxyUndeployAction { report: None, command: ProxyUndeployCommand::DeleteCertificate }),
        proxy_undeploy_transition(ProxyUndeployState::WaitingForCertificate, ProxyUndeployEvent::Gone(true), dry_run)
            == (ProxyUndeployState::DeletingSecrets, ProxyUndeployAction { report: None, command: ProxyUndeployCommand::DeleteSecrets }),
        proxy_undeploy_transition(ProxyUndeployState::DeletingProxy, ProxyUndeployEvent::Deleted, dry_run)
            == (ProxyUndeployState::ConfirmingCertificate, ProxyUndeployAction { report: Some(ProxyUndeployNote::ProxyUndeployed), command: ProxyUndeployCommand::AskCertificate }),
        proxy_undeploy_transition(ProxyUndeployState::DeletingCertificate, ProxyUndeployEvent::Deleted, dry_run)
            == (ProxyUndeployState::ConfirmingSecrets, ProxyUndeployAction { report: Some(ProxyUndeployNote::CertificateDeleted), command: ProxyUndeployCommand::AskSecrets }),
        !dry_run ==> proxy_undeploy_transition(ProxyUndeployState::Confirming, ProxyUndeployEvent::Answered(true), dry_run)
            == (ProxyUndeployState::DeletingProxy, ProxyUndeployAction { report: None, command: ProxyUndeployCommand::DeleteProxy }),
        !dry_run ==> proxy_undeploy_transition(ProxyUndeployState::ConfirmingCertificate, ProxyUndeployEvent::Answered(true), dry_run)
            == (ProxyUndeployState::WaitingForProxy, ProxyUndeployAction { report: None, command: ProxyUndeployCommand::PollProxy }),
        !dry_run ==> proxy_undeploy_transition(ProxyUndeployState::ConfirmingSecrets, ProxyUndeployEvent::Answered(true), dry_run)
            == (ProxyUndeployState::WaitingForCertificate, ProxyUndeployAction { report: None, command: ProxyUndeployCommand::PollCertificate }),
        proxy_undeploy_transition(ProxyUndeployState::Confirming, ProxyUndeployEvent::Answered(false), dry_run)
            == (ProxyUndeployState::Finished, ProxyUndeployAction { report: Some(ProxyUndeployNote::Declined), command: ProxyUndeployCommand::Stop }),
        ({
            let next = proxy_undeploy_transition(state, event, dry_run);
            (state == ProxyUndeployState::WaitingForCertificate || state == ProxyUndeployState::DeletingSecrets)
                && next.0 == ProxyUndeployState::Finished
                ==> state == ProxyUndeployState::DeletingSecrets && event == ProxyUndeployEvent::Deleted
        }),
        ({
            let next = proxy_undeploy_transition(state, event, dry_run);
            state == ProxyUndeployState::WaitingForCertificate ==>
                next.0 == ProxyUndeployState::WaitingForCertificate || next.0 == ProxyUndeployState::DeletingSecrets
        }),
        ({
            let next = proxy_undeploy_transition(state, event, dry_run);
            state == ProxyUndeployState::WaitingForProxy ==>
                next.0 == ProxyUndeployState::WaitingForProxy || next.0 == ProxyUndeployState::DeletingCertificate
        }),
{
}

/// The text of what is reported when undeploying proxy `proxy_id` with
/// certificate `certificate`.
pub open spec fn proxy_undeploy_note_text(note: ProxyUndeployNote, proxy_id: Seq<char>, certificate: Seq<char>) -> Seq<char> {
    match note {
        ProxyUndeployNote::Declined => "cancelled, proxy '"@ + proxy_id + "' not undeployed"@,
        ProxyUndeployNote::DryRunProxy => "dry-run mode, proxy not undeployed"@,
        ProxyUndeployNote::DryRunCertificate => "dry-run mode, certificate not deleted"@,
        ProxyUndeployNote::DryRunSecrets => "dry-run mode, secrets not deleted"@,
        ProxyUndeployNote::ProxyUndeployed => "proxy '"@ + proxy_id + "' undeployed"@,
        ProxyUndeployNote::CertificateDeleted => "certificate '"@ + certificate + "' deleted"@,
        ProxyUndeployNote::SecretsDeleted => Seq::empty(),
    }
}

/// The text of what is reported when undeploying a proxy; empty for the
/// deleted secrets, which are reported one by one.
pub fn proxy_undeploy_note(note: ProxyUndeployNote, proxy_id: &str, certificate: &str) -> (m: String)
    ensures
        m@ == proxy_undeploy_note_text(note, proxy_id@, certificate@),
{
    match note {
        ProxyUndeployNote::Declined => framed("cancelled, proxy '", proxy_id, "' not undeployed"),
        ProxyUndeployNote::DryRunProxy => String::from_str("dry-run mode, proxy not undeployed"),
        ProxyUndeployNote::DryRunCertificate => String::from_str("dry-run mode, certificate not deleted"),
        ProxyUndeployNote::DryRunSecrets => String::from_str("dry-run mode, secrets not deleted"),
        ProxyUndeployNote::ProxyUndeployed => framed("proxy '", proxy_id, "' undeployed"),
        ProxyUndeployNote::CertificateDeleted => framed("certificate '", certificate, "' deleted"),
        ProxyUndeployNote::SecretsDeleted => String::new(),
    }
}

/// The question whether to undeploy the proxy.
pub fn undeploy_question(proxy_id: &str) -> (q: String)
    ensures
        q@ == "undeploy proxy '"@ + proxy_id@ + "'?"@,
{
    framed("undeploy proxy '", proxy_id, "'?")
}

/// The question whether to delete the certificate of the proxy.
pub fn delete_certificate_question(certificate: &str) -> (q: String)
    ensures
        q@ == "delete certificate '"@ + certificate@ + "'?"@,
{
    framed("delete certificate '", certificate, "'?")
}

/// The report that a secret was deleted.
pub fn secret_deleted_message(secret: &str) -> (m: String)
    ensures
        m@ == "secret '"@ + secret@ + "' deleted"@,
{
    framed("secret '", secret, "' deleted")
}

/// The error when the proxy to undeploy does not exist.
pub fn missing_proxy_error(proxy_id: &str) -> (m: String)
    ensures
        m@ == "proxy '"@ + proxy_id@ + "' does not exists"@,
{
    framed("proxy '", proxy_id, "' does not exists")
}

} // verus!
