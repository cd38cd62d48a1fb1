use dsh::aclgroup::{grant_acl_group, revoke_acl_group, KafkaAclGroup, KafkaAclGroupTopic, KafkaAclGroupTopicKind};
use dsh::appcatalog::app_configuration_entries;
use dsh::bundle::{bundle_exists_warning, bundle_override, bundle_store_report};
use dsh::certificate_delete::{
    certificate_delete_note, certificate_delete_step, certificate_secret_deleted, delete_question, missing_certificate_error, CertificateDeleteAction,
    CertificateDeleteCommand, CertificateDeleteEvent, CertificateDeleteNote, CertificateDeleteState,
};
use dsh::proxy::KafkaProxyZone;
use dsh::proxy_flow::{
    delete_certificate_question, deploy_question, missing_proxy_error, proxy_deploy_note, proxy_deploy_step, proxy_deploy_writes, proxy_undeploy_note,
    proxy_undeploy_step, secret_deleted_message, undeploy_question, ProxyDeployAction, ProxyDeployCommand, ProxyDeployEvent, ProxyDeployNote,
    ProxyDeployState, ProxyUndeployCommand, ProxyUndeployEvent, ProxyUndeployNote, ProxyUndeployState,
};

fn deploy_run(events: &[ProxyDeployEvent], dry_run: bool) -> Vec<(ProxyDeployState, ProxyDeployAction)> {
    let mut state = ProxyDeployState::CheckingProxy;
    let mut out = Vec::new();
    for event in events {
        let (next, action) = proxy_deploy_step(state, *event, dry_run);
        state = next;
        out.push((next, action));
    }
    out
}

#[test]
fn proxy_deploy_goes_through_every_step() {
    let steps = deploy_run(
        &[
            ProxyDeployEvent::ProxyFound(false),
            ProxyDeployEvent::BundleFound(true),
            ProxyDeployEvent::ResourcesFound(false),
            ProxyDeployEvent::Configured(2),
            ProxyDeployEvent::Answered(true),
            ProxyDeployEvent::Written(false),
            ProxyDeployEvent::Written(true),
            ProxyDeployEvent::Written(true),
        ],
        false,
    );
    let commands: Vec<ProxyDeployCommand> = steps.iter().map(|(_, a)| a.command).collect();
    assert_eq!(
        commands,
        vec![
            ProxyDeployCommand::CheckBundle,
            ProxyDeployCommand::CheckResources,
            ProxyDeployCommand::Configure,
            ProxyDeployCommand::AskConfirmation,
            ProxyDeployCommand::PostSecrets,
            ProxyDeployCommand::PutCertificate,
            ProxyDeployCommand::PutProxy,
            ProxyDeployCommand::Stop,
        ]
    );
    assert_eq!(steps[6].1.report, Some(ProxyDeployNote::CertificateCreated));
    assert_eq!(steps[7], (ProxyDeployState::Finished, ProxyDeployAction { report: Some(ProxyDeployNote::ProxyDeployed), command: ProxyDeployCommand::Stop }));
}

#[test]
fn proxy_deploy_failures() {
    let fail = |note| (ProxyDeployState::Finished, ProxyDeployAction { report: Some(note), command: ProxyDeployCommand::Fail });
    assert_eq!(deploy_run(&[ProxyDeployEvent::ProxyFound(true)], false)[0], fail(ProxyDeployNote::AlreadyExists));
    assert_eq!(deploy_run(&[ProxyDeployEvent::ProxyFound(false), ProxyDeployEvent::BundleFound(false)], false)[1], fail(ProxyDeployNote::BundleMissing));
    let resources = [ProxyDeployEvent::ProxyFound(false), ProxyDeployEvent::BundleFound(true), ProxyDeployEvent::ResourcesFound(true)];
    assert_eq!(deploy_run(&resources, false)[2], fail(ProxyDeployNote::ResourcesExist));
    let mut configured = resources.to_vec();
    configured[2] = ProxyDeployEvent::ResourcesFound(false);
    configured.push(ProxyDeployEvent::Configured(0));
    assert_eq!(deploy_run(&configured, false)[3], fail(ProxyDeployNote::NoInstances));
    configured[3] = ProxyDeployEvent::Configured(1);
    configured.push(ProxyDeployEvent::Answered(false));
    assert_eq!(deploy_run(&configured, false)[4], fail(ProxyDeployNote::Declined));
    configured[4] = ProxyDeployEvent::Answered(true);
    assert_eq!(
        deploy_run(&configured, true)[4],
        (ProxyDeployState::Finished, ProxyDeployAction { report: Some(ProxyDeployNote::DryRun), command: ProxyDeployCommand::Stop })
    );
    assert_eq!(
        proxy_deploy_step(ProxyDeployState::PuttingCertificate, ProxyDeployEvent::Written(false), false),
        fail(ProxyDeployNote::CertificateWriteFailed)
    );
    assert_eq!(proxy_deploy_step(ProxyDeployState::PuttingProxy, ProxyDeployEvent::Written(false), false), fail(ProxyDeployNote::ProxyWriteFailed));
    assert_eq!(proxy_deploy_step(ProxyDeployState::Confirming, ProxyDeployEvent::ProxyFound(true), false).1.command, ProxyDeployCommand::Nothing);
}

#[test]
fn proxy_deploy_texts() {
    assert_eq!(proxy_deploy_note(ProxyDeployNote::AlreadyExists, "p"), "proxy 'p' already exists");
    assert_eq!(proxy_deploy_note(ProxyDeployNote::BundleMissing, "p"), "proxy certificate bundle 'p' does not exist");
    assert_eq!(proxy_deploy_note(ProxyDeployNote::ResourcesExist, "p"), "cancelled, some resources already exist");
    assert_eq!(proxy_deploy_note(ProxyDeployNote::NoInstances, "p"), "number of instances cannot be zero");
    assert_eq!(proxy_deploy_note(ProxyDeployNote::Declined, "p"), "cancelled, proxy 'p' not deployed");
    assert_eq!(proxy_deploy_note(ProxyDeployNote::DryRun, "p"), "dry-run mode, proxy not deployed");
    assert_eq!(proxy_deploy_note(ProxyDeployNote::CertificateWriteFailed, "p"), "error writing certificate configuration 'p-cert'");
    assert_eq!(proxy_deploy_note(ProxyDeployNote::ProxyWriteFailed, "p"), "error writing proxy configuration 'p'");
    assert_eq!(proxy_deploy_note(ProxyDeployNote::CertificateCreated, "p"), "certificate 'p-cert' created");
    assert_eq!(proxy_deploy_note(ProxyDeployNote::ProxyDeployed, "p"), "proxy 'p' deployed");
    assert_eq!(deploy_question("p"), "deploy proxy 'p'?");
}

#[test]
fn proxy_deploy_writes_from_the_bundle() {
    let w = proxy_deploy_writes("p", "S".to_string(), "K".to_string(), "C".to_string(), "0.5", 512, 2, true, false, KafkaProxyZone::Public);
    assert_eq!(
        w.secrets,
        vec![("p-server-cert".to_string(), "S".to_string()), ("p-key".to_string(), "K".to_string()), ("p-ca-cert".to_string(), "C".to_string())]
    );
    assert_eq!(w.certificate.cert_chain_secret, "p-server-cert");
    assert_eq!(w.certificate.key_secret, "p-key");
    assert_eq!(w.certificate.passphrase_secret, None);
    assert_eq!(w.proxy.name, Some("p".to_string()));
    assert_eq!(w.proxy.certificate, "p-cert");
    assert_eq!(w.proxy.secret_name_ca_chain, "p-ca-cert");
    assert_eq!(w.proxy.cpus, "0.5");
    assert_eq!(w.proxy.mem, 512);
    assert_eq!(w.proxy.instances, 2);
    assert_eq!(w.proxy.enable_kafka_acl_groups, Some(true));
    assert_eq!(w.proxy.schema_store, Some(false));
    assert_eq!(w.proxy.zone, KafkaProxyZone::Public);
}

#[test]
fn proxy_undeploy_deletes_in_order() {
    let mut state = ProxyUndeployState::Confirming;
    let mut commands = Vec::new();
    for event in [
        ProxyUndeployEvent::Answered(true),
        ProxyUndeployEvent::Deleted,
        ProxyUndeployEvent::Answered(true),
        ProxyUndeployEvent::Gone(false),
        ProxyUndeployEvent::Gone(true),
        ProxyUndeployEvent::Deleted,
        ProxyUndeployEvent::Answered(true),
        ProxyUndeployEvent::Gone(true),
        ProxyUndeployEvent::Deleted,
    ] {
        let (next, action) = proxy_undeploy_step(state, event, false);
        state = next;
        commands.push(action.command);
    }
    assert_eq!(
        commands,
        vec![
            ProxyUndeployCommand::DeleteProxy,
            ProxyUndeployCommand::AskCertificate,
            ProxyUndeployCommand::PollProxy,
            ProxyUndeployCommand::PollProxy,
            ProxyUndeployCommand::DeleteCertificate,
            ProxyUndeployCommand::AskSecrets,
            ProxyUndeployCommand::PollCertificate,
            ProxyUndeployCommand::DeleteSecrets,
            ProxyUndeployCommand::Stop,
        ]
    );
    assert_eq!(state, ProxyUndeployState::Finished);
}

#[test]
fn proxy_undeploy_declined_or_dry_run() {
    let (state, action) = proxy_undeploy_step(ProxyUndeployState::Confirming, ProxyUndeployEvent::Answered(false), false);
    assert_eq!(state, ProxyUndeployState::Finished);
    assert_eq!(action.report, Some(ProxyUndeployNote::Declined));
    assert_eq!(proxy_undeploy_note(ProxyUndeployNote::Declined, "p", "c"), "cancelled, proxy 'p' not undeployed");
    let (state, action) = proxy_undeploy_step(ProxyUndeployState::Confirming, ProxyUndeployEvent::Answered(true), true);
    assert_eq!(state, ProxyUndeployState::Finished);
    assert_eq!(action.command, ProxyUndeployCommand::Stop);
    assert_eq!(proxy_undeploy_note(ProxyUndeployNote::DryRunProxy, "p", "c"), "dry-run mode, proxy not undeployed");
    assert_eq!(proxy_undeploy_note(ProxyUndeployNote::ProxyUndeployed, "p", "c"), "proxy 'p' undeployed");
    assert_eq!(proxy_undeploy_note(ProxyUndeployNote::CertificateDeleted, "p", "c"), "certificate 'c' deleted");
    assert_eq!(undeploy_question("p"), "undeploy proxy 'p'?");
    assert_eq!(delete_certificate_question("c"), "delete certificate 'c'?");
    assert_eq!(secret_deleted_message("s"), "secret 's' deleted");
    assert_eq!(missing_proxy_error("p"), "proxy 'p' does not exists");
}

#[test]
fn certificate_delete_conversation() {
    let step = |s, e, has, dry| certificate_delete_step(s, e, has, dry);
    let (s, a) = step(CertificateDeleteState::CheckingDependants, CertificateDeleteEvent::Dependants(true), true, false);
    assert_eq!((s, a.command), (CertificateDeleteState::ConfirmingContinue, CertificateDeleteCommand::AskContinue));
    let (s, a) = step(s, CertificateDeleteEvent::Answered(true), true, false);
    assert_eq!(a.command, CertificateDeleteCommand::AskDelete);
    let (s, a) = step(s, CertificateDeleteEvent::Answered(true), true, false);
    assert_eq!(a.command, CertificateDeleteCommand::AskSecrets);
    let (s, a) = step(s, CertificateDeleteEvent::Answered(true), true, false);
    assert_eq!((s, a.command), (CertificateDeleteState::DeletingCertificate { delete_secrets: true }, CertificateDeleteCommand::DeleteCertificate));
    let (s, a) = step(s, CertificateDeleteEvent::Deleted, true, false);
    assert_eq!(a, CertificateDeleteAction { report: Some(CertificateDeleteNote::CertificateDeleted), command: CertificateDeleteCommand::PollCertificate });
    let (s, a) = step(s, CertificateDeleteEvent::Gone(true), true, false);
    assert_eq!(a.command, CertificateDeleteCommand::DeleteSecrets);
    let (s, a) = step(s, CertificateDeleteEvent::Deleted, true, false);
    assert_eq!((s, a.command), (CertificateDeleteState::Finished, CertificateDeleteCommand::Stop));
    let (_, a) = step(CertificateDeleteState::Confirming, CertificateDeleteEvent::Answered(false), true, false);
    assert_eq!(a.report, Some(CertificateDeleteNote::Cancelled));
    let (_, a) = step(CertificateDeleteState::Confirming, CertificateDeleteEvent::Answered(true), false, true);
    assert_eq!(a.report, Some(CertificateDeleteNote::DryRun));
    let (s, a) = step(CertificateDeleteState::ConfirmingSecrets, CertificateDeleteEvent::Answered(false), true, false);
    assert_eq!(s, CertificateDeleteState::DeletingCertificate { delete_secrets: false });
    assert_eq!(a.command, CertificateDeleteCommand::DeleteCertificate);
    let (s, a) = step(s, CertificateDeleteEvent::Deleted, true, false);
    assert_eq!((s, a.command), (CertificateDeleteState::Finished, CertificateDeleteCommand::Stop));
    assert_eq!(certificate_delete_note(CertificateDeleteNote::Cancelled, "c"), "cancelled, certificate 'c' not deleted");
    assert_eq!(certificate_delete_note(CertificateDeleteNote::DryRun, "c"), "dry-run mode, certificate not deleted");
    assert_eq!(certificate_delete_note(CertificateDeleteNote::CertificateDeleted, "c"), "certificate 'c' deleted");
    assert_eq!(delete_question("c"), "delete certificate 'c'?");
    assert_eq!(certificate_secret_deleted("s"), "certificate secret 's' deleted");
    assert_eq!(missing_certificate_error("c"), "secret 'c' does not exist");
}

fn topic(kind: KafkaAclGroupTopicKind, name: &str) -> KafkaAclGroupTopic {
    KafkaAclGroupTopic { kind, name: name.to_string() }
}

#[test]
fn revoking_new_grants_restores_the_group() {
    let original = vec![topic(KafkaAclGroupTopicKind::Internal, "a"), topic(KafkaAclGroupTopicKind::Public, "b")];
    let mut group = KafkaAclGroup { readable_streams: original.clone(), writable_streams: vec![] };
    let readable = vec![topic(KafkaAclGroupTopicKind::Topic, "c"), topic(KafkaAclGroupTopicKind::Internal, "d")];
    let writable = vec![topic(KafkaAclGroupTopicKind::Public, "e")];
    grant_acl_group(&mut group, &readable, &writable);
    revoke_acl_group(&mut group, &readable, &writable);
    assert_eq!(group.readable_streams, original);
    assert!(group.writable_streams.is_empty());
}

#[test]
fn app_configuration_from_outcomes() {
    let outcomes = vec![("A".to_string(), Ok("1".to_string())), ("B".to_string(), Ok("x".to_string()))];
    assert_eq!(
        app_configuration_entries(1000, 1001, &outcomes),
        Ok(vec![
            ("@gid".to_string(), "1000".to_string()),
            ("@uid".to_string(), "1001".to_string()),
            ("A".to_string(), "1".to_string()),
            ("B".to_string(), "x".to_string())
        ])
    );
    let one = vec![("A".to_string(), Err("bad".to_string())), ("B".to_string(), Ok("x".to_string()))];
    assert_eq!(app_configuration_entries(1, 1, &one), Err("missing or invalid parameter".to_string()));
    let two = vec![("A".to_string(), Err("bad".to_string())), ("B".to_string(), Err("bad".to_string()))];
    assert_eq!(app_configuration_entries(1, 1, &two), Err("2 missing or invalid parameters".to_string()));
}

#[test]
fn bundle_creation_decisions() {
    assert_eq!(bundle_exists_warning("b", "np-aws-lz-dsh", "tenant"), "proxy certificate bundle 'b' already exists for 'np-aws-lz-dsh@tenant'");
    assert_eq!(bundle_override(true, false), Err("cancelled".to_string()));
    assert_eq!(bundle_override(true, true), Ok(()));
    assert_eq!(bundle_override(false, false), Ok(()));
    assert_eq!(bundle_store_report(true, "b", "/d"), Err("dry-run mode, proxy certificates bundle not stored".to_string()));
    assert_eq!(bundle_store_report(false, "b", "/d"), Ok("proxy certificates bundle 'b' stored in directory '/d'".to_string()));
}
