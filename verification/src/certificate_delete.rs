//! Deleting a certificate: which of its secrets exist and can be deleted
//! with it, and the conversation that deletes them, step by step.
use vstd::prelude::*;
use crate::certificate_label::Certificate;
use crate::text::{join, seq_join, views};

verus! {

/// The secrets of a certificate configuration: its chain and key secrets,
/// and its passphrase secret when it has one.
pub open spec fn configured_secrets(c: Certificate) -> Seq<Seq<char>> {
    seq![c.cert_chain_secret@, c.key_secret@]
        + match c.passphrase_secret {
            Some(p) => seq![p@],
            None => Seq::<Seq<char>>::empty(),
        }
}

/// The secrets of a certificate configuration.
pub fn certificate_configuration_secrets(certificate: &Certificate) -> (secrets: Vec<String>)
    ensures
        views(secrets@) == configured_secrets(*certificate),
{
    let mut secrets: Vec<String> = Vec::new();
    secrets.push(certificate.cert_chain_secret.clone());
    secrets.push(certificate.key_secret.clone());
    match &certificate.passphrase_secret {
        Some(p) => secrets.push(p.clone()),
        None => {}
    }
    assert(views(secrets@) =~= configured_secrets(*certificate));
    secrets
}

/// The secrets that exist, in the order given: `exists[i]` tells whether
/// secret `i` exists.
pub open spec fn existing_secrets(names: Seq<Seq<char>>, exists: Seq<bool>) -> Seq<Seq<char>>
    decreases names.len(),
{
    if names.len() == 0 {
        Seq::empty()
    } else {
        existing_secrets(names.drop_last(), exists)
            + if exists[names.len() - 1] { seq![names.last()] } else { Seq::<Seq<char>>::empty() }
    }
}

/// The secrets that exist, in the order given; names beyond the flags given
/// are left out.
pub fn filter_existing_secrets(names: &Vec<String>, exists: &Vec<bool>) -> (res: Vec<String>)
    ensures
        views(res@) == existing_secrets(views(names@).take(if names.len() < exists.len() { names.len() as int } else { exists.len() as int }), exists@),
{
    let n: usize = if names.len() < exists.len() { names.len() } else { exists.len() };
    let mut res: Vec<String> = Vec::new();
    let mut i: usize = 0;
    assert(views(names@).take(0) =~= Seq::<Seq<char>>::empty());
    while i < n
        invariant
            i <= n,
            n <= names.len(),
            n <= exists.len(),
            views(res@) == existing_secrets(views(names@).take(i as int), exists@),
        decreases n - i,
    {
        let ghost before = views(res@);
        assert(views(names@).take(i + 1).drop_last() =~= views(names@).take(i as int));
        if exists[i] {
            res.push(names[i].clone());
            assert(views(res@) =~= before + seq![names@[i as int]@]);
        } else {
            assert(views(res@) =~= before + Seq::<Seq<char>>::empty());
        }
        i = i + 1;
    }
    res
}

/// The question whether the existing secrets of a certificate should be
/// deleted with it.
pub fn delete_certificate_secrets_question(secrets: &Vec<String>) -> (q: String)
    ensures
        q@ == "delete certificate secrets '"@ + seq_join(views(secrets@), ", "@) + "'?"@,
{
    let mut q = String::from_str("delete certificate secrets '");
    let joined = join(secrets, ", ");
    q.append(joined.as_str());
    q.append("'?");
    q
}

/// Where deleting a certificate stands; `delete_secrets` remembers whether
/// the user agreed to delete its secrets too.
#[derive(Debug, PartialEq, Eq, Structural, Clone, Copy)]
pub enum CertificateDeleteState {
    CheckingDependants,
    ConfirmingContinue,
    Confirming,
    ConfirmingSecrets,
    DeletingCertificate { delete_secrets: bool },
    WaitingForCertificate,
    DeletingSecrets,
    Finished,
}

/// What deleting a certificate learns.
#[derive(Debug, PartialEq, Eq, Structural, Clone, Copy)]
pub enum CertificateDeleteEvent {
    /// Whether anything depends on the certificate.
    Dependants(bool),
    /// The user's answer to the last question.
    Answered(bool),
    /// A deletion finished.
    Deleted,
    /// Whether the certificate is gone.
    Gone(bool),
}

/// What is reported when deleting a certificate.
#[derive(Debug, PartialEq, Eq, Structural, Clone, Copy)]
pub enum CertificateDeleteNote {
    Cancelled,
    DryRun,
    CertificateDeleted,
}

/// What deleting a certificate does next.
#[derive(Debug, PartialEq, Eq, Structural, Clone, Copy)]
pub enum CertificateDeleteCommand {
    /// Warn about the dependants and ask whether to continue.
    AskContinue,
    /// Ask whether to delete the certificate.
    AskDelete,
    /// Ask whether to delete the existing secrets too.
    AskSecrets,
    /// Delete the certificate configuration.
    DeleteCertificate,
    /// Wait a moment and check whether the certificate is gone.
    PollCertificate,
    /// Delete the existing secrets.
    DeleteSecrets,
    /// Stop.
    Stop,
    /// Nothing: the event does not belong to this state.
    Nothing,
}

/// What deleting a certificate reports, if anything, and then does.
#[derive(Debug, PartialEq, Eq, Structural, Clone, Copy)]
pub struct CertificateDeleteAction {
    pub report: Option<CertificateDeleteNote>,
    pub command: CertificateDeleteCommand,
}

/// After the questions: dry-run mode stops, else the certificate is deleted.
pub open spec fn delete_decided(delete_secrets: bool, dry_run: bool) -> (CertificateDeleteState, CertificateDeleteAction) {
    if dry_run {
        (CertificateDeleteState::Finished, CertificateDeleteAction { report: Some(CertificateDeleteNote::DryRun), command: CertificateDeleteCommand::Stop })
    } else {
        (CertificateDeleteState::DeletingCertificate { delete_secrets }, CertificateDeleteAction { report: None, command: CertificateDeleteCommand::DeleteCertificate })
    }
}

/// The step of deleting a certificate: with dependants the user must agree
/// to continue; then to delete the certificate, and, when some of its
/// secrets exist, whether to delete those too; declining either cancels.
/// In dry-run mode nothing is deleted. The secrets are deleted only once the
/// certificate is gone.
pub open spec fn certificate_delete_transition(
    state: CertificateDeleteState,
    event: CertificateDeleteEvent,
    has_secrets: bool,
    dry_run: bool,
) -> (CertificateDeleteState, CertificateDeleteAction) {
    let go = |s: CertificateDeleteState, c: CertificateDeleteCommand| (s, CertificateDeleteAction { report: None, command: c });
    let cancel = (CertificateDeleteState::Finished, CertificateDeleteAction { report: Some(CertificateDeleteNote::Cancelled), command: CertificateDeleteCommand::Stop });
    match (state, event) {
        (CertificateDeleteState::CheckingDependants, CertificateDeleteEvent::Dependants(any)) =>
            if any { go(CertificateDeleteState::ConfirmingContinue, CertificateDeleteCommand::AskContinue) } else { go(CertificateDeleteState::Confirming, CertificateDeleteCommand::AskDelete) },
        (CertificateDeleteState::ConfirmingContinue, CertificateDeleteEvent::Answered(yes)) =>
            if yes { go(CertificateDeleteState::Confirming, CertificateDeleteCommand::AskDelete) } else { cancel },
        (CertificateDeleteState::Confirming, CertificateDeleteEvent::Answered(yes)) =>
            if !yes {
                cancel
            } else if has_secrets {
                go(CertificateDeleteState::ConfirmingSecrets, CertificateDeleteCommand::AskSecrets)
            } else {
                delete_decided(false, dry_run)
            },
        (CertificateDeleteState::ConfirmingSecrets, CertificateDeleteEvent::Answered(yes)) => delete_decided(yes, dry_run),
        (CertificateDeleteState::DeletingCertificate { delete_secrets }, CertificateDeleteEvent::Deleted) =>
            if delete_secrets {
                (CertificateDeleteState::WaitingForCertificate, CertificateDeleteAction { report: Some(CertificateDeleteNote::CertificateDeleted), command: CertificateDeleteCommand::PollCertificate })
            } else {
                (CertificateDeleteState::Finished, CertificateDeleteAction { report: Some(CertificateDeleteNote::CertificateDeleted), command: CertificateDeleteCommand::Stop })
            },
        (CertificateDeleteState::WaitingForCertificate, CertificateDeleteEvent::Gone(gone)) =>
            if gone {
                go(CertificateDeleteState::DeletingSecrets, CertificateDeleteCommand::DeleteSecrets)
            } else {
                go(CertificateDeleteState::WaitingForCertificate, CertificateDeleteCommand::PollCertificate)
            },
        (CertificateDeleteState::DeletingSecrets, CertificateDeleteEvent::Deleted) => go(CertificateDeleteState::Finished, CertificateDeleteCommand::Stop),
        _ => go(state, CertificateDeleteCommand::Nothing),
    }
}

fn delete_go(s: CertificateDeleteState, c: CertificateDeleteCommand) -> (next: (CertificateDeleteState, CertificateDeleteAction))
    ensures
        next == (s, CertificateDeleteAction { report: None, command: c }),
{
    (s, CertificateDeleteAction { report: None, command: c })
}

fn delete_cancel() -> (next: (CertificateDeleteState, CertificateDeleteAction))
    ensures
        next == (CertificateDeleteState::Finished, CertificateDeleteAction { report: Some(CertificateDeleteNote::Cancelled), command: CertificateDeleteCommand::Stop }),
{
    (CertificateDeleteState::Finished, CertificateDeleteAction { report: Some(CertificateDeleteNote::Cancelled), command: CertificateDeleteCommand::Stop })
}

fn decide_delete(delete_secrets: bool, dry_run: bool) -> (next: (CertificateDeleteState, CertificateDeleteAction))
    ensures
        next == delete_decided(delete_secrets, dry_run),
{
    if dry_run {
        (CertificateDeleteState::Finished, CertificateDeleteAction { report: Some(CertificateDeleteNote::DryRun), command: CertificateDeleteCommand::Stop })
    } else {
        (CertificateDeleteState::DeletingCertificate { delete_secrets }, CertificateDeleteAction { report: None, command: CertificateDeleteCommand::DeleteCertificate })
    }
}

/// The next step of deleting a certificate; `has_secrets` tells whether any
/// of its secrets exists.
pub fn certificate_delete_step(
    state: CertificateDeleteState,
    event: CertificateDeleteEvent,
    has_secrets: bool,
    dry_run: bool,
) -> (next: (CertificateDeleteState, CertificateDeleteAction))
    ensures
        next == certificate_delete_transition(state, event, has_secrets, dry_run),
{
    match (state, event) {
        (CertificateDeleteState::CheckingDependants, CertificateDeleteEvent::Dependants(any)) =>
            if any { delete_go(CertificateDeleteState::ConfirmingContinue, CertificateDeleteCommand::AskContinue) } else { delete_go(CertificateDeleteState::Confirming, CertificateDeleteCommand::AskDelete) },
        (CertificateDeleteState::ConfirmingContinue, CertificateDeleteEvent::Answered(yes)) =>
            if yes { delete_go(CertificateDeleteState::Confirming, CertificateDeleteCommand::AskDelete) } else { delete_cancel() },
        (CertificateDeleteState::Confirming, CertificateDeleteEvent::Answered(yes)) =>
            if !yes {
                delete_cancel()
            } else if has_secrets {
                delete_go(CertificateDeleteState::ConfirmingSecrets, CertificateDeleteCommand::AskSecrets)
            } else {
                decide_delete(false, dry_run)
            },
        (CertificateDeleteState::ConfirmingSecrets, CertificateDeleteEvent::Answered(yes)) => decide_delete(yes, dry_run),
        (CertificateDeleteState::DeletingCertificate { delete_secrets }, CertificateDeleteEvent::Deleted) =>
            if delete_secrets {
                (CertificateDeleteState::WaitingForCertificate, CertificateDeleteAction { report: Some(CertificateDeleteNote::CertificateDeleted), command: CertificateDeleteCommand::PollCertificate })
            } else {
                (CertificateDeleteState::Finished, CertificateDeleteAction { report: Some(CertificateDeleteNote::CertificateDeleted), command: CertificateDeleteCommand::Stop })
            },
        (CertificateDeleteState::WaitingForCertificate, CertificateDeleteEvent::Gone(gone)) =>
            if gone {
                delete_go(CertificateDeleteState::DeletingSecrets, CertificateDeleteCommand::DeleteSecrets)
            } else {
                delete_go(CertificateDeleteState::WaitingForCertificate, CertificateDeleteCommand::PollCertificate)
            },
        (CertificateDeleteState::DeletingSecrets, CertificateDeleteEvent::Deleted) => delete_go(CertificateDeleteState::Finished, CertificateDeleteCommand::Stop),
        _ => delete_go(state, CertificateDeleteCommand::Nothing),
    }
}

/// The secrets are deleted only once the certificate is gone, which is
/// waited for only when the user agreed to delete them; the certificate is
/// deleted only after the user agreed to delete it (the answer about the
/// secrets decides only about the secrets), outside dry-run mode.
pub proof fn lemma_certificate_delete_order(state: CertificateDeleteState, event: CertificateDeleteEvent, has_secrets: bool, dry_run: bool)
    ensures
        ({
            let next = certificate_delete_transition(state, event, has_secrets, dry_run);
            &&& next.1.command == CertificateDeleteCommand::DeleteSecrets
                ==> state == CertificateDeleteState::WaitingForCertificate && event == CertificateDeleteEvent::Gone(true)
            &&& next.1.command == CertificateDeleteCommand::DeleteCertificate
                ==> !dry_run && ((state == CertificateDeleteState::Confirming && event == CertificateDeleteEvent::Answered(true))
                    || state == CertificateDeleteState::ConfirmingSecrets)
            &&& next.0 == CertificateDeleteState::WaitingForCertificate && state != CertificateDeleteState::WaitingForCertificate
                ==> state == (CertificateDeleteState::DeletingCertificate { delete_secrets: true })
        }),
{
}

/// Declining any question before the deletion cancels it: with dependants a
/// no to continuing, and a no to deleting the certificate, end the
/// conversation with the cancellation and delete nothing. The question
/// whether to delete the certificate is reached only when nothing depends
/// on it, or after the user agreed to continue.
pub proof fn lemma_declining_cancels(has_secrets: bool, dry_run: bool, state: CertificateDeleteState, event: CertificateDeleteEvent)
    ensures
        certificate_delete_transition(CertificateDeleteState::ConfirmingContinue, CertificateDeleteEvent::Answered(false), has_secrets, dry_run)
            == (CertificateDeleteState::Finished, CertificateDeleteAction { report: Some(CertificateDeleteNote::Cancelled), command: CertificateDeleteCommand::Stop }),
        certificate_delete_transition(CertificateDeleteState::Confirming, CertificateDeleteEvent::Answered(false), has_secrets, dry_run)
            == (CertificateDeleteState::Finished, CertificateDeleteAction { report: Some(CertificateDeleteNote::Cancelled), command: CertificateDeleteCommand::Stop }),
        ({
            let next = certificate_delete_transition(state, event, has_secrets, dry_run);
            next.1.command == CertificateDeleteCommand::AskDelete ==>
                (state == CertificateDeleteState::CheckingDependants && event == CertificateDeleteEvent::Dependants(false))
                || (state == CertificateDeleteState::ConfirmingContinue && event == CertificateDeleteEvent::Answered(true))
        }),
        ({
            let next = certificate_delete_transition(state, event, has_secrets, dry_run);
            next.0 == CertificateDeleteState::Confirming && state != CertificateDeleteState::Confirming ==>
                (state == CertificateDeleteState::CheckingDependants && event == CertificateDeleteEvent::Dependants(false))
                || (state == CertificateDeleteState::ConfirmingContinue && event == CertificateDeleteEvent::Answered(true))
        }),
{
}

/// The conversation goes on as it should: dependants lead to the question
/// whether to continue, a yes to deleting asks about the secrets only when
/// some exist, the answer about the secrets decides whether they are
/// deleted, a certificate that is not yet gone is polled again, and the
/// secrets are deleted once it is gone.
pub proof fn lemma_certificate_delete_progress(has_secrets: bool, dry_run: bool, delete_secrets: bool)
    ensures
        certificate_delete_transition(CertificateDeleteState::CheckingDependants, CertificateDeleteEvent::Dependants(true), has_secrets, dry_run)
            == (CertificateDeleteState::ConfirmingContinue, CertificateDeleteAction { report: None, command: CertificateDeleteCommand::AskContinue }),
        has_secrets ==> certificate_delete_transition(CertificateDeleteState::Confirming, CertificateDeleteEvent::Answered(true), has_secrets, dry_run)
            == (CertificateDeleteState::ConfirmingSecrets, CertificateDeleteAction { report: None, command: CertificateDeleteCommand::AskSecrets }),
        !has_secrets && !dry_run ==> certificate_delete_transition(CertificateDeleteState::Confirming, CertificateDeleteEvent::Answered(true), has_secrets, dry_run)
            == (CertificateDeleteState::DeletingCertificate { delete_secrets: false }, CertificateDeleteAction { report: None, command: CertificateDeleteCommand::DeleteCertificate }),
        !dry_run ==> certificate_delete_transition(CertificateDeleteState::ConfirmingSecrets, CertificateDeleteEvent::Answered(delete_secrets), has_secrets, dry_run)
            == (CertificateDeleteState::DeletingCertificate { delete_secrets }, CertificateDeleteAction { report: None, command: CertificateDeleteCommand::DeleteCertificate }),
        dry_run ==> certificate_delete_transition(CertificateDeleteState::ConfirmingSecrets, CertificateDeleteEvent::Answered(delete_secrets), has_secrets, dry_run)
            == (CertificateDeleteState::Finished, CertificateDeleteAction { report: Some(CertificateDeleteNote::DryRun), command: CertificateDeleteCommand::Stop }),
        certificate_delete_transition(CertificateDeleteState::DeletingCertificate { delete_secrets: true }, CertificateDeleteEvent::Deleted, has_secrets, dry_run)
            == (CertificateDeleteState::WaitingForCertificate, CertificateDeleteAction { report: Some(CertificateDeleteNote::CertificateDeleted), command: CertificateDeleteCommand::PollCertificate }),
        certificate_delete_transition(CertificateDeleteState::DeletingCertificate { delete_secrets: false }, CertificateDeleteEvent::Deleted, has_secrets, dry_run)
            == (CertificateDeleteState::Finished, CertificateDeleteAction { report: Some(CertificateDeleteNote::CertificateDeleted), command: CertificateDeleteCommand::Stop }),
        certificate_delete_transition(CertificateDeleteState::WaitingForCertificate, CertificateDeleteEvent::Gone(false), has_secrets, dry_run)
            == (CertificateDeleteState::WaitingForCertificate, CertificateDeleteAction { report: None, command: CertificateDeleteCommand::PollCertificate }),
        certificate_delete_transition(CertificateDeleteState::WaitingForCertificate, CertificateDeleteEvent::Gone(true), has_secrets, dry_run)
            == (CertificateDeleteState::DeletingSecrets, CertificateDeleteAction { report: None, command: CertificateDeleteCommand::DeleteSecrets }),
{
}

/// In dry-run mode nothing is deleted: no step from a state before the
/// deletion issues a deletion, and each such step stays before it or ends.
pub proof fn lemma_certificate_dry_run_deletes_nothing(state: CertificateDeleteState, event: CertificateDeleteEvent, has_secrets: bool)
    requires
        state == CertificateDeleteState::CheckingDependants || state == CertificateDeleteState::ConfirmingContinue
            || state == CertificateDeleteState::Confirming || state == CertificateDeleteState::ConfirmingSecrets
            || state == CertificateDeleteState::Finished,
    ensures
        ({
            let next = certificate_delete_transition(state, event, has_secrets, true);
            &&& next.1.command != CertificateDeleteCommand::DeleteCertificate
            &&& next.1.command != CertificateDeleteCommand::DeleteSecrets
            &&& (next.0 == CertificateDeleteState::CheckingDependants || next.0 == CertificateDeleteState::ConfirmingContinue
                || next.0 == CertificateDeleteState::Confirming || next.0 == CertificateDeleteState::ConfirmingSecrets
                || next.0 == CertificateDeleteState::Finished)
        }),
{
}

/// The texts of the reports name the certificate.
pub proof fn lemma_certificate_delete_texts(certificate_id: Seq<char>)
    ensures
        certificate_delete_note_text(CertificateDeleteNote::Cancelled, certificate_id)
            == "cancelled, certificate '"@ + certificate_id + "' not deleted"@,
        certificate_delete_note_text(CertificateDeleteNote::DryRun, certificate_id) == "dry-run mode, certificate not deleted"@,
        certificate_delete_note_text(CertificateDeleteNote::CertificateDeleted, certificate_id)
            == "certificate '"@ + certificate_id + "' deleted"@,
{
}

/// The text of what is reported when deleting certificate `certificate_id`.
pub open spec fn certificate_delete_note_text(note: CertificateDeleteNote, certificate_id: Seq<char>) -> Seq<char> {
    match note {
        CertificateDeleteNote::Cancelled => "cancelled, certificate '"@ + certificate_id + "' not deleted"@,
        CertificateDeleteNote::DryRun => "dry-run mode, certificate not deleted"@,
        CertificateDeleteNote::CertificateDeleted => "certificate '"@ + certificate_id + "' deleted"@,
    }
}

fn framed(before: &str, middle: &str, after: &str) -> (m: String)
    ensures
        m@ == before@ + middle@ + after@,
{
    let mut m = String::from_str(before);
    m.append(middle);
    m.append(after);
    m
}

/// The text of what is reported when deleting a certificate.
pub fn certificate_delete_note(note: CertificateDeleteNote, certificate_id: &str) -> (m: String)
    ensures
        m@ == certificate_delete_note_text(note, certificate_id@),
{
    match note {
        CertificateDeleteNote::Cancelled => framed("cancelled, certificate '", certificate_id, "' not deleted"),
        CertificateDeleteNote::DryRun => String::from_str("dry-run mode, certificate not deleted"),
        CertificateDeleteNote::CertificateDeleted => framed("certificate '", certificate_id, "' deleted"),
    }
}

/// The question whether to delete the certificate.
pub fn delete_question(certificate_id: &str) -> (q: String)
    ensures
        q@ == "delete certificate '"@ + certificate_id@ + "'?"@,
{
    framed("delete certificate '", certificate_id, "'?")
}

/// The report that a secret of the certificate was deleted.
pub fn certificate_secret_deleted(secret: &str) -> (m: String)
    ensures
        m@ == "certificate secret '"@ + secret@ + "' deleted"@,
{
    framed("certificate secret '", secret, "' deleted")
}

/// The error when the certificate has no status, as the command words it.
pub fn missing_certificate_error(certificate_id: &str) -> (m: String)
    ensures
        m@ == "secret '"@ + certificate_id@ + "' does not exist"@,
{
    framed("secret '", certificate_id, "' does not exist")
}

} // verus!
