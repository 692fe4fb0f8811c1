//! The handlers under `/admin`, all of them for super users only.

use crate::access::Admin;
use crate::error::{ApiError, ErrorKind};
use crate::trusted;
use vstd::prelude::*;

verus! {

/// Asks the service to bring back all projects that should be running.
#[derive(Debug, PartialEq, Eq)]
pub struct ReviveProjects;

/// `POST /admin/revive`.
pub fn revive_projects(admin: &Admin) -> (command: ReviveProjects)
    ensures
        command == ReviveProjects,
        admin.user().super_user,
{
    proof {
        use_type_invariant(admin);
    }
    ReviveProjects
}

impl ReviveProjects {
    /// The answer, once the service is done. How it failed is not told.
    pub fn revived<E>(self, revived: Result<(), E>) -> (answer: Result<(), ApiError>)
        ensures
            answer == match revived {
                Ok(()) => Ok::<(), ApiError>(()),
                Err(_) => Err(ApiError { kind: ErrorKind::Internal }),
            },
    {
        match revived {
            Ok(()) => Ok(()),
            Err(_) => Err(ApiError::from_kind(ErrorKind::Internal)),
        }
    }
}

/// The account to ask the ACME server at `server_url` for.
#[derive(Debug, PartialEq, Eq)]
pub struct CreateAcmeAccount {
    /// The URI under which the owner of the account can be reached.
    pub contact: String,
    pub terms_of_service_agreed: bool,
    /// Whether an account is asked for only if there is one already.
    pub only_return_existing: bool,
    pub server_url: String,
}

/// `POST /admin/acme/:email`: creates an account at Let's Encrypt.
pub fn create_acme_account(admin: &Admin, email: &str) -> (command: CreateAcmeAccount)
    ensures
        command.is_for(email@),
        admin.user().super_user,
{
    proof {
        use_type_invariant(admin);
    }
    CreateAcmeAccount {
        contact: "mailto:".to_owned().concat(email),
        terms_of_service_agreed: true,
        only_return_existing: false,
        server_url: trusted::lets_encrypt_url().to_owned(),
    }
}

impl CreateAcmeAccount {
    /// The account is a new one at Let's Encrypt for the owner of `email`, who
    /// agrees to the terms of service.
    pub open spec fn is_for(self, email: Seq<char>) -> bool {
        &&& self.contact@ == "mailto:"@ + email
        &&& self.terms_of_service_agreed
        &&& !self.only_return_existing
        &&& self.server_url@ == "https://acme-v02.api.letsencrypt.org/directory"@
    }

    pub open spec fn answer<E>(
        created: Result<instant_acme::Account, E>,
    ) -> Result<serde_json::Value, ApiError> {
        match created {
            Ok(account) => match trusted::credentials_to_json(trusted::credentials_of(account)) {
                Some(credentials) => Ok(credentials),
                None => Err(ApiError { kind: ErrorKind::Internal }),
            },
            Err(_) => Err(ApiError { kind: ErrorKind::Internal }),
        }
    }

    /// The answer, once the server was asked: the credentials of the account.
    pub fn created<E>(
        self,
        created: Result<instant_acme::Account, E>,
    ) -> (answer: Result<serde_json::Value, ApiError>)
        ensures
            answer == Self::answer(created),
            // The answer is what a later request for a certificate takes.
            answer matches Ok(json) ==> forall|fqdn: Seq<char>|
                #![trigger certificate_command(fqdn, json)]
                certificate_command(fqdn, json) == Ok::<RestoreAcmeAccount, ApiError>(
                    RestoreAcmeAccount {
                        fqdn: fqdn_answer(fqdn),
                        credentials: trusted::credentials_of(created->Ok_0),
                    },
                ),
    {
        let account = match created {
            Ok(account) => account,
            Err(_) => return Err(ApiError::from_kind(ErrorKind::Internal)),
        };
        match trusted::credentials_to_value(trusted::account_credentials(&account)) {
            Ok(credentials) => Ok(credentials),
            Err(_) => Err(ApiError::from_kind(ErrorKind::Internal)),
        }
    }
}

/// The ACME account to restore, and the domain that a certificate is wanted
/// for, as far as the request names one.
pub struct RestoreAcmeAccount {
    pub fqdn: Result<fqdn::FQDN, ApiError>,
    pub credentials: instant_acme::AccountCredentials<'static>,
}

/// What [`parse_fqdn`] makes of a text.
pub open spec fn fqdn_answer(text: Seq<char>) -> Result<fqdn::FQDN, ApiError> {
    if trusted::is_fqdn(text) {
        Ok(trusted::fqdn_of(text))
    } else {
        Err(ApiError { kind: ErrorKind::InvalidOperation })
    }
}

/// Reads a fully qualified domain name.
pub fn parse_fqdn(text: &str) -> (result: Result<fqdn::FQDN, ApiError>)
    ensures
        result == fqdn_answer(text@),
{
    match trusted::fqdn_from_str(text) {
        Ok(name) => Ok(name),
        Err(_) => Err(ApiError::from_kind(ErrorKind::InvalidOperation)),
    }
}

/// What [`request_acme_certificate`] asks for, or how it fails.
pub open spec fn certificate_command(
    fqdn: Seq<char>,
    json: serde_json::Value,
) -> Result<RestoreAcmeAccount, ApiError> {
    match trusted::credentials_from_json(json) {
        Some(credentials) => Ok(RestoreAcmeAccount { fqdn: fqdn_answer(fqdn), credentials }),
        None => Err(ApiError { kind: ErrorKind::Internal }),
    }
}

/// `POST /admin/acme/request/:fqdn`, with the credentials of an ACME account
/// as the body.
///
/// That `fqdn` is no domain name does not fail the request.
pub fn request_acme_certificate(
    admin: &Admin,
    fqdn: &str,
    json: serde_json::Value,
) -> (command: Result<RestoreAcmeAccount, ApiError>)
    ensures
        command == certificate_command(fqdn@, json),
        admin.user().super_user,
{
    proof {
        use_type_invariant(admin);
    }
    let fqdn = parse_fqdn(fqdn);
    match trusted::credentials_from_value(json) {
        Ok(credentials) => Ok(RestoreAcmeAccount { fqdn, credentials }),
        Err(_) => Err(ApiError::from_kind(ErrorKind::Internal)),
    }
}

/// The answer to `POST /admin/acme/request/:fqdn`, once the account was
/// restored: an object without members.
pub fn acme_account_restored<A, E>(
    restored: Result<A, E>,
) -> (answer: Result<serde_json::Value, ApiError>)
    ensures
        match answer {
            Ok(value) => restored is Ok && trusted::json_text(value) == "{}"@,
            Err(error) => restored is Err && error == (ApiError { kind: ErrorKind::Internal }),
        },
{
    match restored {
        Ok(_) => Ok(trusted::empty_object()),
        Err(_) => Err(ApiError::from_kind(ErrorKind::Internal)),
    }
}

/// Whether a certificate request goes on, and how it fails if it does not, is
/// decided by the credentials alone: the domain has no say in it.
pub proof fn the_domain_decides_nothing(fqdn: Seq<char>, other: Seq<char>, json: serde_json::Value)
    ensures
        match certificate_command(fqdn, json) {
            Ok(command) => certificate_command(other, json) matches Ok(same) && same.credentials
                == command.credentials,
            Err(error) => certificate_command(other, json) == Err::<RestoreAcmeAccount, ApiError>(
                error,
            ),
        },
{
}

/// `POST /admin/revive` succeeds exactly if the service did, and fails with an
/// internal error.
pub proof fn revival_is_reported<E>(
    command: ReviveProjects,
    revived: Result<(), E>,
    answer: Result<(), ApiError>,
)
    requires
        call_ensures(ReviveProjects::revived::<E>, (command, revived), answer),
    ensures
        answer is Ok <==> revived is Ok,
        answer matches Err(error) ==> error.kind is Internal,
{
}

/// What `POST /admin/acme/:email` asks Let's Encrypt for: a new account under
/// accepted terms, with the mail address as it was given as the contact.
pub proof fn acme_accounts_belong_to_the_address(
    admin: &Admin,
    email: &str,
    command: CreateAcmeAccount,
)
    requires
        call_ensures(create_acme_account, (admin, email), command),
    ensures
        command.contact@.len() == 7 + email@.len(),
        command.contact@.take(7) == "mailto:"@,
        command.contact@.skip(7) == email@,
        command.terms_of_service_agreed,
        !command.only_return_existing,
        command.server_url@ == "https://acme-v02.api.letsencrypt.org/directory"@,
{
    reveal_strlit("mailto:");
}

/// `POST /admin/acme/:email` answers with the credentials of the account that
/// was created, and fails, with an internal error, only where there is no
/// account or its credentials cannot be written.
pub proof fn acme_accounts_are_handed_out<E>(
    command: CreateAcmeAccount,
    created: Result<instant_acme::Account, E>,
    answer: Result<serde_json::Value, ApiError>,
)
    requires
        call_ensures(CreateAcmeAccount::created::<E>, (command, created), answer),
    ensures
        answer is Ok <==> (created matches Ok(account) && trusted::credentials_to_json(
            trusted::credentials_of(account),
        ) is Some),
        answer matches Ok(json) ==> trusted::credentials_to_json(
            trusted::credentials_of(created->Ok_0),
        ) == Some(json),
        answer matches Ok(json) ==> trusted::credentials_from_json(json) == Some(
            trusted::credentials_of(created->Ok_0),
        ),
        answer matches Err(error) ==> error.kind is Internal,
{
    if let Ok(json) = answer {
        assert(certificate_command(Seq::empty(), json) is Ok);
    }
}

/// `POST /admin/acme/request/:fqdn` goes on exactly with JSON that stands for
/// credentials. It goes on with those credentials and with the domain that was
/// named, and otherwise fails with an internal error.
pub proof fn certificates_are_requested_with_the_credentials_given(
    admin: &Admin,
    fqdn: &str,
    json: serde_json::Value,
    command: Result<RestoreAcmeAccount, ApiError>,
)
    requires
        call_ensures(request_acme_certificate, (admin, fqdn, json), command),
    ensures
        command is Ok <==> trusted::credentials_from_json(json) is Some,
        command matches Ok(restore) ==> trusted::credentials_from_json(json) == Some(
            restore.credentials,
        ),
        command matches Ok(restore) ==> (restore.fqdn is Ok <==> trusted::is_fqdn(fqdn@)),
        command matches Ok(restore) ==> (restore.fqdn matches Ok(name) ==> name
            == trusted::fqdn_of(fqdn@)),
        command matches Ok(restore) ==> (restore.fqdn matches Err(error)
            ==> error.kind is InvalidOperation),
        command matches Err(error) ==> error.kind is Internal,
{
}

/// What was answered when an account was created is taken when a certificate
/// is requested, and stands for the same account.
pub proof fn created_accounts_request_certificates<E>(
    create: CreateAcmeAccount,
    account: instant_acme::Account,
    json: serde_json::Value,
    admin: &Admin,
    fqdn: &str,
    command: Result<RestoreAcmeAccount, ApiError>,
)
    requires
        call_ensures(
            CreateAcmeAccount::created::<E>,
            (create, Ok::<instant_acme::Account, E>(account)),
            Ok::<serde_json::Value, ApiError>(json),
        ),
        call_ensures(request_acme_certificate, (admin, fqdn, json), command),
    ensures
        command matches Ok(restore) && restore.credentials == trusted::credentials_of(account),
{
    acme_accounts_are_handed_out::<E>(
        create,
        Ok::<instant_acme::Account, E>(account),
        Ok::<serde_json::Value, ApiError>(json),
    );
    certificates_are_requested_with_the_credentials_given(admin, fqdn, json, command);
}

/// The last answer of `POST /admin/acme/request/:fqdn` is an empty object
/// exactly if the account was restored, and an internal error otherwise.
pub proof fn restored_accounts_are_reported<A, E>(
    restored: Result<A, E>,
    answer: Result<serde_json::Value, ApiError>,
)
    requires
        call_ensures(acme_account_restored::<A, E>, (restored,), answer),
    ensures
        answer is Ok <==> restored is Ok,
        answer matches Ok(json) ==> trusted::json_text(json) == "{}"@,
        answer matches Err(error) ==> error.kind is Internal,
{
}

/// Around every position of a name there is a label.
proof fn lemma_label_around(name: Seq<char>, k: int) -> (label: (int, int))
    requires
        0 <= k <= name.len(),
    ensures
        trusted::is_label(name, label.0, label.1),
        label.0 <= k <= label.1,
{
    let from = lemma_label_start(name, k);
    let to = lemma_label_end(name, k);
    (from, to)
}

proof fn lemma_label_start(name: Seq<char>, k: int) -> (from: int)
    requires
        0 <= k <= name.len(),
    ensures
        0 <= from <= k,
        from == 0 || name[from - 1] == '.',
        forall|i: int| from <= i < k ==> name[i] != '.',
    decreases k,
{
    if k == 0 || name[k - 1] == '.' {
        k
    } else {
        lemma_label_start(name, k - 1)
    }
}

proof fn lemma_label_end(name: Seq<char>, k: int) -> (to: int)
    requires
        0 <= k <= name.len(),
    ensures
        k <= to <= name.len(),
        to == name.len() || name[to] == '.',
        forall|i: int| k <= i < to ==> name[i] != '.',
    decreases name.len() - k,
{
    if k == name.len() || name[k] == '.' {
        k
    } else {
        lemma_label_end(name, k + 1)
    }
}

/// Which texts [`parse_fqdn`] takes: a single dot, and every text of letters,
/// digits, hyphens, underscores and dots that does not begin with a dot, has no
/// two dots in a row and nowhere more than 255 characters between dots. Every
/// other text is an invalid operation.
pub proof fn domain_names_are_dotted_labels(text: &str, result: Result<fqdn::FQDN, ApiError>)
    requires
        call_ensures(parse_fqdn, (text,), result),
    ensures
        result matches Ok(name) ==> name == trusted::fqdn_of(text@),
        result matches Err(error) ==> error.kind is InvalidOperation,
        result is Ok <==> text@ == seq!['.'] || {
            &&& forall|i: int|
                0 <= i < text@.len() ==> {
                    let c = #[trigger] text@[i];
                    'a' <= c <= 'z' || 'A' <= c <= 'Z' || '0' <= c <= '9' || c == '-' || c == '_'
                        || c == '.'
                }
            &&& text@.len() > 0 ==> text@[0] != '.'
            &&& forall|i: int, j: int|
                0 <= i < j < text@.len() && j == i + 1 && #[trigger] text@[i] == '.'
                    ==> #[trigger] text@[j] != '.'
            &&& forall|from: int, to: int|
                0 <= from <= to <= text@.len() && !(#[trigger] text@.subrange(from, to)).contains(
                    '.',
                ) ==> to - from <= 255
        },
{
    let t = text@;
    let name = trusted::without_final_dot(t);
    if result is Ok && t != seq!['.'] {
        if name.len() == 0 {
            assert(t.len() == 0) by {
                if t.len() > 0 {
                    assert(t =~= seq!['.']);
                }
            }
        } else {
            assert(name[0] != '.') by {
                if name[0] == '.' {
                    assert(trusted::is_label(name, 0, 0));
                }
            }
            assert forall|i: int| 0 <= i < t.len() implies {
                let c = #[trigger] t[i];
                'a' <= c <= 'z' || 'A' <= c <= 'Z' || '0' <= c <= '9' || c == '-' || c == '_' || c
                    == '.'
            } by {
                if t[i] != '.' {
                    assert(name[i] == t[i]);
                    let (from, to) = lemma_label_around(name, i);
                    assert(trusted::is_label_char(name[i]));
                }
            }
            assert forall|i: int, j: int|
                0 <= i < j < t.len() && j == i + 1 && #[trigger] t[i] == '.' implies #[trigger] t[j]
                != '.' by {
                if t[j] == '.' {
                    assert(name[i] == '.');
                    assert(trusted::is_label(name, j, j));
                }
            }
            assert forall|from: int, to: int|
                0 <= from <= to <= t.len() && !(#[trigger] t.subrange(from, to)).contains(
                    '.',
                ) implies to - from <= 255 by {
                if from < to {
                    let s = t.subrange(from, to);
                    assert forall|k: int| from <= k < to implies t[k] != '.' by {
                        assert(s[k - from] == t[k]);
                    }
                    assert(to <= name.len()) by {
                        assert(t[to - 1] != '.');
                    }
                    let (a, b) = lemma_label_around(name, from);
                    assert(b >= to) by {
                        if b < to {
                            assert(name[b] == t[b]);
                        }
                    }
                }
            }
        }
    }
    if result is Err && t.len() > 0 && t[0] != '.' && (forall|i: int|
        0 <= i < t.len() ==> {
            let c = #[trigger] t[i];
            'a' <= c <= 'z' || 'A' <= c <= 'Z' || '0' <= c <= '9' || c == '-' || c == '_' || c
                == '.'
        }) && (forall|i: int, j: int|
        0 <= i < j < t.len() && j == i + 1 && #[trigger] t[i] == '.' ==> #[trigger] t[j] != '.')
        && (forall|from: int, to: int|
        0 <= from <= to <= t.len() && !(#[trigger] t.subrange(from, to)).contains('.') ==> to - from
            <= 255) {
        assert forall|from: int, to: int| #[trigger] trusted::is_label(name, from, to) implies {
            &&& 1 <= to - from <= 255
            &&& forall|i: int| from <= i < to ==> trusted::is_label_char(#[trigger] name[i])
        } by {
            assert(from < to) by {
                if from == to {
                    if from == 0 {
                        assert(name[0] == t[0]);
                    } else {
                        assert(t[from - 1] == '.');
                        assert(from < t.len() && t[from] == '.');
                    }
                }
            }
            let s = t.subrange(from, to);
            assert(!s.contains('.')) by {
                if s.contains('.') {
                    let k = choose|k: int| 0 <= k < s.len() && s[k] == '.';
                    assert(name[from + k] == '.');
                }
            }
            assert forall|i: int| from <= i < to implies trusted::is_label_char(
                #[trigger] name[i],
            ) by {
                assert(t[i] == name[i]);
            }
        }
        assert(trusted::is_fqdn(t));
    }
}

} // verus!
