//! Everything that is taken on trust about the crates this library calls.

use std::str::FromStr;
use vstd::prelude::*;

verus! {

/// The worker queue's sending half: `tokio::sync::mpsc::Sender`.
#[verifier::external_type_specification]
#[verifier::external_body]
#[verifier::reject_recursive_types(T)]
pub struct ExSender<T>(tokio::sync::mpsc::Sender<T>);

/// A JSON value: `serde_json::Value`.
#[verifier::external_type_specification]
#[verifier::external_body]
pub struct ExValue(serde_json::Value);

/// Why JSON could not be read or written: `serde_json::Error`.
#[verifier::external_type_specification]
#[verifier::external_body]
pub struct ExJsonError(serde_json::Error);

/// An account at an ACME server: `instant_acme::Account`.
#[verifier::external_type_specification]
#[verifier::external_body]
pub struct ExAccount(instant_acme::Account);

/// What it takes to use an ACME account again: `instant_acme::AccountCredentials`.
#[verifier::external_type_specification]
#[verifier::external_body]
pub struct ExAccountCredentials<'a>(instant_acme::AccountCredentials<'a>);

/// A fully qualified domain name: `fqdn::FQDN`.
#[verifier::external_type_specification]
#[verifier::external_body]
pub struct ExFqdn(fqdn::FQDN);

/// Why a text is no fully qualified domain name: `fqdn::Error`.
#[verifier::external_type_specification]
#[verifier::external_body]
pub struct ExFqdnError(fqdn::Error);

/// `Sender::is_closed`: whether the receiving half is gone or has closed the
/// queue. Another thread can close the queue at any moment, so nothing is
/// claimed of the answer.
#[verifier::external_body]
pub(crate) fn is_closed<T>(sender: &tokio::sync::mpsc::Sender<T>) -> (closed: bool) {
    sender.is_closed()
}

/// `Sender::capacity`: how many more tasks the queue would take right now.
/// Other threads fill and drain the queue meanwhile, so nothing is claimed of
/// the answer, nor that two calls agree.
#[verifier::external_body]
pub(crate) fn capacity<T>(sender: &tokio::sync::mpsc::Sender<T>) -> (capacity: usize) {
    sender.capacity()
}

/// `http::StatusCode::OK` is 200.
#[verifier::external_body]
pub(crate) fn status_ok() -> (code: u16)
    ensures
        code == 200,
{
    http::StatusCode::OK.as_u16()
}

/// `http::StatusCode::UNAUTHORIZED` is 401.
#[verifier::external_body]
pub(crate) fn status_unauthorized() -> (code: u16)
    ensures
        code == 401,
{
    http::StatusCode::UNAUTHORIZED.as_u16()
}

/// `http::StatusCode::FORBIDDEN` is 403.
#[verifier::external_body]
pub(crate) fn status_forbidden() -> (code: u16)
    ensures
        code == 403,
{
    http::StatusCode::FORBIDDEN.as_u16()
}

/// `http::StatusCode::NOT_FOUND` is 404.
#[verifier::external_body]
pub(crate) fn status_not_found() -> (code: u16)
    ensures
        code == 404,
{
    http::StatusCode::NOT_FOUND.as_u16()
}

/// `http::StatusCode::INTERNAL_SERVER_ERROR` is 500.
#[verifier::external_body]
pub(crate) fn status_internal_server_error() -> (code: u16)
    ensures
        code == 500,
{
    http::StatusCode::INTERNAL_SERVER_ERROR.as_u16()
}

/// The compact JSON text of a value, as `serde_json` writes it.
pub uninterp spec fn json_text(value: serde_json::Value) -> Seq<char>;

/// No character of `text` is one that JSON text holds only in escaped form.
pub open spec fn unescaped(text: Seq<char>) -> bool {
    forall|i: int|
        0 <= i < text.len() ==> #[trigger] text[i] != '"' && text[i] != '\\' && text[i] >= ' '
}

/// `serde_json::Map::new`: the object without members is written `{}`.
#[verifier::external_body]
pub(crate) fn empty_object() -> (value: serde_json::Value)
    ensures
        json_text(value) == "{}"@,
{
    serde_json::Value::Object(serde_json::Map::new())
}

/// `serde_json::Map::insert` into an empty map: an object with one member, a
/// string, is written with the name and the string in quotes, a colon between
/// them and braces around them, and without white space.
#[verifier::external_body]
pub(crate) fn string_member(name: &str, text: &str) -> (value: serde_json::Value)
    requires
        unescaped(name@),
        unescaped(text@),
    ensures
        json_text(value) == "{\""@ + name@ + "\":\""@ + text@ + "\"}"@,
{
    let mut object = serde_json::Map::new();
    object.insert(name.to_string(), serde_json::Value::String(text.to_string()));
    serde_json::Value::Object(object)
}

/// `serde_json::to_vec`: the bytes of the value's JSON text. Writing a
/// `serde_json::Value` into memory does not fail.
#[verifier::external_body]
pub(crate) fn json_to_vec(value: &serde_json::Value) -> (bytes: Vec<u8>)
    ensures
        bytes@ == vstd::utf8::encode_utf8(json_text(*value)),
{
    serde_json::to_vec(value).unwrap()
}

/// The credentials of an ACME account.
pub uninterp spec fn credentials_of(
    account: instant_acme::Account,
) -> instant_acme::AccountCredentials<'static>;

/// The credentials as a JSON value, where they can be written as one.
pub uninterp spec fn credentials_to_json(
    credentials: instant_acme::AccountCredentials<'static>,
) -> Option<serde_json::Value>;

/// The credentials that a JSON value stands for, where it stands for some.
pub uninterp spec fn credentials_from_json(
    value: serde_json::Value,
) -> Option<instant_acme::AccountCredentials<'static>>;

/// `instant_acme::Account::credentials`: a function of the account.
#[verifier::external_body]
pub(crate) fn account_credentials<'a>(
    account: &'a instant_acme::Account,
) -> (credentials: instant_acme::AccountCredentials<'a>)
    ensures
        credentials == credentials_of(*account),
{
    account.credentials()
}

/// `serde_json::to_value` on account credentials: a function of the
/// credentials. What it writes, [`credentials_from_value`] reads back: both
/// follow from one list of fields, all of them strings.
#[verifier::external_body]
pub(crate) fn credentials_to_value(
    credentials: instant_acme::AccountCredentials<'_>,
) -> (result: Result<serde_json::Value, serde_json::Error>)
    ensures
        match result {
            Ok(value) => {
                &&& credentials_to_json(credentials) == Some(value)
                &&& credentials_from_json(value) == Some(credentials)
            },
            Err(_) => credentials_to_json(credentials) is None,
        },
{
    serde_json::to_value(credentials)
}

/// `serde_json::from_value` for account credentials: a function of the value.
#[verifier::external_body]
pub(crate) fn credentials_from_value(
    value: serde_json::Value,
) -> (result: Result<instant_acme::AccountCredentials<'static>, serde_json::Error>)
    ensures
        match result {
            Ok(credentials) => credentials_from_json(value) == Some(credentials),
            Err(_) => credentials_from_json(value) is None,
        },
{
    serde_json::from_value(value)
}

/// The characters that a label of a domain name is made of.
pub open spec fn is_label_char(c: char) -> bool {
    ||| 'a' <= c <= 'z'
    ||| 'A' <= c <= 'Z'
    ||| '0' <= c <= '9'
    ||| c == '-'
    ||| c == '_'
}

/// `name[from..to]` is what stands between two dots of `name`, or between a
/// dot and an end of it.
pub open spec fn is_label(name: Seq<char>, from: int, to: int) -> bool {
    &&& 0 <= from <= to <= name.len()
    &&& from == 0 || name[from - 1] == '.'
    &&& to == name.len() || name[to] == '.'
    &&& forall|i: int| from <= i < to ==> name[i] != '.'
}

/// `text` without the dot that it may end in.
pub open spec fn without_final_dot(text: Seq<char>) -> Seq<char> {
    if text.len() > 0 && text.last() == '.' {
        text.drop_last()
    } else {
        text
    }
}

/// `text` names the root, or is a row of labels of 1 to 255 characters each,
/// with dots between them and perhaps one at the end.
pub open spec fn is_fqdn(text: Seq<char>) -> bool {
    let name = without_final_dot(text);
    name.len() == 0 || forall|from: int, to: int| #[trigger]
        is_label(name, from, to) ==> {
            &&& 1 <= to - from <= 255
            &&& forall|i: int| from <= i < to ==> is_label_char(#[trigger] name[i])
        }
}

/// The domain name that a text is read as.
pub uninterp spec fn fqdn_of(text: Seq<char>) -> fqdn::FQDN;

/// `fqdn::FQDN::from_str`, with the crate's default features: it takes exactly
/// the texts of [`is_fqdn`], and what it returns is a function of the text.
#[verifier::external_body]
pub(crate) fn fqdn_from_str(text: &str) -> (result: Result<fqdn::FQDN, fqdn::Error>)
    ensures
        result is Ok <==> is_fqdn(text@),
        result matches Ok(name) ==> name == fqdn_of(text@),
{
    fqdn::FQDN::from_str(text)
}

/// `instant_acme::LetsEncrypt::url` of the production server.
#[verifier::external_body]
pub(crate) fn lets_encrypt_url() -> (url: &'static str)
    ensures
        url@ == "https://acme-v02.api.letsencrypt.org/directory"@,
{
    instant_acme::LetsEncrypt::Production.url()
}

} // verus!
