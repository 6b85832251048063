//! What other crates contribute: the types that are carried through, and the
//! calls whose behaviour is relied upon without proof.
use vstd::prelude::*;
use vstd::utf8::{decode_utf8, valid_utf8};

verus! {

/// `std::io::Error`: why an operation of the operating system failed.
#[verifier::external_type_specification]
#[verifier::external_body]
pub struct ExIoError(std::io::Error);

/// `std::path::PathBuf`: the path of a local file.
#[verifier::external_type_specification]
#[verifier::external_body]
pub struct ExPathBuf(std::path::PathBuf);

/// `url::Url`: the parsed address of a remote file.
#[verifier::external_type_specification]
#[verifier::external_body]
pub struct ExUrl(url::Url);

/// `reqwest::Client`: the client that sends requests.
#[verifier::external_type_specification]
#[verifier::external_body]
pub struct ExClient(reqwest::Client);

/// `reqwest::Request`: a request that is ready to be sent.
#[verifier::external_type_specification]
#[verifier::external_body]
pub struct ExRequest(reqwest::Request);

/// `reqwest::Error`: why a request could not be built, sent or answered.
#[verifier::external_type_specification]
#[verifier::external_body]
pub struct ExRequestError(reqwest::Error);

/// `serde_yaml::Value`: a YAML value of any shape.
#[verifier::external_type_specification]
#[verifier::external_body]
pub struct ExYamlValue(serde_yaml::Value);

/// `serde_yaml::Error`: why YAML could not be read or written.
#[verifier::external_type_specification]
#[verifier::external_body]
pub struct ExYamlError(serde_yaml::Error);

/// `tera::Error`: why a template could not be rendered.
#[verifier::external_type_specification]
#[verifier::external_body]
pub struct ExTemplateError(tera::Error);

/// The text that `String::from_utf8_lossy` makes of `bytes`.
pub uninterp spec fn utf8_lossy(bytes: Seq<u8>) -> Seq<char>;

/// Calls `String::from_utf8_lossy`.
///
/// The text is a function of the bytes, and bytes that are valid UTF-8 are
/// decoded as they stand. Where replacement characters go in any other input
/// is left to the name `utf8_lossy`.
#[verifier::external_body]
pub(crate) fn lossy_text(bytes: &[u8]) -> (text: String)
    ensures
        text@ == utf8_lossy(bytes@),
        valid_utf8(bytes@) ==> text@ == decode_utf8(bytes@),
{
    String::from_utf8_lossy(bytes).into_owned()
}

/// What `serde_yaml::to_string` makes of `value`: a YAML document, or the error
/// that says why the value has no such form.
pub uninterp spec fn yaml_document(value: serde_yaml::Value) -> Result<
    Seq<char>,
    serde_yaml::Error,
>;

/// Calls `serde_yaml::to_string` on a YAML value.
///
/// The document, or the error, is a function of the value.
#[verifier::external_body]
pub(crate) fn yaml_text(value: &serde_yaml::Value) -> (document: Result<
    String,
    serde_yaml::Error,
>)
    ensures
        match document {
            Ok(text) => yaml_document(*value) == Ok::<Seq<char>, serde_yaml::Error>(text@),
            Err(error) => yaml_document(*value) == Err::<Seq<char>, serde_yaml::Error>(error),
        },
{
    serde_yaml::to_string(value)
}

/// The GET request that `reqwest` builds for `url`, or the error that says why
/// there is none.
pub uninterp spec fn get_request(url: url::Url) -> Result<reqwest::Request, reqwest::Error>;

/// Calls `reqwest::Client::get` and `reqwest::RequestBuilder::build`.
///
/// The request, or the error, is a function of the URL: the client lends the
/// builder nothing that ends up in the request.
#[verifier::external_body]
pub(crate) fn build_get_request(client: &reqwest::Client, url: &url::Url) -> (request: Result<
    reqwest::Request,
    reqwest::Error,
>)
    ensures
        request == get_request(*url),
{
    client.get(url.clone()).build()
}

} // verus!
