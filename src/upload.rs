use vstd::prelude::*;

verus! {

/// What base64's `STANDARD` engine decodes a text to, or `None` where it refuses it.
pub uninterp spec fn standard_base64_decoded(s: Seq<char>) -> Option<Seq<u8>>;

/// base64's error for a text it cannot decode.
#[verifier::external_type_specification]
#[verifier::external_body]
pub struct ExDecodeError(base64::DecodeError);

/// Relies on base64's `Engine::decode` with the `STANDARD` engine (standard alphabet,
/// canonical padding): the outcome depends on the text alone.
#[verifier::external_body]
fn decode_standard_base64(s: &str) -> (r: Result<Vec<u8>, base64::DecodeError>)
    ensures
        r is Ok <==> standard_base64_decoded(s@) is Some,
        r is Ok ==> standard_base64_decoded(s@) == Some(r->Ok_0@),
{
    base64::Engine::decode(&base64::engine::general_purpose::STANDARD, s)
}

/// Why an uploaded image was refused.
#[derive(Clone, Copy, Debug, PartialEq, Eq, Structural)]
pub enum UploadError {
    /// The image data is not standard base64.
    InvalidBase64,
}

/// The bytes of an image sent as standard base64 text.
pub fn decode_image(image_data: &str) -> (r: Result<Vec<u8>, UploadError>)
    ensures
        r is Ok <==> standard_base64_decoded(image_data@) is Some,
        r is Ok ==> standard_base64_decoded(image_data@) == Some(r->Ok_0@),
        r is Err ==> r->Err_0 == UploadError::InvalidBase64,
{
    match decode_standard_base64(image_data) {
        Ok(bytes) => Ok(bytes),
        Err(_) => Err(UploadError::InvalidBase64),
    }
}

pub open spec fn gateway_prefix() -> Seq<char> {
    "https://gateway.pinata.cloud/ipfs/"@
}

/// The public address of a file pinned under `ipfs_hash`.
pub fn ipfs_gateway_url(ipfs_hash: &str) -> (r: String)
    ensures
        r@ == gateway_prefix() + ipfs_hash@,
{
    let mut url = String::from_str("https://gateway.pinata.cloud/ipfs/");
    url.append(ipfs_hash);
    url
}

} // verus!
