//! Saving a generated image: decoding its data and naming its metadata file.

use vstd::prelude::*;
use vstd::string::*;
use crate::text::{ends_with, join2, join3, replace_all, replace_text};

verus! {

/// What the base64 crate's `STANDARD` engine decodes `input` to: the bytes,
/// or the displayed text of the decode error.
pub uninterp spec fn base64_standard_decode(input: Seq<char>) -> Result<Seq<u8>, Seq<char>>;

/// The view of a decoding result.
pub open spec fn decoded_view(r: Result<Vec<u8>, String>) -> Result<Seq<u8>, Seq<char>> {
    match r {
        Ok(bytes) => Ok(bytes@),
        Err(e) => Err(e@),
    }
}

/// Decodes standard base64 (with padding).
///
/// Trusted: calls `base64::Engine::decode` on
/// `base64::engine::general_purpose::STANDARD` and turns a `DecodeError` into
/// its displayed text; the contract names the outcome
/// `base64_standard_decode(input)` and says nothing more of it.
#[verifier::external_body]
fn decode_standard(input: &str) -> (r: Result<Vec<u8>, String>)
    ensures
        decoded_view(r) == base64_standard_decode(input@),
{
    base64::Engine::decode(&base64::engine::general_purpose::STANDARD, input).map_err(
        |e| e.to_string(),
    )
}

/// The image data that a decoding gives: its bytes, or an error naming why
/// the data is no valid base64.
pub open spec fn image_data(decoded: Result<Seq<u8>, Seq<char>>) -> Result<Seq<u8>, Seq<char>> {
    match decoded {
        Ok(bytes) => Ok(bytes),
        Err(e) => Err("Invalid base64 image data: "@ + e),
    }
}

/// The image data that the decoding `decoded` gives.
pub fn image_data_from(decoded: Result<Vec<u8>, String>) -> (r: Result<Vec<u8>, String>)
    ensures
        decoded_view(r) == image_data(decoded_view(decoded)),
{
    match decoded {
        Ok(bytes) => Ok(bytes),
        Err(e) => Err(join2("Invalid base64 image data: ", e.as_str())),
    }
}

/// Decodes the base64 image data of a generation.
pub fn decode_image(image_base64: &str) -> (r: Result<Vec<u8>, String>)
    ensures
        decoded_view(r) == image_data(base64_standard_decode(image_base64@)),
{
    image_data_from(decode_standard(image_base64))
}

/// The name of an image's metadata file: every `.png` in its name becomes `.json`.
pub fn metadata_file_name(filename: &str) -> (r: String)
    ensures
        r@ == replace_all(filename@, ".png"@, ".json"@),
        ends_with(filename@, ".png"@) ==> ends_with(r@, ".json"@),
{
    proof {
        reveal_strlit(".png");
        crate::laws::png_names_get_json_names(filename@);
    }
    replace_text(filename, ".png", ".json")
}

/// The message of a saved generation, naming the image and its metadata file.
pub fn saved_message(filename: &str, metadata_name: &str) -> (r: String)
    ensures
        r@ == "Saved to gallery/"@ + filename@ + " + "@ + metadata_name@,
{
    let head = join3("Saved to gallery/", filename, " + ");
    join2(head.as_str(), metadata_name)
}

} // verus!
