//! The tool that has images generated.

use crate::text::concat;
use crate::text::decimal;
use crate::text::push_decimal;
use crate::text::push_str;
use base64::Engine;
use vstd::prelude::*;

verus! {

pub struct GenerateImageHandler {}

/// The arguments of a call, as the model gives them.
pub struct GenerateImageArgs {
    pub prompt: String,
    pub size: String,
    pub quality: String,
    pub n: u8,
}

/// The request that goes to the service.
pub struct DallERequest {
    pub model: String,
    pub prompt: String,
    pub n: u8,
    pub size: String,
    pub quality: String,
    pub response_format: String,
}

/// One image of the service's answer.
pub struct ImageData {
    pub url: Option<String>,
    pub b64_json: Option<String>,
}

/// Where the bytes of an image come from.
pub enum ImageSource {
    /// The answer holds them; this is the image as a data URL.
    Inline { image_url: String },
    /// They must be fetched from this address.
    Fetch { url: String },
    /// The answer holds neither.
    Missing,
}

pub fn default_size() -> (s: String)
    ensures
        s@ == "1024x1024"@,
{
    "1024x1024".to_string()
}

pub fn default_quality() -> (s: String)
    ensures
        s@ == "standard"@,
{
    "standard".to_string()
}

pub fn default_n() -> (n: u8)
    ensures
        n == 1,
{
    1
}

/// How a data URL for an image begins.
pub const DATA_URL_PREFIX: &'static str = "data:image/png;base64,";

/// The request for `args`.
pub fn dalle_request(args: &GenerateImageArgs) -> (r: DallERequest)
    ensures
        r.model@ == "dall-e-3"@,
        r.prompt == args.prompt,
        r.n == args.n,
        r.size == args.size,
        r.quality == args.quality,
        r.response_format@ == "b64_json"@,
{
    DallERequest {
        model: "dall-e-3".to_string(),
        prompt: args.prompt.clone(),
        n: args.n,
        size: args.size.clone(),
        quality: args.quality.clone(),
        response_format: "b64_json".to_string(),
    }
}

/// The data URL for an image in base 64.
pub fn data_url(b64_data: &str) -> (url: String)
    ensures
        url@ == DATA_URL_PREFIX@ + b64_data@,
{
    concat(DATA_URL_PREFIX, b64_data)
}

/// The text that the `base64` crate's standard alphabet gives for `bytes`.
pub uninterp spec fn base64_standard(bytes: Seq<u8>) -> Seq<char>;

/// The lengths for which the length of the encoding fits in the machine's
/// word.
pub open spec fn encodable_len(len: nat) -> bool {
    len / 3 < usize::MAX / 4
}

/// `Engine::encode` of the `base64` crate with the standard engine: the
/// result is a function of the bytes alone, named `base64_standard`. The
/// crate gives up when the encoding's length does not fit in a word; such
/// inputs are left out.
#[verifier::external_body]
fn base64_encode(bytes: &[u8]) -> (text: String)
    requires
        encodable_len(bytes@.len()),
    ensures
        text@ == base64_standard(bytes@),
{
    base64::engine::general_purpose::STANDARD.encode(bytes)
}

/// The data URL for the bytes of an image; none for more bytes than can be
/// encoded.
pub fn image_data_url(bytes: &Vec<u8>) -> (url: Option<String>)
    ensures
        url is Some == encodable_len(bytes@.len()),
        url matches Some(text) ==> text@ == DATA_URL_PREFIX@ + base64_standard(bytes@),
{
    if bytes.len() / 3 < usize::MAX / 4 {
        let encoded = base64_encode(bytes.as_slice());
        Some(data_url(encoded.as_str()))
    } else {
        None
    }
}

/// Where the bytes of `data` come from: the answer itself before an
/// address.
pub fn image_source(data: ImageData) -> (source: ImageSource)
    ensures
        match (data.b64_json, data.url) {
            (Some(b64), _) => source matches ImageSource::Inline { image_url } && image_url@
                == DATA_URL_PREFIX@ + b64@,
            (None, Some(url)) => source == (ImageSource::Fetch { url }),
            (None, None) => source is Missing,
        },
{
    let ImageData { url, b64_json } = data;
    match b64_json {
        Some(b64) => ImageSource::Inline { image_url: data_url(b64.as_str()) },
        None => match url {
            Some(url) => ImageSource::Fetch { url },
            None => ImageSource::Missing,
        },
    }
}

/// What the model is told when the images are there.
pub fn success_message(count: usize) -> (text: String)
    ensures
        text@ == "Generated "@ + decimal(count as nat) + " image(s) successfully"@,
{
    let mut text = "Generated ".to_string();
    push_decimal(&mut text, count as u64);
    push_str(&mut text, " image(s) successfully");
    text
}

/// What the model is told when the service failed.
pub fn failure_message(cause: &str) -> (text: String)
    ensures
        text@ == "Failed to generate image: "@ + cause@,
{
    concat("Failed to generate image: ", cause)
}

} // verus!
