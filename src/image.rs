use vstd::prelude::*;
use vstd::string::*;

verus! {

/// The standard base64 text of a byte sequence, with `=` padding.
pub uninterp spec fn base64_standard(bytes: Seq<u8>) -> Seq<char>;

/// Relies on `base64::encode_config` with `base64::STANDARD`: the padded
/// standard base64 text of the UTF-8 bytes of `text`, four characters for
/// every group of three bytes or fewer. It panics only when that length
/// overflows `usize`.
#[verifier::external_body]
fn encode_base64(text: &str) -> (r: String)
    requires
        text.spec_bytes().len() <= 3 * (usize::MAX / 4 - 1),
    ensures
        r@ == base64_standard(text.spec_bytes()),
        r@.len() == 4 * ((text.spec_bytes().len() + 2) / 3),
{
    base64::encode_config(text, base64::STANDARD)
}

/// The prefix of a data URL that holds base64-encoded SVG.
pub open spec fn svg_data_prefix() -> Seq<char> {
    "data:image/svg+xml;base64,"@
}

/// A data URL for SVG whose base64 text is `encoded`.
pub fn image_source_from_base64(encoded: &str) -> (r: String)
    ensures
        r@ == svg_data_prefix() + encoded@,
{
    let mut out = String::from_str("data:image/svg+xml;base64,");
    out.append(encoded);
    out
}

/// A data URL that holds the SVG document `svg`, for an image element.
pub fn svg_image_source(svg: &str) -> (r: String)
    requires
        svg.spec_bytes().len() <= 3 * (usize::MAX / 4 - 1),
    ensures
        r@ == svg_data_prefix() + base64_standard(svg.spec_bytes()),
{
    let encoded = encode_base64(svg);
    image_source_from_base64(encoded.as_str())
}

} // verus!
