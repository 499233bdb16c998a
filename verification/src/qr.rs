//! QR payload handling: rendering is delegated to an outside QR
//! library; the library only validates payloads and passes them
//! through.

use vstd::prelude::*;

verus! {

/// What the QR renderer returns for a payload: `Some` with the
/// character raster when the payload fits a QR code, `None` when
/// it does not. The result depends on the payload alone.
pub uninterp spec fn qr_render_of(data: Seq<char>) -> Option<Seq<char>>;

/// Relies on qrcode's `QrCode::new` and its character renderer
/// (no quiet zone, one module per character): the rendering is a
/// deterministic function of the payload, and construction fails
/// exactly when the payload exceeds QR capacity. On failure the
/// error's display text is returned.
#[verifier::external_body]
pub fn generate_qr_code(data: &str, _size: u32) -> (r: Result<String, String>)
    ensures
        r is Ok <==> qr_render_of(data@) is Some,
        r is Ok ==> r->Ok_0@ == qr_render_of(data@)->0,
{
    match qrcode::QrCode::new(data) {
        Ok(code) => Ok(code.render::<char>().quiet_zone(false).module_dimensions(1, 1).build()),
        Err(e) => Err(e.to_string()),
    }
}

/// Validates that the payload fits a QR code and hands it back
/// unchanged; the image itself is rendered by the front-end
/// collaborator, not here.
pub fn generate_qr_svg(data: &str) -> (r: Result<String, String>)
    ensures
        r is Ok <==> qr_render_of(data@) is Some,
        r is Ok ==> r->Ok_0@ == data@,
{
    match generate_qr_code(data, 0) {
        Ok(_) => Ok(String::from_str(data)),
        Err(e) => Err(e),
    }
}

} // verus!
