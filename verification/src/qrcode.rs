//! The outside code encoder: `qrcodegen_no_heap` turns a text payload into
//! a square boolean module grid at the smallest version that fits, using
//! caller-supplied scratch buffers and no heap allocation. Only its
//! input/output contract is stated here; the calls stand behind trusted
//! wrappers and everything that reads the grid is verified.

use vstd::prelude::*;
use qrcodegen_no_heap::{DataTooLong, QrCode, QrCodeEcc, Version};

verus! {

#[verifier::external_type_specification]
#[verifier::external_body]
pub struct ExQrCode<'a>(QrCode<'a>);

#[verifier::external_type_specification]
#[verifier::external_body]
pub struct ExDataTooLong(DataTooLong);

/// The module grid held by an encoded code: entry [x][y] is true exactly
/// when the module at column x, row y is dark.
pub uninterp spec fn qr_grid(qr: QrCode) -> Seq<Seq<bool>>;

/// What the encoder returns for a text payload at the highest
/// error-correction strength over the full version range, with automatic
/// mask selection and strength boosting: `Some` of the module grid at the
/// smallest fitting version, or `None` when the payload fits no version.
pub uninterp spec fn qr_encoding(text: Seq<char>) -> Option<Seq<Seq<bool>>>;

/// A square grid whose side is one of the sizes the code standard allows:
/// version * 4 + 17 for a version in 1..=40.
pub open spec fn grid_wf(g: Seq<Seq<bool>>) -> bool {
    &&& 21 <= g.len() <= 177
    &&& (g.len() - 17) % 4 == 0
    &&& forall|i: int| 0 <= i < g.len() ==> (#[trigger] g[i]).len() == g.len()
}

/// Scratch space for the largest supported version: the encoder asks each
/// buffer to hold at least `Version::MAX.buffer_len()` = (177 * 177 + 7) / 8
/// + 1 = 3918 bytes.
pub const QR_BUFFER_LEN: usize = 3918;

/// Relies on `qrcodegen_no_heap::QrCode::encode_text`: encodes the text at
/// ECC strength High over versions 1..=40, automatic mask, boosting on.
/// Its documentation asks each scratch buffer for at least
/// `Version::MAX.buffer_len()` bytes, promises that the buffers' initial
/// contents are never read, and returns `Err` exactly when the payload
/// fits no version in the range; the outcome therefore depends on the text
/// alone, and `qr_encoding` names it.
#[verifier::external_body]
pub(crate) fn qr_encode_text<'a>(
    text: &str,
    tempbuffer: &mut Vec<u8>,
    outbuffer: &'a mut Vec<u8>,
) -> (r: Result<QrCode<'a>, DataTooLong>)
    requires
        old(tempbuffer)@.len() >= QR_BUFFER_LEN,
        old(outbuffer)@.len() >= QR_BUFFER_LEN,
    ensures
        r matches Ok(qr) ==> {
            &&& qr_encoding(text@) == Some(qr_grid(qr))
            &&& grid_wf(qr_grid(qr))
        },
        r is Err ==> qr_encoding(text@) is None,
{
    QrCode::encode_text(
        text,
        tempbuffer.as_mut_slice(),
        outbuffer.as_mut_slice(),
        QrCodeEcc::High,
        Version::MIN,
        Version::MAX,
        None,
        true,
    )
}

/// Relies on `qrcodegen_no_heap::QrCode::size`: the side of the module
/// grid, equal to version * 4 + 17 and so between 21 and 177.
#[verifier::external_body]
pub(crate) fn qr_side(qr: &QrCode) -> (r: i32)
    ensures
        r == qr_grid(*qr).len(),
        21 <= r <= 177,
{
    qr.size()
}

/// Relies on `qrcodegen_no_heap::QrCode::get_module`: true exactly when
/// (x, y) is inside the grid and that module is dark; coordinates outside
/// the grid give false.
#[verifier::external_body]
pub(crate) fn qr_get_module(qr: &QrCode, x: i32, y: i32) -> (r: bool)
    ensures
        r == (0 <= x < qr_grid(*qr).len() && 0 <= y < qr_grid(*qr).len()
            && qr_grid(*qr)[x as int][y as int]),
{
    qr.get_module(x, y)
}

} // verus!
