use vstd::prelude::*;
use crate::datetime::Failure;

verus! {

#[verifier::external_type_specification]
#[verifier::external_body]
pub struct ExExifError(exif::Error);

/// Whether the bytes of a file hold a metadata container that the reader accepts.
pub uninterp spec fn exif_readable(data: Seq<u8>) -> bool;

/// Whether the primary image of the metadata container in `data` carries a
/// capture date.
pub uninterp spec fn capture_date_present(data: Seq<u8>) -> bool;

/// Relies on `exif::Reader::read_from_container`, which parses the bytes of an
/// image file, and on `exif::Exif::get_field`, which looks up `DateTimeOriginal`
/// in the primary image. Both depend on the bytes alone.
#[verifier::external_body]
fn read_capture_date(data: &[u8]) -> (r: Result<bool, exif::Error>)
    ensures
        r is Ok <==> exif_readable(data@),
        r matches Ok(b) ==> b == capture_date_present(data@),
{
    match exif::Reader::new().read_from_container(&mut std::io::Cursor::new(data)) {
        Ok(e) => Ok(e.get_field(exif::Tag::DateTimeOriginal, exif::In::PRIMARY).is_some()),
        Err(err) => Err(err),
    }
}

/// Whether the file whose bytes are `data` already carries a capture date.
pub fn has_datetime(data: &[u8]) -> (r: Result<bool, Failure>)
    ensures
        r is Err <==> !exif_readable(data@),
        r matches Err(e) ==> e == Failure::UnreadableMetadata,
        r matches Ok(b) ==> b == capture_date_present(data@),
{
    match read_capture_date(data) {
        Ok(b) => Ok(b),
        Err(_) => Err(Failure::UnreadableMetadata),
    }
}

} // verus!
