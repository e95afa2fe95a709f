//! Capture dates embedded in image files.
//!
//! The tagged metadata block of a file is decoded by the `exif` crate. The
//! two functions that call it are marked `external_body`; what they return is
//! named, so that the steps after decoding are stated and proved exactly.

use vstd::prelude::*;
use crate::timestamp::CaptureDate;
use crate::timestamp::CAPTURE_PATTERN;
use crate::timestamp::parse_capture_date;
use crate::timestamp::parsed_date_time;
use crate::timestamp::render_date_time;
use crate::timestamp::rendered_date_time;

verus! {

/// The decoded metadata of one file. Opaque: its fields are read through
/// [`lookup_field`] only.
#[verifier::external_type_specification]
#[verifier::external_body]
pub struct ExExif(exif::Exif);

/// The error of a failed decoding. Opaque.
#[verifier::external_type_specification]
#[verifier::external_body]
pub struct ExExifError(exif::Error);

/// The block of a metadata container that a tag number is read in.
#[derive(Clone, Copy, Debug, PartialEq, Eq, Structural)]
pub enum Block {
    /// The attributes of the image as a file.
    Tiff,
    /// The attributes of the capture.
    Exif,
    /// The attributes of the position.
    Gps,
    /// The attributes of interoperability.
    Interop,
}

/// Where a field stands in the metadata of a file.
#[derive(Clone, Copy, Debug, PartialEq, Eq, Structural)]
pub struct FieldKey {
    /// The index of the image within the file; zero is the primary image.
    pub image: u16,
    /// The block of the tag.
    pub block: Block,
    /// The number of the tag within its block.
    pub number: u16,
}

/// What the resolver reads of a field's value.
#[derive(Debug, PartialEq, Eq)]
pub enum FieldValue {
    /// A textual value: one byte string per entry.
    Text(Vec<Vec<u8>>),
    /// A value of any other kind.
    Other,
}

impl FieldValue {
    /// The byte strings of a textual value, `None` for any other.
    pub open spec fn texts(self) -> Option<Seq<Seq<u8>>> {
        match self {
            FieldValue::Text(entries) => Some(entries.deep_view()),
            FieldValue::Other => None,
        }
    }
}

/// What the fields of decoded metadata hold: the byte strings of a textual
/// field, `None` for a field of any other kind. A key is in the map exactly
/// if the field is present.
pub uninterp spec fn exif_fields(metadata: exif::Exif) -> Map<FieldKey, Option<Seq<Seq<u8>>>>;

/// The fields that `exif::Reader::read_from_container` finds in a file with
/// these contents, or `None` where it reports an error (no known container,
/// a truncated or malformed one, no metadata in it).
pub uninterp spec fn container_fields(contents: Seq<u8>) -> Option<
    Map<FieldKey, Option<Seq<Seq<u8>>>>,
>;

/// What `String::from_utf8_lossy` makes of `bytes`: the text they encode,
/// with the replacement character in place of each invalid sequence.
pub uninterp spec fn lossy_text(bytes: Seq<u8>) -> Seq<char>;

/// The index of the primary image of a file.
pub const PRIMARY_IMAGE: u16 = 0;

/// The number of the tag that holds the original capture date and time.
pub const CAPTURE_TAG: u16 = 0x9003;

/// Where the original capture date and time stands: in the capture
/// attributes of the primary image.
pub open spec fn capture_field() -> FieldKey {
    FieldKey { image: PRIMARY_IMAGE, block: Block::Exif, number: CAPTURE_TAG }
}

/// The text of the capture-date field in a file with these contents: the
/// first entry of the field, decoded leniently. `None` where the contents
/// cannot be decoded, the field is missing from the primary image, its
/// value is not textual, or it has no entry.
pub open spec fn capture_text_of(contents: Seq<u8>) -> Option<Seq<char>> {
    match container_fields(contents) {
        None => None,
        Some(fields) => {
            let key = capture_field();
            if !fields.contains_key(key) {
                None
            } else {
                match fields[key] {
                    None => None,
                    Some(texts) => if texts.len() == 0 {
                        None
                    } else {
                        Some(lossy_text(texts[0]))
                    },
                }
            }
        },
    }
}

/// The capture date of a file with these contents: its capture text, read
/// strictly as `YYYY:MM:DD HH:MM:SS`.
pub open spec fn capture_date_of(contents: Seq<u8>) -> Option<CaptureDate> {
    match capture_text_of(contents) {
        None => None,
        Some(text) => parsed_date_time(text, CAPTURE_PATTERN@),
    }
}

/// The capture date of a file with these contents, rendered under
/// `template`.
pub open spec fn metadata_date(contents: Seq<u8>, template: Seq<char>) -> Option<Seq<char>> {
    match capture_date_of(contents) {
        None => None,
        Some(date) => rendered_date_time(date, template),
    }
}

/// Calls `exif::Reader::read_from_container` on the contents of a file,
/// held in memory. Trusted: the outcome depends on the bytes alone, and the
/// fields of the decoded metadata are those named for the bytes.
#[verifier::external_body]
fn read_container(contents: &[u8]) -> (r: Result<exif::Exif, exif::Error>)
    ensures
        match r {
            Ok(metadata) => container_fields(contents@) == Some(exif_fields(metadata)),
            Err(_) => container_fields(contents@) is None,
        },
{
    exif::Reader::new().read_from_container(&mut std::io::Cursor::new(contents))
}

/// Calls `exif::Exif::get_field` with the tag and the image index that
/// `key` stands for, and copies what the resolver reads of the field.
/// Trusted: a field is returned exactly if the key is in the named map, and
/// a textual value comes back with its byte strings unchanged.
#[verifier::external_body]
fn lookup_field(metadata: &exif::Exif, key: FieldKey) -> (r: Option<FieldValue>)
    ensures
        r is Some <==> exif_fields(*metadata).contains_key(key),
        r matches Some(value) ==> exif_fields(*metadata)[key] == value.texts(),
{
    let context = match key.block {
        Block::Tiff => exif::Context::Tiff,
        Block::Exif => exif::Context::Exif,
        Block::Gps => exif::Context::Gps,
        Block::Interop => exif::Context::Interop,
    };
    match metadata.get_field(exif::Tag(context, key.number), exif::In(key.image)) {
        Some(field) => match field.value {
            exif::Value::Ascii(ref entries) => Some(FieldValue::Text(entries.clone())),
            _ => Some(FieldValue::Other),
        },
        None => None,
    }
}

/// Calls `String::from_utf8_lossy`. Trusted: the text depends on the bytes
/// alone.
#[verifier::external_body]
fn decode_lossy(bytes: &[u8]) -> (r: String)
    ensures
        r@ == lossy_text(bytes@),
{
    String::from_utf8_lossy(bytes).into_owned()
}

/// Finds the text of the capture-date field in the contents of a file.
pub fn capture_text(contents: &[u8]) -> (r: Option<String>)
    ensures
        r.deep_view() == capture_text_of(contents@),
{
    match read_container(contents) {
        Err(_) => None,
        Ok(metadata) => {
            let key = FieldKey { image: PRIMARY_IMAGE, block: Block::Exif, number: CAPTURE_TAG };
            match lookup_field(&metadata, key) {
                None => None,
                Some(FieldValue::Other) => None,
                Some(FieldValue::Text(entries)) => {
                    if entries.len() == 0 {
                        None
                    } else {
                        assert(entries.deep_view()[0] =~= entries[0]@);
                        Some(decode_lossy(entries[0].as_slice()))
                    }
                },
            }
        },
    }
}

/// Finds the capture date in the contents of a file.
pub fn capture_date(contents: &[u8]) -> (r: Option<CaptureDate>)
    ensures
        r == capture_date_of(contents@),
{
    match capture_text(contents) {
        None => None,
        Some(text) => parse_capture_date(text.as_str()),
    }
}

/// Resolves the date of a file from its embedded metadata and renders it
/// under `date_format`.
///
/// Returns `None` where the file holds no capture date that can be read,
/// and where `date_format` cannot be rendered for a timestamp without a
/// time zone.
pub fn format_exif_date(contents: &[u8], date_format: &str) -> (r: Option<String>)
    ensures
        r.deep_view() == metadata_date(contents@, date_format@),
{
    match capture_date(contents) {
        None => None,
        Some(date) => render_date_time(&date, date_format),
    }
}

} // verus!
