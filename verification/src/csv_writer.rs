//! The writer of the `csv` crate, as far as the export uses it.
//!
//! Nothing in this file is proved: each contract states what the crate's
//! writer does, and the export is proved from these contracts.

use crate::csv_format::{record_bytes, text_fields};
use vstd::prelude::*;

verus! {

/// A CSV document under construction: a `csv::Writer` with the crate's
/// default settings, writing into a byte vector in memory.
///
/// The field is private and only `CsvBuffer::new` makes a value, so every
/// buffer has those settings, and none is left in the middle of a record.
#[verifier::external_body]
pub struct CsvBuffer {
    writer: csv::Writer<Vec<u8>>,
}

// The bytes that the writer has put out so far, those still in its own
// buffer included.
pub uninterp spec fn written(buffer: CsvBuffer) -> Seq<u8>;

// The number of fields of the first record written, if there is one. The
// writer holds every later record to it.
pub uninterp spec fn record_width(buffer: CsvBuffer) -> Option<nat>;

impl CsvBuffer {
    /// `csv::Writer::from_writer` on an empty vector.
    ///
    /// Claimed: nothing is written yet and no record has fixed the number of
    /// fields.
    #[verifier::external_body]
    pub(crate) fn new() -> (buffer: CsvBuffer)
        ensures
            written(buffer) == Seq::<u8>::empty(),
            record_width(buffer) is None,
    {
        CsvBuffer { writer: csv::Writer::from_writer(Vec::new()) }
    }

    /// `csv::Writer::write_record`, with each field given as its UTF-8
    /// bytes.
    ///
    /// Claimed: the record is added after what was written, byte for byte as
    /// `record_bytes` spells it; the first record fixes the number of fields;
    /// and the call succeeds. The writer fails only when its sink fails or
    /// when a record has another number of fields than the first. The sink
    /// here is a vector in memory, to which a write only appends, and
    /// `requires` holds the caller to the number of fields.
    #[verifier::external_body]
    pub(crate) fn write_record(&mut self, fields: &Vec<String>) -> (accepted: bool)
        requires
            record_width(*old(self)) is None || record_width(*old(self)) == Some(
                fields@.len(),
            ),
        ensures
            accepted,
            written(*final(self)) == written(*old(self)) + record_bytes(text_fields(fields@)),
            record_width(*final(self)) == Some(fields@.len()),
    {
        self.writer.write_record(fields).is_ok()
    }

    /// `csv::Writer::into_inner`: the writer empties its own buffer into the
    /// vector and hands the vector out.
    ///
    /// Claimed: there is always a vector, since a write to it only appends,
    /// and it holds all that was written.
    #[verifier::external_body]
    pub(crate) fn into_bytes(self) -> (bytes: Option<Vec<u8>>)
        ensures
            bytes is Some,
            bytes.unwrap()@ == written(self),
    {
        self.writer.into_inner().ok()
    }
}

} // verus!
