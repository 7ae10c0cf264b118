//! The CSV writer of the `csv` crate, filling a byte buffer in memory.

use vstd::prelude::*;

verus! {

/// A `csv::Writer` with the default configuration over a vector of bytes.
/// Values are made by [`CsvSink::new`] alone.
#[verifier::external_body]
pub struct CsvSink {
    writer: csv::Writer<Vec<u8>>,
}

/// `csv::Error`, the reason for which a record was not written. Nothing is
/// known of a value of it.
#[verifier::external_type_specification]
#[verifier::external_body]
pub struct ExCsvError(csv::Error);

/// The bytes that a sink has produced so far, whether still buffered or
/// already handed to the vector underneath.
pub uninterp spec fn written(sink: CsvSink) -> Seq<u8>;

/// Whether a sink stands between two records and takes a record of `n`
/// fields as its next one.
pub uninterp spec fn accepts(sink: CsvSink, n: nat) -> bool;

/// The bytes that a writer with the default configuration produces for one
/// record: the fields, quoted where needed, separated by commas and ended
/// by a line feed.
pub uninterp spec fn record_bytes(fields: Seq<Seq<char>>) -> Seq<u8>;

/// The views of a record's fields, in order.
pub open spec fn field_texts(fields: Seq<&str>) -> Seq<Seq<char>> {
    fields.map_values(|f: &str| f@)
}

impl CsvSink {
    /// `csv::Writer::from_writer` on an empty vector: a writer that has
    /// written nothing and takes a first record of any number of fields.
    #[verifier::external_body]
    pub(crate) fn new() -> (sink: CsvSink)
        ensures
            written(sink) == Seq::<u8>::empty(),
            forall|n: nat| accepts(sink, n),
    {
        CsvSink { writer: csv::Writer::from_writer(Vec::new()) }
    }

    /// `csv::Writer::write_record`: a record that the writer accepts is
    /// written in full and nothing else is, and the writer then takes
    /// records of the same number of fields. The call fails only on a
    /// record of another length than the first one, or where writing to
    /// what lies underneath fails, and appending to a vector does not.
    #[verifier::external_body]
    pub(crate) fn write_record(&mut self, fields: &Vec<&str>) -> (r: Result<(), csv::Error>)
        ensures
            accepts(*old(self), fields@.len()) ==> {
                &&& r is Ok
                &&& written(*final(self)) == written(*old(self)) + record_bytes(field_texts(fields@))
                &&& accepts(*final(self), fields@.len())
            },
    {
        self.writer.write_record(fields)
    }

    /// `csv::Writer::into_inner`: flushes the writer and hands out the
    /// vector underneath, which then holds every byte written. It fails
    /// only where writing to what lies underneath fails, and appending to
    /// a vector does not.
    #[verifier::external_body]
    pub(crate) fn into_bytes(self) -> (r: Option<Vec<u8>>)
        ensures
            r is Some,
            r matches Some(bytes) ==> bytes@ == written(self),
    {
        self.writer.into_inner().ok()
    }
}

} // verus!
