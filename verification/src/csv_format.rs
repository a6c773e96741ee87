//! What a record looks like in a CSV document, byte for byte.
//!
//! Fields are separated by a comma and a record ends with a line feed. A
//! field that holds a comma, a double quote, a carriage return or a line feed
//! is put between double quotes, with each double quote inside it written
//! twice. A record that would otherwise be empty is written as two double
//! quotes.

use vstd::prelude::*;
use vstd::utf8::encode_utf8;

verus! {

pub const COMMA: u8 = 0x2c;

pub const QUOTE: u8 = 0x22;

pub const LINE_FEED: u8 = 0x0a;

pub const CARRIAGE_RETURN: u8 = 0x0d;

/// A byte that cannot stand in a field without quotes.
pub open spec fn is_special_byte(byte: u8) -> bool {
    byte == COMMA || byte == QUOTE || byte == LINE_FEED || byte == CARRIAGE_RETURN
}

/// Whether a field has to be put between quotes.
pub open spec fn needs_quotes(field: Seq<u8>) -> bool {
    exists|i: int| 0 <= i < field.len() && is_special_byte(#[trigger] field[i])
}

/// The field with each double quote written twice.
pub open spec fn quotes_doubled(field: Seq<u8>) -> Seq<u8>
    decreases field.len(),
{
    if field.len() == 0 {
        Seq::empty()
    } else if field.last() == QUOTE {
        quotes_doubled(field.drop_last()) + seq![QUOTE, QUOTE]
    } else {
        quotes_doubled(field.drop_last()) + seq![field.last()]
    }
}

/// One field as it stands in the document.
pub open spec fn field_bytes(field: Seq<u8>) -> Seq<u8> {
    if needs_quotes(field) {
        seq![QUOTE] + quotes_doubled(field) + seq![QUOTE]
    } else {
        field
    }
}

/// The fields of a record with a comma between each two.
pub open spec fn joined_fields(fields: Seq<Seq<u8>>) -> Seq<u8>
    decreases fields.len(),
{
    if fields.len() == 0 {
        Seq::empty()
    } else if fields.len() == 1 {
        field_bytes(fields[0])
    } else {
        joined_fields(fields.drop_last()) + seq![COMMA] + field_bytes(fields.last())
    }
}

/// One record as it stands in the document, line feed included.
pub open spec fn record_bytes(fields: Seq<Seq<u8>>) -> Seq<u8> {
    let body = joined_fields(fields);
    if body.len() == 0 {
        seq![QUOTE, QUOTE, LINE_FEED]
    } else {
        body + seq![LINE_FEED]
    }
}

/// The fields of a record of texts, each as its UTF-8 bytes.
pub open spec fn text_fields(fields: Seq<String>) -> Seq<Seq<u8>> {
    Seq::new(fields.len(), |i: int| encode_utf8(fields[i]@))
}

} // verus!
