//! Record identifiers as the store's driver knows them: how one is read out
//! of what the driver reports, and how one is written out for a client.

use vstd::prelude::*;
use crate::record::RecordId;

verus! {

/// The sixteen hexadecimal digits, lower case, in order of value.
pub open spec fn hex_digits() -> Seq<char> {
    seq!['0', '1', '2', '3', '4', '5', '6', '7', '8', '9', 'a', 'b', 'c', 'd', 'e', 'f']
}

/// The lower-case hexadecimal form of `bytes`: two digits for each byte, the
/// high half first, the bytes in the order in which they stand.
pub open spec fn lower_hex(bytes: Seq<u8>) -> Seq<char> {
    Seq::new(
        2 * bytes.len(),
        |i: int|
            if i % 2 == 0 {
                hex_digits()[bytes[i / 2] as int / 16]
            } else {
                hex_digits()[bytes[i / 2] as int % 16]
            },
    )
}

/// Writes an identifier as the store's own driver does, by
/// `mongodb::bson::oid::ObjectId::to_hex`.
///
/// Not proved here: that the driver's text is the lower-case hexadecimal form
/// of the twelve bytes, two digits to a byte and the first byte first.
#[verifier::external_body]
pub(crate) fn object_id_hex(bytes: &[u8; 12]) -> (text: String)
    ensures
        text@ == lower_hex(bytes@),
{
    mongodb::bson::oid::ObjectId::from_bytes(*bytes).to_hex()
}

/// The kind of value in which the store's driver reports the name of a filed
/// record. Nothing of what is inside is known here.
#[verifier::external_type_specification]
#[verifier::external_body]
pub struct ExBson(mongodb::bson::Bson);

/// The twelve bytes of the identifier that a name reported by the driver
/// holds, or nothing where the name is of another kind: what
/// `mongodb::bson::Bson::as_object_id` reads out of it. The same name always
/// holds the same.
pub uninterp spec fn reported_object_id(name: mongodb::bson::Bson) -> Option<Seq<u8>>;

/// Reads the identifier out of a name that the driver reported, by
/// `mongodb::bson::Bson::as_object_id`, and copies its twelve bytes.
///
/// Not proved here: that what comes back depends on the name alone. Which
/// names hold an identifier is left to the driver.
#[verifier::external_body]
pub(crate) fn bson_object_id(name: &mongodb::bson::Bson) -> (id: Option<RecordId>)
    ensures
        id is Some <==> reported_object_id(*name) is Some,
        id is Some ==> id->0@ == reported_object_id(*name)->0,
{
    match name.as_object_id() {
        Some(oid) => Some(RecordId { bytes: oid.bytes() }),
        None => None,
    }
}

} // verus!
