//! Connection options: ordered key/value pairs of text, and the form in which
//! an ADBC database takes them.

use adbc_core::options::{OptionConnection, OptionValue};
use vstd::prelude::*;

verus! {

/// The driver's option key. Verus carries it through without looking inside.
#[verifier::external_type_specification]
#[verifier::external_body]
pub struct ExOptionConnection(adbc_core::options::OptionConnection);

/// The driver's option value. Verus carries it through without looking inside.
#[verifier::external_type_specification]
#[verifier::external_body]
pub struct ExOptionValue(adbc_core::options::OptionValue);

/// The connection option key that `adbc_core` makes of a key's text: one of
/// its canonical keys where the text is that key's name, and otherwise a
/// driver-specific key that holds the text.
pub uninterp spec fn connection_key(key: Seq<char>) -> OptionConnection;

/// The option value that `adbc_core` makes of a value's text: a string value
/// that holds the text.
pub uninterp spec fn string_value(value: Seq<char>) -> OptionValue;

/// One configured pair in the form the database takes.
pub open spec fn adbc_pair(pair: (Seq<char>, Seq<char>)) -> (OptionConnection, OptionValue) {
    (connection_key(pair.0), string_value(pair.1))
}

/// A whole option sequence in the form the database takes: as many pairs, in
/// the same order, each converted by itself.
pub open spec fn adbc_pairs(options: Seq<(Seq<char>, Seq<char>)>) -> Seq<
    (OptionConnection, OptionValue),
> {
    Seq::new(options.len(), |i: int| adbc_pair(options[i]))
}

/// Calls `OptionConnection::from` on the key's text. The contract names the
/// key that comes back; which key `adbc_core` picks for a text is not proved
/// here.
#[verifier::external_body]
pub(crate) fn key_of(key: &str) -> (converted: OptionConnection)
    ensures
        converted == connection_key(key@),
{
    OptionConnection::from(key)
}

/// Calls `OptionValue::from` on the value's text. The contract names the
/// value that comes back; that it is a string value with the same text is
/// not proved here.
#[verifier::external_body]
pub(crate) fn value_of(value: &str) -> (converted: OptionValue)
    ensures
        converted == string_value(value@),
{
    OptionValue::from(value)
}

} // verus!
