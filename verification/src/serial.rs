//! Trusted boundary to the serialization format.
//!
//! The codec treats the serialization library (`bincode`) as an opaque
//! collaborator offering three operations over a configuration object:
//! turn a value into bytes, read one value back from the front of a byte
//! sequence, and predict a value's serialized size.  Nothing can be stated
//! here about which bytes a given value maps to — the message type is a
//! caller-chosen type parameter — so the contracts pin down only how far
//! the deserializer reads, never the bytes themselves.

#![allow(deprecated)]

use vstd::prelude::*;
use bincode::Config;

verus! {

#[verifier::external_type_specification]
#[verifier::external_body]
#[allow(deprecated)]
pub struct ExConfig(Config);

#[verifier::external_type_specification]
#[verifier::external_body]
pub struct ExErrorKind(bincode::ErrorKind);

/// Relies on bincode::config: builds the default serialization
/// configuration (unlimited byte budget, little-endian integers).
#[verifier::external_body]
pub(crate) fn config_default() -> Config {
    bincode::config()
}

/// Relies on bincode::Config::serialize: encodes one value into a fresh
/// byte vector, or reports why the value cannot be represented.
#[verifier::external_body]
pub(crate) fn serialize_value<T: serde::Serialize>(
    config: &Config,
    value: &T,
) -> Result<Vec<u8>, bincode::Error> {
    config.serialize(value)
}

/// Relies on bincode::Config::serialized_size: the number of bytes
/// `serialize` would produce for this value, or an error.
#[verifier::external_body]
pub(crate) fn serialized_size_of<T: serde::Serialize>(
    config: &Config,
    value: &T,
) -> Result<u64, bincode::Error> {
    config.serialized_size(value)
}

/// Relies on bincode::Config::deserialize_from and std::io::Cursor: reads
/// one value from the front of `data` through a counting cursor and
/// reports how many bytes the deserializer consumed.  The deserializer
/// takes the cursor as a plain reader, so it can only read forward, and a
/// cursor over a slice never advances past its end: the reported count
/// stays within the bytes given.
#[verifier::external_body]
pub(crate) fn deserialize_counted<T: serde::de::DeserializeOwned>(
    config: &Config,
    data: &[u8],
) -> (r: (Result<T, bincode::Error>, usize))
    ensures
        r.1 <= data@.len(),
{
    let mut cursor = std::io::Cursor::new(data);
    let result = config.deserialize_from(&mut cursor);
    (result, cursor.position() as usize)
}

/// Relies on bincode's From<std::io::Error>: wraps an I/O failure in the
/// serialization library's error type, as its I/O variant.
#[verifier::external_body]
pub(crate) fn io_error_to_serial(e: std::io::Error) -> bincode::Error {
    bincode::Error::from(e)
}

/// Relies on bincode::Config::deserialize: reads one value from the given
/// bytes, or reports that they are malformed for the message type.
#[verifier::external_body]
pub(crate) fn deserialize_slice<T: serde::de::DeserializeOwned>(
    config: &Config,
    data: &[u8],
) -> Result<T, bincode::Error> {
    config.deserialize(data)
}

} // verus!
