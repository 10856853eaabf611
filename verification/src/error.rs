//! The error type of every operation.

use crate::range::Range;
use vstd::prelude::*;

verus! {

/// What can go wrong in a table operation. Errors that stem from the store,
/// the wire encoding or the object codec carry the message those parts gave.
#[derive(Clone, Debug, PartialEq, Eq)]
pub enum DBInterfaceError {
    /// The store itself failed.
    DB(String),
    /// The named table does not exist.
    TableNotFound(String),
    /// An instruction could not be encoded for, or an answer decoded from, the wire.
    NetworkEncodingError(String),
    /// The object stored at the range could not be decoded.
    ObjectDeserialization(Range, String),
    /// The object meant for the range could not be encoded.
    ObjectSerialization(Range, String),
    /// The server answered with something other than what the request calls for.
    UnexpectedResponse(String),
}

/// The result of a table operation.
pub type DBResult<T> = Result<T, DBInterfaceError>;

impl DBInterfaceError {
    /// A short description of the kind of failure, one per variant.
    pub fn description(&self) -> (d: &'static str)
        ensures
            match self {
                DBInterfaceError::DB(_) => d@ == "Error in DB"@,
                DBInterfaceError::TableNotFound(_) => d@ == "No such table"@,
                DBInterfaceError::NetworkEncodingError(_) => d@ == "Failed to encode network command"@,
                DBInterfaceError::ObjectDeserialization(_, _) => d@ == "Failed to deserialize object"@,
                DBInterfaceError::ObjectSerialization(_, _) => d@ == "Failed To serialize object"@,
                DBInterfaceError::UnexpectedResponse(_) => d@ == "Got unexpected Response from Server"@,
            },
    {
        match self {
            DBInterfaceError::DB(_) => "Error in DB",
            DBInterfaceError::TableNotFound(_) => "No such table",
            DBInterfaceError::NetworkEncodingError(_) => "Failed to encode network command",
            DBInterfaceError::ObjectDeserialization(_, _) => "Failed to deserialize object",
            DBInterfaceError::ObjectSerialization(_, _) => "Failed To serialize object",
            DBInterfaceError::UnexpectedResponse(_) => "Got unexpected Response from Server",
        }
    }
}

/// Turns the outcome of decoding the object stored at `rng` into a table
/// result: a decoded value passes through, a decoder error becomes
/// `ObjectDeserialization` at that range with the decoder's message.
pub fn from_obj_decoding<T>(rng: Range, des_res: Result<T, String>) -> (r: DBResult<T>)
    ensures
        match des_res {
            Ok(v) => r == Ok::<T, DBInterfaceError>(v),
            Err(e) => r == Err::<T, DBInterfaceError>(DBInterfaceError::ObjectDeserialization(rng, e)),
        },
{
    match des_res {
        Ok(v) => Ok(v),
        Err(e) => Err(DBInterfaceError::ObjectDeserialization(rng, e)),
    }
}

/// Turns the outcome of encoding an object meant for `rng` into a table
/// result: an encoded value passes through, an encoder error becomes
/// `ObjectSerialization` at that range with the encoder's message.
pub fn from_obj_encoding<T>(rng: Range, des_res: Result<T, String>) -> (r: DBResult<T>)
    ensures
        match des_res {
            Ok(v) => r == Ok::<T, DBInterfaceError>(v),
            Err(e) => r == Err::<T, DBInterfaceError>(DBInterfaceError::ObjectSerialization(rng, e)),
        },
{
    match des_res {
        Ok(v) => Ok(v),
        Err(e) => Err(DBInterfaceError::ObjectSerialization(rng, e)),
    }
}

} // verus!
