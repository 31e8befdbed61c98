//! Factory credential store: the partition is set once, and each credential
//! read is classified into a value or a specific error.

use vstd::prelude::*;
use vstd::utf8::{decode_utf8, valid_utf8};
use crate::error::RmakerFactoryError;

verus! {

/// Namespace of the credentials in the factory partition.
pub const CREDS_NAMESPACE: &'static str = "rmaker_creds";

/// Key of the node identity.
pub const NODE_ID_KEY: &'static str = "node_id";

/// Key of the client certificate.
pub const CLIENT_CERT_KEY: &'static str = "client_cert";

/// Key of the client private key.
pub const CLIENT_KEY_KEY: &'static str = "client_key";

/// Key of the client random.
pub const RANDOM_KEY: &'static str = "random";

/// What a read of the factory partition brought back.
#[derive(Debug, Clone)]
pub enum NvsRead {
    /// The credentials namespace could not be opened.
    NamespaceMissing,
    /// The read failed or the key holds nothing.
    NoValue,
    /// The bytes stored under the key.
    Value(Vec<u8>),
}

/// Relies on String::from_utf8: the bytes as text when they are valid
/// UTF-8, else an error.
#[verifier::external_body]
fn text_from_utf8(b: Vec<u8>) -> (r: Option<String>)
    ensures
        r is Some <==> valid_utf8(b@),
        r matches Some(s) ==> s@ == decode_utf8(b@),
{
    String::from_utf8(b).ok()
}

/// The factory credential store.
pub struct Factory {
    pub initialized: bool,
}

/// The outcome of reading a credential: the store must be initialized, the
/// namespace present and the key set.
pub open spec fn read_outcome(initialized: bool, read: NvsRead) -> Result<Seq<u8>, RmakerFactoryError> {
    if !initialized {
        Err(RmakerFactoryError::NotInitialized)
    } else {
        match read {
            NvsRead::NamespaceMissing => Err(RmakerFactoryError::PartitionNotFound),
            NvsRead::NoValue => Err(RmakerFactoryError::ValueReadError),
            NvsRead::Value(v) => Ok(v@),
        }
    }
}

pub open spec fn bytes_view(r: Result<Vec<u8>, RmakerFactoryError>) -> Result<Seq<u8>, RmakerFactoryError> {
    match r {
        Ok(v) => Ok(v@),
        Err(e) => Err(e),
    }
}

impl Factory {
    /// A store whose partition is not set yet.
    pub fn new() -> (r: Self)
        ensures
            !r.initialized,
    {
        Factory { initialized: false }
    }

    /// Sets the partition; refused when it is already set.
    pub fn init(&mut self) -> (r: Result<(), RmakerFactoryError>)
        ensures
            final(self).initialized,
            old(self).initialized <==> r == Err::<(), RmakerFactoryError>(RmakerFactoryError::AlreadyInitialized),
            !old(self).initialized <==> r is Ok,
    {
        if self.initialized {
            return Err(RmakerFactoryError::AlreadyInitialized);
        }
        self.initialized = true;
        Ok(())
    }

    fn get_bytes_factory(&self, read: NvsRead) -> (r: Result<Vec<u8>, RmakerFactoryError>)
        ensures
            bytes_view(r) == read_outcome(self.initialized, read),
    {
        if !self.initialized {
            return Err(RmakerFactoryError::NotInitialized);
        }
        match read {
            NvsRead::NamespaceMissing => Err(RmakerFactoryError::PartitionNotFound),
            NvsRead::NoValue => Err(RmakerFactoryError::ValueReadError),
            NvsRead::Value(v) => Ok(v),
        }
    }

    /// The node identity, from the read of its key; stored bytes that are not
    /// valid UTF-8 count as a failed read.
    pub fn get_node_id(&self, read: NvsRead) -> (r: Result<String, RmakerFactoryError>)
        ensures
            read_outcome(self.initialized, read) matches Err(e) ==> r == Err::<String, RmakerFactoryError>(e),
            read_outcome(self.initialized, read) matches Ok(b) ==> if valid_utf8(b) {
                r matches Ok(s) && s@ == decode_utf8(b)
            } else {
                r == Err::<String, RmakerFactoryError>(RmakerFactoryError::ValueReadError)
            },
    {
        match self.get_bytes_factory(read) {
            Err(e) => Err(e),
            Ok(b) => match text_from_utf8(b) {
                Some(s) => Ok(s),
                None => Err(RmakerFactoryError::ValueReadError),
            },
        }
    }

    /// The client certificate, from the read of its key.
    pub fn get_client_cert(&self, read: NvsRead) -> (r: Result<Vec<u8>, RmakerFactoryError>)
        ensures
            bytes_view(r) == read_outcome(self.initialized, read),
    {
        self.get_bytes_factory(read)
    }

    /// The client private key, from the read of its key.
    pub fn get_client_key(&self, read: NvsRead) -> (r: Result<Vec<u8>, RmakerFactoryError>)
        ensures
            bytes_view(r) == read_outcome(self.initialized, read),
    {
        self.get_bytes_factory(read)
    }

    /// The client random, from the read of its key.
    pub fn get_client_random(&self, read: NvsRead) -> (r: Result<Vec<u8>, RmakerFactoryError>)
        ensures
            bytes_view(r) == read_outcome(self.initialized, read),
    {
        self.get_bytes_factory(read)
    }
}

} // verus!
