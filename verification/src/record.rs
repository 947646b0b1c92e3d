//! The credential record and the errors of the keystore.

use vstd::prelude::*;

verus! {

/// The number of bytes in a stored keypair: a 32-byte signing key followed by
/// its 32-byte public key.
pub const KEYPAIR_LENGTH: usize = 64;

/// Why a keystore operation failed.
#[derive(Clone, Copy, Debug, PartialEq, Eq, Structural)]
pub enum KeystoreError {
    /// A directory or file could not be created, read or written, or the record
    /// could not be written out as text.
    Io,
    /// The file is no JSON document, or the document is no credential record
    /// with a keypair of exactly `KEYPAIR_LENGTH` bytes.
    Deserialization,
    /// The permission bits of a file that was just written could not be
    /// narrowed, so the credential is not protected.
    PermissionEnforcement,
}

/// A named keypair. The name labels the credential and is the stem of the file
/// that stores it.
#[derive(Clone, Debug, PartialEq, Eq)]
pub struct Keystore {
    pub name: String,
    pub keypair: [u8; 64],
}

/// The mathematical value of a `Keystore`: its name as a sequence of characters
/// and its keypair as a sequence of bytes.
pub struct KeystoreView {
    pub name: Seq<char>,
    pub keypair: Seq<u8>,
}

impl View for Keystore {
    type V = KeystoreView;

    open spec fn view(&self) -> KeystoreView {
        KeystoreView { name: self.name@, keypair: self.keypair@ }
    }
}

impl KeystoreView {
    /// The keypair has exactly `KEYPAIR_LENGTH` bytes. Every `Keystore` has
    /// such a view; a pair of a name and bytes read from a file may not.
    pub open spec fn well_formed(self) -> bool {
        self.keypair.len() == KEYPAIR_LENGTH
    }
}

impl Keystore {
    /// Builds a record from a name and the bytes of a keypair as they were read
    /// from a file. Succeeds exactly when there are `KEYPAIR_LENGTH` bytes: no
    /// byte is dropped and none is made up.
    pub fn from_parts(name: String, keypair: Vec<u8>) -> (built: Result<Keystore, KeystoreError>)
        ensures
            match built {
                Ok(record) => keypair@.len() == KEYPAIR_LENGTH && record@ == (KeystoreView {
                    name: name@,
                    keypair: keypair@,
                }),
                Err(error) => keypair@.len() != KEYPAIR_LENGTH && error
                    == KeystoreError::Deserialization,
            },
    {
        if keypair.len() != KEYPAIR_LENGTH {
            return Err(KeystoreError::Deserialization);
        }
        let mut bytes: [u8; 64] = [0u8; 64];
        let mut i: usize = 0;
        while i < KEYPAIR_LENGTH
            invariant
                i <= KEYPAIR_LENGTH,
                keypair@.len() == KEYPAIR_LENGTH,
                forall|j: int| 0 <= j < i ==> bytes@[j] == keypair@[j],
            decreases KEYPAIR_LENGTH - i,
        {
            bytes[i] = keypair[i];
            i += 1;
        }
        assert(bytes@ =~= keypair@);
        Ok(Keystore { name, keypair: bytes })
    }
}

/// Every record is well formed: the type of the keypair fixes its length.
pub proof fn lemma_record_is_well_formed(record: Keystore)
    ensures
        record@.well_formed(),
{
}

} // verus!
