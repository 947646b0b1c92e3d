//! New credentials: a keypair drawn from the operating system's entropy source.

use crate::record::{Keystore, KeystoreView, KEYPAIR_LENGTH};
use crate::session::{begin_save, Progress};
use crate::store::{credential_path, Store};
use vstd::prelude::*;

verus! {

/// The number of bytes in a signing key, and in a public key.
pub const KEY_LENGTH: usize = 32;

/// The public key that Ed25519 derives from the bytes of a signing key.
pub uninterp spec fn public_key(secret: Seq<u8>) -> Seq<u8>;

/// The bytes are a keypair in the stored layout: a signing key, followed by the
/// public key that belongs to it.
pub open spec fn is_keypair(bytes: Seq<u8>) -> bool {
    &&& bytes.len() == KEYPAIR_LENGTH
    &&& bytes.subrange(KEY_LENGTH as int, KEYPAIR_LENGTH as int) == public_key(
        bytes.subrange(0, KEY_LENGTH as int),
    )
}

/// `ed25519_dalek::Keypair::generate` on `rand_core::OsRng`, then
/// `Keypair::to_bytes`: the 32 bytes of a new signing key followed by the 32
/// bytes of its public key. The signing key comes from the operating system's
/// entropy source, so nothing is claimed of it; the public key is derived from
/// the signing key alone. Where the entropy source fails, the call does not
/// return.
#[verifier::external_body]
fn fresh_keypair() -> (bytes: [u8; 64])
    ensures
        bytes@.subrange(KEY_LENGTH as int, KEYPAIR_LENGTH as int) == public_key(
            bytes@.subrange(0, KEY_LENGTH as int),
        ),
{
    ed25519_dalek::Keypair::generate(&mut rand_core::OsRng {}).to_bytes()
}

/// A new credential under `name`: a signing key that no earlier call has
/// returned but by chance, with the public key that belongs to it.
pub fn generate(name: String) -> (record: Keystore)
    ensures
        record.name == name,
        is_keypair(record@.keypair),
{
    Keystore { name, keypair: fresh_keypair() }
}

impl Store {
    /// Generates a credential under `name` and starts saving it to its
    /// canonical path in this store: the record being saved holds that name, a
    /// signing key and the public key that belongs to it. The save reports the
    /// path once the file is written and protected.
    pub fn generate_and_save(&self, name: String) -> (progress: Progress)
        ensures
            exists|keypair: Seq<u8>|
                is_keypair(keypair) && progress@ == begin_save(
                    credential_path(self.root, name@),
                    KeystoreView { name: name@, keypair },
                    false,
                ),
    {
        let record = generate(name);
        let path = self.file_path(&record.name);
        let progress = record.save(&path);
        assert(is_keypair(record@.keypair) && progress@ == begin_save(
            credential_path(self.root, name@),
            KeystoreView { name: name@, keypair: record@.keypair },
            false,
        ));
        progress
    }
}

} // verus!
