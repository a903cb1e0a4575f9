//! Decryption of a downloaded audio file with the key that belongs to it.

use librespot_audio::AudioDecrypt;
use std::io::Read;
use vstd::prelude::*;
use crate::catalog::AudioKey;

verus! {

/// The plaintext that `librespot_audio::AudioDecrypt` yields for a key and
/// an encrypted file.
pub uninterp spec fn audio_plaintext(key: Seq<u8>, encrypted: Seq<u8>) -> Seq<u8>;

/// Reads an encrypted file held in memory to its end through
/// `librespot_audio::AudioDecrypt`, made with `AudioDecrypt::new` for the
/// key. The reader fails only where the reader beneath it fails, and that
/// one is a slice in memory, whose reads do not fail; so the plaintext is
/// there. The cipher turns each byte it is handed into one byte, so the
/// plaintext is as long as the file.
#[verifier::external_body]
pub(crate) fn read_decrypted(key: &AudioKey, encrypted: &Vec<u8>) -> (r: Option<Vec<u8>>)
    ensures
        r is Some,
        r matches Some(plain) ==> plain@ == audio_plaintext(key.bytes@, encrypted@),
        r matches Some(plain) ==> plain@.len() == encrypted@.len(),
{
    let mut plain: Vec<u8> = Vec::new();
    let outside_key = librespot_core::audio_key::AudioKey(key.bytes);
    match AudioDecrypt::new(outside_key, &encrypted[..]).read_to_end(&mut plain) {
        Ok(_) => Some(plain),
        Err(_) => None,
    }
}

} // verus!
