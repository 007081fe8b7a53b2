use vstd::prelude::*;
use vstd::string::*;
use crate::decoder::{decoded, Compression, DecodeError};
use crate::decrypt::{
    decrypt_result, is_encrypted_media_type, plain_media_type, DecryptError, Decryptor,
    EngineOutcome,
};

verus! {

/// Why a layer blob could not be turned into a plaintext archive.
#[derive(Clone, Copy, Debug, PartialEq, Eq)]
pub enum PipelineError {
    /// Decryption failed; nothing was decompressed.
    Decrypt(DecryptError),
    /// Decompression failed.
    Decode(DecodeError),
}

/// Whether `s` ends with `suffix`.
pub open spec fn ends_with(s: Seq<char>, suffix: Seq<char>) -> bool {
    suffix.len() <= s.len() && s.subrange(s.len() - suffix.len(), s.len() as int) == suffix
}

/// The compression that a plain media type declares by its suffix.
pub open spec fn compression_of(m: Seq<char>) -> Compression {
    if ends_with(m, "gzip"@) {
        Compression::Gzip
    } else if ends_with(m, "zstd"@) {
        Compression::Zstd
    } else {
        Compression::Uncompressed
    }
}

/// What decoding a plaintext layer of media type `m` yields.
pub open spec fn plain_layer_result(m: Seq<char>, data: Seq<u8>) -> Result<Seq<u8>, PipelineError> {
    let kind = compression_of(m);
    if kind == Compression::Uncompressed {
        Ok(data)
    } else {
        match decoded(kind, data) {
            Some(d) => Ok(d),
            None => Err(PipelineError::Decode(DecodeError::Malformed)),
        }
    }
}

/// What the whole pipeline yields for a blob of media type `m`: decryption
/// first where the media type is encrypted, then decompression by the plain
/// media type.
pub open spec fn pipeline_result(
    m: Seq<char>,
    raw: Seq<u8>,
    config: Seq<char>,
    outcome: EngineOutcome,
) -> Result<Seq<u8>, PipelineError> {
    if is_encrypted_media_type(m) {
        match decrypt_result(true, config, outcome) {
            Ok(p) => plain_layer_result(plain_media_type(m), p),
            Err(e) => Err(PipelineError::Decrypt(e)),
        }
    } else {
        plain_layer_result(m, raw)
    }
}

/// The bytes of a result, its error kept.
pub open spec fn pipeline_bytes(r: Result<Vec<u8>, PipelineError>) -> Result<Seq<u8>, PipelineError> {
    match r {
        Ok(v) => Ok(v@),
        Err(e) => Err(e),
    }
}

/// Whether `s` ends with `suffix`.
pub fn str_ends_with(s: &str, suffix: &str) -> (r: bool)
    ensures
        r == ends_with(s@, suffix@),
{
    let n = s.unicode_len();
    let m = suffix.unicode_len();
    if m > n {
        return false;
    }
    let start = n - m;
    let mut i: usize = 0;
    while i < m
        invariant
            n == s@.len(),
            m == suffix@.len(),
            m <= n,
            start == n - m,
            i <= m,
            forall|j: int| 0 <= j < i ==> s@[start + j] == suffix@[j],
        decreases m - i,
    {
        if s.get_char(start + i) != suffix.get_char(i) {
            proof {
                assert(s@.subrange(start as int, n as int)[i as int] != suffix@[i as int]);
            }
            return false;
        }
        i = i + 1;
    }
    proof {
        assert(s@.subrange(start as int, n as int) =~= suffix@);
    }
    true
}

/// The compression that a plain media type declares by its suffix:
/// `gzip` or `zstd`, and none otherwise.
pub fn compression_of_media_type(media_type: &str) -> (r: Compression)
    ensures
        r == compression_of(media_type@),
{
    proof {
        reveal_strlit("gzip");
        reveal_strlit("zstd");
    }
    if str_ends_with(media_type, "gzip") {
        Compression::Gzip
    } else if str_ends_with(media_type, "zstd") {
        Compression::Zstd
    } else {
        Compression::Uncompressed
    }
}

/// Decodes a plaintext layer of the given plain media type: uncompressed
/// data passes through unchanged, other data is decompressed.
pub fn decode_plain_layer(media_type: &str, data: Vec<u8>) -> (r: Result<Vec<u8>, PipelineError>)
    ensures
        pipeline_bytes(r) == plain_layer_result(media_type@, data@),
{
    let kind = compression_of_media_type(media_type);
    match kind {
        Compression::Uncompressed => Ok(data),
        _ => {
            let mut output: Vec<u8> = Vec::new();
            match kind.decompress(data.as_slice(), &mut output) {
                Ok(()) => {
                    proof {
                        assert(output@ =~= Seq::<u8>::empty() + output@);
                    }
                    Ok(output)
                },
                Err(e) => Err(PipelineError::Decode(e)),
            }
        },
    }
}

/// Turns a layer blob of the declared media type into its plaintext,
/// decompressed archive bytes. An encrypted blob is decrypted first, from
/// `outcome`, what the crypto engine reported for it; no decompression is
/// tried on a blob whose decryption failed. `outcome` is not consulted for a
/// plain blob.
pub fn materialize(
    media_type: &str,
    raw_blob: Vec<u8>,
    decrypt_config: &str,
    outcome: EngineOutcome,
) -> (r: Result<Vec<u8>, PipelineError>)
    ensures
        pipeline_bytes(r) == pipeline_result(media_type@, raw_blob@, decrypt_config@, outcome),
{
    let decryptor = Decryptor::from_media_type(media_type);
    if decryptor.is_encrypted() {
        match decryptor.plaintext_layer(decrypt_config, outcome) {
            Ok(plain) => decode_plain_layer(decryptor.plain_media_type(), plain),
            Err(e) => Err(PipelineError::Decrypt(e)),
        }
    } else {
        decode_plain_layer(media_type, raw_blob)
    }
}

} // verus!
