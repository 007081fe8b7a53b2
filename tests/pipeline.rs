use image_rs::decoder::{Compression, DecodeError};
use image_rs::decrypt::{DecryptError, EngineOutcome, MEDIA_TYPE_LAYER_ENC, MEDIA_TYPE_LAYER_GZIP_ENC};
use image_rs::pipeline::{
    compression_of_media_type, decode_plain_layer, materialize, str_ends_with, PipelineError,
};

#[test]
fn compression_from_suffix() {
    assert_eq!(
        compression_of_media_type("application/vnd.oci.image.layer.v1.tar+gzip"),
        Compression::Gzip
    );
    assert_eq!(
        compression_of_media_type("application/vnd.oci.image.layer.v1.tar+zstd"),
        Compression::Zstd
    );
    assert_eq!(
        compression_of_media_type("application/vnd.oci.image.layer.v1.tar"),
        Compression::Uncompressed
    );
    assert_eq!(compression_of_media_type(""), Compression::Uncompressed);
}

#[test]
fn suffix_check() {
    assert!(str_ends_with("abc+gzip", "gzip"));
    assert!(str_ends_with("gzip", "gzip"));
    assert!(!str_ends_with("zip", "gzip"));
    assert!(str_ends_with("abc", ""));
}

#[test]
fn uncompressed_passes_through() {
    let data = b"plain tar bytes".to_vec();
    assert_eq!(
        decode_plain_layer("application/vnd.oci.image.layer.v1.tar", data.clone()),
        Ok(data)
    );
}

#[test]
fn gzip_layer_decoded() {
    let packed = Compression::Gzip.compress(b"archive").unwrap();
    assert_eq!(
        materialize("application/vnd.oci.image.layer.v1.tar+gzip", packed, "", EngineOutcome::Failed),
        Ok(b"archive".to_vec())
    );
}

#[test]
fn malformed_layer_refused() {
    assert_eq!(
        decode_plain_layer("application/vnd.oci.image.layer.v1.tar+zstd", b"junk".to_vec()),
        Err(PipelineError::Decode(DecodeError::Malformed))
    );
}

#[test]
fn encrypted_gzip_layer_decrypted_then_decoded() {
    let packed = Compression::Gzip.compress(b"secret archive").unwrap();
    let r = materialize(
        MEDIA_TYPE_LAYER_GZIP_ENC,
        b"ciphertext".to_vec(),
        "provider:attestation-agent",
        EngineOutcome::Plaintext(packed),
    );
    assert_eq!(r, Ok(b"secret archive".to_vec()));
}

#[test]
fn encrypted_plain_layer_not_decompressed() {
    let r = materialize(
        MEDIA_TYPE_LAYER_ENC,
        b"ciphertext".to_vec(),
        "key.pem",
        EngineOutcome::Plaintext(b"tar".to_vec()),
    );
    assert_eq!(r, Ok(b"tar".to_vec()));
}

#[test]
fn decrypt_failure_stops_pipeline() {
    let r = materialize(MEDIA_TYPE_LAYER_GZIP_ENC, b"x".to_vec(), "key.pem", EngineOutcome::Failed);
    assert_eq!(r, Err(PipelineError::Decrypt(DecryptError::DecryptFailed)));
    let r = materialize(MEDIA_TYPE_LAYER_GZIP_ENC, b"x".to_vec(), "", EngineOutcome::Failed);
    assert_eq!(r, Err(PipelineError::Decrypt(DecryptError::MissingConfig)));
}
