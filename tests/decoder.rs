use flate2::write::GzEncoder;
use image_rs::decoder::{Compression, DecodeError};
use std::io::Write;

#[test]
fn test_uncompressed_decode() {
    let bytes = Vec::new();
    let mut output = Vec::new();
    let compression = Compression::Uncompressed;
    assert!(compression
        .decompress(bytes.as_slice(), &mut output)
        .is_err());
}

#[test]
fn test_gzip_decode() {
    let data: Vec<u8> = b"This is some text!".to_vec();

    let mut encoder = GzEncoder::new(Vec::new(), flate2::Compression::default());
    encoder.write_all(&data).unwrap();
    let bytes = encoder.finish().unwrap();

    let mut output = Vec::new();

    let compression = Compression::Uncompressed;
    assert!(compression
        .decompress(bytes.as_slice(), &mut output)
        .is_err());

    let compression = Compression::default();
    assert!(compression
        .decompress(bytes.as_slice(), &mut output)
        .is_ok());
    assert_eq!(data, output);
}

#[test]
fn test_zstd_decode() {
    let data: Vec<u8> = b"This is some text!".to_vec();
    let level = 1;

    let bytes = zstd::encode_all(&data[..], level).unwrap();

    let mut output = Vec::new();
    let compression = Compression::Zstd;
    assert!(compression
        .decompress(bytes.as_slice(), &mut output)
        .is_ok());
    assert_eq!(data, output);
}

#[test]
fn gzip_round_trip() {
    let data: Vec<u8> = (0..2000u32).map(|i| (i % 251) as u8).collect();
    let packed = Compression::Gzip.compress(&data).unwrap();
    assert_ne!(packed, data);
    let mut output = Vec::new();
    Compression::Gzip.decompress(&packed, &mut output).unwrap();
    assert_eq!(output, data);
}

#[test]
fn zstd_round_trip() {
    let data: Vec<u8> = b"layer layer layer layer layer".to_vec();
    let packed = Compression::Zstd.compress(&data).unwrap();
    assert_ne!(packed, data);
    let mut output = Vec::new();
    Compression::Zstd.decompress(&packed, &mut output).unwrap();
    assert_eq!(output, data);
}

#[test]
fn empty_payload_round_trip() {
    for kind in [Compression::Gzip, Compression::Zstd] {
        let packed = kind.compress(&[]).unwrap();
        let mut output = Vec::new();
        kind.decompress(&packed, &mut output).unwrap();
        assert!(output.is_empty());
    }
}

#[test]
fn decompress_appends_to_output() {
    let packed = Compression::Gzip.compress(b"tail").unwrap();
    let mut output = b"head-".to_vec();
    Compression::Gzip.decompress(&packed, &mut output).unwrap();
    assert_eq!(output, b"head-tail".to_vec());
}

#[test]
fn uncompressed_always_refused() {
    let mut output = b"kept".to_vec();
    assert_eq!(
        Compression::Uncompressed.decompress(b"anything", &mut output),
        Err(DecodeError::Uncompressed)
    );
    assert_eq!(output, b"kept".to_vec());
    assert_eq!(Compression::Uncompressed.compress(b"x"), Err(DecodeError::Uncompressed));
}

#[test]
fn malformed_input_refused() {
    let mut output = Vec::new();
    assert_eq!(
        Compression::Gzip.decompress(b"not gzip at all", &mut output),
        Err(DecodeError::Malformed)
    );
    assert_eq!(
        Compression::Zstd.decompress(b"not zstd at all", &mut output),
        Err(DecodeError::Malformed)
    );
    assert!(output.is_empty());
}

#[test]
fn compression_names() {
    assert_eq!(Compression::Uncompressed.to_string(), "uncompressed");
    assert_eq!(Compression::Gzip.to_string(), "gzip");
    assert_eq!(Compression::Zstd.to_string(), "zstd");
    assert_eq!(Compression::default(), Compression::Gzip);
}

#[test]
fn compress_succeeds_for_codecs() {
    for kind in [Compression::Gzip, Compression::Zstd] {
        let data = vec![0u8; 4096];
        let packed = kind.compress(&data).unwrap();
        assert!(packed.len() < data.len());
    }
}
