use ra_updater::errors::UpdaterError;
use ra_updater::install::decompress_artifact;

fn gzip(plain: &[u8]) -> Vec<u8> {
    let mut encoder =
        flate2::write::GzEncoder::new(Vec::new(), flate2::Compression::default());
    std::io::Write::write_all(&mut encoder, plain).unwrap();
    encoder.finish().unwrap()
}

#[test]
fn round_trip_recovers_the_plaintext() {
    let plain = b"fn main() { println!(\"rust-analyzer\"); }".to_vec();
    let compressed = gzip(&plain);
    assert_ne!(compressed, plain);
    let out = decompress_artifact(&compressed).unwrap();
    assert_eq!(out, plain);
}

#[test]
fn round_trip_of_empty_plaintext() {
    let compressed = gzip(b"");
    let out = decompress_artifact(&compressed).unwrap();
    assert_eq!(out, Vec::<u8>::new());
}

#[test]
fn round_trip_of_binary_bytes() {
    let plain: Vec<u8> = (0..=255u8).cycle().take(70_000).collect();
    let out = decompress_artifact(&gzip(&plain)).unwrap();
    assert_eq!(out, plain);
}

#[test]
fn invalid_stream_is_an_io_error() {
    let garbage = b"not a gzip stream at all".to_vec();
    match decompress_artifact(&garbage) {
        Err(UpdaterError::Io(_)) => {}
        other => panic!("expected an io error, got {:?}", other),
    }
}

#[test]
fn truncated_stream_is_an_io_error() {
    let mut compressed = gzip(b"a longer body that will be cut short, well past the header");
    compressed.truncate(compressed.len() / 2);
    match decompress_artifact(&compressed) {
        Err(UpdaterError::Io(_)) => {}
        other => panic!("expected an io error, got {:?}", other),
    }
}
