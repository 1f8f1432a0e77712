use hash_writer::HashWriter;
use sha2::{Digest, Sha256};
use std::io::{Error, ErrorKind, Write};

fn hex(bytes: &[u8]) -> String {
    let mut out = String::new();
    for byte in bytes {
        out.push_str(&format!("{:02x}", byte));
    }
    out
}

/// A sink that refuses every write with the same error.
struct Refusing;

impl Write for Refusing {
    fn write(&mut self, _buf: &[u8]) -> Result<usize, Error> {
        Err(Error::new(ErrorKind::WriteZero, "no room"))
    }

    fn flush(&mut self) -> Result<(), Error> {
        Err(Error::new(ErrorKind::BrokenPipe, "gone"))
    }
}

#[test]
fn two_chunks_reach_the_buffer_and_the_hasher() {
    let mut sink: Vec<u8> = Vec::new();
    let mut writer: HashWriter<Sha256, &mut Vec<u8>> = HashWriter::from_writer(&mut sink);
    assert_eq!(writer.write(b"abc").unwrap(), 3);
    assert_eq!(writer.write(b"def").unwrap(), 3);
    let digest = writer.digest();
    assert_eq!(sink, b"abcdef".to_vec());
    assert_eq!(digest, Sha256::digest(b"abcdef").to_vec());
    assert_eq!(
        hex(&digest),
        "bef57ec7f53a6d40beb640a780a639c83bc29ac8a9816f1fc6c5c6dcd93c4721"
    );
}

#[test]
fn a_full_sink_takes_a_part_and_the_hasher_takes_all() {
    let mut store = [0u8; 4];
    let mut writer: HashWriter<Sha256, &mut [u8]> = HashWriter::from_writer(&mut store[..]);
    assert_eq!(writer.write(b"abcdef").unwrap(), 4);
    let digest = writer.digest();
    assert_eq!(&store, b"abcd");
    assert_eq!(
        hex(&digest),
        "bef57ec7f53a6d40beb640a780a639c83bc29ac8a9816f1fc6c5c6dcd93c4721"
    );
    assert_ne!(digest, Sha256::digest(b"abcd").to_vec());
}

#[test]
fn a_sink_with_no_room_left_takes_nothing_and_the_hasher_takes_all() {
    let mut store = [0u8; 3];
    let mut writer: HashWriter<Sha256, &mut [u8]> = HashWriter::from_writer(&mut store[..]);
    assert_eq!(writer.write(b"abc").unwrap(), 3);
    assert_eq!(writer.write(b"def").unwrap(), 0);
    let digest = writer.digest();
    assert_eq!(&store, b"abc");
    assert_eq!(digest, Sha256::digest(b"abcdef").to_vec());
}

#[test]
fn a_refused_write_hands_back_the_error_and_is_hashed_all_the_same() {
    let mut writer: HashWriter<Sha256, Refusing> = HashWriter::from_writer(Refusing);
    let refused = writer.write(b"abc").unwrap_err();
    assert_eq!(refused.kind(), ErrorKind::WriteZero);
    assert_eq!(refused.to_string(), "no room");
    let refused = writer.write(b"def").unwrap_err();
    assert_eq!(refused.kind(), ErrorKind::WriteZero);
    assert_eq!(writer.digest(), Sha256::digest(b"abcdef").to_vec());
}

#[test]
fn a_refused_flush_hands_back_the_error() {
    let mut writer: HashWriter<Sha256, Refusing> = HashWriter::from_writer(Refusing);
    let refused = writer.flush().unwrap_err();
    assert_eq!(refused.kind(), ErrorKind::BrokenPipe);
    assert_eq!(refused.to_string(), "gone");
    assert_eq!(writer.digest(), Sha256::digest(b"").to_vec());
}

#[test]
fn no_write_gives_the_digest_of_nothing() {
    let writer: HashWriter<Sha256, Vec<u8>> = HashWriter::from_writer(Vec::new());
    let digest = writer.digest();
    assert_eq!(digest, Sha256::digest(b"").to_vec());
    assert_eq!(
        hex(&digest),
        "e3b0c44298fc1c149afbf4c8996fb92427ae41e4649b934ca495991b7852b855"
    );
}

#[test]
fn an_empty_chunk_changes_nothing() {
    let mut sink: Vec<u8> = Vec::new();
    let mut writer: HashWriter<Sha256, &mut Vec<u8>> = HashWriter::from_writer(&mut sink);
    assert_eq!(writer.write(b"").unwrap(), 0);
    assert_eq!(writer.write(b"abc").unwrap(), 3);
    assert_eq!(writer.write(b"").unwrap(), 0);
    let digest = writer.digest();
    assert_eq!(sink, b"abc".to_vec());
    assert_eq!(
        hex(&digest),
        "ba7816bf8f01cfea414140de5dae2223b00361a396177a9cb410ff61f20015ad"
    );
}

#[test]
fn a_hasher_that_was_fed_before_goes_on_from_where_it_was() {
    let mut seeded = Sha256::default();
    seeded.input(b"seed");
    let mut writer = HashWriter::new(seeded, Vec::new());
    assert_eq!(writer.write(b"abc").unwrap(), 3);
    let digest = writer.digest();
    assert_eq!(digest, Sha256::digest(b"seedabc").to_vec());
    assert_eq!(
        hex(&digest),
        "439a4260738fe5bb27772143e5ea81b68a0725e379aab4b2f46b00912b56c18a"
    );
}

#[test]
fn a_default_hasher_is_what_from_writer_starts_with() {
    let mut built = HashWriter::new(Sha256::default(), Vec::new());
    let mut defaulted: HashWriter<Sha256, Vec<u8>> = HashWriter::from_writer(Vec::new());
    assert_eq!(built.write(b"hello world").unwrap(), 11);
    assert_eq!(defaulted.write(b"hello world").unwrap(), 11);
    let digest = defaulted.digest();
    assert_eq!(built.digest(), digest);
    assert_eq!(
        hex(&digest),
        "b94d27b9934d3e08a52e52d7da7dabfac484efe37a5380ee9088f7ace2efcde9"
    );
}

#[test]
fn the_writer_serves_as_a_std_writer() {
    let mut sink: Vec<u8> = Vec::new();
    let mut writer: HashWriter<Sha256, &mut Vec<u8>> = HashWriter::from_writer(&mut sink);
    Write::write_all(&mut writer, b"abc").unwrap();
    assert_eq!(Write::write(&mut writer, b"def").unwrap(), 3);
    Write::flush(&mut writer).unwrap();
    let digest = writer.digest();
    assert_eq!(sink, b"abcdef".to_vec());
    assert_eq!(digest, Sha256::digest(b"abcdef").to_vec());
}

#[test]
fn write_all_on_a_slow_sink_hashes_what_it_offers_again() {
    // A sink that takes two bytes at a time makes `write_all` offer the rest
    // anew; each offer is one write, and each write is hashed whole.
    struct TwoAtATime(Vec<u8>);
    impl Write for TwoAtATime {
        fn write(&mut self, buf: &[u8]) -> Result<usize, Error> {
            let n = if buf.len() < 2 { buf.len() } else { 2 };
            self.0.extend_from_slice(&buf[..n]);
            Ok(n)
        }
        fn flush(&mut self) -> Result<(), Error> {
            Ok(())
        }
    }
    let mut writer: HashWriter<Sha256, TwoAtATime> = HashWriter::from_writer(TwoAtATime(Vec::new()));
    Write::write_all(&mut writer, b"abcde").unwrap();
    assert_eq!(writer.digest(), Sha256::digest(b"abcdecdee").to_vec());
}
