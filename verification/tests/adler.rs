use digest::generic_array::typenum::U4;
use digest::generic_array::GenericArray;
use digest::{FixedOutput, Input};
use hash_writer::HashWriter;

/// Adler-32: two running sums modulo 65521, the second of the first.
struct Adler {
    low: u32,
    high: u32,
}

impl Default for Adler {
    fn default() -> Adler {
        Adler { low: 1, high: 0 }
    }
}

impl Input for Adler {
    fn process(&mut self, input: &[u8]) {
        for byte in input {
            self.low = (self.low + u32::from(*byte)) % 65521;
            self.high = (self.high + self.low) % 65521;
        }
    }
}

impl FixedOutput for Adler {
    type OutputSize = U4;

    fn fixed_result(self) -> GenericArray<u8, U4> {
        GenericArray::clone_from_slice(&((self.high << 16) | self.low).to_be_bytes())
    }
}

#[test]
fn three_bytes_of_room_take_abc_and_all_six_are_hashed() {
    let mut out = [0u8; 3];
    let mut writer = HashWriter::new(Adler::default(), &mut out[..]);
    assert_eq!(writer.write(b"abcdef").unwrap(), 3);
    let digest = writer.digest();
    assert_eq!(out, *b"abc");
    assert_eq!(digest, vec![0x08, 0x1E, 0x02, 0x56]);
    assert_ne!(digest, vec![0x02, 0x4D, 0x01, 0x27]);
}

#[test]
fn abc_then_def_fill_the_buffer_in_call_order() {
    let mut buffer: Vec<u8> = Vec::new();
    let mut writer = HashWriter::<Adler, &mut Vec<u8>>::from_writer(&mut buffer);
    assert_eq!(writer.write(b"abc").unwrap(), 3);
    assert_eq!(writer.write(b"def").unwrap(), 3);
    assert_eq!(writer.digest(), vec![0x08, 0x1E, 0x02, 0x56]);
    assert_eq!(buffer, b"abcdef".to_vec());
}

#[test]
fn nothing_written_to_a_filled_buffer_leaves_both_as_they_were() {
    let mut buffer = b"xy".to_vec();
    let mut writer = HashWriter::new(Adler::default(), &mut buffer);
    assert_eq!(writer.write(b"").unwrap(), 0);
    assert_eq!(writer.digest(), vec![0x00, 0x00, 0x00, 0x01]);
    assert_eq!(buffer, b"xy".to_vec());
}

#[test]
fn abc_alone_has_its_own_checksum() {
    let mut writer: HashWriter<Adler, Vec<u8>> = HashWriter::from_writer(Vec::new());
    assert_eq!(writer.write(b"abc").unwrap(), 3);
    assert_eq!(writer.digest(), vec![0x02, 0x4D, 0x01, 0x27]);
}
