use nfs41server::nfs::types::NfsSpecData;
use nfs41server::xdr::{
    deserialize_vec, deserialize_vec_vec, serialize_vec, serialize_vec_vec, MaxLenBytes,
    OptionalData, XdrDeserialize, XdrError, XdrReader, XdrSerialize,
};

fn written<T: XdrSerialize>(v: &T) -> Vec<u8> {
    let mut out = Vec::new();
    v.serialize(&mut out).unwrap();
    out
}

fn read<T: XdrDeserialize>(bytes: Vec<u8>) -> (Result<T, XdrError>, usize) {
    let mut r = XdrReader::new(bytes);
    let v = T::deserialize(&mut r);
    (v, r.pos)
}

#[test]
fn u32_is_written_most_significant_first() {
    assert_eq!(written(&0x0102_0304u32), vec![1, 2, 3, 4]);
    let (v, pos) = read::<u32>(vec![0xde, 0xad, 0xbe, 0xef, 9]);
    assert_eq!(v.unwrap(), 0xdead_beef);
    assert_eq!(pos, 4);
}

#[test]
fn i32_is_written_in_twos_complement() {
    assert_eq!(written(&-2i32), vec![0xff, 0xff, 0xff, 0xfe]);
    assert_eq!(written(&7i32), vec![0, 0, 0, 7]);
    assert_eq!(read::<i32>(vec![0xff, 0xff, 0xff, 0xfe]).0.unwrap(), -2);
    assert_eq!(read::<i32>(vec![0x80, 0, 0, 0]).0.unwrap(), i32::MIN);
}

#[test]
fn u64_and_i64_are_written_most_significant_first() {
    assert_eq!(written(&0x0102_0304_0506_0708u64), vec![1, 2, 3, 4, 5, 6, 7, 8]);
    assert_eq!(written(&-1i64), vec![0xff; 8]);
    assert_eq!(read::<u64>(vec![0, 0, 0, 1, 0, 0, 0, 2]).0.unwrap(), 0x1_0000_0002);
    assert_eq!(read::<i64>(vec![0xff, 0xff, 0xff, 0xff, 0xff, 0xff, 0xff, 0xfe]).0.unwrap(), -2);
}

#[test]
fn reading_past_the_end_fails() {
    // As with reading a cursor, a short read leaves the reader at the end.
    let (v, pos) = read::<u32>(vec![1, 2, 3]);
    assert_eq!(v, Err(XdrError::UnexpectedEof));
    assert_eq!(pos, 3);
    assert_eq!(read::<u64>(vec![1, 2, 3, 4, 5]).0, Err(XdrError::UnexpectedEof));
}

#[test]
fn true_is_written_as_one_and_false_as_two() {
    assert_eq!(written(&true), vec![0, 0, 0, 1]);
    assert_eq!(written(&false), vec![0, 0, 0, 2]);
    assert_eq!(read::<bool>(vec![0, 0, 0, 0]).0.unwrap(), false);
    assert_eq!(read::<bool>(vec![0, 0, 0, 1]).0.unwrap(), true);
    // What false is written as reads back as true.
    assert_eq!(read::<bool>(written(&false)).0.unwrap(), true);
}

#[test]
fn fixed_arrays_are_written_as_they_are() {
    assert_eq!(written(&[1u8, 2, 3]), vec![1, 2, 3]);
    assert_eq!(written(&[1u8, 2, 3, 4, 5, 6, 7, 8]), vec![1, 2, 3, 4, 5, 6, 7, 8]);
    let (v, pos) = read::<[u8; 3]>(vec![9, 8, 7, 0, 1]);
    assert_eq!(v.unwrap(), [9, 8, 7]);
    assert_eq!(pos, 3);
}

#[test]
fn opaque_bytes_carry_their_length_and_padding() {
    assert_eq!(written(&vec![0xaau8, 0xbb, 0xcc, 0xdd, 0xee]), vec![0, 0, 0, 5, 0xaa, 0xbb, 0xcc, 0xdd, 0xee, 0, 0, 0]);
    assert_eq!(written(&Vec::<u8>::new()), vec![0, 0, 0, 0]);
    let (v, pos) = read::<Vec<u8>>(vec![0, 0, 0, 2, 7, 8, 0, 0, 1]);
    assert_eq!(v.unwrap(), vec![7, 8]);
    assert_eq!(pos, 8);
}

#[test]
fn opaque_bytes_shorter_than_their_length_fail() {
    assert_eq!(read::<Vec<u8>>(vec![0, 0, 0, 9, 1, 2]).0, Err(XdrError::UnexpectedEof));
}

#[test]
fn bounded_bytes_refuse_more_than_their_bound() {
    assert_eq!(MaxLenBytes::<4>::new(vec![1, 2, 3, 4, 5]).err(), Some(XdrError::Other));
    let b = MaxLenBytes::<4>::new(vec![1, 2, 3]).unwrap();
    assert_eq!(b.as_bytes(), &[1, 2, 3]);
    assert_eq!(written(&b), vec![0, 0, 0, 3, 1, 2, 3, 0]);
    assert_eq!(read::<MaxLenBytes<2>>(vec![0, 0, 0, 3, 1, 2, 3, 0]).0.err(), Some(XdrError::Other));
    assert_eq!(MaxLenBytes::<4>::empty().as_bytes(), &[] as &[u8]);
}

#[test]
fn bounded_bytes_read_back() {
    let (v, pos) = read::<MaxLenBytes<8>>(vec![0, 0, 0, 5, 1, 2, 3, 4, 5, 0, 0, 0]);
    let v = v.unwrap();
    assert_eq!(v.as_bytes(), &[1, 2, 3, 4, 5]);
    assert_eq!(pos, 12);
    let copy = v.duplicate();
    assert!(copy.same_bytes(&v));
    assert!(!copy.same_bytes(&MaxLenBytes::<8>::empty()));
}

#[test]
fn bounded_bytes_with_nonzero_padding_are_refused() {
    let (v, _) = read::<MaxLenBytes<8>>(vec![0, 0, 0, 1, 1, 0, 9, 0]);
    assert_eq!(v.err(), Some(XdrError::NonZeroPadding));
}

#[test]
fn counted_sequences_carry_their_count() {
    let mut out = Vec::new();
    serialize_vec(&mut out, &[1u32, 2]).unwrap();
    assert_eq!(out, vec![0, 0, 0, 2, 0, 0, 0, 1, 0, 0, 0, 2]);
    let mut r = XdrReader::new(out);
    assert_eq!(deserialize_vec::<u32>(&mut r).unwrap(), vec![1, 2]);
    assert_eq!(r.remaining(), 0);
    assert_eq!(written(&vec![5u32]), vec![0, 0, 0, 1, 0, 0, 0, 5]);
}

#[test]
fn counted_sequences_of_sequences_carry_each_count() {
    let mut out = Vec::new();
    serialize_vec_vec(&mut out, &[vec![1u32], vec![]]).unwrap();
    assert_eq!(out, vec![0, 0, 0, 2, 0, 0, 0, 1, 0, 0, 0, 1, 0, 0, 0, 0]);
    let mut r = XdrReader::new(out);
    assert_eq!(deserialize_vec_vec::<u32>(&mut r).unwrap(), vec![vec![1u32], vec![]]);
}

#[test]
fn optional_values_are_flagged() {
    assert_eq!(written(&Some(3u32)), vec![0, 0, 0, 1, 0, 0, 0, 3]);
    assert_eq!(written(&None::<u32>), vec![0, 0, 0, 0]);
    assert_eq!(read::<Option<u32>>(vec![0, 0, 0, 1, 0, 0, 0, 3]).0.unwrap(), Some(3));
    assert_eq!(read::<Option<u32>>(vec![0, 0, 0, 0]).0.unwrap(), None);
}

#[test]
fn optional_data_is_written_as_a_chain() {
    let d = OptionalData::new(vec![7u32, 8]);
    // Each item follows a true, and the chain ends with a false, which is
    // written as two.
    assert_eq!(written(&d), vec![0, 0, 0, 1, 0, 0, 0, 7, 0, 0, 0, 1, 0, 0, 0, 8, 0, 0, 0, 2]);
    assert_eq!(written(&OptionalData::<u32>::new(vec![])), vec![0, 0, 0, 2]);
    assert_eq!(d.items(), &[7, 8]);
}

#[test]
fn optional_data_reads_until_a_zero_word() {
    let (v, pos) = read::<OptionalData<u32>>(vec![0, 0, 0, 1, 0, 0, 0, 5, 0, 0, 0, 0]);
    assert_eq!(v.unwrap().items(), &[5]);
    assert_eq!(pos, 12);
    let (v, _) = read::<OptionalData<u32>>(vec![0, 0, 0, 1, 0, 0, 0, 5]);
    assert_eq!(v.err(), Some(XdrError::UnexpectedEof));
}

#[test]
fn optional_value_flag_above_one_is_refused() {
    assert_eq!(read::<Option<u32>>(vec![0, 0, 0, 2, 0, 0, 0, 3]).0, Err(XdrError::Other));
}

#[test]
fn device_numbers_are_written_with_the_first_twice() {
    let d = NfsSpecData { specdata1: 8, specdata2: 1 };
    assert_eq!(written(&d), vec![0, 0, 0, 8, 0, 0, 0, 8]);
    let back = read::<NfsSpecData>(written(&d)).0.unwrap();
    assert_eq!((back.specdata1, back.specdata2), (8, 8));
    let same = NfsSpecData { specdata1: 5, specdata2: 5 };
    let back = read::<NfsSpecData>(written(&same)).0.unwrap();
    assert_eq!((back.specdata1, back.specdata2), (5, 5));
}

#[test]
fn a_counted_sequence_cut_short_fails() {
    let mut r = XdrReader::new(vec![0, 0, 0, 3, 0, 0, 0, 1]);
    assert_eq!(deserialize_vec::<u32>(&mut r), Err(XdrError::UnexpectedEof));
    let mut r = XdrReader::new(vec![0, 0]);
    assert_eq!(deserialize_vec::<u32>(&mut r), Err(XdrError::UnexpectedEof));
}
