use hasher::{Digest, Hasher, SumHasher, WriteHasher};

fn feed(chunks: &[&[u8]]) -> Digest<1> {
    let mut h = SumHasher::new();
    for c in chunks {
        h.update(c);
    }
    h.finalize()
}

#[test]
fn one_shot_sum_of_bytes() {
    let d = SumHasher::digest(&[1, 2, 3]);
    assert_eq!(d.as_bytes(), &[6u8][..]);
}

#[test]
fn incremental_matches_one_shot() {
    let mut h = SumHasher::new();
    h.update(&[1]);
    h.update(&[2, 3]);
    let d = h.finalize();
    assert_eq!(d.as_bytes(), &[6u8][..]);
    assert_eq!(d, SumHasher::digest(&[1, 2, 3]));
}

#[test]
fn reset_then_empty_digest() {
    let mut h = SumHasher::new();
    h.update(&[1, 2, 3]);
    h.reset();
    assert_eq!(h.finalize().as_bytes(), &[0u8][..]);
    assert_eq!(SumHasher::digest(&[]).as_bytes(), &[0u8][..]);
}

#[test]
fn reset_forgets_history() {
    let mut h = SumHasher::new();
    h.update(&[200, 100, 7]);
    h.reset();
    h.update(&[9, 250]);
    assert_eq!(h.finalize(), SumHasher::digest(&[9, 250]));
    assert_eq!(h.finalize().as_bytes(), &[3u8][..]);
}

#[test]
fn chunking_does_not_matter() {
    let data: Vec<u8> = (0u8..=255).chain(0u8..40).collect();
    let whole = SumHasher::digest(&data);
    assert_eq!(feed(&[&data[..]]), whole);
    assert_eq!(feed(&[&data[..1], &data[1..100], &[], &data[100..]]), whole);
    let singles: Vec<&[u8]> = data.chunks(1).collect();
    assert_eq!(feed(&singles), whole);
}

#[test]
fn sum_wraps_modulo_256() {
    assert_eq!(SumHasher::digest(&[255, 1]).as_bytes(), &[0u8][..]);
    assert_eq!(SumHasher::digest(&[200, 100]).as_bytes(), &[44u8][..]);
    let d = SumHasher::digest(&[255; 300]);
    assert_eq!(d.as_bytes(), &[((255u32 * 300) % 256) as u8][..]);
}

#[test]
fn finalize_twice_is_equal_and_continues() {
    let mut h = SumHasher::new();
    h.update(&[10, 20]);
    let a = h.finalize();
    let b = h.finalize();
    assert_eq!(a, b);
    h.update(&[5]);
    assert_eq!(h.finalize().as_bytes(), &[35u8][..]);
}

#[test]
fn deterministic_across_instances() {
    let data = [7u8, 8, 9, 250];
    let mut a = SumHasher::new();
    let mut b = SumHasher::default();
    a.update(&data);
    b.update(&data);
    assert_eq!(a.finalize(), b.finalize());
    assert_eq!(SumHasher::digest(&data), SumHasher::digest(&data));
}

#[test]
fn digest_length_is_the_type_length() {
    assert_eq!(SumHasher::digest(&[1, 2]).as_bytes().len(), 1);
    let long: Digest<32> = Digest::new([7u8; 32]);
    assert_eq!(long.as_bytes().len(), 32);
    let short: Digest<20> = Digest::new([7u8; 20]);
    assert_eq!(short.as_ref().len(), 20);
}

#[test]
fn digest_equality_is_by_bytes() {
    let a = Digest::new([1u8, 2, 3]);
    let b = Digest::new([1u8, 2, 3]);
    let c = Digest::new([1u8, 2, 4]);
    assert_eq!(a, b);
    assert_ne!(a, c);
    assert_eq!(a.clone(), a);
    assert_eq!(Digest::new([]), Digest::<0>::new([]));
}

#[test]
fn write_adapter_feeds_hasher() {
    let mut w = WriteHasher::new(SumHasher::new());
    assert_eq!(w.write(&[1, 2]).unwrap(), 2);
    assert_eq!(w.write(&[]).unwrap(), 0);
    assert_eq!(w.write(&[3]).unwrap(), 1);
    assert!(w.flush().is_ok());
    assert_eq!(w.get_ref().finalize().as_bytes(), &[6u8][..]);
    assert_eq!(w.into_inner().finalize(), SumHasher::digest(&[1, 2, 3]));
}

#[test]
fn write_adapter_as_byte_sink() {
    let data: Vec<u8> = (1u8..=100).collect();
    let mut w = WriteHasher::new(SumHasher::new());
    let copied = std::io::copy(&mut &data[..], &mut w).unwrap();
    assert_eq!(copied, 100);
    std::io::Write::write_all(&mut w, &[4, 5]).unwrap();
    std::io::Write::flush(&mut w).unwrap();
    let mut expected = data.clone();
    expected.extend_from_slice(&[4, 5]);
    assert_eq!(w.into_inner().finalize(), SumHasher::digest(&expected));
}
