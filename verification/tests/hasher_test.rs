use imagepipe::BufHasher;

#[test]
fn digest_matches_reference() {
    let data = b"imagepipe digest input";
    let mut hasher = BufHasher::new();
    hasher.write(data);
    let expected = *blake3::hash(data).as_bytes();
    assert_eq!(hasher.result(), expected);
}

#[test]
fn digest_is_incremental() {
    let mut split = BufHasher::new();
    split.write(b"abc");
    split.write(b"defgh");
    let mut whole = BufHasher::new();
    whole.write(b"abcdefgh");
    assert_eq!(split.result(), whole.result());
}

#[test]
fn digest_state_survives_result() {
    let mut hasher = BufHasher::new();
    hasher.write(b"first");
    let early = hasher.result();
    hasher.write(b"second");
    let late = hasher.result();
    assert_ne!(early, late);
    let mut whole = BufHasher::new();
    whole.write(b"firstsecond");
    assert_eq!(late, whole.result());
}

#[test]
fn different_inputs_differ() {
    let mut a = BufHasher::new();
    a.write(b"one input");
    let mut b = BufHasher::new();
    b.write(b"another input");
    assert_ne!(a.result(), b.result());
}
