use jhash::jhash;

#[test]
fn it_works() {
    assert_eq!(1490454280, jhash(b"a", 0));
}

#[test]
fn foobar() {
    assert_eq!(0xaeb72b0c, jhash(b"foobar", 0));
}

#[test]
fn high_seed_vector() {
    assert_eq!(1056965524, jhash(b"foob", 2411127588));
}

#[test]
fn empty_returns_seeded_initval() {
    assert_eq!(0xdeadbeef, jhash(b"", 0));
    assert_eq!(0xdeadbef4, jhash(b"", 5));
    assert_eq!(0xdeadbeee, jhash(b"", 0xffffffff));
}

#[test]
fn bulk_and_tail_vectors() {
    assert_eq!(1503810069, jhash(b"hello, world", 0));
    assert_eq!(275113226, jhash(b"0123456789ab", 0));
    assert_eq!(1934741078, jhash(b"0123456789abc", 0));
    assert_eq!(1237950979, jhash(b"The quick brown fox jump", 7));
    assert_eq!(1688390982, jhash(b"The quick brown fox jumps over the lazy dog", 0));
}

#[test]
fn long_buffer_vector() {
    let data: Vec<u8> = (0u8..=255).collect();
    assert_eq!(3565889743, jhash(&data, 0xdeadbeef));
}

#[test]
fn deterministic() {
    let data: Vec<u8> = (0u8..=255).collect();
    assert_eq!(jhash(&data, 42), jhash(&data, 42));
    assert_eq!(jhash(b"foobar", 0), jhash(b"foobar", 0));
    assert_eq!(jhash(b"", 7), jhash(b"", 7));
}

#[test]
fn seed_changes_hash() {
    let h0: u32 = jhash(b"abc", 0);
    let h1: u32 = jhash(b"abc", 1);
    let h2: u32 = jhash(b"abc", 2);
    assert_eq!(238646833, h0);
    assert_ne!(h0, h1);
    assert_ne!(h1, h2);
    assert_ne!(h0, h2);
}
