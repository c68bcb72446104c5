use crypto_agility::enums::HashAlgorithm;
use crypto_agility::hash::Sha256;

const ABC_DIGEST: [u8; 32] = [
    0xba, 0x78, 0x16, 0xbf, 0x8f, 0x01, 0xcf, 0xea, 0x41, 0x41, 0x40, 0xde, 0x5d, 0xae, 0x22,
    0x23, 0xb0, 0x03, 0x61, 0xa3, 0x96, 0x17, 0x7a, 0x9c, 0xb4, 0x10, 0xff, 0x61, 0xf2, 0x00,
    0x15, 0xad,
];

const EMPTY_DIGEST: [u8; 32] = [
    0xe3, 0xb0, 0xc4, 0x42, 0x98, 0xfc, 0x1c, 0x14, 0x9a, 0xfb, 0xf4, 0xc8, 0x99, 0x6f, 0xb9,
    0x24, 0x27, 0xae, 0x41, 0xe4, 0x64, 0x9b, 0x93, 0x4c, 0xa4, 0x95, 0x99, 0x1b, 0x78, 0x52,
    0xb8, 0x55,
];

#[test]
fn one_shot_known_vectors() {
    let provider = Sha256;
    assert_eq!(provider.hash(b"abc"), ABC_DIGEST.to_vec());
    assert_eq!(provider.hash(b""), EMPTY_DIGEST.to_vec());
}

#[test]
fn provider_describes_itself() {
    let provider = Sha256;
    assert_eq!(provider.algorithm(), HashAlgorithm::SHA256);
    assert_eq!(provider.output_len(), 32);
    assert_eq!(provider.hash(b"abc").len(), provider.output_len());
}

#[test]
fn streaming_matches_one_shot() {
    let provider = Sha256;
    let mut ctx = provider.start();
    ctx.update(b"a");
    ctx.update(b"b");
    ctx.update(b"c");
    assert_eq!(ctx.finish(), ABC_DIGEST.to_vec());

    let empty_ctx = provider.start();
    assert_eq!(empty_ctx.finish(), EMPTY_DIGEST.to_vec());
}

#[test]
fn fork_independence() {
    let provider = Sha256;
    let a: &[u8] = b"hello ";
    let b: &[u8] = b"world";
    let mut joined = Vec::new();
    joined.extend_from_slice(a);
    joined.extend_from_slice(b);

    let mut original = provider.start();
    original.update(a);
    let mut forked = original.fork();
    forked.update(b);

    assert_eq!(forked.finish(), provider.hash(&joined));
    assert_eq!(original.finish(), provider.hash(a));
}

#[test]
fn fork_finish_non_destructive() {
    let provider = Sha256;
    let a: &[u8] = b"transcript so far";
    let b: &[u8] = b", and what came after";
    let mut joined = Vec::new();
    joined.extend_from_slice(a);
    joined.extend_from_slice(b);

    let mut ctx = provider.start();
    ctx.update(a);
    let snapshot = ctx.fork_finish();
    assert_eq!(snapshot, provider.hash(a));

    ctx.update(b);
    assert_eq!(ctx.fork_finish(), provider.hash(&joined));
    assert_eq!(ctx.finish(), provider.hash(&joined));
}
