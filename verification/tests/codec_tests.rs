use fourfourfourfour::codec::derive_address;
use tiny_keccak::{Hasher, Keccak};
use fourfourfourfour::Config;

fn test_config() -> Config {
    let mut factory = String::new();
    let mut caller = String::new();
    for _ in 0..39 {
        factory.push('0');
        caller.push('0');
    }
    factory.push('1');
    caller.push('2');
    // keccak-256 of the empty string
    let hash = "c5d2460186f7233c927e7db2dcc703c0e500b653ca82273b7bfad8045d85a470";
    Config::new(&factory, &caller, hash, "255", String::from("http://localhost/report"))
        .expect("inputs validate")
}

#[test]
fn derivation_message_layout_is_exact() {
    let config = test_config();
    let run_segment = [0xdeu8, 0xad, 0xbe, 0xef];
    let lane_result: u64 = 0x1122334455667788;
    let msg = config.assemble_derivation_message(&run_segment, lane_result);

    let mut expected = vec![0xffu8];
    expected.extend_from_slice(&config.factory_address);
    expected.extend_from_slice(&config.calling_address);
    expected.extend_from_slice(&run_segment);
    expected.extend_from_slice(&lane_result.to_le_bytes());
    expected.extend_from_slice(&config.init_code_hash);
    assert_eq!(expected.len(), 85);
    assert_eq!(msg, expected);
}

#[test]
fn derivation_message_assembly_is_deterministic() {
    let config = test_config();
    let run_segment = [1u8, 2, 3, 4];
    let first = config.assemble_derivation_message(&run_segment, 7);
    let second = config.assemble_derivation_message(&run_segment, 7);
    assert_eq!(first, second);
}

#[test]
fn derive_address_of_empty_message_matches_known_digest() {
    // keccak-256("") = c5d2...a470; the derived address is its low 20 bytes.
    let addr = derive_address(&[]);
    let expected = [
        0xdcu8, 0xc7, 0x03, 0xc0, 0xe5, 0x00, 0xb6, 0x53, 0xca, 0x82, 0x27, 0x3b, 0x7b, 0xfa,
        0xd8, 0x04, 0x5d, 0x85, 0xa4, 0x70,
    ];
    assert_eq!(addr, expected);
}

#[test]
fn derive_address_matches_direct_keccak() {
    let config = test_config();
    let msg = config.assemble_derivation_message(&[9u8, 9, 9, 9], 1);

    let mut hash = Keccak::v256();
    hash.update(&msg);
    let mut digest = [0u8; 32];
    hash.finalize(&mut digest);

    assert_eq!(derive_address(&msg), digest[12..].to_vec());
}

#[test]
fn derive_address_is_deterministic() {
    let msg = vec![5u8; 85];
    assert_eq!(derive_address(&msg), derive_address(&msg));
}
