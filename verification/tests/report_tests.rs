use fourfourfourfour::codec::derive_address;
use tiny_keccak::{Hasher, Keccak};
use fourfourfourfour::search::SearchRound;
use fourfourfourfour::Config;

fn hex_of(bytes: &[u8]) -> String {
    let mut s = String::new();
    for b in bytes {
        s.push_str(&format!("{:02x}", b));
    }
    s
}

#[test]
fn report_for_a_stubbed_first_dispatch_hit() {
    // factory 0x00..01, caller 0x00..02, init-code hash keccak256("").
    let factory = "0000000000000000000000000000000000000001";
    let caller = "0000000000000000000000000000000000000002";
    let hash = "c5d2460186f7233c927e7db2dcc703c0e500b653ca82273b7bfad8045d85a470";
    let config = Config::new(factory, caller, hash, "255", String::from("http://collector"))
        .expect("inputs validate");

    // A stubbed hash routine that finds lane result 1 on the first dispatch.
    let segment = [0x0au8, 0x0b, 0x0c, 0x0d];
    let mut round = SearchRound::new(segment, 77);
    let lane_result: u64 = 1;
    assert!(round.handle_result(lane_result));

    let payload = config.build_report(&round.run_segment, lane_result);

    let expected_salt = format!("0x{}{}{}", caller, "0a0b0c0d", "0100000000000000");
    assert_eq!(payload.salt, expected_salt);

    // The reported address must be the keccak-256-derived low 20 bytes of the
    // exact 85-byte derivation message.
    let mut message = vec![0xffu8];
    message.extend_from_slice(&config.factory_address);
    message.extend_from_slice(&config.calling_address);
    message.extend_from_slice(&segment);
    message.extend_from_slice(&lane_result.to_le_bytes());
    message.extend_from_slice(&config.init_code_hash);
    assert_eq!(message.len(), 85);
    let derived = derive_address(&message);
    assert_eq!(payload.address, format!("0x{}", hex_of(&derived)));

    let mut keccak = Keccak::v256();
    keccak.update(&message);
    let mut digest = [0u8; 32];
    keccak.finalize(&mut digest);
    assert_eq!(payload.address, format!("0x{}", hex_of(&digest[12..])));
}

#[test]
fn reported_score_matches_the_scoring_function() {
    let factory = "0000000000000000000000000000000000000001";
    let caller = "0000000000000000000000000000000000000002";
    let hash = "c5d2460186f7233c927e7db2dcc703c0e500b653ca82273b7bfad8045d85a470";
    let config = Config::new(factory, caller, hash, "255", String::new())
        .expect("inputs validate");

    let segment = [1u8, 2, 3, 4];
    let payload = config.build_report(&segment, 42);
    let message = config.assemble_derivation_message(&segment, 42);
    let derived = derive_address(&message);
    let score = fourfourfourfour::score_address::score_address(&derived);
    assert_eq!(payload.score, score);
    assert_eq!(payload.address, format!("0x{}", hex_of(&derived)));
}

#[test]
fn salt_uses_the_raw_little_endian_lane_result() {
    let factory = "00000000000000000000000000000000000000aa";
    let caller = "00000000000000000000000000000000000000bb";
    let hash = "c5d2460186f7233c927e7db2dcc703c0e500b653ca82273b7bfad8045d85a470";
    let config = Config::new(factory, caller, hash, "255", String::new())
        .expect("inputs validate");

    let payload = config.build_report(&[0u8; 4], 0x1122334455667788);
    let expected_salt = format!("0x{}{}{}", caller, "00000000", "8877665544332211");
    assert_eq!(payload.salt, expected_salt);
}
