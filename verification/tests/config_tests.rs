use fourfourfourfour::Config;

const FACTORY: &str = "00000000000000000000000000000000000000aa";
const CALLER: &str = "00000000000000000000000000000000000000bb";
const HASH: &str = "c5d2460186f7233c927e7db2dcc703c0e500b653ca82273b7bfad8045d85a470";

#[test]
fn valid_inputs_build_the_config() {
    let cfg = Config::new(FACTORY, CALLER, HASH, "3", String::from("http://collector"))
        .expect("inputs validate");
    assert_eq!(cfg.factory_address[19], 0xaa);
    assert_eq!(cfg.calling_address[19], 0xbb);
    assert_eq!(cfg.init_code_hash[0], 0xc5);
    assert_eq!(cfg.init_code_hash[31], 0x70);
    assert_eq!(cfg.gpu_device, 3);
    assert_eq!(cfg.endpoint_url, "http://collector");
}

#[test]
fn prefixed_and_mixed_case_hex_is_accepted() {
    let factory = format!("0x{}", FACTORY.to_uppercase());
    let cfg = Config::new(&factory, CALLER, HASH, "0", String::new()).expect("inputs validate");
    assert_eq!(cfg.factory_address[19], 0xaa);
}

#[test]
fn non_hex_factory_is_rejected() {
    let err = Config::new("zz", CALLER, HASH, "0", String::new()).unwrap_err();
    assert_eq!(err, "could not decode factory address argument");
}

#[test]
fn odd_length_calling_address_is_rejected() {
    let err = Config::new(FACTORY, "abc", HASH, "0", String::new()).unwrap_err();
    assert_eq!(err, "could not decode calling address argument");
}

#[test]
fn non_hex_hash_is_rejected() {
    let err = Config::new(FACTORY, CALLER, "g0", "0", String::new()).unwrap_err();
    assert_eq!(err, "could not decode initialization code hash argument");
}

#[test]
fn short_factory_is_rejected() {
    let err = Config::new("aabb", CALLER, HASH, "0", String::new()).unwrap_err();
    assert_eq!(err, "invalid length for factory address argument");
}

#[test]
fn long_calling_address_is_rejected() {
    let long = format!("{}00", CALLER);
    let err = Config::new(FACTORY, &long, HASH, "0", String::new()).unwrap_err();
    assert_eq!(err, "invalid length for calling address argument");
}

#[test]
fn wrong_length_hash_is_rejected() {
    let err = Config::new(FACTORY, CALLER, FACTORY, "0", String::new()).unwrap_err();
    assert_eq!(err, "invalid length for initialization code hash argument");
}

#[test]
fn device_value_up_to_255_is_accepted() {
    let cfg = Config::new(FACTORY, CALLER, HASH, "255", String::new()).expect("inputs validate");
    assert_eq!(cfg.gpu_device, 255);
}

#[test]
fn device_value_with_plus_sign_is_accepted() {
    let cfg = Config::new(FACTORY, CALLER, HASH, "+12", String::new()).expect("inputs validate");
    assert_eq!(cfg.gpu_device, 12);
}

#[test]
fn device_value_over_255_is_rejected() {
    let err = Config::new(FACTORY, CALLER, HASH, "256", String::new()).unwrap_err();
    assert_eq!(err, "invalid gpu device value");
}

#[test]
fn non_numeric_device_value_is_rejected() {
    let err = Config::new(FACTORY, CALLER, HASH, "two", String::new()).unwrap_err();
    assert_eq!(err, "invalid gpu device value");
}

#[test]
fn empty_device_value_is_rejected() {
    let err = Config::new(FACTORY, CALLER, HASH, "", String::new()).unwrap_err();
    assert_eq!(err, "invalid gpu device value");
}

#[test]
fn config_validation_matches_str_parse() {
    for raw in ["0", "007", "+255", "256", "1e3", "-1", "", "+", "99999999999999999999"] {
        let ours = Config::new(FACTORY, CALLER, HASH, raw, String::new());
        let std_parse = raw.parse::<u8>();
        match (ours, std_parse) {
            (Ok(cfg), Ok(v)) => assert_eq!(cfg.gpu_device, v),
            (Err(e), Err(_)) => assert_eq!(e, "invalid gpu device value"),
            (ours, std_parse) => panic!(
                "validation disagrees on {:?}: ours {:?}, std {:?}",
                raw,
                ours.map(|c| c.gpu_device),
                std_parse
            ),
        }
    }
}

#[test]
fn uppercase_prefix_is_accepted() {
    let factory = format!("0X{}", FACTORY);
    let cfg = Config::new(&factory, CALLER, HASH, "0", String::new()).expect("inputs validate");
    assert_eq!(cfg.factory_address[19], 0xaa);
}
