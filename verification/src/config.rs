//! Search configuration: the factory and caller addresses, the init-code
//! hash, the device selector and the collector endpoint, validated from the
//! hex strings handed in at startup.

use vstd::prelude::*;
use vstd::string::StringSliceAdditionalSpecFns;
use crate::hexstr::{hex_decode, hex_decode_ok, spec_hex_decode};

verus! {

/// The addresses and hash that shape the search, the device to run it on and
/// the endpoint findings are reported to. All byte fields have fixed,
/// validated length; a malformed or wrongly sized hex string is rejected at
/// construction.
#[derive(Debug)]
pub struct Config {
    pub factory_address: [u8; 20],
    pub calling_address: [u8; 20],
    pub init_code_hash: [u8; 32],
    pub gpu_device: u8,
    pub endpoint_url: String,
}

/// Whether every character of the sequence is an ASCII decimal digit.
pub open spec fn all_dec_digits(s: Seq<char>) -> bool {
    forall|i: int| 0 <= i < s.len() ==> 48 <= (#[trigger] s[i]) as int <= 57
}

/// The decimal value of a sequence of digit characters.
pub open spec fn dec_value(s: Seq<char>) -> int
    decreases s.len(),
{
    if s.len() == 0 {
        0
    } else {
        dec_value(s.drop_last()) * 10 + (s.last() as int - 48)
    }
}

/// What parsing a `u8` from a decimal string returns: an optional leading
/// `+`, then at least one digit, and a value of at most 255.
pub open spec fn spec_parse_u8(s: Seq<char>) -> Option<u8> {
    let t = if s.len() >= 1 && s[0] == '+' {
        s.skip(1)
    } else {
        s
    };
    if t.len() > 0 && all_dec_digits(t) && dec_value(t) <= 255 {
        Some(dec_value(t) as u8)
    } else {
        None
    }
}

proof fn lemma_dec_value_nonneg(s: Seq<char>)
    requires
        all_dec_digits(s),
    ensures
        dec_value(s) >= 0,
    decreases s.len(),
{
    if s.len() > 0 {
        assert(all_dec_digits(s.drop_last()));
        lemma_dec_value_nonneg(s.drop_last());
    }
}

proof fn lemma_dec_value_step(s: Seq<char>, i: int)
    requires
        0 <= i < s.len(),
    ensures
        dec_value(s.take(i + 1)) == dec_value(s.take(i)) * 10 + (s[i] as int - 48),
{
    assert(s.take(i + 1).drop_last() =~= s.take(i));
    assert(s.take(i + 1).last() == s[i]);
}

/// Parse a `u8` from a decimal string, as `str::parse::<u8>` would.
pub fn parse_u8(s: &str) -> (r: Option<u8>)
    ensures
        r == spec_parse_u8(s@),
{
    let len = s.unicode_len();
    let start: usize = if len >= 1 && s.get_char(0) == '+' {
        1
    } else {
        0
    };
    let ghost t = if s@.len() >= 1 && s@[0] == '+' {
        s@.skip(1)
    } else {
        s@
    };
    assert(t =~= s@.subrange(start as int, s@.len() as int));
    if len == start {
        return None;
    }
    let mut acc: u32 = 0;
    let mut over: bool = false;
    let mut i: usize = start;
    while i < len
        invariant
            start <= i <= len,
            len == s@.len(),
            t == s@.subrange(start as int, len as int),
            t == (if s@.len() >= 1 && s@[0] == '+' { s@.skip(1) } else { s@ }),
            all_dec_digits(t.take(i - start)),
            !over ==> acc == dec_value(t.take(i - start)) && acc <= 255,
            over ==> dec_value(t.take(i - start)) > 255 && acc == 256,
        decreases len - i,
    {
        let c = s.get_char(i);
        let cu = c as u32;
        if cu < 48 || cu > 57 {
            proof {
                assert(t[i - start] == s@[i as int]);
                assert(!(48 <= (t[i - start] as int) <= 57));
                assert(!all_dec_digits(t));
            }
            return None;
        }
        let d: u32 = cu - 48;
        proof {
            assert(t[i - start] == s@[i as int]);
        }
        proof {
            lemma_dec_value_step(t, i - start);
            assert(t.take(i - start + 1).drop_last() =~= t.take(i - start));
        }
        if over {
            assert(dec_value(t.take(i - start + 1)) > 255);
        } else {
            acc = acc * 10 + d;
            if acc > 255 {
                over = true;
                acc = 256;
            }
        }
        i = i + 1;
    }
    assert(t.take(len - start) =~= t);
    if over {
        None
    } else {
        Some(acc as u8)
    }
}

/// Whether all five inputs validate: three well-formed hex strings of the
/// right byte lengths and a device selector that parses as a `u8`.
pub open spec fn config_inputs_ok(f: Seq<u8>, c: Seq<u8>, h: Seq<u8>, g: Seq<char>) -> bool {
    &&& hex_decode_ok(f)
    &&& hex_decode_ok(c)
    &&& hex_decode_ok(h)
    &&& spec_hex_decode(f).len() == 20
    &&& spec_hex_decode(c).len() == 20
    &&& spec_hex_decode(h).len() == 32
    &&& spec_parse_u8(g) is Some
}

/// The diagnostic for the first input that fails to validate, in the order
/// the inputs are checked: the three decodes, the three lengths, the device
/// selector.
pub open spec fn spec_config_error(f: Seq<u8>, c: Seq<u8>, h: Seq<u8>, g: Seq<char>) -> Seq<
    char,
> {
    if !hex_decode_ok(f) {
        "could not decode factory address argument"@
    } else if !hex_decode_ok(c) {
        "could not decode calling address argument"@
    } else if !hex_decode_ok(h) {
        "could not decode initialization code hash argument"@
    } else if spec_hex_decode(f).len() != 20 {
        "invalid length for factory address argument"@
    } else if spec_hex_decode(c).len() != 20 {
        "invalid length for calling address argument"@
    } else if spec_hex_decode(h).len() != 32 {
        "invalid length for initialization code hash argument"@
    } else {
        "invalid gpu device value"@
    }
}

/// Copy a 20-byte vector into an array.
fn to_array_20(v: &Vec<u8>) -> (a: [u8; 20])
    requires
        v@.len() == 20,
    ensures
        a@ == v@,
{
    let mut a = [0u8; 20];
    let mut i: usize = 0;
    while i < 20
        invariant
            i <= 20,
            v@.len() == 20,
            a@.len() == 20,
            forall|j: int| 0 <= j < i ==> a@[j] == v@[j],
        decreases 20 - i,
    {
        a[i] = v[i];
        i = i + 1;
    }
    assert(a@ =~= v@);
    a
}

/// Copy a 32-byte vector into an array.
fn to_array_32(v: &Vec<u8>) -> (a: [u8; 32])
    requires
        v@.len() == 32,
    ensures
        a@ == v@,
{
    let mut a = [0u8; 32];
    let mut i: usize = 0;
    while i < 32
        invariant
            i <= 32,
            v@.len() == 32,
            a@.len() == 32,
            forall|j: int| 0 <= j < i ==> a@[j] == v@[j],
        decreases 32 - i,
    {
        a[i] = v[i];
        i = i + 1;
    }
    assert(a@ =~= v@);
    a
}

impl Config {
    /// Validate the startup inputs and construct the configuration: the
    /// factory address, calling address and init-code hash as hex strings of
    /// 20, 20 and 32 bytes, the device selector as a decimal `u8`, and the
    /// collector endpoint, taken as given.
    pub fn new(
        factory_hex: &str,
        calling_hex: &str,
        init_code_hash_hex: &str,
        gpu_device: &str,
        endpoint_url: String,
    ) -> (r: Result<Config, &'static str>)
        ensures
            match r {
                Ok(cfg) => {
                    &&& config_inputs_ok(
                        factory_hex.spec_bytes(),
                        calling_hex.spec_bytes(),
                        init_code_hash_hex.spec_bytes(),
                        gpu_device@,
                    )
                    &&& cfg.factory_address@ == spec_hex_decode(factory_hex.spec_bytes())
                    &&& cfg.calling_address@ == spec_hex_decode(calling_hex.spec_bytes())
                    &&& cfg.init_code_hash@ == spec_hex_decode(init_code_hash_hex.spec_bytes())
                    &&& Some(cfg.gpu_device) == spec_parse_u8(gpu_device@)
                    &&& cfg.endpoint_url == endpoint_url
                },
                Err(m) => {
                    &&& !config_inputs_ok(
                        factory_hex.spec_bytes(),
                        calling_hex.spec_bytes(),
                        init_code_hash_hex.spec_bytes(),
                        gpu_device@,
                    )
                    &&& m@ == spec_config_error(
                        factory_hex.spec_bytes(),
                        calling_hex.spec_bytes(),
                        init_code_hash_hex.spec_bytes(),
                        gpu_device@,
                    )
                },
            },
    {
        let Some(factory_vec) = hex_decode(factory_hex) else {
            return Err("could not decode factory address argument");
        };
        let Some(calling_vec) = hex_decode(calling_hex) else {
            return Err("could not decode calling address argument");
        };
        let Some(hash_vec) = hex_decode(init_code_hash_hex) else {
            return Err("could not decode initialization code hash argument");
        };
        if factory_vec.len() != 20 {
            return Err("invalid length for factory address argument");
        }
        if calling_vec.len() != 20 {
            return Err("invalid length for calling address argument");
        }
        if hash_vec.len() != 32 {
            return Err("invalid length for initialization code hash argument");
        }
        let Some(device) = parse_u8(gpu_device) else {
            return Err("invalid gpu device value");
        };
        Ok(
            Config {
                factory_address: to_array_20(&factory_vec),
                calling_address: to_array_20(&calling_vec),
                init_code_hash: to_array_32(&hash_vec),
                gpu_device: device,
                endpoint_url,
            },
        )
    }
}

} // verus!
