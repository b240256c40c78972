//! Assembly of the device program source: the configuration bytes are
//! substituted as named constants ahead of the kernel template, one
//! `#define S_<n> <value>u` line per byte — the factory address at constants
//! 1 to 20, the calling address at 21 to 40, and the init-code hash at 53 to
//! 84, mirroring each byte's offset in the derivation message.

use vstd::prelude::*;
use vstd::string::{StringExecFns, StrSliceExecFns};
use crate::config::Config;

verus! {

/// The decimal digit character for a value below ten.
pub open spec fn dec_digit_char(v: nat) -> char
    recommends
        v < 10,
{
    ((48 + v) as u8) as char
}

/// The decimal digits of a number, most significant first.
pub open spec fn dec_digits(v: nat) -> Seq<char>
    decreases v,
{
    if v < 10 {
        seq![dec_digit_char(v)]
    } else {
        dec_digits(v / 10) + seq![dec_digit_char(v % 10)]
    }
}

/// One substituted constant: `#define S_<idx> <value>u` and a newline.
pub open spec fn spec_define_line(idx: nat, value: u8) -> Seq<char> {
    "#define S_"@ + dec_digits(idx) + " "@ + dec_digits(value as nat) + "u\n"@
}

/// The define lines for a run of bytes, numbered consecutively from `start`.
pub open spec fn spec_define_block(values: Seq<u8>, start: nat) -> Seq<char>
    decreases values.len(),
{
    if values.len() == 0 {
        Seq::empty()
    } else {
        spec_define_block(values.drop_last(), start) + spec_define_line(
            (start + values.len() - 1) as nat,
            values.last(),
        )
    }
}

/// Every define line of a configuration: factory and calling address bytes at
/// constants 1 to 40, init-code hash bytes at 53 to 84.
pub open spec fn spec_kernel_defines(factory: Seq<u8>, caller: Seq<u8>, hash: Seq<u8>) -> Seq<
    char,
> {
    spec_define_block(factory + caller, 1) + spec_define_block(hash, 53)
}

/// The string slice holding one decimal digit.
fn digit_str(d: u32) -> (s: &'static str)
    requires
        d < 10,
    ensures
        s@ == seq![dec_digit_char(d as nat)],
{
    let s = match d {
        0 => "0",
        1 => "1",
        2 => "2",
        3 => "3",
        4 => "4",
        5 => "5",
        6 => "6",
        7 => "7",
        8 => "8",
        _ => "9",
    };
    proof {
        reveal_strlit("0");
        reveal_strlit("1");
        reveal_strlit("2");
        reveal_strlit("3");
        reveal_strlit("4");
        reveal_strlit("5");
        reveal_strlit("6");
        reveal_strlit("7");
        reveal_strlit("8");
        reveal_strlit("9");
        assert(s@ =~= seq![dec_digit_char(d as nat)]);
    }
    s
}

/// Append the decimal digits of a number, most significant first.
fn push_decimal(out: &mut String, v: u32)
    ensures
        final(out)@ == old(out)@ + dec_digits(v as nat),
    decreases v,
{
    if v < 10 {
        out.append(digit_str(v));
    } else {
        push_decimal(out, v / 10);
        out.append(digit_str(v % 10));
    }
    assert(final(out)@ =~= old(out)@ + dec_digits(v as nat));
}

/// Append one `#define S_<idx> <value>u` line.
fn push_define_line(out: &mut String, idx: u32, value: u8)
    ensures
        final(out)@ == old(out)@ + spec_define_line(idx as nat, value),
{
    out.append("#define S_");
    push_decimal(out, idx);
    out.append(" ");
    push_decimal(out, value as u32);
    out.append("u\n");
    assert(final(out)@ =~= old(out)@ + spec_define_line(idx as nat, value));
}

/// Produce the device program source: the configuration bytes as `#define`
/// lines, followed by the kernel template they parameterize.
pub fn mk_kernel_src(config: &Config, kernel_template: &str) -> (src: String)
    ensures
        src@ == spec_kernel_defines(
            config.factory_address@,
            config.calling_address@,
            config.init_code_hash@,
        ) + kernel_template@,
{
    let ghost fc = config.factory_address@ + config.calling_address@;
    let mut src = String::new();
    assert(src@ + spec_define_block(fc.take(0), 1) =~= spec_define_block(fc.take(0), 1));

    let mut i: usize = 0;
    while i < 40
        invariant
            i <= 40,
            fc == config.factory_address@ + config.calling_address@,
            fc.len() == 40,
            src@ == spec_define_block(fc.take(i as int), 1),
        decreases 40 - i,
    {
        let value = if i < 20 {
            config.factory_address[i]
        } else {
            config.calling_address[i - 20]
        };
        assert(value == fc[i as int]);
        push_define_line(&mut src, (i + 1) as u32, value);
        proof {
            assert(fc.take(i + 1).drop_last() =~= fc.take(i as int));
            assert(fc.take(i + 1).last() == fc[i as int]);
        }
        i = i + 1;
    }
    assert(fc.take(40) =~= fc);

    let ghost h = config.init_code_hash@;
    let mut j: usize = 0;
    while j < 32
        invariant
            j <= 32,
            fc == config.factory_address@ + config.calling_address@,
            h == config.init_code_hash@,
            h.len() == 32,
            src@ == spec_define_block(fc, 1) + spec_define_block(h.take(j as int), 53),
        decreases 32 - j,
    {
        push_define_line(&mut src, (j + 53) as u32, config.init_code_hash[j]);
        proof {
            assert(h.take(j + 1).drop_last() =~= h.take(j as int));
            assert(h.take(j + 1).last() == h[j as int]);
            assert((spec_define_block(fc, 1) + spec_define_block(h.take(j as int), 53))
                + spec_define_line((j + 53) as nat, h[j as int]) =~= spec_define_block(fc, 1)
                + spec_define_block(h.take(j + 1), 53));
        }
        j = j + 1;
    }
    assert(h.take(32) =~= h);

    src.append(kernel_template);
    assert(src@ =~= spec_kernel_defines(
        config.factory_address@,
        config.calling_address@,
        config.init_code_hash@,
    ) + kernel_template@);
    src
}

} // verus!
