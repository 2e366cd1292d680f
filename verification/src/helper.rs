//! Conversions between binary/hex text and integers, and the FNV-1a string hash
//! that the instruction decoder keys its opcode table on.
use vstd::prelude::*;
use vstd::arithmetic::power2::{pow2, lemma_pow2_unfold, lemma2_to64};
use vstd::arithmetic::div_mod::{lemma_fundamental_div_mod, lemma_mod_multiples_vanish};
use vstd::string::StrSliceExecFns;

verus! {

// ───────────────────────────── specifications ─────────────────────────────

/// FNV-1a 32-bit offset basis.
pub open spec fn fnv_offset() -> u32 {
    2166136261u32
}

/// One FNV-1a round: xor the byte in, then multiply by the FNV prime modulo 2^32.
pub open spec fn fnv_step(h: u32, b: u8) -> u32 {
    (((h ^ (b as u32)) as nat * 16777619nat) % 0x1_0000_0000nat) as u32
}

/// FNV-1a hash of a byte sequence.
pub open spec fn fnv1a(bytes: Seq<u8>) -> u32
    decreases bytes.len(),
{
    if bytes.len() == 0 {
        fnv_offset()
    } else {
        fnv_step(fnv1a(bytes.drop_last()), bytes.last())
    }
}

/// The bit a character stands for in a binary string: `'1'` is one, anything else zero.
pub open spec fn bit_of(c: char) -> nat {
    if c == '1' {
        1
    } else {
        0
    }
}

/// Value of a binary string read most significant character first, without any bound.
pub open spec fn bin_value(s: Seq<char>) -> nat
    decreases s.len(),
{
    if s.len() == 0 {
        0
    } else {
        2 * bin_value(s.drop_last()) + bit_of(s.last())
    }
}

/// The character for the lowest bit of `x`.
pub open spec fn low_bit_char(x: nat) -> char {
    if x % 2 == 1 {
        '1'
    } else {
        '0'
    }
}

/// The `n` lowest bits of `x` as `'0'`/`'1'` characters, most significant first.
pub open spec fn bits_msb(x: nat, n: nat) -> Seq<char>
    decreases n,
{
    if n == 0 {
        Seq::<char>::empty()
    } else {
        bits_msb(x / 2, (n - 1) as nat).push(low_bit_char(x))
    }
}

/// True when every character is `'0'` or `'1'`.
pub open spec fn is_binary(s: Seq<char>) -> bool {
    forall|i: int| 0 <= i < s.len() ==> (#[trigger] s[i] == '0' || s[i] == '1')
}

/// A character that `char::to_digit(16)` accepts.
pub open spec fn is_hex_digit(c: char) -> bool {
    ||| ('0' as u32 <= c as u32 && c as u32 <= '9' as u32)
    ||| ('a' as u32 <= c as u32 && c as u32 <= 'f' as u32)
    ||| ('A' as u32 <= c as u32 && c as u32 <= 'F' as u32)
}

/// The value `char::to_digit(16)` gives a hex digit.
pub open spec fn hex_digit_value(c: char) -> nat {
    if '0' as u32 <= c as u32 && c as u32 <= '9' as u32 {
        (c as u32 - '0' as u32) as nat
    } else if 'a' as u32 <= c as u32 && c as u32 <= 'f' as u32 {
        (c as u32 - 'a' as u32 + 10) as nat
    } else {
        (c as u32 - 'A' as u32 + 10) as nat
    }
}

/// Value of a string of hex digits, most significant first.
pub open spec fn hex_value(s: Seq<char>) -> nat
    decreases s.len(),
{
    if s.len() == 0 {
        0
    } else {
        16 * hex_value(s.drop_last()) + hex_digit_value(s.last())
    }
}

/// The string `return_opp_string` builds: one character per byte of the input's UTF-8
/// encoding; position `i` is `'1'` exactly when the `i`-th character exists and is `'0'`.
pub open spec fn opposite_bits(s: Seq<char>, byte_len: nat) -> Seq<char> {
    Seq::new(byte_len, |i: int| if i < s.len() && s[i] == '0' { '1' } else { '0' })
}

/// Concatenation of the 8-bit binary spellings of `bytes`.
pub open spec fn bytes_as_bits(bytes: Seq<u8>) -> Seq<char>
    decreases bytes.len(),
{
    if bytes.len() == 0 {
        Seq::<char>::empty()
    } else {
        bytes_as_bits(bytes.drop_last()) + bits_msb(bytes.last() as nat, 8)
    }
}

/// The bytes of the demo program run when no program file can be read:
/// LOADIMM R1 25, LOADIMM R2 26, ADD R1 R2, HALT.
pub open spec fn fallback_program_bytes() -> Seq<u8> {
    seq![0x80u8, 0x10u8, 0x19u8, 0x80u8, 0x20u8, 0x1au8, 0x40u8, 0x12u8, 0x01u8]
}

// ───────────────────────────── lemmas ─────────────────────────────

/// Shifting a bit into a value kept modulo `m` agrees with shifting into the full value.
pub proof fn lemma_shift_in_mod(a: nat, b: nat, m: nat)
    requires
        m > 0,
    ensures
        (2 * (a % m) + b) % m == (2 * a + b) % m,
{
    lemma_fundamental_div_mod(a as int, m as int);
    let q = a as int / m as int;
    let r = a as int % m as int;
    assert(2 * a + b == m * (2 * q) + (2 * r + b)) by (nonlinear_arith)
        requires
            a == m * q + r,
    ;
    lemma_mod_multiples_vanish(2 * q, 2 * r + b, m as int);
}

/// `bits_msb(x, n)` has `n` characters, all binary.
pub proof fn lemma_bits_msb_shape(x: nat, n: nat)
    ensures
        bits_msb(x, n).len() == n,
        is_binary(bits_msb(x, n)),
    decreases n,
{
    if n > 0 {
        lemma_bits_msb_shape(x / 2, (n - 1) as nat);
    }
}

/// Reading back the `n`-bit spelling of `x` gives `x` modulo `2^n`.
pub proof fn lemma_bin_value_bits_msb(x: nat, n: nat)
    ensures
        bin_value(bits_msb(x, n)) == x % pow2(n),
    decreases n,
{
    if n == 0 {
        lemma2_to64();
    } else {
        let s = bits_msb(x, n);
        lemma_bin_value_bits_msb(x / 2, (n - 1) as nat);
        assert(s.drop_last() =~= bits_msb(x / 2, (n - 1) as nat));
        lemma_pow2_unfold(n);
        let p = pow2((n - 1) as nat);
        assert(p > 0) by {
            vstd::arithmetic::power2::lemma_pow2_pos((n - 1) as nat);
        }
        vstd::arithmetic::div_mod::lemma_mod_breakdown(x as int, 2, p as int);
    }
}

/// Prefixes of a hex string never have a larger value than the whole string.
pub proof fn lemma_hex_prefix_le(s: Seq<char>, i: int)
    requires
        0 <= i <= s.len(),
    ensures
        hex_value(s.take(i)) <= hex_value(s),
    decreases s.len(),
{
    if i < s.len() {
        assert(s.drop_last().take(i) =~= s.take(i));
        lemma_hex_prefix_le(s.drop_last(), i);
    } else {
        assert(s.take(i) =~= s);
    }
}

/// Flipping every digit of a binary string of length `n` gives the value `2^n - 1 - v`.
pub proof fn lemma_flip_value(s: Seq<char>)
    requires
        is_binary(s),
    ensures
        bin_value(opposite_bits(s, s.len())) + bin_value(s) + 1 == pow2(s.len()),
    decreases s.len(),
{
    if s.len() == 0 {
        lemma2_to64();
    } else {
        let t = opposite_bits(s, s.len());
        assert(t.drop_last() =~= opposite_bits(s.drop_last(), s.drop_last().len()));
        assert(is_binary(s.drop_last()));
        assert(s.last() == s[s.len() - 1]);
        lemma_flip_value(s.drop_last());
        lemma_pow2_unfold(s.len());
    }
}

/// Spelling a word in binary, flipping the digits and reading them back gives its bitwise
/// complement.
pub proof fn lemma_complement_via_text(v: u32)
    ensures
        vstd::utf8::encode_utf8(bits_msb(v as nat, 32)).len() == 32,
        bin_value(opposite_bits(bits_msb(v as nat, 32), 32)) % 0x1_0000_0000 == !v,
{
    let bits = bits_msb(v as nat, 32);
    lemma_bits_msb_shape(v as nat, 32);
    assert(vstd::utf8::is_ascii_chars(bits)) by {
        assert forall|i: int| 0 <= i < bits.len() implies '\0' <= #[trigger] bits[i] <= '\u{7f}' by {
            assert(bits[i] == '0' || bits[i] == '1');
        }
    }
    vstd::utf8::is_ascii_chars_encode_utf8(bits);
    lemma_flip_value(bits);
    lemma_bin_value_bits_msb(v as nat, 32);
    lemma2_to64();
    vstd::arithmetic::power2::lemma2_to64_rest();
    assert(!v == 0xFFFF_FFFFu32 - v) by (bit_vector);
}

/// Reading two strings one after the other: the first is shifted past the second.
pub proof fn lemma_bin_value_concat(a: Seq<char>, b: Seq<char>)
    ensures
        bin_value(a + b) == bin_value(a) * pow2(b.len()) + bin_value(b),
    decreases b.len(),
{
    if b.len() == 0 {
        assert(a + b =~= a);
        lemma2_to64();
        assert(bin_value(a) * 1 == bin_value(a));
    } else {
        assert((a + b).drop_last() =~= a + b.drop_last());
        assert((a + b).last() == b.last());
        lemma_bin_value_concat(a, b.drop_last());
        lemma_pow2_unfold(b.len());
        let x = bin_value(a);
        let p = pow2((b.len() - 1) as nat);
        let y = bin_value(b.drop_last());
        assert(2 * (x * p + y) == x * (2 * p) + 2 * y) by (nonlinear_arith);
        assert(pow2(b.len()) == 2 * p);
        assert(bin_value(a + b) == 2 * bin_value(a + b.drop_last()) + bit_of(b.last()));
        assert(bin_value(b) == 2 * y + bit_of(b.last()));
    }
}

/// A prefix of a binary string never reads larger than the whole string.
pub proof fn lemma_bin_prefix_le(s: Seq<char>, i: int)
    requires
        0 <= i <= s.len(),
    ensures
        bin_value(s.take(i)) <= bin_value(s),
    decreases s.len(),
{
    if i < s.len() {
        assert(s.drop_last().take(i) =~= s.take(i));
        lemma_bin_prefix_le(s.drop_last(), i);
    } else {
        assert(s.take(i) =~= s);
    }
}

/// The binary spelling of `n` bytes has `8 n` characters, all binary.
pub proof fn lemma_bytes_as_bits_shape(bytes: Seq<u8>)
    ensures
        bytes_as_bits(bytes).len() == 8 * bytes.len(),
        is_binary(bytes_as_bits(bytes)),
    decreases bytes.len(),
{
    if bytes.len() > 0 {
        lemma_bytes_as_bits_shape(bytes.drop_last());
        lemma_bits_msb_shape(bytes.last() as nat, 8);
        let a = bytes_as_bits(bytes.drop_last());
        let b = bits_msb(bytes.last() as nat, 8);
        assert forall|i: int| 0 <= i < (a + b).len() implies (#[trigger] (a + b)[i] == '0' || (a
            + b)[i] == '1') by {
            if i < a.len() {
                assert((a + b)[i] == a[i]);
            } else {
                assert((a + b)[i] == b[i - a.len()]);
            }
        }
    }
}

// ───────────────────────────── trusted std call ─────────────────────────────

/// Calls std's `String::push`, which appends one character; the contract says just that.
#[verifier::external_body]
pub(crate) fn push_char(s: &mut String, c: char)
    ensures
        final(s)@ == old(s)@.push(c),
{
    s.push(c);
}

// ───────────────────────────── executable functions ─────────────────────────────

/// FNV-1a hash of the UTF-8 bytes of `s`.
pub fn str(s: &String) -> (hash: u32)
    ensures
        hash == fnv1a(vstd::utf8::encode_utf8(s@)),
{
    let bytes = s.as_str().as_bytes();
    let mut hash: u32 = 2166136261;
    let mut i: usize = 0;
    while i < bytes.len()
        invariant
            0 <= i <= bytes@.len(),
            bytes@ == vstd::utf8::encode_utf8(s@),
            hash == fnv1a(bytes@.take(i as int)),
        decreases bytes@.len() - i,
    {
        assert(bytes@.take(i + 1).drop_last() =~= bytes@.take(i as int));
        hash = hash ^ (bytes[i] as u32);
        hash = hash.wrapping_mul(16777619);
        i += 1;
    }
    assert(bytes@.take(bytes@.len() as int) =~= bytes@);
    hash
}

/// Reads a binary string most significant character first; every `'1'` is a set bit and
/// any other character a clear one. Bits shifted past the top are dropped.
pub fn string_to_u8(passed: String) -> (rtn: u8)
    ensures
        rtn == bin_value(passed@) % 256,
{
    let s = passed.as_str();
    let n = s.unicode_len();
    let mut rtn: u8 = 0;
    let mut i: usize = 0;
    while i < n
        invariant
            0 <= i <= n,
            n == passed@.len(),
            s@ == passed@,
            rtn == bin_value(passed@.take(i as int)) % 256,
        decreases n - i,
    {
        let c = s.get_char(i);
        let bit: u16 = if c == '1' {
            1
        } else {
            0
        };
        proof {
            let t = passed@.take(i + 1);
            assert(t.drop_last() =~= passed@.take(i as int));
            lemma_shift_in_mod(bin_value(passed@.take(i as int)), bit as nat, 256);
        }
        rtn = ((rtn as u16 * 2 + bit) % 256) as u8;
        i += 1;
    }
    assert(passed@.take(n as int) =~= passed@);
    rtn
}

/// Reads a binary string of any length most significant character first, keeping the
/// value modulo 2^32.
pub fn string_to_u32(passed: String) -> (rtn: u32)
    ensures
        rtn == bin_value(passed@) % 0x1_0000_0000,
{
    let s = passed.as_str();
    let n = s.unicode_len();
    let mut rtn: u32 = 0;
    let mut i: usize = 0;
    while i < n
        invariant
            0 <= i <= n,
            n == passed@.len(),
            s@ == passed@,
            rtn == bin_value(passed@.take(i as int)) % 0x1_0000_0000,
        decreases n - i,
    {
        let c = s.get_char(i);
        let bit: u64 = if c == '1' {
            1
        } else {
            0
        };
        proof {
            let t = passed@.take(i + 1);
            assert(t.drop_last() =~= passed@.take(i as int));
            lemma_shift_in_mod(bin_value(passed@.take(i as int)), bit as nat, 0x1_0000_0000);
        }
        rtn = ((rtn as u64 * 2 + bit) % 0x1_0000_0000) as u32;
        i += 1;
    }
    assert(passed@.take(n as int) =~= passed@);
    rtn
}

/// The `n` lowest bits of `x`, most significant first.
fn bits_string(x: u32, n: usize) -> (s: String)
    ensures
        s@ == bits_msb(x as nat, n as nat),
    decreases n,
{
    if n == 0 {
        String::new()
    } else {
        let mut s = bits_string(x / 2, n - 1);
        let c = if x % 2 == 1 {
            '1'
        } else {
            '0'
        };
        push_char(&mut s, c);
        s
    }
}

/// The 32-character binary spelling of `passed`, most significant bit first.
pub fn u32_to_string(passed: u32) -> (rtn: String)
    ensures
        rtn@ == bits_msb(passed as nat, 32),
{
    bits_string(passed, 32)
}

/// The 8-character binary spelling of `passed`, most significant bit first.
pub fn u8_to_string(passed: u8) -> (rtn: String)
    ensures
        rtn@ == bits_msb(passed as nat, 8),
{
    bits_string(passed as u32, 8)
}

/// Reads a string of hex digits. The digits and the absence of overflow are what the
/// caller must ensure: a bad digit or a value past `u32::MAX` is a panic.
pub fn str_hex_to_u32(passed: &str) -> (result: u32)
    requires
        forall|i: int| 0 <= i < passed@.len() ==> is_hex_digit(#[trigger] passed@[i]),
        hex_value(passed@) <= u32::MAX,
    ensures
        result == hex_value(passed@),
{
    let n = passed.unicode_len();
    let mut result: u32 = 0;
    let mut i: usize = 0;
    while i < n
        invariant
            0 <= i <= n,
            n == passed@.len(),
            forall|k: int| 0 <= k < passed@.len() ==> is_hex_digit(#[trigger] passed@[k]),
            hex_value(passed@) <= u32::MAX,
            result == hex_value(passed@.take(i as int)),
        decreases n - i,
    {
        let c = passed.get_char(i);
        let v = c as u32;
        assert(is_hex_digit(passed@[i as int]));
        let digit: u32 = if 48 <= v && v <= 57 {
            v - 48
        } else if 97 <= v && v <= 102 {
            v - 97 + 10
        } else {
            v - 65 + 10
        };
        proof {
            assert(passed@.take(i + 1).drop_last() =~= passed@.take(i as int));
            lemma_hex_prefix_le(passed@, i + 1);
        }
        result = result * 16 + digit;
        i += 1;
    }
    assert(passed@.take(n as int) =~= passed@);
    result
}

/// Flips a binary string: one output character per byte of the input, `'1'` where the
/// input has a `'0'`, and `'0'` everywhere else.
pub fn return_opp_string(passed: String) -> (rtn: String)
    ensures
        rtn@ == opposite_bits(passed@, vstd::utf8::encode_utf8(passed@).len()),
{
    let s = passed.as_str();
    let byte_len = s.as_bytes().len();
    let char_len = s.unicode_len();
    let mut rtn = String::new();
    let mut i: usize = 0;
    while i < byte_len
        invariant
            0 <= i <= byte_len,
            byte_len == vstd::utf8::encode_utf8(passed@).len(),
            char_len == passed@.len(),
            s@ == passed@,
            rtn@ =~= opposite_bits(passed@, byte_len as nat).take(i as int),
        decreases byte_len - i,
    {
        if i < char_len && s.get_char(i) == '0' {
            push_char(&mut rtn, '1');
        } else {
            push_char(&mut rtn, '0');
        }
        i += 1;
    }
    rtn
}

/// The demo program (see `fallback_program_bytes`) as binary characters.
pub fn fallback_starting_operation() -> (program: Vec<char>)
    ensures
        program@ == bytes_as_bits(fallback_program_bytes()),
{
    // LOADIMM R1 25; LOADIMM R2 26; ADD R1 R2; HALT
    let bytes: [u8; 9] = [0x80, 0x10, 0x19, 0x80, 0x20, 0x1a, 0x40, 0x12, 0x01];
    let mut program: Vec<char> = Vec::new();
    let mut k: usize = 0;
    while k < 9
        invariant
            0 <= k <= 9,
            bytes@ == fallback_program_bytes(),
            program@ == bytes_as_bits(bytes@.take(k as int)),
        decreases 9 - k,
    {
        let bits = u8_to_string(bytes[k]);
        let ghost before = program@;
        proof {
            lemma_bits_msb_shape(bytes[k as int] as nat, 8);
        }
        let mut j: usize = 0;
        while j < 8
            invariant
                0 <= j <= 8,
                bits@ == bits_msb(bytes[k as int] as nat, 8),
                bits@.len() == 8,
                program@ == before + bits@.take(j as int),
            decreases 8 - j,
        {
            let c = bits.as_str().get_char(j);
            program.push(c);
            assert(bits@.take(j + 1) =~= bits@.take(j as int).push(c));
            j += 1;
        }
        assert(bits@.take(8) =~= bits@);
        assert(bytes@.take(k + 1).drop_last() =~= bytes@.take(k as int));
        k += 1;
    }
    assert(bytes@.take(9) =~= bytes@);
    program
}

} // verus!
