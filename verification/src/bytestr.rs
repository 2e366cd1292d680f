//! `ByteStr`: one byte of a program, held as eight characters (normally `'0'`/`'1'`,
//! most significant bit first) together with the FNV-1a hash it had when it was made.
use vstd::prelude::*;
use vstd::arithmetic::power2::{pow2, lemma_pow2_unfold, lemma2_to64};
use vstd::string::StrSliceExecFns;
use crate::helper::{bin_value, bits_msb, fnv1a, push_char, lemma_bits_msb_shape};

verus! {

/// One program byte as eight characters plus the hash computed when it was built.
#[derive(Copy, Clone)]
pub struct ByteStr {
    bytes: [char; 8],
    my_hash_val: u32,
}

/// The eight characters of a byte after loading `text` over `old`: the first characters
/// of `text` replace the leading ones, the rest stay as they were.
pub open spec fn loaded(old: Seq<char>, text: Seq<char>) -> Seq<char> {
    Seq::new(8, |i: int| if i < text.len() { text[i] } else { old[i] })
}

/// Eight `'0'` characters.
pub open spec fn zero_chars() -> Seq<char> {
    Seq::new(8, |i: int| '0')
}

/// `v` clamped into the range of a byte.
pub open spec fn clamp_byte(v: int) -> int {
    if v < 0 {
        0
    } else if v > 255 {
        255
    } else {
        v
    }
}

/// The characters `as_string` produces: `'1'` where the byte holds anything but `'0'`.
pub open spec fn set_chars(s: Seq<char>) -> Seq<char> {
    Seq::new(s.len(), |i: int| if s[i] != '0' { '1' } else { '0' })
}

/// Numeric value of eight binary characters, `'1'` counting as a set bit.
pub open spec fn chars_value(s: Seq<char>) -> nat {
    bin_value(s)
}

impl View for ByteStr {
    type V = Seq<char>;

    closed spec fn view(&self) -> Seq<char> {
        self.bytes@
    }
}

/// Values of binary strings stay below `2^len`.
pub proof fn lemma_bin_value_bound(s: Seq<char>)
    ensures
        bin_value(s) < pow2(s.len()),
    decreases s.len(),
{
    if s.len() == 0 {
        lemma2_to64();
    } else {
        lemma_bin_value_bound(s.drop_last());
        lemma_pow2_unfold(s.len());
    }
}

impl ByteStr {
    /// The hash recorded in this byte (which `clear`, `load` and `increment` leave as it was).
    pub closed spec fn hash_val(&self) -> u32 {
        self.my_hash_val
    }

    /// The value `as_u8` reads.
    pub open spec fn value(&self) -> u8 {
        chars_value(self@) as u8
    }

    /// Every byte has exactly eight characters.
    pub proof fn lemma_len(&self)
        ensures
            self@.len() == 8,
    {
    }

    /// A byte built from `byte`: its first eight characters over a field of `'0'`s, with
    /// the hash of the resulting characters recorded.
    pub fn new(byte: &str) -> (b: Self)
        ensures
            b@ == loaded(zero_chars(), byte@),
            b.hash_val() == fnv1a(vstd::utf8::encode_utf8(b@)),
    {
        let mut b = Self { bytes: ['0';8], my_hash_val: 0 };
        assert(b@ =~= zero_chars());
        b.load(String::from_str(byte));
        b.my_hash_val = b.hash();
        b
    }

    /// Copies the first (up to eight) characters of `text` over the leading characters.
    pub fn load(&mut self, text: String)
        ensures
            final(self)@ == loaded(old(self)@, text@),
            final(self).hash_val() == old(self).hash_val(),
    {
        let s = text.as_str();
        let n = s.unicode_len();
        let mut i: usize = 0;
        while i < 8
            invariant
                0 <= i <= 8,
                n == text@.len(),
                s@ == text@,
                self.my_hash_val == old(self).my_hash_val,
                forall|k: int|
                    0 <= k < 8 ==> #[trigger] self.bytes@[k] == (if k < i && k < text@.len() {
                        text@[k]
                    } else {
                        old(self).bytes@[k]
                    }),
            decreases 8 - i,
        {
            if i < n {
                self.bytes[i] = s.get_char(i);
            }
            i += 1;
        }
        assert(self@ =~= loaded(old(self)@, text@));
    }

    /// Resets all eight characters to `'0'`.
    pub fn clear(&mut self)
        ensures
            final(self)@ == zero_chars(),
            final(self).hash_val() == old(self).hash_val(),
    {
        let mut i: usize = 0;
        while i < 8
            invariant
                0 <= i <= 8,
                self.my_hash_val == old(self).my_hash_val,
                forall|k: int| 0 <= k < 8 ==> #[trigger] self.bytes@[k] == (if k < i {
                    '0'
                } else {
                    old(self).bytes@[k]
                }),
            decreases 8 - i,
        {
            self.bytes[i] = '0';
            i += 1;
        }
        assert(self@ =~= zero_chars());
    }

    /// FNV-1a hash of the UTF-8 encoding of the eight characters.
    pub fn hash(&self) -> (h: u32)
        ensures
            h == fnv1a(vstd::utf8::encode_utf8(self@)),
    {
        let mut to_str: String = String::new();
        let mut i: usize = 0;
        while i < 8
            invariant
                0 <= i <= 8,
                to_str@ =~= self@.take(i as int),
            decreases 8 - i,
        {
            push_char(&mut to_str, self.bytes[i]);
            i += 1;
        }
        assert(self@.take(8) =~= self@);
        crate::helper::str(&to_str)
    }

    /// Adds `amount` to the byte's value, clamped to 0..=255, and rewrites the eight
    /// characters as that value in binary. The sum is formed in `i32`, so it must not
    /// overflow there.
    pub fn increment(&mut self, amount: i32)
        requires
            old(self).value() + amount <= i32::MAX,
        ensures
            final(self)@ == bits_msb(clamp_byte(old(self).value() + amount) as nat, 8),
            final(self).hash_val() == old(self).hash_val(),
    {
        let current: i32 = self.as_u8() as i32;
        let sum: i32 = current + amount;
        let new_val: u8 = if sum < 0 {
            0
        } else if sum > 255 {
            255
        } else {
            sum as u8
        };
        let mut i: usize = 0;
        let mut rest: u8 = new_val;
        proof {
            lemma_bits_msb_shape(new_val as nat, 8);
            lemma2_to64();
        }
        // fill from the least significant position upwards
        while i < 8
            invariant
                0 <= i <= 8,
                rest as nat == new_val as nat / pow2(i as nat),
                self.my_hash_val == old(self).my_hash_val,
                forall|k: int|
                    0 <= k < 8 ==> #[trigger] self.bytes@[k] == (if k >= 8 - i {
                        bits_msb(new_val as nat, 8)[k]
                    } else {
                        old(self).bytes@[k]
                    }),
            decreases 8 - i,
        {
            proof {
                lemma_bits_msb_suffix(new_val as nat, 8, i as nat);
                lemma_pow2_unfold((i + 1) as nat);
                vstd::arithmetic::power2::lemma_pow2_pos(i as nat);
                vstd::arithmetic::div_mod::lemma_div_denominator(
                    new_val as int,
                    pow2(i as nat) as int,
                    2,
                );
            }
            self.bytes[7 - i] = if rest % 2 == 1 {
                '1'
            } else {
                '0'
            };
            rest = rest / 2;
            i += 1;
        }
        assert(self@ =~= bits_msb(new_val as nat, 8));
    }

    /// The hash recorded when the byte was made.
    pub fn my_hashed_value(&self) -> (h: u32)
        ensures
            h == self.hash_val(),
    {
        self.my_hash_val
    }

    /// The first four characters when `is_bottom_byte` holds, else the last four.
    pub fn grab_half(&self, is_bottom_byte: bool) -> (rtn: String)
        ensures
            rtn@ == (if is_bottom_byte {
                self@.subrange(0, 4)
            } else {
                self@.subrange(4, 8)
            }),
    {
        let mut rtn = String::new();
        let start: usize = if is_bottom_byte {
            0
        } else {
            4
        };
        let mut i: usize = start;
        while i < start + 4
            invariant
                start == 0 || start == 4,
                start <= i <= start + 4,
                rtn@ =~= self@.subrange(start as int, i as int),
            decreases start + 4 - i,
        {
            push_char(&mut rtn, self.bytes[i]);
            i += 1;
        }
        rtn
    }

    /// The byte's value: bit `7 - i` is set exactly when character `i` is `'1'`.
    pub fn as_u8(&self) -> (rtn: u8)
        ensures
            rtn == self.value(),
            rtn as nat == chars_value(self@),
    {
        let mut rtn: u8 = 0;
        let mut i: usize = 0;
        while i < 8
            invariant
                0 <= i <= 8,
                rtn as nat == bin_value(self@.take(i as int)),
            decreases 8 - i,
        {
            proof {
                assert(self@.take(i + 1).drop_last() =~= self@.take(i as int));
                lemma_bin_value_bound(self@.take(i + 1));
                lemma2_to64();
                vstd::arithmetic::power::lemma_pow_increases(2, (i + 1) as nat, 8);
                vstd::arithmetic::power2::lemma_pow2(8);
                vstd::arithmetic::power2::lemma_pow2((i + 1) as nat);
            }
            let bit: u8 = if self.bytes[i] == '1' {
                1
            } else {
                0
            };
            rtn = rtn * 2 + bit;
            i += 1;
        }
        assert(self@.take(8) =~= self@);
        rtn
    }

    /// `"1"` for every character that is not `'0'`, else `"0"`.
    pub fn as_string(&self) -> (rtn: String)
        ensures
            rtn@ == set_chars(self@),
    {
        let mut rtn: String = String::new();
        let mut i: usize = 0;
        while i < 8
            invariant
                0 <= i <= 8,
                rtn@ =~= set_chars(self@).take(i as int),
            decreases 8 - i,
        {
            let c = if self.at(i) {
                '1'
            } else {
                '0'
            };
            push_char(&mut rtn, c);
            i += 1;
        }
        rtn
    }

    /// Whether character `ind` is anything but `'0'`; positions past 7 read as `false`.
    pub fn at(&self, ind: usize) -> (set: bool)
        ensures
            set == (ind <= 7 && self@[ind as int] != '0'),
    {
        if ind > 7 {
            return false;
        }
        if self.bytes[ind] != '0' {
            return true;
        }
        false
    }
}

/// The last `i` characters of an `n`-bit spelling are the low bits, one per halving.
pub proof fn lemma_bits_msb_suffix(x: nat, n: nat, i: nat)
    requires
        i < n,
    ensures
        bits_msb(x, n).len() == n,
        bits_msb(x, n)[n - 1 - i] == crate::helper::low_bit_char(x / pow2(i)),
    decreases i,
{
    lemma_bits_msb_shape(x, n);
    if i > 0 {
        lemma_bits_msb_suffix(x / 2, (n - 1) as nat, (i - 1) as nat);
        lemma_pow2_unfold(i);
        vstd::arithmetic::power2::lemma_pow2_pos((i - 1) as nat);
        vstd::arithmetic::div_mod::lemma_div_denominator(x as int, 2, pow2((i - 1) as nat) as int);
    } else {
        lemma2_to64();
    }
}

} // verus!
