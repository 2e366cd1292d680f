//! The opcode table: maps the recorded hash of an opcode byte to the instruction it names.
use vstd::prelude::*;
use std::collections::HashMap;
use crate::bytestr::{ByteStr, loaded, zero_chars};
use crate::helper::{bits_msb, fnv1a, fnv_step, fnv_offset, u8_to_string, lemma_bits_msb_shape};

verus! {

broadcast use vstd::std_specs::hash::group_hash_axioms;

/// The instructions of the machine.
#[derive(Copy, Clone, PartialEq, Eq, Structural)]
pub enum Mnemonic {
    Noperation,
    Halt,
    Return,
    Clrflags,
    Add,
    Sub,
    Div,
    Multi,
    Or,
    And,
    Eor,
    Not,
    Move,
    Moveaclr,
    Push,
    Pop,
    Int,
    Loadimm,
    Jmp,
    Jmpif0,
    Jmpife0,
    Call,
    Jmpifcrry,
    Load,
    Store,
}

/// The hash the table keys opcode byte `op` under: that of its 8-character binary spelling.
pub open spec fn opcode_key(op: u8) -> u32 {
    fnv1a(vstd::utf8::encode_utf8(bits_msb(op as nat, 8)))
}

/// The opcode table, entries added in order (a later entry wins on equal keys).
pub open spec fn opcode_table() -> Map<u32, Mnemonic> {
    Map::<u32, Mnemonic>::empty()
        .insert(opcode_key(0b0000_0000), Mnemonic::Noperation)
        .insert(opcode_key(0b0000_0001), Mnemonic::Halt)
        .insert(opcode_key(0b0000_0010), Mnemonic::Return)
        .insert(opcode_key(0b0000_0011), Mnemonic::Clrflags)
        .insert(opcode_key(0b0100_0000), Mnemonic::Add)
        .insert(opcode_key(0b0100_0001), Mnemonic::Sub)
        .insert(opcode_key(0b0100_0010), Mnemonic::Div)
        .insert(opcode_key(0b0100_0011), Mnemonic::Multi)
        .insert(opcode_key(0b0100_0100), Mnemonic::Or)
        .insert(opcode_key(0b0100_0101), Mnemonic::And)
        .insert(opcode_key(0b0100_0110), Mnemonic::Eor)
        .insert(opcode_key(0b0100_0111), Mnemonic::Not)
        .insert(opcode_key(0b0100_1000), Mnemonic::Move)
        .insert(opcode_key(0b0100_1001), Mnemonic::Moveaclr)
        .insert(opcode_key(0b0100_1010), Mnemonic::Push)
        .insert(opcode_key(0b0100_1011), Mnemonic::Pop)
        .insert(opcode_key(0b0100_1100), Mnemonic::Int)
        .insert(opcode_key(0b1000_0000), Mnemonic::Loadimm)
        .insert(opcode_key(0b1000_0001), Mnemonic::Jmp)
        .insert(opcode_key(0b1000_0010), Mnemonic::Jmpif0)
        .insert(opcode_key(0b1000_0011), Mnemonic::Jmpife0)
        .insert(opcode_key(0b1000_0100), Mnemonic::Call)
        .insert(opcode_key(0b1000_0101), Mnemonic::Jmpifcrry)
        .insert(opcode_key(0b1000_0111), Mnemonic::Load)
        .insert(opcode_key(0b1000_1000), Mnemonic::Store)
}

/// What looking up a byte with recorded hash `h` yields.
pub open spec fn decode(h: u32) -> Option<Mnemonic> {
    if opcode_table().contains_key(h) {
        Some(opcode_table()[h])
    } else {
        None
    }
}

/// The opcode table.
pub struct InstructionTable {
    map: HashMap<u32, Mnemonic>,
}

impl InstructionTable {
    #[verifier::type_invariant]
    spec fn table_matches(self) -> bool {
        self.map@ == opcode_table()
    }

    /// The entries of the table.
    pub closed spec fn entries(&self) -> Map<u32, Mnemonic> {
        self.map@
    }

    /// The table with every opcode of the instruction set.
    pub fn new() -> (t: Self)
        ensures
            t.entries() == opcode_table(),
    {
        let mut map: HashMap<u32, Mnemonic> = HashMap::new();
        map.insert(opcode_hash(0b0000_0000), Mnemonic::Noperation);
        map.insert(opcode_hash(0b0000_0001), Mnemonic::Halt);
        map.insert(opcode_hash(0b0000_0010), Mnemonic::Return);
        map.insert(opcode_hash(0b0000_0011), Mnemonic::Clrflags);
        map.insert(opcode_hash(0b0100_0000), Mnemonic::Add);
        map.insert(opcode_hash(0b0100_0001), Mnemonic::Sub);
        map.insert(opcode_hash(0b0100_0010), Mnemonic::Div);
        map.insert(opcode_hash(0b0100_0011), Mnemonic::Multi);
        map.insert(opcode_hash(0b0100_0100), Mnemonic::Or);
        map.insert(opcode_hash(0b0100_0101), Mnemonic::And);
        map.insert(opcode_hash(0b0100_0110), Mnemonic::Eor);
        map.insert(opcode_hash(0b0100_0111), Mnemonic::Not);
        map.insert(opcode_hash(0b0100_1000), Mnemonic::Move);
        map.insert(opcode_hash(0b0100_1001), Mnemonic::Moveaclr);
        map.insert(opcode_hash(0b0100_1010), Mnemonic::Push);
        map.insert(opcode_hash(0b0100_1011), Mnemonic::Pop);
        map.insert(opcode_hash(0b0100_1100), Mnemonic::Int);
        map.insert(opcode_hash(0b1000_0000), Mnemonic::Loadimm);
        map.insert(opcode_hash(0b1000_0001), Mnemonic::Jmp);
        map.insert(opcode_hash(0b1000_0010), Mnemonic::Jmpif0);
        map.insert(opcode_hash(0b1000_0011), Mnemonic::Jmpife0);
        map.insert(opcode_hash(0b1000_0100), Mnemonic::Call);
        map.insert(opcode_hash(0b1000_0101), Mnemonic::Jmpifcrry);
        map.insert(opcode_hash(0b1000_0111), Mnemonic::Load);
        map.insert(opcode_hash(0b1000_1000), Mnemonic::Store);
        assert(map@ =~= opcode_table());
        Self { map }
    }

    /// The instruction the byte's recorded hash names, if any.
    pub fn lookup(&self, byte: &ByteStr) -> (m: Option<Mnemonic>)
        ensures
            m == decode(byte.hash_val()),
    {
        proof {
            use_type_invariant(self);
        }
        match self.map.get(&byte.my_hashed_value()) {
            Some(m) => Some(*m),
            None => None,
        }
    }
}

/// The hash a `ByteStr` built from the binary spelling of `op` records.
fn opcode_hash(op: u8) -> (h: u32)
    ensures
        h == opcode_key(op),
{
    let text = u8_to_string(op);
    proof {
        lemma_bits_msb_shape(op as nat, 8);
    }
    let b = ByteStr::new(text.as_str());
    assert(loaded(zero_chars(), text@) =~= bits_msb(op as nat, 8));
    b.my_hashed_value()
}

/// The instruction's name as the assembler spells it.
pub open spec fn mnemonic_name(m: Mnemonic) -> Seq<char> {
    match m {
        Mnemonic::Noperation => "NOPERATION"@,
        Mnemonic::Halt => "HALT"@,
        Mnemonic::Return => "RETURN"@,
        Mnemonic::Clrflags => "CLRFLAGS"@,
        Mnemonic::Add => "ADD"@,
        Mnemonic::Sub => "SUB"@,
        Mnemonic::Div => "DIV"@,
        Mnemonic::Multi => "MULTI"@,
        Mnemonic::Or => "OR"@,
        Mnemonic::And => "AND"@,
        Mnemonic::Eor => "EOR"@,
        Mnemonic::Not => "NOT"@,
        Mnemonic::Move => "MOVE"@,
        Mnemonic::Moveaclr => "MOVEACLR"@,
        Mnemonic::Push => "PUSH"@,
        Mnemonic::Pop => "POP"@,
        Mnemonic::Int => "INT"@,
        Mnemonic::Loadimm => "LOADIMM"@,
        Mnemonic::Jmp => "JMP"@,
        Mnemonic::Jmpif0 => "JMPIF0"@,
        Mnemonic::Jmpife0 => "JMPIFE0"@,
        Mnemonic::Call => "CALL"@,
        Mnemonic::Jmpifcrry => "JMPIFCRRY"@,
        Mnemonic::Load => "LOAD"@,
        Mnemonic::Store => "STORE"@,
    }
}

impl Mnemonic {
    /// The instruction's name as the assembler spells it.
    pub fn name(&self) -> (s: &'static str)
        ensures
            s@ == mnemonic_name(*self),
    {
        match self {
            Mnemonic::Noperation => "NOPERATION",
            Mnemonic::Halt => "HALT",
            Mnemonic::Return => "RETURN",
            Mnemonic::Clrflags => "CLRFLAGS",
            Mnemonic::Add => "ADD",
            Mnemonic::Sub => "SUB",
            Mnemonic::Div => "DIV",
            Mnemonic::Multi => "MULTI",
            Mnemonic::Or => "OR",
            Mnemonic::And => "AND",
            Mnemonic::Eor => "EOR",
            Mnemonic::Not => "NOT",
            Mnemonic::Move => "MOVE",
            Mnemonic::Moveaclr => "MOVEACLR",
            Mnemonic::Push => "PUSH",
            Mnemonic::Pop => "POP",
            Mnemonic::Int => "INT",
            Mnemonic::Loadimm => "LOADIMM",
            Mnemonic::Jmp => "JMP",
            Mnemonic::Jmpif0 => "JMPIF0",
            Mnemonic::Jmpife0 => "JMPIFE0",
            Mnemonic::Call => "CALL",
            Mnemonic::Jmpifcrry => "JMPIFCRRY",
            Mnemonic::Load => "LOAD",
            Mnemonic::Store => "STORE",
        }
    }
}

/// The `'0'`/`'1'` byte for bit `i` of `x`.
pub open spec fn bit_byte(x: u8, i: u8) -> u8 {
    (48u8 + ((x >> i) & 1u8)) as u8
}

/// FNV-1a of the eight bytes spelling `x` in binary, most significant bit first.
pub open spec fn spelled_hash(x: u8) -> u32 {
    fnv_step(
        fnv_step(
            fnv_step(
                fnv_step(
                    fnv_step(
                        fnv_step(fnv_step(fnv_step(fnv_offset(), bit_byte(x, 7)), bit_byte(x, 6)), bit_byte(x, 5)),
                        bit_byte(x, 4),
                    ),
                    bit_byte(x, 3),
                ),
                bit_byte(x, 2),
            ),
            bit_byte(x, 1),
        ),
        bit_byte(x, 0),
    )
}

/// Each opcode's binary spelling hashes to its own key, and no other byte's spelling does.
proof fn lemma_spelled_keys()
    by (bit_vector)
    ensures
        forall|x: u8| #[trigger] spelled_hash(x) == 0xff37de5u32 <==> x == 0x0u8,
        forall|x: u8| #[trigger] spelled_hash(x) == 0xef37c52u32 <==> x == 0x1u8,
        forall|x: u8| #[trigger] spelled_hash(x) == 0x9f135dcu32 <==> x == 0x2u8,
        forall|x: u8| #[trigger] spelled_hash(x) == 0xaf1376fu32 <==> x == 0x3u8,
        forall|x: u8| #[trigger] spelled_hash(x) == 0x58b158aau32 <==> x == 0x40u8,
        forall|x: u8| #[trigger] spelled_hash(x) == 0x59b15a3du32 <==> x == 0x41u8,
        forall|x: u8| #[trigger] spelled_hash(x) == 0x3eb36e53u32 <==> x == 0x42u8,
        forall|x: u8| #[trigger] spelled_hash(x) == 0x3db36cc0u32 <==> x == 0x43u8,
        forall|x: u8| #[trigger] spelled_hash(x) == 0xb7488c75u32 <==> x == 0x44u8,
        forall|x: u8| #[trigger] spelled_hash(x) == 0xb6488ae2u32 <==> x == 0x45u8,
        forall|x: u8| #[trigger] spelled_hash(x) == 0xb146446cu32 <==> x == 0x46u8,
        forall|x: u8| #[trigger] spelled_hash(x) == 0xb24645ffu32 <==> x == 0x47u8,
        forall|x: u8| #[trigger] spelled_hash(x) == 0xcf80447bu32 <==> x == 0x48u8,
        forall|x: u8| #[trigger] spelled_hash(x) == 0xce8042e8u32 <==> x == 0x49u8,
        forall|x: u8| #[trigger] spelled_hash(x) == 0x497d32f2u32 <==> x == 0x4au8,
        forall|x: u8| #[trigger] spelled_hash(x) == 0x4a7d3485u32 <==> x == 0x4bu8,
        forall|x: u8| #[trigger] spelled_hash(x) == 0x4faba9d0u32 <==> x == 0x4cu8,
        forall|x: u8| #[trigger] spelled_hash(x) == 0xe7d8c7c4u32 <==> x == 0x80u8,
        forall|x: u8| #[trigger] spelled_hash(x) == 0xe8d8c957u32 <==> x == 0x81u8,
        forall|x: u8| #[trigger] spelled_hash(x) == 0xeddb0fcdu32 <==> x == 0x82u8,
        forall|x: u8| #[trigger] spelled_hash(x) == 0xecdb0e3au32 <==> x == 0x83u8,
        forall|x: u8| #[trigger] spelled_hash(x) == 0x466ffb8fu32 <==> x == 0x84u8,
        forall|x: u8| #[trigger] spelled_hash(x) == 0x456ff9fcu32 <==> x == 0x85u8,
        forall|x: u8| #[trigger] spelled_hash(x) == 0x416db519u32 <==> x == 0x87u8,
        forall|x: u8| #[trigger] spelled_hash(x) == 0x7b2ecfd5u32 <==> x == 0x88u8,
{
}

/// Bit `i` of a byte, as shift-and-mask and as division.
proof fn lemma_bits_as_division(x: u8)
    by (bit_vector)
    ensures
        (x >> 7u8) & 1u8 == (x / 128) % 2,
        (x >> 6u8) & 1u8 == (x / 64) % 2,
        (x >> 5u8) & 1u8 == (x / 32) % 2,
        (x >> 4u8) & 1u8 == (x / 16) % 2,
        (x >> 3u8) & 1u8 == (x / 8) % 2,
        (x >> 2u8) & 1u8 == (x / 4) % 2,
        (x >> 1u8) & 1u8 == (x / 2) % 2,
        (x >> 0u8) & 1u8 == x % 2,
{
}

/// The table key of a byte is the FNV-1a hash of the eight bytes spelling it.
proof fn lemma_key_is_spelled_hash(x: u8)
    ensures
        opcode_key(x) == spelled_hash(x),
{
    let bits = bits_msb(x as nat, 8);
    lemma_bits_msb_shape(x as nat, 8);
    assert(vstd::utf8::is_ascii_chars(bits)) by {
        assert forall|i: int| 0 <= i < bits.len() implies '\0' <= #[trigger] bits[i] <= '\u{7f}' by {
            assert(bits[i] == '0' || bits[i] == '1');
        }
    }
    vstd::utf8::is_ascii_chars_encode_utf8(bits);
    let bytes = vstd::utf8::encode_utf8(bits);
    lemma_bits_as_division(x);
    vstd::arithmetic::power2::lemma2_to64();
    crate::bytestr::lemma_bits_msb_suffix(x as nat, 8, 0);
    crate::bytestr::lemma_bits_msb_suffix(x as nat, 8, 1);
    crate::bytestr::lemma_bits_msb_suffix(x as nat, 8, 2);
    crate::bytestr::lemma_bits_msb_suffix(x as nat, 8, 3);
    crate::bytestr::lemma_bits_msb_suffix(x as nat, 8, 4);
    crate::bytestr::lemma_bits_msb_suffix(x as nat, 8, 5);
    crate::bytestr::lemma_bits_msb_suffix(x as nat, 8, 6);
    crate::bytestr::lemma_bits_msb_suffix(x as nat, 8, 7);
    let spelled = seq![
        bit_byte(x, 7), bit_byte(x, 6), bit_byte(x, 5), bit_byte(x, 4),
        bit_byte(x, 3), bit_byte(x, 2), bit_byte(x, 1), bit_byte(x, 0),
    ];
    assert forall|k: int| 0 <= k < 8 implies #[trigger] bytes[k] == spelled[k] by {
        assert(bytes[k] == bits[k] as u8);
    }
    assert(bytes =~= spelled);
    reveal_with_fuel(fnv1a, 9);
    assert(spelled.drop_last() =~= spelled.take(7));
    assert(spelled.take(7).drop_last() =~= spelled.take(6));
    assert(spelled.take(6).drop_last() =~= spelled.take(5));
    assert(spelled.take(5).drop_last() =~= spelled.take(4));
    assert(spelled.take(4).drop_last() =~= spelled.take(3));
    assert(spelled.take(3).drop_last() =~= spelled.take(2));
    assert(spelled.take(2).drop_last() =~= spelled.take(1));
    assert(spelled.take(1).drop_last() =~= Seq::<u8>::empty());
}

/// The instruction each opcode byte names in the instruction set, if any.
pub open spec fn isa_opcode(x: u8) -> Option<Mnemonic> {
    if x == 0x0 {
        Some(Mnemonic::Noperation)
    } else if x == 0x1 {
        Some(Mnemonic::Halt)
    } else if x == 0x2 {
        Some(Mnemonic::Return)
    } else if x == 0x3 {
        Some(Mnemonic::Clrflags)
    } else if x == 0x40 {
        Some(Mnemonic::Add)
    } else if x == 0x41 {
        Some(Mnemonic::Sub)
    } else if x == 0x42 {
        Some(Mnemonic::Div)
    } else if x == 0x43 {
        Some(Mnemonic::Multi)
    } else if x == 0x44 {
        Some(Mnemonic::Or)
    } else if x == 0x45 {
        Some(Mnemonic::And)
    } else if x == 0x46 {
        Some(Mnemonic::Eor)
    } else if x == 0x47 {
        Some(Mnemonic::Not)
    } else if x == 0x48 {
        Some(Mnemonic::Move)
    } else if x == 0x49 {
        Some(Mnemonic::Moveaclr)
    } else if x == 0x4a {
        Some(Mnemonic::Push)
    } else if x == 0x4b {
        Some(Mnemonic::Pop)
    } else if x == 0x4c {
        Some(Mnemonic::Int)
    } else if x == 0x80 {
        Some(Mnemonic::Loadimm)
    } else if x == 0x81 {
        Some(Mnemonic::Jmp)
    } else if x == 0x82 {
        Some(Mnemonic::Jmpif0)
    } else if x == 0x83 {
        Some(Mnemonic::Jmpife0)
    } else if x == 0x84 {
        Some(Mnemonic::Call)
    } else if x == 0x85 {
        Some(Mnemonic::Jmpifcrry)
    } else if x == 0x87 {
        Some(Mnemonic::Load)
    } else if x == 0x88 {
        Some(Mnemonic::Store)
    } else {
        None
    }
}

/// Every byte spelled in binary decodes to the instruction whose opcode it is, and to none
/// when it is no opcode.
pub proof fn law_decode_spelled_byte(x: u8)
    ensures
        decode(opcode_key(x)) == isa_opcode(x),
{
    lemma_spelled_keys();
    lemma_key_is_spelled_hash(x);
    lemma_key_is_spelled_hash(0x0);
    lemma_key_is_spelled_hash(0x1);
    lemma_key_is_spelled_hash(0x2);
    lemma_key_is_spelled_hash(0x3);
    lemma_key_is_spelled_hash(0x40);
    lemma_key_is_spelled_hash(0x41);
    lemma_key_is_spelled_hash(0x42);
    lemma_key_is_spelled_hash(0x43);
    lemma_key_is_spelled_hash(0x44);
    lemma_key_is_spelled_hash(0x45);
    lemma_key_is_spelled_hash(0x46);
    lemma_key_is_spelled_hash(0x47);
    lemma_key_is_spelled_hash(0x48);
    lemma_key_is_spelled_hash(0x49);
    lemma_key_is_spelled_hash(0x4a);
    lemma_key_is_spelled_hash(0x4b);
    lemma_key_is_spelled_hash(0x4c);
    lemma_key_is_spelled_hash(0x80);
    lemma_key_is_spelled_hash(0x81);
    lemma_key_is_spelled_hash(0x82);
    lemma_key_is_spelled_hash(0x83);
    lemma_key_is_spelled_hash(0x84);
    lemma_key_is_spelled_hash(0x85);
    lemma_key_is_spelled_hash(0x87);
    lemma_key_is_spelled_hash(0x88);
}

} // verus!
