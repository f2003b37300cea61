//! The textual register dump.

use vstd::prelude::*;
use crate::emulator::{Emulator, REGISTERS_COUNT};
use crate::machine::Machine;

verus! {

/// The lower-case hexadecimal digit for `digit`, which is below 16.
pub open spec fn hex_char(digit: int) -> char {
    if digit == 0 {
        '0'
    } else if digit == 1 {
        '1'
    } else if digit == 2 {
        '2'
    } else if digit == 3 {
        '3'
    } else if digit == 4 {
        '4'
    } else if digit == 5 {
        '5'
    } else if digit == 6 {
        '6'
    } else if digit == 7 {
        '7'
    } else if digit == 8 {
        '8'
    } else if digit == 9 {
        '9'
    } else if digit == 10 {
        'a'
    } else if digit == 11 {
        'b'
    } else if digit == 12 {
        'c'
    } else if digit == 13 {
        'd'
    } else if digit == 14 {
        'e'
    } else {
        'f'
    }
}

/// `value` in hexadecimal, most significant digit first, padded with zeros
/// on the left to `width` digits where it has fewer.
pub open spec fn hex(value: nat, width: nat) -> Seq<char>
    decreases value, width,
{
    if value == 0 && width == 0 {
        Seq::empty()
    } else {
        hex(value / 16, if width == 0 { 0 } else { (width - 1) as nat }).push(
            hex_char((value % 16) as int),
        )
    }
}

/// The three-letter name of register `index`.
pub open spec fn register_name(index: int) -> Seq<char> {
    if index == 0 {
        "EAX"@
    } else if index == 1 {
        "ECX"@
    } else if index == 2 {
        "EDX"@
    } else if index == 3 {
        "EBX"@
    } else if index == 4 {
        "ESP"@
    } else if index == 5 {
        "EBP"@
    } else if index == 6 {
        "ESI"@
    } else {
        "EDI"@
    }
}

/// One line of the dump: the name, the value in at least eight hexadecimal
/// digits, and the name again in parentheses.
pub open spec fn dump_line(name: Seq<char>, value: nat) -> Seq<char> {
    name + " = "@ + hex(value, 8) + " ("@ + name + ")\n"@
}

/// The dump lines of the first `count` registers.
pub open spec fn register_lines(m: Machine, count: int) -> Seq<char>
    decreases count,
{
    if count <= 0 {
        Seq::empty()
    } else {
        register_lines(m, count - 1) + dump_line(
            register_name(count - 1),
            m.registers[count - 1] as nat,
        )
    }
}

/// The whole dump: a line for each register in encoding order, then a line
/// for the instruction pointer under the name `EIP`.
pub open spec fn dump_text(m: Machine) -> Seq<char> {
    register_lines(m, 8) + dump_line("EIP"@, m.eip)
}

/// The hexadecimal digit for `digit`, as a string of one character.
fn hex_digit(digit: u8) -> (text: &'static str)
    requires
        digit < 16,
    ensures
        text@ == seq![hex_char(digit as int)],
{
    proof {
        reveal_strlit("0");
        reveal_strlit("1");
        reveal_strlit("2");
        reveal_strlit("3");
        reveal_strlit("4");
        reveal_strlit("5");
        reveal_strlit("6");
        reveal_strlit("7");
        reveal_strlit("8");
        reveal_strlit("9");
        reveal_strlit("a");
        reveal_strlit("b");
        reveal_strlit("c");
        reveal_strlit("d");
        reveal_strlit("e");
        reveal_strlit("f");
    }
    let text = match digit {
        0 => "0",
        1 => "1",
        2 => "2",
        3 => "3",
        4 => "4",
        5 => "5",
        6 => "6",
        7 => "7",
        8 => "8",
        9 => "9",
        10 => "a",
        11 => "b",
        12 => "c",
        13 => "d",
        14 => "e",
        _ => "f",
    };
    assert(text@ =~= seq![hex_char(digit as int)]);
    text
}

/// The name of register `index`.
pub fn name_of_register(index: usize) -> (name: &'static str)
    requires
        index < REGISTERS_COUNT,
    ensures
        name@ == register_name(index as int),
{
    match index {
        0 => "EAX",
        1 => "ECX",
        2 => "EDX",
        3 => "EBX",
        4 => "ESP",
        5 => "EBP",
        6 => "ESI",
        _ => "EDI",
    }
}

/// Appends `value` to `text` in hexadecimal, in at least eight digits.
fn append_hex(text: &mut String, value: u64)
    ensures
        final(text)@ == old(text)@ + hex(value as nat, 8),
{
    let ghost before = text@;
    let mut place: u32 = 16;
    assert(value >> 64u32 == 0) by (bit_vector);
    assert(hex(0, 0) =~= Seq::<char>::empty());
    while place > 0
        invariant
            place <= 16,
            text@ == before + hex(
                (value >> (4 * place) as u32) as nat,
                if place < 8 { (8 - place) as nat } else { 0 },
            ),
        decreases place,
    {
        let ghost upper = value >> (4 * place) as u32;
        place = place - 1;
        let rest: u64 = value >> (4 * place);
        assert(rest / 16 == upper && (rest & 0xF) == rest % 16) by (bit_vector)
            requires
                place < 16,
                rest == value >> (4 * place) as u32,
                upper == value >> (4 * (place + 1)) as u32,
        ;
        if rest != 0 || place < 8 {
            let digit = hex_digit((rest & 0xF) as u8);
            text.append(digit);
            assert(text@ =~= before + hex(
                rest as nat,
                if place < 8 { (8 - place) as nat } else { 0 },
            ));
        }
    }
    assert(value >> 0u32 == value) by (bit_vector);
}

/// Appends one line of the dump to `text`.
fn append_line(text: &mut String, name: &str, value: u64)
    ensures
        final(text)@ == old(text)@ + dump_line(name@, value as nat),
{
    text.append(name);
    text.append(" = ");
    append_hex(text, value);
    text.append(" (");
    text.append(name);
    text.append(")\n");
    assert(text@ =~= old(text)@ + dump_line(name@, value as nat));
}

impl Emulator {
    /// The register dump as text: for each register, in encoding order, the
    /// line `NAME = xxxxxxxx (NAME)` with the value in eight lower-case
    /// hexadecimal digits, then the same line for the instruction pointer
    /// under the name `EIP`.  Every line ends in a line feed.
    pub fn dump_registers(&self) -> (text: String)
        ensures
            text@ == dump_text(self@),
    {
        let mut text = String::new();
        let mut index: usize = 0;
        while index < REGISTERS_COUNT
            invariant
                index <= REGISTERS_COUNT,
                text@ == register_lines(self@, index as int),
            decreases REGISTERS_COUNT - index,
        {
            append_line(&mut text, name_of_register(index), self.registers[index] as u64);
            index = index + 1;
        }
        append_line(&mut text, "EIP", self.eip as u64);
        text
    }
}

} // verus!
