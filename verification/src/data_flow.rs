//! Byte-level data movement and hexadecimal rendering.
//!
//! The traits describe the two directions of traffic on the bus; the three
//! wrapper types carry bytes, addresses and byte ranges to the terminal
//! front end as upper-case hexadecimal text.

use vstd::prelude::*;
use vstd::slice::slice_to_vec;

verus! {

/// The character for one hexadecimal nibble, upper case.
pub open spec fn nibble_char(n: u8) -> char {
    match n {
        0 => '0',
        1 => '1',
        2 => '2',
        3 => '3',
        4 => '4',
        5 => '5',
        6 => '6',
        7 => '7',
        8 => '8',
        9 => '9',
        10 => 'A',
        11 => 'B',
        12 => 'C',
        13 => 'D',
        14 => 'E',
        15 => 'F',
        _ => '0',
    }
}

/// The two characters that print one byte: high nibble first.
pub open spec fn byte_chars(b: u8) -> Seq<char> {
    seq![nibble_char(b / 16), nibble_char(b % 16)]
}

/// The four characters that print one 16-bit address, high nibble first.
pub open spec fn addr_chars(a: u16) -> Seq<char> {
    seq![
        nibble_char((a / 0x1000) as u8),
        nibble_char(((a / 0x100) % 16) as u8),
        nibble_char(((a / 16) % 16) as u8),
        nibble_char((a % 16) as u8),
    ]
}

/// The text for a row of bytes: each byte as two hex digits, then two spaces.
pub open spec fn hex_row_chars(s: Seq<u8>) -> Seq<char>
    decreases s.len(),
{
    if s.len() == 0 {
        Seq::empty()
    } else {
        hex_row_chars(s.drop_last()) + byte_chars(s.last()) + "  "@
    }
}

/// A one-character string slice for one hexadecimal nibble.
fn nibble_str(n: u8) -> (r: &'static str)
    requires
        n < 16,
    ensures
        r@ == seq![nibble_char(n)],
{
    match n {
        0 => {
            proof {
                reveal_strlit("0");
            }
            assert("0"@ =~= seq![nibble_char(0)]);
            "0"
        },
        1 => {
            proof {
                reveal_strlit("1");
            }
            assert("1"@ =~= seq![nibble_char(1)]);
            "1"
        },
        2 => {
            proof {
                reveal_strlit("2");
            }
            assert("2"@ =~= seq![nibble_char(2)]);
            "2"
        },
        3 => {
            proof {
                reveal_strlit("3");
            }
            assert("3"@ =~= seq![nibble_char(3)]);
            "3"
        },
        4 => {
            proof {
                reveal_strlit("4");
            }
            assert("4"@ =~= seq![nibble_char(4)]);
            "4"
        },
        5 => {
            proof {
                reveal_strlit("5");
            }
            assert("5"@ =~= seq![nibble_char(5)]);
            "5"
        },
        6 => {
            proof {
                reveal_strlit("6");
            }
            assert("6"@ =~= seq![nibble_char(6)]);
            "6"
        },
        7 => {
            proof {
                reveal_strlit("7");
            }
            assert("7"@ =~= seq![nibble_char(7)]);
            "7"
        },
        8 => {
            proof {
                reveal_strlit("8");
            }
            assert("8"@ =~= seq![nibble_char(8)]);
            "8"
        },
        9 => {
            proof {
                reveal_strlit("9");
            }
            assert("9"@ =~= seq![nibble_char(9)]);
            "9"
        },
        10 => {
            proof {
                reveal_strlit("A");
            }
            assert("A"@ =~= seq![nibble_char(10)]);
            "A"
        },
        11 => {
            proof {
                reveal_strlit("B");
            }
            assert("B"@ =~= seq![nibble_char(11)]);
            "B"
        },
        12 => {
            proof {
                reveal_strlit("C");
            }
            assert("C"@ =~= seq![nibble_char(12)]);
            "C"
        },
        13 => {
            proof {
                reveal_strlit("D");
            }
            assert("D"@ =~= seq![nibble_char(13)]);
            "D"
        },
        14 => {
            proof {
                reveal_strlit("E");
            }
            assert("E"@ =~= seq![nibble_char(14)]);
            "E"
        },
        _ => {
            proof {
                reveal_strlit("F");
            }
            assert("F"@ =~= seq![nibble_char(15)]);
            "F"
        },
    }
}

/// A row of bytes destined for a memory panel, rendered as hex text.
pub struct HexSlice {
    data: Vec<u8>,
}

impl HexSlice {
    pub closed spec fn view(&self) -> Seq<u8> {
        self.data@
    }

    pub fn new(data: &[u8]) -> (r: HexSlice)
        ensures
            r@ == data@,
    {
        HexSlice { data: slice_to_vec(data) }
    }

    /// How many bytes the row holds.
    pub fn len(&self) -> (r: usize)
        ensures
            r == self@.len(),
    {
        self.data.len()
    }

    /// The byte at one position of the row.
    pub fn get(&self, i: usize) -> (r: u8)
        requires
            i < self@.len(),
        ensures
            r == self@[i as int],
    {
        self.data[i]
    }

    /// Renders the row: two hex digits and two spaces for each byte.
    pub fn to_text(&self) -> (r: String)
        ensures
            r@ == hex_row_chars(self@),
    {
        let mut out = String::new();
        let mut i: usize = 0;
        assert(self@.take(0) =~= Seq::<u8>::empty());
        while i < self.data.len()
            invariant
                i <= self@.len(),
                out@ == hex_row_chars(self@.take(i as int)),
            decreases self@.len() - i,
        {
            let b = self.data[i];
            out.append(nibble_str(b / 16));
            out.append(nibble_str(b % 16));
            out.append("  ");
            proof {
                let pre = self@.take(i + 1);
                assert(pre.drop_last() =~= self@.take(i as int));
                assert(pre.last() == b);
                assert(out@ =~= hex_row_chars(self@.take(i + 1)));
            }
            i = i + 1;
        }
        proof {
            assert(self@.take(self@.len() as int) =~= self@);
        }
        out
    }
}

/// A 16-bit address rendered as four hex digits.
pub struct MemoryAddress {
    addr: u16,
}

impl MemoryAddress {
    pub closed spec fn view(&self) -> u16 {
        self.addr
    }

    pub fn new(addr: u16) -> (r: MemoryAddress)
        ensures
            r@ == addr,
    {
        MemoryAddress { addr }
    }

    /// Renders the address, high nibble first.
    pub fn to_text(&self) -> (r: String)
        ensures
            r@ == addr_chars(self@),
    {
        let a = self.addr;
        let mut out = String::new();
        out.append(nibble_str((a / 0x1000) as u8));
        out.append(nibble_str(((a / 0x100) % 16) as u8));
        out.append(nibble_str(((a / 16) % 16) as u8));
        out.append(nibble_str((a % 16) as u8));
        proof {
            assert(out@ =~= addr_chars(self@));
        }
        out
    }
}

/// A byte rendered as two hex digits.
pub struct HexByte {
    byte: u8,
}

impl HexByte {
    pub closed spec fn view(&self) -> u8 {
        self.byte
    }

    pub fn new(byte: u8) -> (r: HexByte)
        ensures
            r@ == byte,
    {
        HexByte { byte }
    }

    /// Renders the byte, high nibble first.
    pub fn to_text(&self) -> (r: String)
        ensures
            r@ == byte_chars(self@),
    {
        let mut out = String::new();
        out.append(nibble_str(self.byte / 16));
        out.append(nibble_str(self.byte % 16));
        proof {
            assert(out@ =~= byte_chars(self@));
        }
        out
    }
}

/// The three-letter label of a status flag, by its letter.
pub open spec fn spec_expand_flag(flag: char) -> Seq<char> {
    match flag {
        'N' => "NEG"@,
        'V' => "OVR"@,
        'U' => "-U-"@,
        'B' => "BRK"@,
        'D' => "DEC"@,
        'I' => "INT"@,
        'Z' => "ZR0"@,
        'C' => "CAR"@,
        _ => Seq::empty(),
    }
}

/// The three-letter label under which the terminal front end lists a
/// status flag; empty for any other character.
pub fn expand_flag(flag: char) -> (r: String)
    ensures
        r@ == spec_expand_flag(flag),
{
    match flag {
        'N' => String::from_str("NEG"),
        'V' => String::from_str("OVR"),
        'U' => String::from_str("-U-"),
        'B' => String::from_str("BRK"),
        'D' => String::from_str("DEC"),
        'I' => String::from_str("INT"),
        'Z' => String::from_str("ZR0"),
        'C' => String::from_str("CAR"),
        _ => String::new(),
    }
}

/// Read one byte at a 16-bit address.
pub trait Read {
    /// When a read is allowed.
    spec fn read_req(&self) -> bool;

    fn read_addr(&self, addr: u16) -> u8
        requires
            self.read_req(),
    ;
}

/// Write one byte at a 16-bit address.
pub trait Write {
    /// When a write is allowed.
    spec fn write_req(&self) -> bool;

    fn write_addr(&mut self, addr: u16, data: u8)
        requires
            old(self).write_req(),
        ensures
            final(self).write_req(),
    ;
}

/// Read and write bytes at 16-bit addresses.
pub trait ReadWrite {
    /// When an access is allowed.
    spec fn access_req(&self) -> bool;

    fn read_addr(&self, addr: u16) -> u8
        requires
            self.access_req(),
    ;

    fn write_addr(&mut self, addr: u16, data: u8)
        requires
            old(self).access_req(),
        ensures
            final(self).access_req(),
    ;
}

/// Read an inclusive range of bytes for rendering.
pub trait ReadRange {
    /// When a range read is allowed.
    spec fn range_req(&self, addr_start: u16, addr_end: u16) -> bool;

    fn read_range(&self, addr_start: u16, addr_end: u16) -> HexSlice
        requires
            self.range_req(addr_start, addr_end),
    ;
}

} // verus!
