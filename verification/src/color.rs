//! Colours: a red, a green and a blue byte, packed into 24 bits.

use crate::err::Error;
use crate::hex;
use vstd::prelude::*;
use vstd::string::*;

verus! {

/// A colour of 24 bits.
#[derive(Copy, Clone, Debug, PartialEq, Eq, Structural)]
pub struct Color {
    pub r: u8,
    pub g: u8,
    pub b: u8,
}

impl Color {
    /// The colour in one number: red in bits 16 to 23, green in bits 8 to 15,
    /// blue in bits 0 to 7.
    pub open spec fn spec_pack(self) -> int {
        self.r * 0x1_0000 + self.g * 0x100 + self.b
    }

    /// The colour that the low 24 bits of `i` hold; the bits above them do
    /// not count.
    pub open spec fn spec_unpack(i: int) -> Color {
        Color {
            r: ((i / 0x1_0000) % 0x100) as u8,
            g: ((i / 0x100) % 0x100) as u8,
            b: (i % 0x100) as u8,
        }
    }

    /// Whether `s` is a colour as text: `0x` and six hexadecimal digits.
    pub open spec fn is_text(s: Seq<char>) -> bool {
        &&& s.len() == 8
        &&& s[0] == '0'
        &&& s[1] == 'x'
        &&& hex::is_digits(s.subrange(2, 8))
    }

    /// Takes the colour out of the low 24 bits of `i`.
    pub fn unpack(i: i32) -> (c: Color)
        ensures
            c == Color::spec_unpack(i as int),
    {
        let u: u32 = #[verifier::truncate] (i as u32);
        proof {
            lemma_low_bytes(i);
        }
        let r: u8 = ((u >> 16) & 0xff) as u8;
        let g: u8 = ((u >> 8) & 0xff) as u8;
        let b: u8 = (u & 0xff) as u8;
        Color { r, g, b }
    }

    /// Reads a colour from text: `0x` and exactly six hexadecimal digits, of
    /// either case, two each for red, green and blue.
    ///
    /// Any other text is refused with [`Error::ParseError`]: another length,
    /// another prefix, a sign, or a character that is no hexadecimal digit.
    pub fn from_str(s: &str) -> (r: Result<Color, Error>)
        ensures
            r is Ok <==> Color::is_text(s@),
            r is Ok ==> r->Ok_0 == Color::spec_unpack(hex::number(s@.subrange(2, 8)) as int),
            r is Err ==> r->Err_0 == Error::ParseError,
    {
        if s.unicode_len() != 8 {
            return Err(Error::ParseError);
        }
        if s.get_char(0) != '0' || s.get_char(1) != 'x' {
            return Err(Error::ParseError);
        }
        proof {
            hex::lemma_number_bound(s@.subrange(2, 8));
            hex::lemma_pow16_values();
        }
        match hex::read(s, 2) {
            Some(v) => Ok(Color::unpack(v as i32)),
            None => Err(Error::ParseError),
        }
    }

    /// The colour as text: the packed colour in hexadecimal digits of lower
    /// case, without a prefix and without padding, and the end of the line.
    pub open spec fn spec_text(self) -> Seq<char> {
        hex::short_text(self.spec_pack() as nat).push('\n')
    }

    /// The colour as text: see [`Color::spec_text`].
    pub fn to_string(&self) -> (s: String)
        ensures
            s@ == self.spec_text(),
    {
        let mut s = String::new();
        hex::write_short(&mut s, self.pack() as u64);
        let ghost digits = s@;
        s.append("\n");
        proof {
            reveal_strlit("\n");
            assert(digits + "\n"@ =~= digits.push('\n'));
            assert(Seq::<char>::empty() + hex::short_text(self.spec_pack() as nat) =~= hex::short_text(
                self.spec_pack() as nat,
            ));
        }
        s
    }

    /// Packs the colour into the low 24 bits of a number.
    pub fn pack(&self) -> (p: i32)
        ensures
            p == self.spec_pack(),
            0 <= p <= 0xff_ffff,
    {
        let r = self.r;
        let g = self.g;
        let b = self.b;
        assert((((r as i32) << 16) | ((g as i32) << 8) | (b as i32)) == r * 0x1_0000 + g * 0x100
            + b) by (bit_vector);
        ((r as i32) << 16) | ((g as i32) << 8) | (b as i32)
    }
}

impl std::str::FromStr for Color {
    type Err = Error;

    /// Reads a colour from text, as [`Color::from_str`] does.
    fn from_str(s: &str) -> (r: Result<Color, Error>)
        ensures
            r is Ok <==> Color::is_text(s@),
            r is Ok ==> r->Ok_0 == Color::spec_unpack(hex::number(s@.subrange(2, 8)) as int),
            r is Err ==> r->Err_0 == Error::ParseError,
    {
        Color::from_str(s)
    }
}

impl From<i32> for Color {
    fn from(i: i32) -> (c: Color) {
        Color::unpack(i)
    }
}

impl vstd::std_specs::convert::FromSpecImpl<i32> for Color {
    open spec fn obeys_from_spec() -> bool {
        true
    }

    open spec fn from_spec(i: i32) -> Color {
        Color::spec_unpack(i as int)
    }
}

impl From<Color> for i32 {
    fn from(c: Color) -> (p: i32) {
        c.pack()
    }
}

impl vstd::std_specs::convert::FromSpecImpl<Color> for i32 {
    open spec fn obeys_from_spec() -> bool {
        true
    }

    open spec fn from_spec(c: Color) -> i32 {
        c.spec_pack() as i32
    }
}

/// Packing a colour and unpacking the number gives the colour back.
pub proof fn lemma_unpack_pack(c: Color)
    ensures
        0 <= c.spec_pack() <= 0xff_ffff,
        Color::spec_unpack(c.spec_pack()) == c,
{
}

/// Unpacking a number and packing the colour gives the low 24 bits of the
/// number back: on numbers of 24 bits, unpacking and packing are inverse to
/// each other.
pub proof fn lemma_pack_unpack(i: int)
    ensures
        Color::spec_unpack(i).spec_pack() == i % 0x100_0000,
        0 <= i <= 0xff_ffff ==> Color::spec_unpack(i).spec_pack() == i,
{
    let b = i % 0x100;
    let g = (i / 0x100) % 0x100;
    let r = (i / 0x1_0000) % 0x100;
    let top = (i / 0x1_0000) / 0x100;
    assert((i / 0x100) / 0x100 == i / 0x1_0000);
    assert(i == top * 0x100_0000 + (r * 0x1_0000 + g * 0x100 + b));
    vstd::arithmetic::div_mod::lemma_fundamental_div_mod_converse(
        i,
        0x100_0000,
        top,
        r * 0x1_0000 + g * 0x100 + b,
    );
}

/// The digits that a colour is written in read back as the packed colour.
pub proof fn lemma_text_reads_back(c: Color)
    ensures
        c.spec_text().len() >= 2,
        c.spec_text().last() == '\n',
        hex::is_lower_digits(c.spec_text().drop_last()),
        hex::number(c.spec_text().drop_last()) == c.spec_pack(),
{
    let digits = hex::short_text(c.spec_pack() as nat);
    hex::lemma_short_text(c.spec_pack() as nat);
    assert(c.spec_text().drop_last() =~= digits);
}

/// A colour read from text packs to the number that its six digits denote.
pub proof fn lemma_text_packs_to_number(s: Seq<char>)
    requires
        Color::is_text(s),
    ensures
        Color::spec_unpack(hex::number(s.subrange(2, 8)) as int).spec_pack() == hex::number(
            s.subrange(2, 8),
        ),
        hex::number(s.subrange(2, 8)) <= 0xff_ffff,
{
    hex::lemma_number_bound(s.subrange(2, 8));
    hex::lemma_pow16_values();
    lemma_pack_unpack(hex::number(s.subrange(2, 8)) as int);
}

/// The three low bytes of a number, taken by shifting and masking its 32
/// bits, are those that division takes.
proof fn lemma_low_bytes(i: i32)
    ensures
        (((i as u32) >> 16) & 0xff) == (i as int / 0x1_0000) % 0x100,
        (((i as u32) >> 8) & 0xff) == (i as int / 0x100) % 0x100,
        ((i as u32) & 0xff) == (i as int) % 0x100,
{
    let u = i as u32;
    assert(i >= 0 ==> u == i) by (bit_vector)
        requires
            u == i as u32,
    ;
    assert(i < 0 ==> u == i + 0x1_0000_0000) by (bit_vector)
        requires
            u == i as u32,
    ;
    assert(((u >> 16) & 0xff) == (u / 0x1_0000) % 0x100) by (bit_vector);
    assert(((u >> 8) & 0xff) == (u / 0x100) % 0x100) by (bit_vector);
    assert((u & 0xff) == u % 0x100) by (bit_vector);
    lemma_bytes_of_wrapped(i as int, u as int);
}

/// Adding two to the power 32 to a number changes none of its three low
/// bytes.
proof fn lemma_bytes_of_wrapped(k: int, v: int)
    requires
        v == k || v == k + 0x1_0000_0000,
    ensures
        (v / 0x1_0000) % 0x100 == (k / 0x1_0000) % 0x100,
        (v / 0x100) % 0x100 == (k / 0x100) % 0x100,
        v % 0x100 == k % 0x100,
{
    if v != k {
        assert(v / 0x1_0000 == k / 0x1_0000 + 0x1_0000);
        assert(v / 0x100 == k / 0x100 + 0x100_0000);
    }
}

} // verus!
