//! Object identifiers: 12-byte values that travel on the wire as
//! 24-character hexadecimal strings.
//!
//! The storage layer assigns each record an identifier at creation.
//! On the wire an identifier is its canonical (lower-case) hex
//! rendering; an incoming path parameter is accepted exactly when it
//! is 24 hexadecimal characters (either case).

use vstd::prelude::*;

verus! {

/// Numeric value of a hexadecimal digit character; 255 marks a
/// character that is not a hexadecimal digit.
pub open spec fn hex_val(c: char) -> u8 {
    if c == '0' {
        0
    } else if c == '1' {
        1
    } else if c == '2' {
        2
    } else if c == '3' {
        3
    } else if c == '4' {
        4
    } else if c == '5' {
        5
    } else if c == '6' {
        6
    } else if c == '7' {
        7
    } else if c == '8' {
        8
    } else if c == '9' {
        9
    } else if c == 'a' || c == 'A' {
        10
    } else if c == 'b' || c == 'B' {
        11
    } else if c == 'c' || c == 'C' {
        12
    } else if c == 'd' || c == 'D' {
        13
    } else if c == 'e' || c == 'E' {
        14
    } else if c == 'f' || c == 'F' {
        15
    } else {
        255
    }
}

pub open spec fn is_hex_digit(c: char) -> bool {
    hex_val(c) != 255
}

/// Lower-case hexadecimal digit character for a value below 16.
pub open spec fn hex_char(v: u8) -> char {
    if v == 0 {
        '0'
    } else if v == 1 {
        '1'
    } else if v == 2 {
        '2'
    } else if v == 3 {
        '3'
    } else if v == 4 {
        '4'
    } else if v == 5 {
        '5'
    } else if v == 6 {
        '6'
    } else if v == 7 {
        '7'
    } else if v == 8 {
        '8'
    } else if v == 9 {
        '9'
    } else if v == 10 {
        'a'
    } else if v == 11 {
        'b'
    } else if v == 12 {
        'c'
    } else if v == 13 {
        'd'
    } else if v == 14 {
        'e'
    } else {
        'f'
    }
}

/// A digit character is canonical when it is what the library itself
/// prints: the lower-case rendering of its own value.
pub open spec fn is_lower_hex_digit(c: char) -> bool {
    is_hex_digit(c) && hex_char(hex_val(c)) == c
}

pub proof fn lemma_hex_char_round(v: u8)
    requires
        v < 16,
    ensures
        is_lower_hex_digit(hex_char(v)),
        hex_val(hex_char(v)) == v,
{
}

fn hex_val_exec(c: char) -> (v: u8)
    ensures
        v == hex_val(c),
{
    if c == '0' {
        0
    } else if c == '1' {
        1
    } else if c == '2' {
        2
    } else if c == '3' {
        3
    } else if c == '4' {
        4
    } else if c == '5' {
        5
    } else if c == '6' {
        6
    } else if c == '7' {
        7
    } else if c == '8' {
        8
    } else if c == '9' {
        9
    } else if c == 'a' || c == 'A' {
        10
    } else if c == 'b' || c == 'B' {
        11
    } else if c == 'c' || c == 'C' {
        12
    } else if c == 'd' || c == 'D' {
        13
    } else if c == 'e' || c == 'E' {
        14
    } else if c == 'f' || c == 'F' {
        15
    } else {
        255
    }
}

pub(crate) fn hex_char_exec(v: u8) -> (c: char)
    ensures
        c == hex_char(v),
{
    if v == 0 {
        '0'
    } else if v == 1 {
        '1'
    } else if v == 2 {
        '2'
    } else if v == 3 {
        '3'
    } else if v == 4 {
        '4'
    } else if v == 5 {
        '5'
    } else if v == 6 {
        '6'
    } else if v == 7 {
        '7'
    } else if v == 8 {
        '8'
    } else if v == 9 {
        '9'
    } else if v == 10 {
        'a'
    } else if v == 11 {
        'b'
    } else if v == 12 {
        'c'
    } else if v == 13 {
        'd'
    } else if v == 14 {
        'e'
    } else {
        'f'
    }
}

/// A well-formed wire identifier: exactly 24 hexadecimal characters.
pub open spec fn is_hex24(s: Seq<char>) -> bool {
    s.len() == 24 && (forall|i: int| 0 <= i < 24 ==> is_hex_digit(#[trigger] s[i]))
}

/// The bytes encoded by a hexadecimal string (two characters per byte,
/// high nibble first).
pub open spec fn bytes_of_hex(s: Seq<char>) -> Seq<u8> {
    Seq::new((s.len() / 2) as nat, |i: int| (hex_val(s[2 * i]) * 16 + hex_val(s[2 * i + 1])) as u8)
}

/// The canonical (lower-case) hexadecimal rendering of a byte string.
pub open spec fn hex_of_bytes(b: Seq<u8>) -> Seq<char> {
    Seq::new(
        b.len() * 2,
        |i: int|
            if i % 2 == 0 {
                hex_char((b[i / 2] / 16) as u8)
            } else {
                hex_char((b[i / 2] % 16) as u8)
            },
    )
}

/// Printing a byte string and reading the result back yields the same
/// bytes, and the printed form is a well-formed identifier.
pub proof fn lemma_bytes_to_hex_round(b: Seq<u8>)
    requires
        b.len() == 12,
    ensures
        is_hex24(hex_of_bytes(b)),
        bytes_of_hex(hex_of_bytes(b)) =~= b,
        forall|i: int| 0 <= i < 24 ==> is_lower_hex_digit(#[trigger] hex_of_bytes(b)[i]),
{
    let s = hex_of_bytes(b);
    assert forall|i: int| 0 <= i < 24 implies is_lower_hex_digit(#[trigger] s[i]) by {
        let j = i / 2;
        assert(b[j] / 16 < 16 && b[j] % 16 < 16);
        if i % 2 == 0 {
            lemma_hex_char_round((b[j] / 16) as u8);
        } else {
            lemma_hex_char_round((b[j] % 16) as u8);
        }
    }
    assert forall|j: int| 0 <= j < 12 implies bytes_of_hex(s)[j] == b[j] by {
        assert(b[j] / 16 < 16 && b[j] % 16 < 16);
        lemma_hex_char_round((b[j] / 16) as u8);
        lemma_hex_char_round((b[j] % 16) as u8);
        assert(s[2 * j] == hex_char((b[j] / 16) as u8));
        assert(s[2 * j + 1] == hex_char((b[j] % 16) as u8));
        assert(hex_val(s[2 * j]) * 16 + hex_val(s[2 * j + 1]) == (b[j] / 16) * 16 + b[j] % 16);
    }
}

/// Reading a canonical identifier string and printing the bytes back
/// yields the same string character for character.
pub proof fn lemma_hex_to_bytes_round(s: Seq<char>)
    requires
        s.len() == 24,
        forall|i: int| 0 <= i < 24 ==> is_lower_hex_digit(#[trigger] s[i]),
    ensures
        hex_of_bytes(bytes_of_hex(s)) =~= s,
{
    let b = bytes_of_hex(s);
    assert forall|i: int| 0 <= i < 24 implies hex_of_bytes(b)[i] == s[i] by {
        let j = i / 2;
        let hi = hex_val(s[2 * j]);
        let lo = hex_val(s[2 * j + 1]);
        assert(hi < 16 && lo < 16);
        assert(b[j] == (hi * 16 + lo) as u8);
        assert(b[j] / 16 == hi && b[j] % 16 == lo);
        if i % 2 == 0 {
            assert(i == 2 * j);
            assert(hex_of_bytes(b)[i] == hex_char(hi));
        } else {
            assert(i == 2 * j + 1);
            assert(hex_of_bytes(b)[i] == hex_char(lo));
        }
    }
}

/// The 12 bytes of the identifier assigned for creation number `n`:
/// four zero bytes followed by `n` in big-endian order.
pub open spec fn counter_bytes(n: u64) -> Seq<u8> {
    seq![
        0u8,
        0u8,
        0u8,
        0u8,
        (n >> 56) as u8,
        (n >> 48) as u8,
        (n >> 40) as u8,
        (n >> 32) as u8,
        (n >> 24) as u8,
        (n >> 16) as u8,
        (n >> 8) as u8,
        n as u8,
    ]
}

/// The creation number read back out of an identifier's bytes.
pub open spec fn counter_of(b: Seq<u8>) -> u64
    recommends
        b.len() == 12,
{
    ((b[4] as u64) << 56) | ((b[5] as u64) << 48) | ((b[6] as u64) << 40) | ((b[7] as u64) << 32)
        | ((b[8] as u64) << 24) | ((b[9] as u64) << 16) | ((b[10] as u64) << 8) | (b[11] as u64)
}

/// Identifiers generated from distinct creation numbers are distinct:
/// the creation number can be read back out of the bytes.
pub proof fn lemma_counter_round(n: u64)
    ensures
        counter_of(counter_bytes(n)) == n,
        counter_bytes(n).len() == 12,
{
    let b4 = (n >> 56) as u8;
    let b5 = (n >> 48) as u8;
    let b6 = (n >> 40) as u8;
    let b7 = (n >> 32) as u8;
    let b8 = (n >> 24) as u8;
    let b9 = (n >> 16) as u8;
    let b10 = (n >> 8) as u8;
    let b11 = n as u8;
    assert(((b4 as u64) << 56) | ((b5 as u64) << 48) | ((b6 as u64) << 40) | ((b7 as u64) << 32)
        | ((b8 as u64) << 24) | ((b9 as u64) << 16) | ((b10 as u64) << 8) | (b11 as u64) == n)
        by (bit_vector)
        requires
            b4 == (n >> 56) as u8,
            b5 == (n >> 48) as u8,
            b6 == (n >> 40) as u8,
            b7 == (n >> 32) as u8,
            b8 == (n >> 24) as u8,
            b9 == (n >> 16) as u8,
            b10 == (n >> 8) as u8,
            b11 == n as u8,
    ;
}

/// An object identifier: 12 bytes assigned by the storage layer.
pub struct ObjectId {
    bytes: Vec<u8>,
}

impl View for ObjectId {
    type V = Seq<u8>;

    closed spec fn view(&self) -> Seq<u8> {
        self.bytes@
    }
}

impl ObjectId {
    /// Every identifier the library hands out or accepts has exactly
    /// 12 bytes.
    pub open spec fn wf(&self) -> bool {
        self@.len() == 12
    }

    /// Parses a wire identifier. Succeeds exactly on strings of 24
    /// hexadecimal characters; anything else is malformed.
    pub fn parse_str(s: &str) -> (r: Option<ObjectId>)
        ensures
            r is Some <==> is_hex24(s@),
            r is Some ==> r->0.wf() && r->0@ == bytes_of_hex(s@),
    {
        let n = s.unicode_len();
        if n != 24 {
            return None;
        }
        let mut bytes: Vec<u8> = Vec::new();
        let mut j: usize = 0;
        while j < 12
            invariant
                s@.len() == 24,
                0 <= j <= 12,
                bytes@.len() == j,
                forall|i: int| 0 <= i < 2 * j ==> is_hex_digit(#[trigger] s@[i]),
                bytes@ =~= bytes_of_hex(s@.take(2 * j)),
            decreases 12 - j,
        {
            let c_hi = s.get_char(2 * j);
            let c_lo = s.get_char(2 * j + 1);
            let hi = hex_val_exec(c_hi);
            let lo = hex_val_exec(c_lo);
            if hi == 255 || lo == 255 {
                return None;
            }
            bytes.push(hi * 16 + lo);
            j += 1;
            assert(bytes@ =~= bytes_of_hex(s@.take(2 * j as int)));
        }
        assert(s@.take(24) =~= s@);
        Some(ObjectId { bytes })
    }

    /// Prints the identifier in its canonical lower-case hex form.
    pub fn to_hex(&self) -> (r: String)
        ensures
            r@ == hex_of_bytes(self@),
    {
        let n = self.bytes.len();
        let mut out = String::new();
        let mut j: usize = 0;
        while j < n
            invariant
                n == self@.len(),
                0 <= j <= n,
                out@ =~= hex_of_bytes(self@).take(2 * j),
            decreases n - j,
        {
            let b = self.bytes[j];
            crate::strutil::push_char(&mut out, hex_char_exec(b / 16));
            crate::strutil::push_char(&mut out, hex_char_exec(b % 16));
            j += 1;
            assert(out@ =~= hex_of_bytes(self@).take(2 * j as int));
        }
        assert(hex_of_bytes(self@).take(2 * n as int) =~= hex_of_bytes(self@));
        out
    }

    /// Byte-for-byte equality of two identifiers.
    pub fn same_id(&self, other: &ObjectId) -> (r: bool)
        ensures
            r <==> self@ == other@,
    {
        if self.bytes.len() != other.bytes.len() {
            assert(self@.len() != other@.len());
            return false;
        }
        let mut i: usize = 0;
        while i < self.bytes.len()
            invariant
                self@.len() == other@.len(),
                0 <= i <= self@.len(),
                forall|k: int| 0 <= k < i ==> self@[k] == other@[k],
            decreases self@.len() - i,
        {
            if self.bytes[i] != other.bytes[i] {
                return false;
            }
            i += 1;
        }
        assert(self@ =~= other@);
        true
    }
}

impl ObjectId {
    /// The identifier assigned for creation number `n`.
    pub fn from_counter(n: u64) -> (r: ObjectId)
        ensures
            r.wf(),
            r@ == counter_bytes(n),
    {
        let mut bytes: Vec<u8> = Vec::new();
        bytes.push(0u8);
        bytes.push(0u8);
        bytes.push(0u8);
        bytes.push(0u8);
        bytes.push(#[verifier::truncate] ((n >> 56) as u8));
        bytes.push(#[verifier::truncate] ((n >> 48) as u8));
        bytes.push(#[verifier::truncate] ((n >> 40) as u8));
        bytes.push(#[verifier::truncate] ((n >> 32) as u8));
        bytes.push(#[verifier::truncate] ((n >> 24) as u8));
        bytes.push(#[verifier::truncate] ((n >> 16) as u8));
        bytes.push(#[verifier::truncate] ((n >> 8) as u8));
        bytes.push(#[verifier::truncate] (n as u8));
        assert(bytes@ =~= counter_bytes(n));
        ObjectId { bytes }
    }
}

impl Clone for ObjectId {
    /// A cloned identifier holds the same bytes.
    fn clone(&self) -> (r: Self)
        ensures
            r@ == self@,
    {
        let mut bytes: Vec<u8> = Vec::new();
        let mut i: usize = 0;
        while i < self.bytes.len()
            invariant
                0 <= i <= self@.len(),
                bytes@ =~= self@.take(i as int),
            decreases self@.len() - i,
        {
            bytes.push(self.bytes[i]);
            i += 1;
            assert(bytes@ =~= self@.take(i as int));
        }
        assert(self@.take(self@.len() as int) =~= self@);
        ObjectId { bytes }
    }
}

} // verus!
