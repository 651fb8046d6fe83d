//! Fixed-width byte values: account addresses and 32-byte words.

use vstd::prelude::*;
use vstd::string::*;

verus! {

/// The number that a byte string denotes when read with its most
/// significant byte first.
pub open spec fn be_value(s: Seq<u8>) -> nat
    decreases s.len(),
{
    if s.len() == 0 {
        0
    } else {
        be_value(s.drop_last()) * 256 + s.last() as nat
    }
}

/// The lowercase hexadecimal digit of a value below sixteen.
pub open spec fn hex_digit(v: int) -> char {
    if v == 0 {
        '0'
    } else if v == 1 {
        '1'
    } else if v == 2 {
        '2'
    } else if v == 3 {
        '3'
    } else if v == 4 {
        '4'
    } else if v == 5 {
        '5'
    } else if v == 6 {
        '6'
    } else if v == 7 {
        '7'
    } else if v == 8 {
        '8'
    } else if v == 9 {
        '9'
    } else if v == 10 {
        'a'
    } else if v == 11 {
        'b'
    } else if v == 12 {
        'c'
    } else if v == 13 {
        'd'
    } else if v == 14 {
        'e'
    } else {
        'f'
    }
}

/// Whether a character is a decimal digit or one of `a` to `f`.
pub open spec fn is_lower_hex(c: char) -> bool {
    ('0' <= c && c <= '9') || ('a' <= c && c <= 'f')
}

/// Two lowercase hexadecimal digits for each byte, in order.
pub open spec fn hex_digits(s: Seq<u8>) -> Seq<char> {
    Seq::new(
        2 * s.len(),
        |i: int|
            if i % 2 == 0 {
                hex_digit(s[i / 2] as int / 16)
            } else {
                hex_digit(s[i / 2] as int % 16)
            },
    )
}

/// The canonical text of a byte string: `0x`, then its hexadecimal digits.
pub open spec fn hex_text(s: Seq<u8>) -> Seq<char> {
    seq!['0', 'x'] + hex_digits(s)
}

/// One lowercase hexadecimal digit, as a text of one character.
fn hex_str(v: u8) -> (r: &'static str)
    requires
        v < 16,
    ensures
        r@ == seq![hex_digit(v as int)],
        is_lower_hex(hex_digit(v as int)),
{
    if v == 0 {
        proof {
            reveal_strlit("0");
        }
        assert("0"@ =~= seq!['0']);
        "0"
    } else if v == 1 {
        proof {
            reveal_strlit("1");
        }
        assert("1"@ =~= seq!['1']);
        "1"
    } else if v == 2 {
        proof {
            reveal_strlit("2");
        }
        assert("2"@ =~= seq!['2']);
        "2"
    } else if v == 3 {
        proof {
            reveal_strlit("3");
        }
        assert("3"@ =~= seq!['3']);
        "3"
    } else if v == 4 {
        proof {
            reveal_strlit("4");
        }
        assert("4"@ =~= seq!['4']);
        "4"
    } else if v == 5 {
        proof {
            reveal_strlit("5");
        }
        assert("5"@ =~= seq!['5']);
        "5"
    } else if v == 6 {
        proof {
            reveal_strlit("6");
        }
        assert("6"@ =~= seq!['6']);
        "6"
    } else if v == 7 {
        proof {
            reveal_strlit("7");
        }
        assert("7"@ =~= seq!['7']);
        "7"
    } else if v == 8 {
        proof {
            reveal_strlit("8");
        }
        assert("8"@ =~= seq!['8']);
        "8"
    } else if v == 9 {
        proof {
            reveal_strlit("9");
        }
        assert("9"@ =~= seq!['9']);
        "9"
    } else if v == 10 {
        proof {
            reveal_strlit("a");
        }
        assert("a"@ =~= seq!['a']);
        "a"
    } else if v == 11 {
        proof {
            reveal_strlit("b");
        }
        assert("b"@ =~= seq!['b']);
        "b"
    } else if v == 12 {
        proof {
            reveal_strlit("c");
        }
        assert("c"@ =~= seq!['c']);
        "c"
    } else if v == 13 {
        proof {
            reveal_strlit("d");
        }
        assert("d"@ =~= seq!['d']);
        "d"
    } else if v == 14 {
        proof {
            reveal_strlit("e");
        }
        assert("e"@ =~= seq!['e']);
        "e"
    } else {
        proof {
            reveal_strlit("f");
        }
        assert("f"@ =~= seq!['f']);
        "f"
    }
}

/// Whether two byte strings hold the same bytes.
pub fn bytes_equal(a: &[u8], b: &[u8]) -> (r: bool)
    ensures
        r == (a@ == b@),
{
    if a.len() != b.len() {
        return false;
    }
    let mut i: usize = 0;
    while i < a.len()
        invariant
            a@.len() == b@.len(),
            i <= a@.len(),
            forall|j: int| 0 <= j < i ==> a@[j] == b@[j],
        decreases a@.len() - i,
    {
        if a[i] != b[i] {
            return false;
        }
        i += 1;
    }
    assert(a@ =~= b@);
    true
}

/// A 20-byte account or contract address.
#[derive(Clone, Copy, Debug)]
pub struct Address {
    pub bytes: [u8; 20],
}

impl View for Address {
    type V = Seq<u8>;

    open spec fn view(&self) -> Seq<u8> {
        self.bytes@
    }
}

impl Address {
    /// Whether both addresses hold the same twenty bytes.
    pub fn same(&self, other: &Address) -> (r: bool)
        ensures
            r == (self@ == other@),
    {
        bytes_equal(self.bytes.as_slice(), other.bytes.as_slice())
    }
}

/// A 32-byte word: a hash, an event topic or an unsigned 256-bit number
/// with its most significant byte first.
#[derive(Clone, Copy, Debug)]
pub struct Word {
    pub bytes: [u8; 32],
}

impl View for Word {
    type V = Seq<u8>;

    open spec fn view(&self) -> Seq<u8> {
        self.bytes@
    }
}

/// 256 to the power `k`.
pub open spec fn pow256(k: nat) -> nat
    decreases k,
{
    if k == 0 {
        1
    } else {
        256 * pow256((k - 1) as nat)
    }
}

/// A byte string of zeros denotes zero.
pub proof fn lemma_be_value_zeros(s: Seq<u8>)
    requires
        forall|i: int| 0 <= i < s.len() ==> s[i] == 0,
    ensures
        be_value(s) == 0,
    decreases s.len(),
{
    if s.len() > 0 {
        lemma_be_value_zeros(s.drop_last());
    }
}

/// Putting a byte where a zero stood adds the byte times the weight of its
/// place: 256 to the power of the number of bytes after it.
pub proof fn lemma_be_value_update(s: Seq<u8>, place: int, byte: u8)
    requires
        0 <= place < s.len(),
        s[place] == 0,
    ensures
        be_value(s.update(place, byte)) == be_value(s) + byte * pow256(
            (s.len() - 1 - place) as nat,
        ),
    decreases s.len(),
{
    let changed = s.update(place, byte);
    if place == s.len() - 1 {
        assert(changed.drop_last() =~= s.drop_last());
        assert(changed.last() == byte);
        assert(pow256(0) == 1);
        assert(byte * pow256(0) == byte) by (nonlinear_arith)
            requires
                pow256(0) == 1,
        ;
    } else {
        lemma_be_value_update(s.drop_last(), place, byte);
        assert(changed.drop_last() =~= s.drop_last().update(place, byte));
        let weight = pow256((s.len() - 2 - place) as nat);
        let front = be_value(s.drop_last());
        assert(changed.last() == s.last());
        assert(pow256((s.len() - 1 - place) as nat) == 256 * weight);
        assert((front + byte * weight) * 256 == front * 256 + byte * (256 * weight))
            by (nonlinear_arith);
    }
}

impl Word {
    /// The number that the word holds.
    pub open spec fn value(&self) -> nat {
        be_value(self@)
    }

    /// Whether both words hold the same 32 bytes.
    pub fn same(&self, other: &Word) -> (r: bool)
        ensures
            r == (self@ == other@),
    {
        bytes_equal(self.bytes.as_slice(), other.bytes.as_slice())
    }

    /// The word's low twenty bytes, which is where a topic holds an address.
    pub fn low_address(&self) -> (r: Address)
        ensures
            r@ == self@.subrange(12, 32),
    {
        let mut out: [u8; 20] = [0u8; 20];
        let mut i: usize = 0;
        while i < 20
            invariant
                i <= 20,
                forall|j: int| 0 <= j < i ==> out@[j] == self@[12 + j],
            decreases 20 - i,
        {
            out[i] = self.bytes[12 + i];
            i += 1;
        }
        assert(out@ =~= self@.subrange(12, 32));
        Address { bytes: out }
    }

    /// The word made of the 32 bytes of `data` that start at `offset`.
    pub(crate) fn from_slice(data: &[u8], offset: usize) -> (r: Word)
        requires
            offset + 32 <= data@.len(),
        ensures
            r@ == data@.subrange(offset as int, offset + 32),
    {
        let len: usize = data.len();
        let mut out: [u8; 32] = [0u8; 32];
        let mut i: usize = 0;
        while i < 32
            invariant
                i <= 32,
                len == data@.len(),
                offset + 32 <= len,
                forall|j: int| 0 <= j < i ==> out@[j] == data@[offset + j],
            decreases 32 - i,
        {
            out[i] = data[offset + i];
            i += 1;
        }
        assert(out@ =~= data@.subrange(offset as int, offset + 32));
        Word { bytes: out }
    }

    /// The word that holds the number `n`.
    pub fn from_u128(n: u128) -> (r: Word)
        ensures
            r.value() == n,
    {
        let mut out: [u8; 32] = [0u8; 32];
        let mut rest: u128 = n;
        let mut i: usize = 0;
        proof {
            lemma_be_value_zeros(out@);
            assert(pow256(0) == 1);
            assert(rest * pow256(0) == rest) by (nonlinear_arith)
                requires
                    pow256(0) == 1,
            ;
        }
        while i < 16
            invariant
                i <= 16,
                forall|j: int| 0 <= j < 32 - i ==> out@[j] == 0,
                be_value(out@) + rest * pow256(i as nat) == n,
            decreases 16 - i,
        {
            let low: u8 = (rest % 256) as u8;
            let ghost before = out@;
            let ghost weight = pow256(i as nat);
            let ghost high = rest / 256;
            proof {
                lemma_be_value_update(before, 31 - i, low);
                assert(rest == high * 256 + low);
                assert((high * 256 + low) * weight == high * (256 * weight) + low * weight)
                    by (nonlinear_arith);
            }
            out[31 - i] = low;
            rest = rest / 256;
            i += 1;
        }
        proof {
            reveal_with_fuel(pow256, 17);
            assert(pow256(16) == 0x1_0000_0000_0000_0000_0000_0000_0000_0000);
            assert(rest == 0) by (nonlinear_arith)
                requires
                    rest * pow256(16) <= n,
                    n < pow256(16),
                    rest >= 0,
            ;
        }
        Word { bytes: out }
    }

    /// The canonical text of the word: `0x` and 64 lowercase hexadecimal
    /// digits.
    pub fn to_hex(&self) -> (r: String)
        ensures
            r@ == hex_text(self@),
            r@.len() == 66,
            r@[0] == '0',
            r@[1] == 'x',
            forall|i: int| 2 <= i < 66 ==> is_lower_hex(#[trigger] r@[i]),
    {
        let mut out = "0x".to_owned();
        proof {
            reveal_strlit("0x");
        }
        let mut i: usize = 0;
        while i < 32
            invariant
                i <= 32,
                out@.len() == 2 + 2 * i,
                out@[0] == '0',
                out@[1] == 'x',
                forall|j: int| 0 <= j < 2 * i ==> out@[2 + j] == hex_digits(self@)[j],
                forall|j: int| 2 <= j < 2 + 2 * i ==> is_lower_hex(#[trigger] out@[j]),
            decreases 32 - i,
        {
            let b: u8 = self.bytes[i];
            out.append(hex_str(b / 16));
            out.append(hex_str(b % 16));
            i += 1;
        }
        assert(out@ =~= hex_text(self@));
        out
    }
}

} // verus!
