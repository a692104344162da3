//! Reading and writing bit buffers as binary and hexadecimal text.

use crate::buffer::BitBuffer;
use crate::error::BitsError;
use crate::text::{
    binary_text_of, bits_of_binary, bits_of_digits, bits_of_hex, hex_char, hex_digits, hex_text_of,
    hex_value, is_binary_text, is_hex_digit, is_hex_text, nibble_at,
};
use vstd::prelude::*;
use vstd::string::*;

verus! {

/// The value of a hexadecimal digit of either case, or `None` for any other
/// character.
pub fn hex_digit_value(c: char) -> (r: Option<u8>)
    ensures
        r == (if is_hex_digit(c) {
            Some(hex_value(c) as u8)
        } else {
            None::<u8>
        }),
{
    if '0' <= c && c <= '9' {
        Some((c as u32 - '0' as u32) as u8)
    } else if 'a' <= c && c <= 'f' {
        Some((c as u32 - 'a' as u32 + 10) as u8)
    } else if 'A' <= c && c <= 'F' {
        Some((c as u32 - 'A' as u32 + 10) as u8)
    } else {
        None
    }
}

/// The one-character text of the lower-case hexadecimal digit of `v`.
fn hex_digit_text(v: u8) -> (r: &'static str)
    requires
        v < 16,
    ensures
        r@ == seq![hex_char(v as int)],
{
    proof {
        reveal_strlit("0");
        reveal_strlit("1");
        reveal_strlit("2");
        reveal_strlit("3");
        reveal_strlit("4");
        reveal_strlit("5");
        reveal_strlit("6");
        reveal_strlit("7");
        reveal_strlit("8");
        reveal_strlit("9");
        reveal_strlit("a");
        reveal_strlit("b");
        reveal_strlit("c");
        reveal_strlit("d");
        reveal_strlit("e");
        reveal_strlit("f");
    }
    let r = match v {
        0 => "0",
        1 => "1",
        2 => "2",
        3 => "3",
        4 => "4",
        5 => "5",
        6 => "6",
        7 => "7",
        8 => "8",
        9 => "9",
        10 => "a",
        11 => "b",
        12 => "c",
        13 => "d",
        14 => "e",
        _ => "f",
    };
    assert(r@ =~= seq![hex_char(v as int)]);
    r
}

impl BitBuffer {
    /// Decodes binary text, one bit per character.
    pub fn from_binary_text(text: &str) -> (r: Result<BitBuffer, BitsError>)
        ensures
            r is Ok <==> is_binary_text(text@),
            r matches Ok(b) ==> b.wf() && b@ == bits_of_binary(text@),
            r matches Err(e) ==> e == BitsError::InvalidCharacter,
    {
        let n = text.unicode_len();
        let mut buf = BitBuffer::new();
        let mut i: usize = 0;
        while i < n
            invariant
                n == text@.len(),
                i <= n,
                buf.wf(),
                buf@ == bits_of_binary(text@.subrange(0, i as int)),
                is_binary_text(text@.subrange(0, i as int)),
            decreases n - i,
        {
            let c = text.get_char(i);
            if c == '0' {
                buf.push(false);
            } else if c == '1' {
                buf.push(true);
            } else {
                assert(!(text@[i as int] == '0' || text@[i as int] == '1'));
                return Err(BitsError::InvalidCharacter);
            }
            i = i + 1;
            assert(buf@ =~= bits_of_binary(text@.subrange(0, i as int)));
            assert(is_binary_text(text@.subrange(0, i as int))) by {
                assert forall|j: int| 0 <= j < i implies (#[trigger] text@.subrange(0, i as int)[j]
                    == '0' || text@.subrange(0, i as int)[j] == '1') by {
                    if j < i - 1 {
                        assert(text@.subrange(0, i as int)[j] == text@.subrange(0, i - 1)[j]);
                    }
                }
            }
        }
        assert(text@.subrange(0, n as int) =~= text@);
        Ok(buf)
    }

    /// Decodes hexadecimal text, four bits per digit, after an optional
    /// `0x` / `0X` prefix. A digit count whose bits would not fit in a
    /// `usize` gives `InvalidLength`.
    pub fn from_hex_text(text: &str) -> (r: Result<BitBuffer, BitsError>)
        ensures
            r is Ok <==> is_hex_text(text@) && 4 * hex_digits(text@).len() <= usize::MAX,
            r matches Ok(b) ==> b.wf() && b@ == bits_of_hex(text@),
            r matches Err(e) ==> (if 4 * hex_digits(text@).len() > usize::MAX {
                e == BitsError::InvalidLength
            } else {
                e == BitsError::InvalidCharacter
            }),
    {
        let n = text.unicode_len();
        let mut s: usize = 0;
        if n >= 2 {
            let c0 = text.get_char(0);
            let c1 = text.get_char(1);
            if c0 == '0' && (c1 == 'x' || c1 == 'X') {
                s = 2;
            }
        }
        let ghost d = hex_digits(text@);
        assert(d =~= text@.subrange(s as int, n as int));
        if n - s > usize::MAX / 4 {
            return Err(BitsError::InvalidLength);
        }
        let mut buf = BitBuffer::new();
        let mut i: usize = s;
        while i < n
            invariant
                n == text@.len(),
                s <= i <= n,
                n - s <= usize::MAX / 4,
                d == text@.subrange(s as int, n as int),
                d == hex_digits(text@),
                buf.wf(),
                buf@ == bits_of_digits(d.subrange(0, i - s)),
                forall|j: int| 0 <= j < i - s ==> is_hex_digit(#[trigger] d[j]),
            decreases n - i,
        {
            let c = text.get_char(i);
            assert(c == d[i - s]);
            match hex_digit_value(c) {
                None => {
                    assert(!is_hex_digit(d[i - s]));
                    return Err(BitsError::InvalidCharacter);
                },
                Some(v) => {
                    let ghost pre = buf@;
                    buf.push(v / 8 % 2 == 1);
                    buf.push(v / 4 % 2 == 1);
                    buf.push(v / 2 % 2 == 1);
                    buf.push(v % 2 == 1);
                    i = i + 1;
                    assert(bits_of_digits(d.subrange(0, i - s)) =~= buf@);
                },
            }
        }
        assert(d.subrange(0, n - s) =~= d);
        Ok(buf)
    }

    /// The binary text of the buffer: one `'0'` or `'1'` per bit.
    pub fn to_binary_text(&self) -> (r: String)
        requires
            self.wf(),
        ensures
            r@ == binary_text_of(self@),
    {
        let n = self.len();
        let mut out = String::new();
        let mut i: usize = 0;
        while i < n
            invariant
                self.wf(),
                n == self@.len(),
                i <= n,
                out@ == binary_text_of(self@.subrange(0, i as int)),
            decreases n - i,
        {
            proof {
                reveal_strlit("0");
                reveal_strlit("1");
            }
            if self.get(i) {
                out.append("1");
            } else {
                out.append("0");
            }
            i = i + 1;
            assert(out@ =~= binary_text_of(self@.subrange(0, i as int)));
        }
        assert(self@.subrange(0, n as int) =~= self@);
        out
    }

    /// The lower-case hexadecimal text of the buffer, one digit per four
    /// bits; `UnalignedLength` when the length is not a multiple of four.
    pub fn to_hex_text(&self) -> (r: Result<String, BitsError>)
        requires
            self.wf(),
        ensures
            r is Ok <==> self@.len() % 4 == 0,
            r matches Ok(t) ==> t@ == hex_text_of(self@),
            r matches Err(e) ==> e == BitsError::UnalignedLength,
    {
        let n = self.len();
        if n % 4 != 0 {
            return Err(BitsError::UnalignedLength);
        }
        let mut out = String::new();
        let mut k: usize = 0;
        while k < n / 4
            invariant
                self.wf(),
                n == self@.len(),
                n % 4 == 0,
                k <= n / 4,
                out@ == Seq::new(k as nat, |j: int| hex_char(nibble_at(self@, j))),
            decreases n / 4 - k,
        {
            let b0: u8 = if self.get(4 * k) { 8 } else { 0 };
            let b1: u8 = if self.get(4 * k + 1) { 4 } else { 0 };
            let b2: u8 = if self.get(4 * k + 2) { 2 } else { 0 };
            let b3: u8 = if self.get(4 * k + 3) { 1 } else { 0 };
            let v: u8 = b0 + b1 + b2 + b3;
            assert(v as int == nibble_at(self@, k as int));
            out.append(hex_digit_text(v));
            k = k + 1;
            assert(out@ =~= Seq::new(k as nat, |j: int| hex_char(nibble_at(self@, j))));
        }
        assert(out@ =~= hex_text_of(self@));
        Ok(out)
    }
}

} // verus!
