//! Character-level string helpers the rest of the crate builds on.

use vstd::prelude::*;
use vstd::string::StrSliceExecFns;
use vstd::string::StringExecFns;

verus! {

/// Character-for-character equality of two string slices.
pub fn str_eq(a: &str, b: &str) -> (r: bool)
    ensures
        r == (a@ == b@),
{
    let alen = a.unicode_len();
    let blen = b.unicode_len();
    if alen != blen {
        return false;
    }
    let mut i: usize = 0;
    while i < alen
        invariant
            i <= alen,
            alen == a@.len(),
            blen == b@.len(),
            alen == blen,
            forall|j: int| 0 <= j < i ==> a@[j] == b@[j],
        decreases alen - i,
    {
        if a.get_char(i) != b.get_char(i) {
            return false;
        }
        i = i + 1;
    }
    proof {
        assert(a@ =~= b@);
    }
    true
}

/// Index of the first occurrence of `c` in `s`, if any.
pub fn find_char(s: &str, c: char) -> (r: Option<usize>)
    ensures
        r matches Some(i) ==> i < s@.len() && s@[i as int] == c && forall|j: int|
            0 <= j < i ==> s@[j] != c,
        r is None ==> !s@.contains(c),
{
    let len = s.unicode_len();
    let mut i: usize = 0;
    while i < len
        invariant
            i <= len,
            len == s@.len(),
            forall|j: int| 0 <= j < i ==> s@[j] != c,
        decreases len - i,
    {
        if s.get_char(i) == c {
            return Some(i);
        }
        i = i + 1;
    }
    proof {
        assert(forall|j: int| 0 <= j < s@.len() ==> s@[j] != c);
    }
    None
}

/// Whether `c` occurs in `s`.
pub fn str_contains_char(s: &str, c: char) -> (r: bool)
    ensures
        r == s@.contains(c),
{
    let found = find_char(s, c);
    proof {
        if found is Some {
            assert(s@.contains(s@[found->0 as int]));
        }
    }
    found.is_some()
}

/// Whether `s` starts with `prefix`, character for character.
pub fn str_starts_with(s: &str, prefix: &str) -> (r: bool)
    ensures
        r == (s@.len() >= prefix@.len() && s@.subrange(0, prefix@.len() as int) == prefix@),
{
    let slen = s.unicode_len();
    let plen = prefix.unicode_len();
    if slen < plen {
        return false;
    }
    let mut i: usize = 0;
    while i < plen
        invariant
            i <= plen,
            plen <= slen,
            slen == s@.len(),
            plen == prefix@.len(),
            forall|j: int| 0 <= j < i ==> s@[j] == prefix@[j],
        decreases plen - i,
    {
        if s.get_char(i) != prefix.get_char(i) {
            proof {
                assert(s@.subrange(0, prefix@.len() as int)[i as int] != prefix@[i as int]);
            }
            return false;
        }
        i = i + 1;
    }
    proof {
        assert(s@.subrange(0, prefix@.len() as int) =~= prefix@);
    }
    true
}

/// Whether `s` ends with `suffix`, character for character.
pub fn str_ends_with(s: &str, suffix: &str) -> (r: bool)
    ensures
        r == (s@.len() >= suffix@.len() && s@.subrange(
            s@.len() - suffix@.len(),
            s@.len() as int,
        ) == suffix@),
{
    let slen = s.unicode_len();
    let xlen = suffix.unicode_len();
    if slen < xlen {
        return false;
    }
    let off = slen - xlen;
    let mut i: usize = 0;
    while i < xlen
        invariant
            i <= xlen,
            xlen <= slen,
            off == slen - xlen,
            slen == s@.len(),
            xlen == suffix@.len(),
            forall|j: int| 0 <= j < i ==> s@[off + j] == suffix@[j],
        decreases xlen - i,
    {
        if s.get_char(off + i) != suffix.get_char(off + i - off) {
            proof {
                assert(s@.subrange(s@.len() - suffix@.len(), s@.len() as int)[i as int]
                    != suffix@[i as int]);
            }
            return false;
        }
        i = i + 1;
    }
    proof {
        assert(s@.subrange(s@.len() - suffix@.len(), s@.len() as int) =~= suffix@);
    }
    true
}

/// The lower-case hexadecimal digit of a value below sixteen.
pub open spec fn hex_digit(d: int) -> char {
    if d == 0 {
        '0'
    } else if d == 1 {
        '1'
    } else if d == 2 {
        '2'
    } else if d == 3 {
        '3'
    } else if d == 4 {
        '4'
    } else if d == 5 {
        '5'
    } else if d == 6 {
        '6'
    } else if d == 7 {
        '7'
    } else if d == 8 {
        '8'
    } else if d == 9 {
        '9'
    } else if d == 10 {
        'a'
    } else if d == 11 {
        'b'
    } else if d == 12 {
        'c'
    } else if d == 13 {
        'd'
    } else if d == 14 {
        'e'
    } else {
        'f'
    }
}

/// The `count` low-order hexadecimal digits of `v`, most significant
/// first.
pub open spec fn spec_hex(v: int, count: nat) -> Seq<char>
    decreases count,
{
    if count == 0 {
        Seq::empty()
    } else {
        spec_hex(v / 16, (count - 1) as nat) + seq![hex_digit(v % 16)]
    }
}

fn hex_digit_str(d: u128) -> (r: &'static str)
    requires
        d < 16,
    ensures
        r@ == seq![hex_digit(d as int)],
{
    proof {
        reveal_strlit("0");
        reveal_strlit("1");
        reveal_strlit("2");
        reveal_strlit("3");
        reveal_strlit("4");
        reveal_strlit("5");
        reveal_strlit("6");
        reveal_strlit("7");
        reveal_strlit("8");
        reveal_strlit("9");
        reveal_strlit("a");
        reveal_strlit("b");
        reveal_strlit("c");
        reveal_strlit("d");
        reveal_strlit("e");
        reveal_strlit("f");
    }
    let r = if d == 0 {
        "0"
    } else if d == 1 {
        "1"
    } else if d == 2 {
        "2"
    } else if d == 3 {
        "3"
    } else if d == 4 {
        "4"
    } else if d == 5 {
        "5"
    } else if d == 6 {
        "6"
    } else if d == 7 {
        "7"
    } else if d == 8 {
        "8"
    } else if d == 9 {
        "9"
    } else if d == 10 {
        "a"
    } else if d == 11 {
        "b"
    } else if d == 12 {
        "c"
    } else if d == 13 {
        "d"
    } else if d == 14 {
        "e"
    } else {
        "f"
    };
    proof {
        assert(r@ =~= seq![hex_digit(d as int)]);
    }
    r
}

/// The `count` low-order hexadecimal digits of `v`, most significant
/// first.
pub fn hex_chunk(v: u128, count: u32) -> (r: String)
    ensures
        r@ == spec_hex(v as int, count as nat),
    decreases count,
{
    if count == 0 {
        String::new()
    } else {
        let mut s = hex_chunk(v / 16, count - 1);
        s.append(hex_digit_str(v % 16));
        s
    }
}

/// The canonical hyphenated text of a 128-bit identifier: five groups
/// of 8, 4, 4, 4 and 12 lower-case hexadecimal digits.
pub open spec fn spec_uuid_str(id: u128) -> Seq<char> {
    let h = spec_hex(id as int, 32);
    h.subrange(0, 8) + seq!['-'] + h.subrange(8, 12) + seq!['-'] + h.subrange(12, 16) + seq!['-']
        + h.subrange(16, 20) + seq!['-'] + h.subrange(20, 32)
}

/// Writes a 128-bit identifier in its canonical hyphenated form.
pub fn uuid_hyphenated(id: u128) -> (r: String)
    ensures
        r@ == spec_uuid_str(id),
{
    let h = hex_chunk(id, 32);
    proof {
        lemma_spec_hex_len(id as int, 32);
        reveal_strlit("-");
        assert("-"@ =~= seq!['-']);
    }
    let hs = h.as_str();
    let mut s = String::from_str(hs.substring_char(0, 8));
    s.append("-");
    s.append(hs.substring_char(8, 12));
    s.append("-");
    s.append(hs.substring_char(12, 16));
    s.append("-");
    s.append(hs.substring_char(16, 20));
    s.append("-");
    s.append(hs.substring_char(20, 32));
    s
}

/// A hexadecimal rendering has exactly as many digits as asked for.
pub proof fn lemma_spec_hex_len(v: int, count: nat)
    ensures
        spec_hex(v, count).len() == count,
    decreases count,
{
    if count > 0 {
        lemma_spec_hex_len(v / 16, (count - 1) as nat);
    }
}

/// An owned copy of the characters of `s` from `from` (inclusive) to `to`
/// (exclusive).
pub fn substr_to_string(s: &str, from: usize, to: usize) -> (r: String)
    requires
        from <= to <= s@.len(),
    ensures
        r@ == s@.subrange(from as int, to as int),
{
    String::from_str(s.substring_char(from, to))
}

} // verus!
