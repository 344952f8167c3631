//! Small verified text utilities shared by the rest of the library:
//! character-exact string equality and search, the password digest,
//! and decimal / hexadecimal rendering of integers.

use vstd::prelude::*;

verus! {

/// Character-by-character string equality, stated over the views.
pub fn str_eq(a: &str, b: &str) -> (r: bool)
    ensures
        r == (a@ == b@),
{
    let alen = a.unicode_len();
    let blen = b.unicode_len();
    if alen != blen {
        return false;
    }
    let mut i: usize = 0;
    while i < alen
        invariant
            alen == a@.len(),
            alen == b@.len(),
            0 <= i <= alen,
            forall|j: int| 0 <= j < i ==> a@[j] == b@[j],
        decreases alen - i,
    {
        let ca = a.get_char(i);
        let cb = b.get_char(i);
        if ca != cb {
            return false;
        }
        i += 1;
    }
    proof {
        assert(a@ =~= b@);
    }
    true
}

/// Whether the string holds the character `c` anywhere.
pub fn str_contains_char(s: &str, c: char) -> (r: bool)
    ensures
        r == s@.contains(c),
{
    let len = s.unicode_len();
    let mut i: usize = 0;
    while i < len
        invariant
            len == s@.len(),
            0 <= i <= len,
            forall|j: int| 0 <= j < i ==> s@[j] != c,
        decreases len - i,
    {
        if s.get_char(i) == c {
            assert(s@.contains(c));
            return true;
        }
        i += 1;
    }
    assert(!s@.contains(c));
    false
}

/// The first position of `c` in `s`, scanning from the front; -1 when absent.
pub open spec fn spec_find_char(s: Seq<char>, c: char) -> int
    decreases s.len(),
{
    if s.len() == 0 {
        -1
    } else if s[0] == c {
        0
    } else if spec_find_char(s.drop_first(), c) == -1 {
        -1
    } else {
        1 + spec_find_char(s.drop_first(), c)
    }
}

/// `spec_find_char` returns exactly the first match: -1 when no position
/// holds `c`, and otherwise the least matching position.
pub proof fn lemma_find_char(s: Seq<char>, c: char)
    ensures
        (forall|j: int| 0 <= j < s.len() ==> s[j] != c) ==> spec_find_char(s, c) == -1,
        forall|k: int|
            0 <= k < s.len() && s[k] == c && (forall|j: int| 0 <= j < k ==> s[j] != c)
                ==> spec_find_char(s, c) == k,
    decreases s.len(),
{
    if s.len() > 0 {
        lemma_find_char(s.drop_first(), c);
        assert forall|k: int|
            0 <= k < s.len() && s[k] == c && (forall|j: int| 0 <= j < k ==> s[j] != c)
                implies spec_find_char(s, c) == k by {
            if s[0] == c {
                assert(k == 0);
            } else {
                assert(k >= 1);
                let t = s.drop_first();
                assert(t[k - 1] == c);
                assert(forall|j: int| 0 <= j < k - 1 ==> t[j] != c);
                assert(spec_find_char(t, c) == k - 1);
            }
        }
        if forall|j: int| 0 <= j < s.len() ==> s[j] != c {
            let t = s.drop_first();
            assert(forall|j: int| 0 <= j < t.len() ==> t[j] != c);
        }
    }
}

/// Finds the first position of `c` in `s`, or `None` when `s` does not
/// hold it.
pub fn find_char(s: &str, c: char) -> (r: Option<usize>)
    ensures
        match r {
            Some(i) => i < s@.len() && spec_find_char(s@, c) == i,
            None => spec_find_char(s@, c) == -1,
        },
{
    let len = s.unicode_len();
    let mut i: usize = 0;
    while i < len
        invariant
            len == s@.len(),
            0 <= i <= len,
            forall|j: int| 0 <= j < i ==> s@[j] != c,
        decreases len - i,
    {
        if s.get_char(i) == c {
            proof {
                lemma_find_char(s@, c);
            }
            return Some(i);
        }
        i += 1;
    }
    proof {
        lemma_find_char(s@, c);
    }
    None
}

/// The local part of an email address: everything before the first `@`,
/// or the whole string when there is none.
pub open spec fn spec_email_local(s: Seq<char>) -> Seq<char> {
    if spec_find_char(s, '@') == -1 {
        s
    } else {
        s.subrange(0, spec_find_char(s, '@'))
    }
}

/// Returns the part of the email before the first `@` (the whole string
/// when no `@` occurs).
pub fn email_local(s: &str) -> (r: String)
    ensures
        r@ == spec_email_local(s@),
{
    match find_char(s, '@') {
        Some(i) => {
            let part = s.substring_char(0, i);
            part.to_owned()
        },
        None => s.to_owned(),
    }
}

/// The 64-bit FNV-1a digest of a character sequence; the library stores
/// this digest in place of the password itself.
pub open spec fn spec_digest(s: Seq<char>) -> u64
    decreases s.len(),
{
    if s.len() == 0 {
        0xcbf29ce484222325u64
    } else {
        vstd::wrapping::u64_specs::wrapping_mul(
            spec_digest(s.drop_last()) ^ (s.last() as u64),
            0x100000001b3u64,
        )
    }
}

/// Computes the password digest of `s`.
pub fn digest(s: &str) -> (r: u64)
    ensures
        r == spec_digest(s@),
{
    let len = s.unicode_len();
    let mut h: u64 = 0xcbf29ce484222325;
    let mut i: usize = 0;
    while i < len
        invariant
            len == s@.len(),
            0 <= i <= len,
            h == spec_digest(s@.subrange(0, i as int)),
        decreases len - i,
    {
        let c = s.get_char(i);
        h = (h ^ (c as u64)).wrapping_mul(0x100000001b3);
        proof {
            let pre = s@.subrange(0, i as int);
            let cur = s@.subrange(0, i + 1);
            assert(cur.drop_last() =~= pre);
            assert(cur.last() == s@[i as int]);
        }
        i += 1;
    }
    proof {
        assert(s@.subrange(0, len as int) =~= s@);
    }
    h
}

/// The decimal digit character for `d` (`d < 10`).
pub open spec fn spec_dec_digit(d: u32) -> char {
    if d == 0 {
        '0'
    } else if d == 1 {
        '1'
    } else if d == 2 {
        '2'
    } else if d == 3 {
        '3'
    } else if d == 4 {
        '4'
    } else if d == 5 {
        '5'
    } else if d == 6 {
        '6'
    } else if d == 7 {
        '7'
    } else if d == 8 {
        '8'
    } else {
        '9'
    }
}

/// The decimal rendering of `n`, most significant digit first.
pub open spec fn spec_dec(n: u32) -> Seq<char>
    decreases n,
{
    if n < 10 {
        seq![spec_dec_digit(n)]
    } else {
        spec_dec(n / 10).push(spec_dec_digit(n % 10))
    }
}

fn dec_digit_str(d: u32) -> (r: &'static str)
    requires
        d < 10,
    ensures
        r@ =~= seq![spec_dec_digit(d)],
{
    proof {
        reveal_strlit("0");
        reveal_strlit("1");
        reveal_strlit("2");
        reveal_strlit("3");
        reveal_strlit("4");
        reveal_strlit("5");
        reveal_strlit("6");
        reveal_strlit("7");
        reveal_strlit("8");
        reveal_strlit("9");
    }
    match d {
        0 => "0",
        1 => "1",
        2 => "2",
        3 => "3",
        4 => "4",
        5 => "5",
        6 => "6",
        7 => "7",
        8 => "8",
        _ => "9",
    }
}

/// Renders `n` in decimal.
pub fn dec_string(n: u32) -> (r: String)
    ensures
        r@ == spec_dec(n),
    decreases n,
{
    if n < 10 {
        String::from_str(dec_digit_str(n))
    } else {
        let mut s = dec_string(n / 10);
        s.append(dec_digit_str(n % 10));
        s
    }
}

/// The uppercase hexadecimal digit character for `d` (`d < 16`).
pub open spec fn spec_hex_digit(d: u64) -> char {
    if d == 0 {
        '0'
    } else if d == 1 {
        '1'
    } else if d == 2 {
        '2'
    } else if d == 3 {
        '3'
    } else if d == 4 {
        '4'
    } else if d == 5 {
        '5'
    } else if d == 6 {
        '6'
    } else if d == 7 {
        '7'
    } else if d == 8 {
        '8'
    } else if d == 9 {
        '9'
    } else if d == 10 {
        'A'
    } else if d == 11 {
        'B'
    } else if d == 12 {
        'C'
    } else if d == 13 {
        'D'
    } else if d == 14 {
        'E'
    } else {
        'F'
    }
}

/// The hexadecimal rendering of `n` in exactly `width` digits (uppercase,
/// most significant first, leading zeroes kept).
pub open spec fn spec_hex_width(n: u64, width: nat) -> Seq<char>
    decreases width,
{
    if width == 0 {
        Seq::empty()
    } else {
        spec_hex_width(n / 16, (width - 1) as nat).push(spec_hex_digit(n % 16))
    }
}

fn hex_digit_str(d: u64) -> (r: &'static str)
    requires
        d < 16,
    ensures
        r@ =~= seq![spec_hex_digit(d)],
{
    proof {
        reveal_strlit("0");
        reveal_strlit("1");
        reveal_strlit("2");
        reveal_strlit("3");
        reveal_strlit("4");
        reveal_strlit("5");
        reveal_strlit("6");
        reveal_strlit("7");
        reveal_strlit("8");
        reveal_strlit("9");
        reveal_strlit("A");
        reveal_strlit("B");
        reveal_strlit("C");
        reveal_strlit("D");
        reveal_strlit("E");
        reveal_strlit("F");
    }
    match d {
        0 => "0",
        1 => "1",
        2 => "2",
        3 => "3",
        4 => "4",
        5 => "5",
        6 => "6",
        7 => "7",
        8 => "8",
        9 => "9",
        10 => "A",
        11 => "B",
        12 => "C",
        13 => "D",
        14 => "E",
        _ => "F",
    }
}

/// Renders `n` as exactly `width` uppercase hexadecimal digits.
pub fn hex_width(n: u64, width: u8) -> (r: String)
    ensures
        r@ == spec_hex_width(n, width as nat),
    decreases width,
{
    if width == 0 {
        String::new()
    } else {
        let mut s = hex_width(n / 16, width - 1);
        s.append(hex_digit_str(n % 16));
        s
    }
}

} // verus!
