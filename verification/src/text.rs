//! Text helpers: UTF-8 conversion of wire bytes and random identifiers.
use vstd::prelude::*;
use vstd::utf8::{decode_utf8, encode_utf8, valid_utf8};

use vstd::string::StringExecFns;

verus! {

/// `std::string::String::from_utf8`: the bytes are accepted exactly when they
/// are valid UTF-8, and the string then holds the characters they encode.
#[verifier::external_body]
pub fn string_from_utf8(bytes: Vec<u8>) -> (res: Option<String>)
    ensures
        match res {
            Some(s) => valid_utf8(bytes@) && s@ == decode_utf8(bytes@),
            None => !valid_utf8(bytes@),
        },
{
    String::from_utf8(bytes).ok()
}

/// The UTF-8 bytes of a string.
pub fn string_bytes(s: &String) -> (res: &[u8])
    ensures
        res@ == encode_utf8(s@),
{
    s.as_str().as_bytes()
}

/// A lower-case hexadecimal digit.
pub open spec fn is_lower_hex(c: char) -> bool {
    ('0' <= c && c <= '9') || ('a' <= c && c <= 'f')
}

/// The hyphenated text form of a UUID: 36 characters, dashes at 8, 13, 18
/// and 23, lower-case hexadecimal digits elsewhere.
pub open spec fn is_hyphenated_uuid(s: Seq<char>) -> bool {
    &&& s.len() == 36
    &&& forall|i: int|
        0 <= i < 36 ==> if i == 8 || i == 13 || i == 18 || i == 23 {
            s[i] == '-'
        } else {
            is_lower_hex(#[trigger] s[i])
        }
}

/// `uuid::Uuid::new_v4` followed by its `to_string`: a fresh random version 4
/// UUID in its hyphenated lower-case text form. Which UUID comes out is chance.
#[verifier::external_body]
fn random_uuid_text() -> (res: String)
    ensures
        is_hyphenated_uuid(res@),
{
    uuid::Uuid::new_v4().to_string()
}

/// An identifier made from a UUID: the hyphenated text of some UUID with its
/// dashes removed.
pub open spec fn is_generated_id(id: Seq<char>) -> bool {
    exists|t: Seq<char>| is_hyphenated_uuid(t) && id == t.filter(|x: char| x != '-')
}

/// A fresh random identifier: the text of a random version 4 UUID with its
/// dashes removed.
pub fn generate_uuid() -> (res: String)
    ensures
        is_generated_id(res@),
{
    let text = random_uuid_text();
    strip_dashes(&text)
}

/// The digit a lower-case hexadecimal character stands for.
fn hex_digit_of(c: char) -> (d: u64)
    requires
        is_lower_hex(c),
    ensures
        d < 16,
        spec_digit(d as nat) == c,
{
    if c <= '9' {
        (c as u64) - ('0' as u64)
    } else {
        (c as u64) - ('a' as u64) + 10
    }
}

/// The hyphenated text of a UUID without its dashes.
fn strip_dashes(text: &String) -> (res: String)
    requires
        is_hyphenated_uuid(text@),
    ensures
        res@ == text@.filter(|x: char| x != '-'),
{
    let mut res = String::new();
    let mut i: usize = 0;
    while i < 36
        invariant
            i <= 36,
            is_hyphenated_uuid(text@),
            res@ == text@.take(i as int).filter(|x: char| x != '-'),
        decreases 36 - i,
    {
        let c = text.as_str().get_char(i);
        let ghost before = res@;
        if c != '-' {
            assert(is_lower_hex(text@[i as int]));
            let d = hex_digit_of(c);
            push_digit(&mut res, d);
        }
        proof {
            reveal(Seq::filter);
            assert(text@.take(i + 1).drop_last() =~= text@.take(i as int));
            assert(text@.take(i + 1).last() == c);
        }
        i = i + 1;
    }
    assert(text@.take(36) =~= text@);
    res
}

/// The character of a digit below 16: `0`-`9`, then `a`-`f`.
pub open spec fn spec_digit(d: nat) -> char {
    if d < 10 {
        (('0' as nat) + d) as char
    } else {
        (('a' as nat) + d - 10) as char
    }
}

/// `n` written in base `b` (10 or 16), most significant digit first, without
/// leading zeros; `0` for zero.
pub open spec fn spec_digits(n: nat, b: nat) -> Seq<char>
    decreases n,
{
    if b < 2 || n < b {
        seq![spec_digit(n)]
    } else {
        proof {
            assert(n / b < n) by (nonlinear_arith)
                requires
                    n >= b,
                    b >= 2,
            ;
        }
        spec_digits(n / b, b).push(spec_digit(n % b))
    }
}

/// Appends the digit `d`.
fn push_digit(s: &mut String, d: u64)
    requires
        d < 16,
    ensures
        final(s)@ == old(s)@.push(spec_digit(d as nat)),
{
    match d {
        0 => {
            s.append("0");
            proof {
                reveal_strlit("0");
            }
        },
        1 => {
            s.append("1");
            proof {
                reveal_strlit("1");
            }
        },
        2 => {
            s.append("2");
            proof {
                reveal_strlit("2");
            }
        },
        3 => {
            s.append("3");
            proof {
                reveal_strlit("3");
            }
        },
        4 => {
            s.append("4");
            proof {
                reveal_strlit("4");
            }
        },
        5 => {
            s.append("5");
            proof {
                reveal_strlit("5");
            }
        },
        6 => {
            s.append("6");
            proof {
                reveal_strlit("6");
            }
        },
        7 => {
            s.append("7");
            proof {
                reveal_strlit("7");
            }
        },
        8 => {
            s.append("8");
            proof {
                reveal_strlit("8");
            }
        },
        9 => {
            s.append("9");
            proof {
                reveal_strlit("9");
            }
        },
        10 => {
            s.append("a");
            proof {
                reveal_strlit("a");
            }
        },
        11 => {
            s.append("b");
            proof {
                reveal_strlit("b");
            }
        },
        12 => {
            s.append("c");
            proof {
                reveal_strlit("c");
            }
        },
        13 => {
            s.append("d");
            proof {
                reveal_strlit("d");
            }
        },
        14 => {
            s.append("e");
            proof {
                reveal_strlit("e");
            }
        },
        15 => {
            s.append("f");
            proof {
                reveal_strlit("f");
            }
        },
        _ => {},
    }
    assert(s@ =~= old(s)@.push(spec_digit(d as nat)));
}

/// Appends `n` written in base `b` (10 or 16); see [`spec_digits`].
pub fn append_digits(s: &mut String, n: u64, b: u64)
    requires
        b == 10 || b == 16,
    ensures
        final(s)@ == old(s)@ + spec_digits(n as nat, b as nat),
    decreases n,
{
    if n >= b {
        append_digits(s, n / b, b);
        push_digit(s, n % b);
        assert(s@ =~= old(s)@ + spec_digits(n as nat, b as nat));
    } else {
        push_digit(s, n);
        assert(s@ =~= old(s)@ + spec_digits(n as nat, b as nat));
    }
}

/// Whether two strings hold the same characters.
pub fn same_text(a: &str, b: &str) -> (res: bool)
    ensures
        res == (a@ == b@),
{
    let n = a.unicode_len();
    if n != b.unicode_len() {
        return false;
    }
    let mut i: usize = 0;
    while i < n
        invariant
            n == a@.len() == b@.len(),
            i <= n,
            forall|k: int| 0 <= k < i ==> a@[k] == b@[k],
        decreases n - i,
    {
        if a.get_char(i) != b.get_char(i) {
            return false;
        }
        i = i + 1;
    }
    assert(a@ =~= b@);
    true
}

} // verus!
