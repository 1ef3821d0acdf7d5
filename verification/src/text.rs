//! Comparisons of text, decided on the UTF-8 bytes.
use vstd::prelude::*;
use vstd::string::*;
use vstd::utf8::{encode_utf8, encode_utf8_decode_utf8, is_ascii_chars, is_ascii_chars_encode_utf8};

verus! {

/// Whether two texts hold the same characters.
pub fn str_eq(a: &str, b: &str) -> (same: bool)
    ensures
        same == (a@ == b@),
{
    let x = a.as_bytes();
    let y = b.as_bytes();
    proof {
        // equal bytes decode to equal characters
        encode_utf8_decode_utf8(a@);
        encode_utf8_decode_utf8(b@);
    }
    if x.len() != y.len() {
        return false;
    }
    let n: usize = x.len();
    let mut i: usize = 0;
    while i < n
        invariant
            i <= n,
            n == x@.len(),
            n == y@.len(),
            x@ == encode_utf8(a@),
            y@ == encode_utf8(b@),
            forall|j: int| 0 <= j < i ==> x@[j] == y@[j],
        decreases n - i,
    {
        if x[i] != y[i] {
            return false;
        }
        i = i + 1;
    }
    assert(x@ =~= y@);
    true
}

/// The word `yes`, each letter in either case.
pub open spec fn is_yes(answer: Seq<char>) -> bool {
    &&& answer.len() == 3
    &&& (answer[0] == 'y' || answer[0] == 'Y')
    &&& (answer[1] == 'e' || answer[1] == 'E')
    &&& (answer[2] == 's' || answer[2] == 'S')
}

/// Whether an answer is the word `yes`, whatever the case of its letters.
pub fn answers_yes(answer: &str) -> (yes: bool)
    ensures
        yes == is_yes(answer@),
{
    if !answer.is_ascii() {
        return false;
    }
    let bytes = answer.as_bytes();
    proof {
        is_ascii_chars_encode_utf8(answer@);
    }
    if bytes.len() != 3 {
        return false;
    }
    let first: u8 = bytes[0];
    let second: u8 = bytes[1];
    let third: u8 = bytes[2];
    assert(first == answer@[0] as u8 && second == answer@[1] as u8 && third == answer@[2] as u8);
    (first == 121 || first == 89) && (second == 101 || second == 69) && (third == 115 || third == 83)
}

} // verus!
