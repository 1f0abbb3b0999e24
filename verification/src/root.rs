//! The text of a root, `<epoch>/<digest in hexadecimal>`, and its reading.

use vstd::prelude::*;
use crate::decimal::{
    decimal_digits, is_digit, lemma_decimal_round_trip, parse_numeral, parse_u64,
};
use crate::epoch::{root_text, Epoch};
use crate::hexcode::{decode_hex, hex_decoded, hex_encoded, is_hex_text, lemma_hex_round_trip};

verus! {

/// `i` is the place of the first slash of `s`.
pub open spec fn is_first_slash(s: Seq<char>, i: int) -> bool {
    &&& 0 <= i < s.len()
    &&& s[i] == '/'
    &&& forall|j: int| 0 <= j < i ==> s[j] != '/'
}

/// The root that the text `s` stands for: the number of its epoch and its
/// digest. The text must be a decimal numeral that fits in 64 bits, one
/// slash, and hexadecimal text; any other text stands for no root.
pub open spec fn parsed_root(s: Seq<char>) -> Option<(u64, Seq<u8>)> {
    if exists|i: int| is_first_slash(s, i) {
        let i = choose|i: int| is_first_slash(s, i);
        let head = s.subrange(0, i);
        let tail = s.subrange(i + 1, s.len() as int);
        match parse_numeral(head, u64::MAX as nat) {
            Some(n) => if is_hex_text(tail) {
                Some((n as u64, hex_decoded(tail)))
            } else {
                None
            },
            None => None,
        }
    } else {
        None
    }
}

/// A text has at most one first slash.
pub proof fn lemma_first_slash_unique(s: Seq<char>, i: int, j: int)
    requires
        is_first_slash(s, i),
        is_first_slash(s, j),
    ensures
        i == j,
{
    if i < j {
        assert(s[i] != '/');
    } else if j < i {
        assert(s[j] != '/');
    }
}

/// Reads the text of a root.
pub fn parse_root(root: &str) -> (r: Option<(Epoch, Vec<u8>)>)
    ensures
        match parsed_root(root@) {
            Some((epoch, digest)) => r is Some && r->Some_0.0@ == epoch && r->Some_0.1@ == digest,
            None => r is None,
        },
{
    let n: usize = root.unicode_len();
    let mut i: usize = 0;
    while i < n && root.get_char(i) != '/'
        invariant
            i <= n,
            n == root@.len(),
            forall|j: int| 0 <= j < i ==> root@[j] != '/',
        decreases n - i,
    {
        i += 1;
    }
    if i == n {
        assert forall|k: int| !is_first_slash(root@, k) by {
            if 0 <= k < n {
                assert(root@[k] != '/');
            }
        }
        return None;
    }
    assert(is_first_slash(root@, i as int));
    proof {
        let chosen = choose|k: int| is_first_slash(root@, k);
        lemma_first_slash_unique(root@, i as int, chosen);
    }
    let head = root.substring_char(0, i);
    let tail = root.substring_char(i + 1, n);
    let epoch = match parse_u64(head) {
        Some(number) => Epoch::new(number),
        None => {
            return None;
        },
    };
    match decode_hex(tail) {
        Some(digest) => Some((epoch, digest)),
        None => None,
    }
}

/// The text that is written for a root reads as that root: what
/// `Epoch::as_root_epoch` makes of an epoch and the hexadecimal text of a
/// digest, `parse_root` takes apart again.
pub proof fn lemma_root_round_trip(epoch: u64, digest: Seq<u8>)
    ensures
        parsed_root(root_text(epoch, hex_encoded(digest))) == Some((epoch, digest)),
{
    let digits = decimal_digits(epoch as nat);
    let hex = hex_encoded(digest);
    let s = root_text(epoch, hex);
    lemma_decimal_round_trip(epoch as nat);
    lemma_hex_round_trip(digest);
    let i = digits.len() as int;
    assert(s[i] == '/');
    assert forall|j: int| 0 <= j < i implies s[j] != '/' by {
        assert(s[j] == digits[j]);
        assert(is_digit(digits[j]));
    }
    assert(is_first_slash(s, i));
    let chosen = choose|k: int| is_first_slash(s, k);
    lemma_first_slash_unique(s, i, chosen);
    assert(s.subrange(0, i) =~= digits);
    assert(s.subrange(i + 1, s.len() as int) =~= hex);
}

} // verus!
