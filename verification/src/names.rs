//! Derivation of environment binding names from configuration field names.
//!
//! The rule is a pure case transformation: every ASCII lowercase letter is
//! replaced by its uppercase counterpart and every other character is left
//! unchanged, so a field `database_url` is looked up under `DATABASE_URL`
//! and a field `databaseURL` under `DATABASEURL`.

use vstd::prelude::*;
use vstd::string::StrSliceExecFns;

verus! {

/// The uppercase form of one character: ASCII letters `a`..`z` map to
/// `A`..`Z`; every other character is unchanged.
pub open spec fn upper_char(c: char) -> char {
    if 'a' <= c && c <= 'z' {
        (((c as u8) - 32) as char)
    } else {
        c
    }
}

/// The binding name derived from a field name: every character upper-cased.
pub open spec fn binding_of(field: Seq<char>) -> Seq<char> {
    field.map(|i: int, c: char| upper_char(c))
}

/// Relies on `String::from_utf8`: a vector of ASCII bytes decodes to the
/// string whose characters are exactly those bytes' code points.
#[verifier::external_body]
fn string_from_ascii(bytes: Vec<u8>) -> (r: String)
    requires
        forall|i: int| 0 <= i < bytes@.len() ==> bytes@[i] < 128,
    ensures
        r@ == bytes@.map(|i: int, b: u8| b as char),
{
    match String::from_utf8(bytes) {
        Ok(s) => s,
        Err(_) => String::new(),
    }
}

/// Derive the environment binding name for a field: the field name with
/// every character upper-cased, and nothing else changed.
pub fn binding_name(field: &str) -> (r: String)
    requires
        field.is_ascii(),
    ensures
        r@ == binding_of(field@),
{
    let n: usize = field.unicode_len();
    let mut bytes: Vec<u8> = Vec::new();
    let mut i: usize = 0;
    while i < n
        invariant
            field.is_ascii(),
            n == field@.len(),
            i <= n,
            bytes@.len() == i as int,
            forall|j: int| 0 <= j < i ==> bytes@[j] == upper_char(field@[j]) as u8,
            forall|j: int| 0 <= j < i ==> bytes@[j] < 128,
        decreases n - i,
    {
        let b = field.get_ascii(i);
        let ub = if b >= 97 && b <= 122 {
            b - 32
        } else {
            b
        };
        bytes.push(ub);
        i += 1;
    }
    let r = string_from_ascii(bytes);
    proof {
        assert(r@ =~= binding_of(field@));
    }
    r
}

} // verus!
