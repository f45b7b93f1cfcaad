//! Conversions from native battery fields to the values a Java object holds.

use vstd::prelude::*;

verus! {

/// A battery's cycle count crosses the bridge as a Java `long`; an absent
/// count is encoded as `long`'s smallest value.
pub fn cycle_count_field(count: &Option<u32>) -> (r: i64)
    ensures
        match count {
            Some(v) => r == *v as i64,
            None => r == i64::MIN,
        },
{
    match count {
        Some(v) => *v as i64,
        None => i64::MIN,
    }
}

/// The character-for-character rule by which a native enum value's display
/// name becomes the name of the matching Java enum constant: an ASCII
/// lower-case letter is raised to upper case, `-` becomes `_`, and every
/// other character stays as it is.
pub open spec fn constant_char(c: char) -> char {
    if c == '-' {
        '_'
    } else if 'a' <= c && c <= 'z' {
        (((c as u32) - 0x20) as u8) as char
    } else {
        c
    }
}

/// Relies on String::push: appends exactly the given character.
#[verifier::external_body]
fn push_char(s: &mut String, c: char)
    ensures
        final(s)@ == old(s)@.push(c),
{
    s.push(c);
}

/// The whole display name under [`constant_char`], character for character.
pub open spec fn constant_name(s: Seq<char>) -> Seq<char> {
    s.map(|_i: int, c: char| constant_char(c))
}

/// Turns a native enum value's display name (`lithium-ion`) into the name of
/// the Java enum constant that represents it (`LITHIUM_ION`).
pub fn enum_member_name(value: &str) -> (r: String)
    ensures
        r@ == constant_name(value@),
{
    let n = value.unicode_len();
    let mut r = String::new();
    let mut i: usize = 0;
    while i < n
        invariant
            i <= n,
            n == value@.len(),
            r@ == constant_name(value@.take(i as int)),
        decreases n - i,
    {
        let c = value.get_char(i);
        let m: char = if c == '-' {
            '_'
        } else if 'a' <= c && c <= 'z' {
            (((c as u32) - 0x20) as u8) as char
        } else {
            c
        };
        push_char(&mut r, m);
        proof {
            let s1 = constant_name(value@.take(i + 1));
            let s2 = constant_name(value@.take(i as int)).push(constant_char(value@[i as int]));
            assert forall|j: int| 0 <= j < s1.len() implies s1[j] == s2[j] by {
                assert(value@.take(i + 1)[j] == value@[j]);
                if j < i {
                    assert(value@.take(i as int)[j] == value@[j]);
                }
            }
            assert(s1 =~= s2);
        }
        i = i + 1;
    }
    proof {
        assert(value@.take(n as int) =~= value@);
    }
    r
}

} // verus!
