//! Byte-level comparisons of UTF-8 text used by the validators.

use vstd::prelude::*;
use vstd::string::StringSliceAdditionalSpecFns;

verus! {

/// `bytes` begins with `prefix`.
pub open spec fn starts_with_bytes(bytes: Seq<u8>, prefix: Seq<u8>) -> bool {
    prefix.len() <= bytes.len() && bytes.subrange(0, prefix.len() as int) == prefix
}

/// `bytes` ends with `suffix`.
pub open spec fn ends_with_bytes(bytes: Seq<u8>, suffix: Seq<u8>) -> bool {
    suffix.len() <= bytes.len() && bytes.subrange(
        bytes.len() - suffix.len(),
        bytes.len() as int,
    ) == suffix
}

/// Returns `true` when the UTF-8 encoding of `s` begins with that of
/// `prefix`.
pub fn str_starts_with(s: &str, prefix: &str) -> (r: bool)
    ensures
        r == starts_with_bytes(s.spec_bytes(), prefix.spec_bytes()),
{
    let b = s.as_bytes();
    let p = prefix.as_bytes();
    if p.len() > b.len() {
        return false;
    }
    let mut i: usize = 0;
    while i < p.len()
        invariant
            b@ == s.spec_bytes(),
            p@ == prefix.spec_bytes(),
            p@.len() <= b@.len(),
            i <= p@.len(),
            forall|j: int| 0 <= j < i ==> b@[j] == p@[j],
        decreases p@.len() - i,
    {
        if b[i] != p[i] {
            assert(b@.subrange(0, p@.len() as int)[i as int] != p@[i as int]);
            return false;
        }
        i = i + 1;
    }
    assert(b@.subrange(0, p@.len() as int) =~= p@);
    true
}

/// Returns `true` when the UTF-8 encoding of `s` ends with that of
/// `suffix`.
pub fn str_ends_with(s: &str, suffix: &str) -> (r: bool)
    ensures
        r == ends_with_bytes(s.spec_bytes(), suffix.spec_bytes()),
{
    let b = s.as_bytes();
    let p = suffix.as_bytes();
    if p.len() > b.len() {
        return false;
    }
    let start: usize = b.len() - p.len();
    let mut i: usize = 0;
    while i < p.len()
        invariant
            b@ == s.spec_bytes(),
            p@ == suffix.spec_bytes(),
            b@.len() == b.len(),
            p@.len() <= b@.len(),
            start == b@.len() - p@.len(),
            i <= p@.len(),
            forall|j: int| 0 <= j < i ==> b@[start + j] == p@[j],
        decreases p@.len() - i,
    {
        if b[start + i] != p[i] {
            assert(b@.subrange(start as int, b@.len() as int)[i as int] != p@[i as int]);
            return false;
        }
        i = i + 1;
    }
    assert(b@.subrange(start as int, b@.len() as int) =~= p@);
    true
}

/// Returns `true` when `a` and `b` hold the same text, comparing their UTF-8
/// encodings byte by byte.
pub fn str_eq(a: &str, b: &str) -> (r: bool)
    ensures
        r == (a@ == b@),
{
    let x = a.as_bytes();
    let y = b.as_bytes();
    proof {
        vstd::utf8::encode_utf8_decode_utf8(a@);
        vstd::utf8::encode_utf8_decode_utf8(b@);
    }
    if x.len() != y.len() {
        return false;
    }
    let mut i: usize = 0;
    while i < x.len()
        invariant
            x@ == a.spec_bytes(),
            y@ == b.spec_bytes(),
            vstd::utf8::decode_utf8(a.spec_bytes()) == a@,
            vstd::utf8::decode_utf8(b.spec_bytes()) == b@,
            x@.len() == y@.len(),
            i <= x@.len(),
            forall|j: int| 0 <= j < i ==> x@[j] == y@[j],
        decreases x@.len() - i,
    {
        if x[i] != y[i] {
            return false;
        }
        i = i + 1;
    }
    assert(x@ =~= y@);
    true
}

/// `starts_with_bytes` holds exactly when the prefix is no longer than the
/// bytes and agrees with them at every one of its positions.
pub proof fn law_starts_with_bytes_is_prefix(bytes: Seq<u8>, prefix: Seq<u8>)
    ensures
        starts_with_bytes(bytes, prefix) == (prefix.len() <= bytes.len() && forall|i: int|
            0 <= i < prefix.len() ==> #[trigger] bytes[i] == prefix[i]),
{
    if prefix.len() <= bytes.len() {
        if forall|i: int| 0 <= i < prefix.len() ==> #[trigger] bytes[i] == prefix[i] {
            assert(bytes.subrange(0, prefix.len() as int) =~= prefix);
        }
        if bytes.subrange(0, prefix.len() as int) == prefix {
            assert forall|i: int| 0 <= i < prefix.len() implies #[trigger] bytes[i] == prefix[i] by {
                assert(bytes.subrange(0, prefix.len() as int)[i] == bytes[i]);
            }
        }
    }
}

/// `ends_with_bytes` holds exactly when the suffix is no longer than the
/// bytes and agrees with their last bytes position by position.
pub proof fn law_ends_with_bytes_is_suffix(bytes: Seq<u8>, suffix: Seq<u8>)
    ensures
        ends_with_bytes(bytes, suffix) == (suffix.len() <= bytes.len() && forall|i: int|
            0 <= i < suffix.len() ==> #[trigger] bytes[bytes.len() - suffix.len() + i]
                == suffix[i]),
{
    if suffix.len() <= bytes.len() {
        let start = bytes.len() - suffix.len();
        if forall|i: int|
            0 <= i < suffix.len() ==> #[trigger] bytes[bytes.len() - suffix.len() + i]
                == suffix[i] {
            assert forall|i: int| 0 <= i < suffix.len() implies bytes.subrange(
                start,
                bytes.len() as int,
            )[i] == suffix[i] by {
                assert(bytes[bytes.len() - suffix.len() + i] == suffix[i]);
            }
            assert(bytes.subrange(start, bytes.len() as int) =~= suffix);
        }
        if bytes.subrange(start, bytes.len() as int) == suffix {
            assert forall|i: int| 0 <= i < suffix.len() implies #[trigger] bytes[bytes.len()
                - suffix.len() + i] == suffix[i] by {
                assert(bytes.subrange(start, bytes.len() as int)[i] == bytes[start + i]);
            }
        }
    }
}

} // verus!
