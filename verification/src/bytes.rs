//! Byte-string helpers used throughout the engine. Names (DNS names, DER
//! name encodings, object identifiers) are held as plain byte vectors.
use vstd::prelude::*;

verus! {

/// Compares two byte vectors for equality of their contents.
pub fn bytes_eq(a: &Vec<u8>, b: &Vec<u8>) -> (r: bool)
    ensures
        r == (a@ == b@),
{
    if a.len() != b.len() {
        assert(a@ != b@);
        return false;
    }
    let mut i: usize = 0;
    while i < a.len()
        invariant
            i <= a.len(),
            a@.len() == b@.len(),
            forall|k: int| 0 <= k < i ==> a@[k] == b@[k],
        decreases a.len() - i,
    {
        if a[i] != b[i] {
            return false;
        }
        i += 1;
    }
    proof {
        assert(a@ =~= b@);
    }
    true
}

/// Copies a byte vector.
pub fn copy_bytes(a: &Vec<u8>) -> (r: Vec<u8>)
    ensures
        r@ == a@,
{
    let mut out: Vec<u8> = Vec::new();
    let mut i: usize = 0;
    while i < a.len()
        invariant
            i <= a.len(),
            out@ == a@.subrange(0, i as int),
        decreases a.len() - i,
    {
        out.push(a[i]);
        assert(out@ =~= a@.subrange(0, i + 1 as int));
        i += 1;
    }
    assert(out@ =~= a@);
    out
}

/// Whether `suffix` is a suffix of `name`.
pub open spec fn spec_ends_with(name: Seq<u8>, suffix: Seq<u8>) -> bool {
    name.len() >= suffix.len() && name.subrange(name.len() - suffix.len(), name.len() as int)
        == suffix
}

pub fn ends_with(name: &Vec<u8>, suffix: &Vec<u8>) -> (r: bool)
    ensures
        r == spec_ends_with(name@, suffix@),
{
    if name.len() < suffix.len() {
        return false;
    }
    let off: usize = name.len() - suffix.len();
    let mut j: usize = off;
    while j < name.len()
        invariant
            off <= j <= name@.len(),
            off + suffix@.len() == name@.len(),
            forall|k: int| off <= k < j ==> name@[k] == suffix@[k - off],
        decreases name.len() - j,
    {
        if name[j] != suffix[j - off] {
            assert(name@.subrange(off as int, name@.len() as int)[j - off] != suffix@[j - off]);
            return false;
        }
        j += 1;
    }
    proof {
        assert(name@.subrange(off as int, name@.len() as int) =~= suffix@);
    }
    true
}

/// Whether `prefix` is a prefix of `name`.
pub open spec fn spec_starts_with(name: Seq<u8>, prefix: Seq<u8>) -> bool {
    name.len() >= prefix.len() && name.subrange(0, prefix.len() as int) == prefix
}

pub fn starts_with(name: &Vec<u8>, prefix: &Vec<u8>) -> (r: bool)
    ensures
        r == spec_starts_with(name@, prefix@),
{
    if name.len() < prefix.len() {
        return false;
    }
    let mut i: usize = 0;
    while i < prefix.len()
        invariant
            i <= prefix.len(),
            name@.len() >= prefix@.len(),
            forall|k: int| 0 <= k < i ==> name@[k] == prefix@[k],
        decreases prefix.len() - i,
    {
        if name[i] != prefix[i] {
            assert(name@.subrange(0, prefix@.len() as int)[i as int] != prefix@[i as int]);
            return false;
        }
        i += 1;
    }
    proof {
        assert(name@.subrange(0, prefix@.len() as int) =~= prefix@);
    }
    true
}

/// Whether the byte `b` occurs in `name`.
pub open spec fn spec_contains_byte(name: Seq<u8>, b: u8) -> bool {
    exists|k: int| 0 <= k < name.len() && name[k] == b
}

pub fn contains_byte(name: &Vec<u8>, b: u8) -> (r: bool)
    ensures
        r == spec_contains_byte(name@, b),
{
    let mut i: usize = 0;
    while i < name.len()
        invariant
            i <= name.len(),
            forall|k: int| 0 <= k < i ==> name@[k] != b,
        decreases name.len() - i,
    {
        if name[i] == b {
            return true;
        }
        i += 1;
    }
    false
}

/// The index just after the last `@` in `s`, or 0 when `s` holds no `@`:
/// the start of the host portion of a mailbox name.
pub open spec fn spec_host_start(s: Seq<u8>) -> int
    decreases s.len(),
{
    if s.len() == 0 {
        0
    } else if s[s.len() - 1] == 64u8 {
        s.len() as int
    } else {
        spec_host_start(s.drop_last())
    }
}

pub fn host_start(s: &Vec<u8>) -> (r: usize)
    ensures
        r == spec_host_start(s@),
        r <= s@.len(),
{
    let mut i: usize = s.len();
    proof {
        assert(s@.subrange(0, s@.len() as int) =~= s@);
    }
    while i > 0
        invariant
            i <= s.len(),
            spec_host_start(s@) == spec_host_start(s@.subrange(0, i as int)),
        decreases i,
    {
        if s[i - 1] == 64u8 {
            proof {
                assert(s@.subrange(0, i as int)[i - 1] == 64u8);
            }
            return i;
        }
        proof {
            assert(s@.subrange(0, i as int).drop_last() =~= s@.subrange(0, i - 1 as int));
        }
        i -= 1;
    }
    proof {
        assert(s@.subrange(0, 0) =~= Seq::<u8>::empty());
    }
    0
}

/// The suffix of `s` starting at `from`.
pub fn tail_from(s: &Vec<u8>, from: usize) -> (r: Vec<u8>)
    requires
        from <= s@.len(),
    ensures
        r@ == s@.subrange(from as int, s@.len() as int),
{
    let mut out: Vec<u8> = Vec::new();
    let mut i: usize = from;
    while i < s.len()
        invariant
            from <= i <= s.len(),
            out@ == s@.subrange(from as int, i as int),
        decreases s.len() - i,
    {
        out.push(s[i]);
        assert(out@ =~= s@.subrange(from as int, i + 1 as int));
        i += 1;
    }
    assert(out@ =~= s@.subrange(from as int, s@.len() as int));
    out
}


/// The prefix of `s` of length `upto`.
pub fn head_to(s: &Vec<u8>, upto: usize) -> (r: Vec<u8>)
    requires
        upto <= s@.len(),
    ensures
        r@ == s@.subrange(0, upto as int),
{
    let mut out: Vec<u8> = Vec::new();
    let mut i: usize = 0;
    while i < upto
        invariant
            i <= upto <= s@.len(),
            out@ == s@.subrange(0, i as int),
        decreases upto - i,
    {
        out.push(s[i]);
        assert(out@ =~= s@.subrange(0, i + 1 as int));
        i += 1;
    }
    out
}

} // verus!
