//! Strings hashed once, so that comparing them compares two integers.

use core::cmp::Ordering;
use vstd::prelude::*;
use vstd::string::StringSliceAdditionalSpecFns;

verus! {

/// The FNV-1a 64-bit offset basis.
pub const FNV_OFFSET_BASIS_64: u64 = 0xcbf29ce484222325;
/// The FNV-1a 64-bit prime.
pub const FNV_PRIME_64: u64 = 0x100000001b3;

/// The 64-bit FNV-1a hash of a byte string: starting from the offset
/// basis, each byte is xored into the hash, which is then multiplied by the
/// prime, wrapping.
pub open spec fn fnv1a_64(bytes: Seq<u8>) -> u64
    decreases bytes.len(),
{
    if bytes.len() == 0 {
        FNV_OFFSET_BASIS_64
    } else {
        ((fnv1a_64(bytes.drop_last()) ^ (bytes.last() as u64)) * FNV_PRIME_64) as u64
    }
}

/// `const_fnv1a_hash::fnv1a_hash_str_64`: the FNV-1a hash of the string's
/// UTF-8 bytes.
#[verifier::external_body]
fn fnv1a_hash_str_64(s: &str) -> (r: u64)
    ensures
        r == fnv1a_64(s.spec_bytes()),
{
    const_fnv1a_hash::fnv1a_hash_str_64(s)
}

/// A string with its precomputed hash. Two hashed strings are equal when
/// their hashes are.
#[derive(Debug, Clone, Copy)]
pub struct HashedStr<'a> {
    pub hash: u64,
    pub string: &'a str,
}

impl<'a> HashedStr<'a> {
    /// The string.
    pub fn as_str(&self) -> (r: &'a str)
        ensures
            r == self.string,
    {
        self.string
    }
}

/// How two byte strings compare in lexicographic order, the order of
/// `str`: the first differing byte decides, and a proper prefix comes
/// first.
pub open spec fn bytes_order(a: Seq<u8>, b: Seq<u8>) -> Ordering
    decreases a.len(),
{
    if a.len() == 0 {
        if b.len() == 0 {
            Ordering::Equal
        } else {
            Ordering::Less
        }
    } else if b.len() == 0 {
        Ordering::Greater
    } else if a[0] < b[0] {
        Ordering::Less
    } else if a[0] > b[0] {
        Ordering::Greater
    } else {
        bytes_order(a.drop_first(), b.drop_first())
    }
}

/// Compares two strings in lexicographic order of their bytes.
fn compare_strs(a: &str, b: &str) -> (r: Ordering)
    ensures
        r == bytes_order(a.spec_bytes(), b.spec_bytes()),
{
    let x = a.as_bytes();
    let y = b.as_bytes();
    let ghost sx = x@;
    let ghost sy = y@;
    let mut i: usize = 0;
    let ghost mut k: int = 0;
    proof {
        assert(sx.skip(0) =~= sx);
        assert(sy.skip(0) =~= sy);
    }
    while i < x.len() && i < y.len()
        invariant
            x@ == sx,
            y@ == sy,
            sx == a.spec_bytes(),
            sy == b.spec_bytes(),
            k == i,
            k <= sx.len(),
            k <= sy.len(),
            bytes_order(sx, sy) == bytes_order(sx.skip(k), sy.skip(k)),
        decreases sx.len() - k,
    {
        proof {
            assert(sx.skip(k)[0] == sx[k]);
            assert(sy.skip(k)[0] == sy[k]);
            assert(sx.skip(k).drop_first() =~= sx.skip(k + 1));
            assert(sy.skip(k).drop_first() =~= sy.skip(k + 1));
        }
        if x[i] < y[i] {
            return Ordering::Less;
        }
        if x[i] > y[i] {
            return Ordering::Greater;
        }
        i = i + 1;
        proof {
            k = k + 1;
        }
    }
    if i < x.len() {
        Ordering::Greater
    } else if i < y.len() {
        Ordering::Less
    } else {
        Ordering::Equal
    }
}

impl<'a> core::ops::Deref for HashedStr<'a> {
    type Target = str;

    fn deref(&self) -> (r: &str)
        ensures
            r == self.string,
    {
        self.string
    }
}

impl<'a> PartialOrd for HashedStr<'a> {
    fn partial_cmp(&self, other: &Self) -> (r: Option<Ordering>) {
        Some(compare_strs(self.string, other.string))
    }
}

impl<'a> vstd::std_specs::cmp::PartialOrdSpecImpl for HashedStr<'a> {
    open spec fn obeys_partial_cmp_spec() -> bool {
        true
    }

    open spec fn partial_cmp_spec(&self, other: &Self) -> Option<Ordering> {
        Some(bytes_order(self.string.spec_bytes(), other.string.spec_bytes()))
    }
}

impl<'a> From<&'a str> for HashedStr<'a> {
    fn from(val: &'a str) -> (r: Self) {
        HashedStr { hash: fnv1a_hash_str_64(val), string: val }
    }
}

impl<'a> vstd::std_specs::convert::FromSpecImpl<&'a str> for HashedStr<'a> {
    open spec fn obeys_from_spec() -> bool {
        true
    }

    open spec fn from_spec(val: &'a str) -> Self {
        HashedStr { hash: fnv1a_64(val.spec_bytes()), string: val }
    }
}

impl<'a> PartialEq for HashedStr<'a> {
    fn eq(&self, other: &Self) -> (r: bool) {
        self.hash == other.hash
    }
}

impl<'a> vstd::std_specs::cmp::PartialEqSpecImpl for HashedStr<'a> {
    open spec fn obeys_eq_spec() -> bool {
        true
    }

    open spec fn eq_spec(&self, other: &Self) -> bool {
        self.hash == other.hash
    }
}

/// A string known when the program is built, with its hash. Two static
/// strings are equal when their strings are; hashing one hashes only its
/// precomputed hash.
#[derive(Debug, Clone, Copy)]
pub struct StaticStr {
    pub hash: u64,
    pub string: &'static str,
}

/// `Hash::hash` of `u64`: feeds the integer to the hasher. Nothing is
/// stated of the hasher's state afterwards.
pub assume_specification<H: core::hash::Hasher>[ <u64 as core::hash::Hash>::hash::<H> ](
    data: &u64,
    state: &mut H,
);

impl core::hash::Hash for StaticStr {
    fn hash<H: core::hash::Hasher>(&self, state: &mut H) {
        self.hash.hash(state);
    }
}

impl StaticStr {
    /// Hashes a static string.
    pub fn new(string: &'static str) -> (r: Self)
        ensures
            r.hash == fnv1a_64(string.spec_bytes()),
            r.string == string,
    {
        StaticStr { hash: fnv1a_hash_str_64(string), string }
    }
}

/// Whether two strings have the same bytes, compared one by one.
fn same_bytes(a: &str, b: &str) -> (r: bool)
    ensures
        r == (a.spec_bytes() == b.spec_bytes()),
{
    let x = a.as_bytes();
    let y = b.as_bytes();
    if x.len() != y.len() {
        return false;
    }
    let mut i: usize = 0;
    while i < x.len()
        invariant
            x@ == a.spec_bytes(),
            y@ == b.spec_bytes(),
            x@.len() == y@.len(),
            i <= x@.len(),
            forall|j: int| 0 <= j < i ==> x@[j] == y@[j],
        decreases x@.len() - i,
    {
        if x[i] != y[i] {
            return false;
        }
        i = i + 1;
    }
    proof {
        assert(x@ =~= y@);
    }
    true
}

impl PartialEq for StaticStr {
    fn eq(&self, other: &Self) -> (r: bool) {
        same_bytes(self.string, other.string)
    }
}

impl Eq for StaticStr {

}

impl vstd::std_specs::cmp::PartialEqSpecImpl for StaticStr {
    open spec fn obeys_eq_spec() -> bool {
        true
    }

    open spec fn eq_spec(&self, other: &Self) -> bool {
        self.string.spec_bytes() == other.string.spec_bytes()
    }
}

/// Static strings that are equal carry equal hashes, when each was made by
/// `StaticStr::new`: hashing by the stored hash agrees with comparing by
/// bytes.
pub proof fn law_equal_static_strs_hash_alike(a: StaticStr, b: StaticStr)
    requires
        a.hash == fnv1a_64(a.string.spec_bytes()),
        b.hash == fnv1a_64(b.string.spec_bytes()),
        a.string.spec_bytes() == b.string.spec_bytes(),
    ensures
        a.hash == b.hash,
{
}

} // verus!
