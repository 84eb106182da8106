//! Identity keys of resources: where the source data of a resource comes
//! from, and whether two requests for it may share one instance.

use vstd::prelude::*;
use vstd::string::StringSliceAdditionalSpecFns;

verus! {

/// The sharing class of a location.
#[derive(Debug, Clone, Copy, Eq, PartialEq, Hash, Structural)]
pub enum Signature {
    /// Never shared: distinct from every location, itself included.
    Unique,
    /// Shared by every location with the same path.
    Shared,
    /// Shared by every location with the same token and the same path.
    TokenShared(u8),
}

impl Signature {
    /// Whether this class allows sharing.
    pub open spec fn spec_is_shared(&self) -> bool {
        !(*self matches Signature::Unique)
    }

    /// Returns true if this class allows sharing.
    #[inline]
    #[verifier::when_used_as_spec(spec_is_shared)]
    pub fn is_shared(&self) -> (r: bool)
        ensures
            r == self.spec_is_shared(),
    {
        if let Signature::Unique = *self {
            false
        } else {
            true
        }
    }
}

/// The starting value of the content hash.
pub const HASH_BASIS: u64 = 0xcbf29ce484222325u64;

/// The multiplier of the content hash.
pub const HASH_PRIME: u64 = 0x100000001b3u64;

/// One step of the content hash: fold the byte in, then multiply.
pub open spec fn hash_step(h: u64, b: u8) -> u64 {
    (h ^ (b as u64)).wrapping_mul(HASH_PRIME)
}

/// The 64-bit content hash of a path, taken over its bytes from first to
/// last.
pub open spec fn content_hash(bytes: Seq<u8>) -> u64
    decreases bytes.len(),
{
    if bytes.len() == 0 {
        HASH_BASIS
    } else {
        hash_step(content_hash(bytes.drop_last()), bytes.last())
    }
}

/// Computes the content hash of `bytes`.
pub fn hash_bytes(bytes: &[u8]) -> (h: u64)
    ensures
        h == content_hash(bytes@),
{
    let mut h: u64 = HASH_BASIS;
    let mut i: usize = 0;
    while i < bytes.len()
        invariant
            i <= bytes.len(),
            h == content_hash(bytes@.take(i as int)),
        decreases bytes.len() - i,
    {
        proof {
            assert(bytes@.take(i + 1).drop_last() =~= bytes@.take(i as int));
        }
        h = (h ^ (bytes[i] as u64)).wrapping_mul(HASH_PRIME);
        i += 1;
    }
    proof {
        assert(bytes@.take(i as int) =~= bytes@);
    }
    h
}

/// Tells whether two byte strings hold the same bytes.
pub fn bytes_equal(a: &[u8], b: &[u8]) -> (r: bool)
    ensures
        r == (a@ == b@),
{
    if a.len() != b.len() {
        return false;
    }
    let mut i: usize = 0;
    while i < a.len()
        invariant
            a.len() == b.len(),
            i <= a.len(),
            forall|k: int| 0 <= k < i ==> a@[k] == b@[k],
        decreases a.len() - i,
    {
        if a[i] != b[i] {
            return false;
        }
        i += 1;
    }
    proof {
        assert(a@ =~= b@);
    }
    true
}

/// A `Location` describes where the source data for a resource is located.
/// `Location`s are also used for sharing: two shared locations that are
/// completely identical identify the same resource.
#[derive(Debug, Clone, Copy, Hash)]
pub struct Location<'a> {
    code: Signature,
    location: &'a str,
}

/// Hash object of a `Location`: its sharing class and the content hash of its
/// path. It owns what it holds, so it can outlive the path it was made from.
#[derive(Debug, Clone, Copy, Hash)]
pub struct LocationAtom {
    code: Signature,
    location: u64,
}

impl<'a> Location<'a> {
    /// The sharing class of this location.
    pub closed spec fn signature(&self) -> Signature {
        self.code
    }

    /// The bytes of the path of this location.
    pub closed spec fn path(&self) -> Seq<u8> {
        self.location.spec_bytes()
    }

    /// The path of this location as text.
    pub closed spec fn spec_uri(&self) -> &'a str {
        self.location
    }

    /// Whether this location is shared.
    pub open spec fn spec_is_shared(&self) -> bool {
        self.signature().is_shared()
    }

    /// The atom that stands for this location.
    pub open spec fn atom(&self) -> LocationAtom {
        LocationAtom::spec_new(self.signature(), content_hash(self.path()))
    }

    /// What `==` means on locations: both are shared in the same class, with
    /// the same token if they have one, and their paths hold the same bytes.
    pub open spec fn same(&self, other: &Location<'a>) -> bool {
        &&& self.signature().is_shared()
        &&& self.signature() == other.signature()
        &&& self.path() == other.path()
    }

    /// The location of class `code` at `location`.
    pub closed spec fn spec_new(code: Signature, location: &'a str) -> Location<'a> {
        Location { code, location }
    }

    /// A location is its class and its path, nothing more.
    pub broadcast proof fn lemma_parts(code: Signature, location: &'a str)
        ensures
            (#[trigger] Location::spec_new(code, location)).signature() == code,
            Location::spec_new(code, location).spec_uri() == location,
            Location::spec_new(code, location).path() == location.spec_bytes(),
    {
    }

    /// A location that is never shared.
    pub fn unique(location: &'a str) -> (l: Self)
        ensures
            l == Location::spec_new(Signature::Unique, location),
            l.signature() == Signature::Unique,
            l.spec_uri() == location,
            l.path() == location.spec_bytes(),
    {
        Location { location, code: Signature::Unique }
    }

    /// A location shared by its path.
    pub fn shared(location: &'a str) -> (l: Self)
        ensures
            l == Location::spec_new(Signature::Shared, location),
            l.signature() == Signature::Shared,
            l.spec_uri() == location,
            l.path() == location.spec_bytes(),
    {
        Location { location, code: Signature::Shared }
    }

    /// A location shared by its path among the locations that carry the
    /// token `code`.
    pub fn token(code: u8, location: &'a str) -> (l: Self)
        ensures
            l == Location::spec_new(Signature::TokenShared(code), location),
            l.signature() == Signature::TokenShared(code),
            l.spec_uri() == location,
            l.path() == location.spec_bytes(),
    {
        Location { location, code: Signature::TokenShared(code) }
    }

    /// Returns true if this location is shared.
    #[inline]
    #[verifier::when_used_as_spec(spec_is_shared)]
    pub fn is_shared(&self) -> (r: bool)
        ensures
            r == self.spec_is_shared(),
    {
        self.code.is_shared()
    }

    /// Gets the uniform resource identifier.
    #[inline]
    pub fn uri(&self) -> (p: &'a str)
        ensures
            p == self.spec_uri(),
            p.spec_bytes() == self.path(),
    {
        self.location
    }

    /// Gets the hash object of this location.
    #[inline]
    pub fn hash(&self) -> (a: LocationAtom)
        ensures
            a == self.atom(),
    {
        LocationAtom { code: self.code, location: hash_bytes(self.location.as_bytes()) }
    }
}

impl LocationAtom {
    /// The atom of class `code` whose path hashes to `hash`.
    pub closed spec fn spec_new(code: Signature, hash: u64) -> LocationAtom {
        LocationAtom { code, location: hash }
    }

    /// The sharing class of this atom.
    pub closed spec fn signature(&self) -> Signature {
        self.code
    }

    /// The content hash of the path this atom was made from.
    pub closed spec fn spec_value(&self) -> u64 {
        self.location
    }

    /// Whether this atom is shared.
    pub open spec fn spec_is_shared(&self) -> bool {
        self.signature().is_shared()
    }

    /// What `==` means on atoms: both are shared in the same class, with the
    /// same token if they have one, and their content hashes agree.
    pub open spec fn same(&self, other: &LocationAtom) -> bool {
        &&& self.signature().is_shared()
        &&& self.signature() == other.signature()
        &&& self.spec_value() == other.spec_value()
    }

    /// An atom is its class and its content hash, nothing more.
    pub broadcast proof fn lemma_parts(code: Signature, hash: u64)
        ensures
            (#[trigger] LocationAtom::spec_new(code, hash)).signature() == code,
            LocationAtom::spec_new(code, hash).spec_value() == hash,
    {
    }

    /// Two atoms with the same class and content hash are one atom.
    pub broadcast proof fn lemma_extensional(a: LocationAtom, b: LocationAtom)
        ensures
            (#[trigger] a.signature() == #[trigger] b.signature() && a.spec_value()
                == b.spec_value()) ==> a == b,
    {
    }

    /// Returns true if this atom is shared.
    #[inline]
    #[verifier::when_used_as_spec(spec_is_shared)]
    pub fn is_shared(&self) -> (r: bool)
        ensures
            r == self.spec_is_shared(),
    {
        self.code.is_shared()
    }

    /// Returns the content hash of the path this atom was made from.
    #[verifier::when_used_as_spec(spec_value)]
    pub fn value(&self) -> (h: u64)
        ensures
            h == self.spec_value(),
    {
        self.location
    }

    /// Tells whether two atoms have the same class and content hash, shared
    /// or not. Unlike `==` this holds of a unique atom and itself.
    pub fn identical(&self, other: &LocationAtom) -> (r: bool)
        ensures
            r == (*self == *other),
    {
        self.code == other.code && self.location == other.location
    }
}

impl<'a> PartialEq for Location<'a> {
    fn eq(&self, other: &Self) -> (r: bool) {
        if self.code.is_shared() {
            self.code == other.code && bytes_equal(
                self.location.as_bytes(),
                other.location.as_bytes(),
            )
        } else {
            false
        }
    }
}

impl<'a> vstd::std_specs::cmp::PartialEqSpecImpl for Location<'a> {
    open spec fn obeys_eq_spec() -> bool {
        true
    }

    open spec fn eq_spec(&self, other: &Self) -> bool {
        self.same(other)
    }
}

impl<'a> Eq for Location<'a> {

}

impl<'a> Default for Location<'a> {
    /// The default location is unique and has an empty path.
    fn default() -> (l: Self)
        ensures
            l == Location::spec_new(Signature::Unique, ""),
            l.signature() == Signature::Unique,
            l.path() == "".spec_bytes(),
    {
        Location { code: Signature::Unique, location: "" }
    }
}

impl PartialEq for LocationAtom {
    fn eq(&self, other: &Self) -> (r: bool) {
        if self.code.is_shared() {
            self.code == other.code && self.location == other.location
        } else {
            false
        }
    }
}

impl vstd::std_specs::cmp::PartialEqSpecImpl for LocationAtom {
    open spec fn obeys_eq_spec() -> bool {
        true
    }

    open spec fn eq_spec(&self, other: &Self) -> bool {
        self.same(other)
    }
}

impl Eq for LocationAtom {

}

impl<'a> From<Location<'a>> for LocationAtom {
    fn from(v: Location<'a>) -> (a: Self) {
        v.hash()
    }
}

impl<'a> vstd::std_specs::convert::FromSpecImpl<Location<'a>> for LocationAtom {
    open spec fn obeys_from_spec() -> bool {
        true
    }

    open spec fn from_spec(v: Location<'a>) -> Self {
        v.atom()
    }
}

impl Default for LocationAtom {
    /// The default atom is that of the default location.
    fn default() -> (a: Self)
        ensures
            a == LocationAtom::spec_new(Signature::Unique, content_hash("".spec_bytes())),
    {
        Location::default().hash()
    }
}

/// Equality of locations is symmetric, and no unique location equals
/// anything, itself included.
pub proof fn lemma_location_equality(a: Location, b: Location)
    ensures
        a.same(&b) == b.same(&a),
        !a.is_shared() ==> !a.same(&a) && !a.same(&b) && !b.same(&a),
        a.is_shared() ==> a.same(&a),
{
}

/// Two shared locations with the same path are equal, and so are their hash
/// objects.
pub proof fn lemma_shared_same_path(a: Location, b: Location)
    requires
        a.signature() == Signature::Shared,
        b.signature() == Signature::Shared,
        a.path() == b.path(),
    ensures
        a.same(&b),
        a.atom() == b.atom(),
        a.atom().same(&b.atom()),
{
    broadcast use LocationAtom::lemma_parts;

}

/// Two token-shared locations with different tokens are unequal whatever
/// their paths, and so are their hash objects.
pub proof fn lemma_tokens_differ(a: Location, b: Location, t1: u8, t2: u8)
    requires
        a.signature() == Signature::TokenShared(t1),
        b.signature() == Signature::TokenShared(t2),
        t1 != t2,
    ensures
        !a.same(&b),
        !a.atom().same(&b.atom()),
        a.atom() != b.atom(),
{
    broadcast use LocationAtom::lemma_parts;

}

/// Equal locations have equal hash objects. The converse holds up to a
/// collision of the content hash: equal hash objects have the same class and
/// paths with the same content hash.
pub proof fn lemma_atom_respects_equality(a: Location, b: Location)
    ensures
        a.same(&b) ==> a.atom().same(&b.atom()) && a.atom() == b.atom(),
        a.atom().same(&b.atom()) <==> (a.is_shared() && a.signature() == b.signature()
            && content_hash(a.path()) == content_hash(b.path())),
        a.atom().is_shared() == a.is_shared(),
{
    broadcast use LocationAtom::lemma_parts;

}

} // verus!
