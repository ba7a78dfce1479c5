//! Player names as they are asked for and as they key the cache.

use vstd::prelude::*;
use vstd::string::{StrSliceExecFns, StringExecFns};
use crate::error::RenderError;

verus! {

/// The least number of characters of an identity.
pub const IDENTITY_MIN_LEN: usize = 3;

/// The greatest number of characters of an identity.
pub const IDENTITY_MAX_LEN: usize = 16;

/// An ASCII letter, an ASCII digit or the underscore.
pub open spec fn is_identity_char(c: char) -> bool {
    let v = c as u32;
    ||| 0x61 <= v <= 0x7a
    ||| 0x41 <= v <= 0x5a
    ||| 0x30 <= v <= 0x39
    ||| v == 0x5f
}

/// Three to sixteen characters, each an ASCII letter, an ASCII digit or the
/// underscore.
pub open spec fn is_identity(s: Seq<char>) -> bool {
    &&& IDENTITY_MIN_LEN <= s.len() <= IDENTITY_MAX_LEN
    &&& forall|i: int| 0 <= i < s.len() ==> is_identity_char(#[trigger] s[i])
}

/// The lowercase form of a string, as `str::to_lowercase` gives it.
pub uninterp spec fn lowercase_spec(s: Seq<char>) -> Seq<char>;

/// Calls `str::to_lowercase`. The contract only names the result: the call
/// is taken to return the same string for the same argument, nothing more.
#[verifier::external_body]
fn lowercase(s: &str) -> (r: String)
    ensures
        r@ == lowercase_spec(s@),
{
    s.to_lowercase()
}

/// A lowercased player name that matches the identity pattern.
pub struct Identity {
    name: String,
}

impl View for Identity {
    type V = Seq<char>;

    closed spec fn view(&self) -> Seq<char> {
        self.name@
    }
}

/// Whether `c` may stand in an identity.
pub fn identity_char(c: char) -> (ok: bool)
    ensures
        ok == is_identity_char(c),
{
    let v: u32 = c as u32;
    (0x61 <= v && v <= 0x7a) || (0x41 <= v && v <= 0x5a) || (0x30 <= v && v <= 0x39) || v == 0x5f
}

/// Whether `name` matches the identity pattern.
pub fn matches_pattern(name: &str) -> (ok: bool)
    ensures
        ok == is_identity(name@),
{
    let len: usize = name.unicode_len();
    if len < IDENTITY_MIN_LEN || len > IDENTITY_MAX_LEN {
        return false;
    }
    let mut i: usize = 0;
    while i < len
        invariant
            i <= len,
            len == name@.len(),
            forall|k: int| 0 <= k < i ==> is_identity_char(#[trigger] name@[k]),
        decreases len - i,
    {
        if !identity_char(name.get_char(i)) {
            return false;
        }
        i += 1;
    }
    true
}

impl Identity {
    #[verifier::type_invariant]
    pub open spec fn well_formed(self) -> bool {
        is_identity(self@)
    }

    /// Accepts a name that is already in its normal form. It is an identity
    /// exactly when it matches the pattern.
    pub fn from_normalized(name: String) -> (r: Result<Identity, RenderError>)
        ensures
            r is Ok <==> is_identity(name@),
            r matches Ok(id) ==> id@ == name@,
            r matches Err(e) ==> e == RenderError::InvalidIdentity,
    {
        if matches_pattern(name.as_str()) {
            Ok(Identity { name })
        } else {
            Err(RenderError::InvalidIdentity)
        }
    }

    /// Lowercases the requested name and checks it against the pattern.
    pub fn normalize(requested: &str) -> (r: Result<Identity, RenderError>)
        ensures
            r is Ok <==> is_identity(lowercase_spec(requested@)),
            r matches Ok(id) ==> id@ == lowercase_spec(requested@),
            r matches Err(e) ==> e == RenderError::InvalidIdentity,
    {
        Identity::from_normalized(lowercase(requested))
    }

    /// The name.
    pub fn as_str(&self) -> (name: &str)
        ensures
            name@ == self@,
            is_identity(self@),
    {
        proof {
            use_type_invariant(self);
        }
        self.name.as_str()
    }

    /// A second copy of the identity.
    pub fn duplicate(&self) -> (copy: Identity)
        ensures
            copy@ == self@,
    {
        proof {
            use_type_invariant(self);
        }
        Identity { name: self.name.clone() }
    }
}

/// An identity holds no character that means anything in a path: no slash, no
/// backslash, no dot, no NUL.
pub proof fn lemma_identity_is_path_safe(s: Seq<char>, i: int)
    requires
        is_identity(s),
        0 <= i < s.len(),
    ensures
        s[i] != '/',
        s[i] != '\\',
        s[i] != '.',
        s[i] != '\0',
{
    assert(is_identity_char(s[i]));
}

} // verus!
