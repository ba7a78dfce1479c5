//! Keys of the three cache tiers and the paths they are stored under.

use vstd::prelude::*;
use vstd::string::StringExecFns;
use crate::identity::{is_identity, lemma_identity_is_path_safe, lowercase_spec, Identity};
use crate::scale::{is_restricted, Scale};

verus! {

/// The key of one cache entry. The raw tier holds downloaded atlases, the
/// rendered tier composited faces, the scaled tier their enlargements.
pub enum CacheKey {
    /// A raw atlas, under the profile identifier that the lookup resolved, or
    /// under the identity itself where the lookup failed.
    Raw { name: String },
    /// The face of an identity.
    Rendered { identity: Identity },
    /// The face of an identity, enlarged.
    Scaled { identity: Identity, scale: Scale },
}

/// The model of a cache key.
pub enum CacheKeyView {
    Raw { name: Seq<char> },
    Rendered { identity: Seq<char> },
    Scaled { identity: Seq<char>, scale: int },
}

impl View for CacheKey {
    type V = CacheKeyView;

    open spec fn view(&self) -> CacheKeyView {
        match *self {
            CacheKey::Raw { name } => CacheKeyView::Raw { name: name@ },
            CacheKey::Rendered { identity } => CacheKeyView::Rendered { identity: identity@ },
            CacheKey::Scaled { identity, scale } => CacheKeyView::Scaled {
                identity: identity@,
                scale: scale@,
            },
        }
    }
}

/// The decimal digits of a factor from the restricted set.
pub open spec fn scale_digits(s: int) -> Seq<char> {
    if s == 16 {
        "16"@
    } else if s == 8 {
        "8"@
    } else if s == 4 {
        "4"@
    } else if s == 2 {
        "2"@
    } else {
        "1"@
    }
}

/// The path of the entry that `key` names.
pub open spec fn path_spec(key: CacheKeyView) -> Seq<char> {
    match key {
        CacheKeyView::Raw { name } => "./.cache/moj/"@ + name + ".png"@,
        CacheKeyView::Rendered { identity } => "./.cache/ren/"@ + identity + ".png"@,
        CacheKeyView::Scaled { identity, scale } => "./.cache/scl/"@ + identity + "."@
            + scale_digits(scale) + ".png"@,
    }
}

/// The decimal digits of `scale`.
pub fn digits(scale: Scale) -> (text: &'static str)
    ensures
        text@ == scale_digits(scale@),
{
    let s: u32 = scale.get();
    if s == 16 {
        "16"
    } else if s == 8 {
        "8"
    } else if s == 4 {
        "4"
    } else if s == 2 {
        "2"
    } else {
        "1"
    }
}

impl CacheKey {
    /// The key of the raw atlas stored under `name`.
    pub fn raw(name: &str) -> (key: CacheKey)
        ensures
            key@ == (CacheKeyView::Raw { name: name@ }),
    {
        CacheKey::Raw { name: String::from_str(name) }
    }

    /// The key of the face of `identity`.
    pub fn rendered(identity: &Identity) -> (key: CacheKey)
        ensures
            key@ == (CacheKeyView::Rendered { identity: identity@ }),
    {
        CacheKey::Rendered { identity: identity.duplicate() }
    }

    /// The key of the face of `identity`, enlarged by `scale`.
    pub fn scaled(identity: &Identity, scale: Scale) -> (key: CacheKey)
        ensures
            key@ == (CacheKeyView::Scaled { identity: identity@, scale: scale@ }),
    {
        CacheKey::Scaled { identity: identity.duplicate(), scale }
    }

    /// The path of the entry that the key names. Nothing but the key goes
    /// into it, so one key always names one path.
    pub fn path(&self) -> (p: String)
        ensures
            p@ == path_spec(self@),
    {
        match self {
            CacheKey::Raw { name } => {
                let mut p: String = String::from_str("./.cache/moj/");
                p.append(name.as_str());
                p.append(".png");
                p
            },
            CacheKey::Rendered { identity } => {
                let mut p: String = String::from_str("./.cache/ren/");
                p.append(identity.as_str());
                p.append(".png");
                p
            },
            CacheKey::Scaled { identity, scale } => {
                let mut p: String = String::from_str("./.cache/scl/");
                p.append(identity.as_str());
                p.append(".");
                p.append(digits(*scale));
                p.append(".png");
                p
            },
        }
    }
}

/// Two requested names with the same lowercase form lead to the same entry of
/// the rendered tier, to the same entry of the scaled tier, and, where the
/// raw tier is keyed by the name, to the same entry there.
pub proof fn lemma_same_normal_form_same_entries(a: Seq<char>, b: Seq<char>, scale: int)
    requires
        lowercase_spec(a) == lowercase_spec(b),
    ensures
        path_spec(CacheKeyView::Rendered { identity: lowercase_spec(a) }) == path_spec(
            CacheKeyView::Rendered { identity: lowercase_spec(b) },
        ),
        path_spec(CacheKeyView::Scaled { identity: lowercase_spec(a), scale }) == path_spec(
            CacheKeyView::Scaled { identity: lowercase_spec(b), scale },
        ),
        path_spec(CacheKeyView::Raw { name: lowercase_spec(a) }) == path_spec(
            CacheKeyView::Raw { name: lowercase_spec(b) },
        ),
{
}

/// Two identities whose faces are stored under the same path are the same
/// identity.
pub proof fn lemma_rendered_path_names_one_identity(a: Seq<char>, b: Seq<char>)
    requires
        path_spec(CacheKeyView::Rendered { identity: a }) == path_spec(
            CacheKeyView::Rendered { identity: b },
        ),
    ensures
        a == b,
{
    let head = "./.cache/ren/"@;
    let tail = ".png"@;
    let left = head + a + tail;
    let right = head + b + tail;
    assert(left.len() == head.len() + a.len() + tail.len());
    assert(right.len() == head.len() + b.len() + tail.len());
    assert forall|i: int| 0 <= i < a.len() implies a[i] == b[i] by {
        assert(left[head.len() + i] == a[i]);
        assert(right[head.len() + i] == b[i]);
    }
    assert(a =~= b);
}

/// Two enlarged faces that are stored under the same path belong to the same
/// identity and the same scale.
pub proof fn lemma_scaled_path_names_one_entry(a: Seq<char>, s: int, b: Seq<char>, t: int)
    requires
        is_identity(a),
        is_identity(b),
        is_restricted(s),
        is_restricted(t),
        path_spec(CacheKeyView::Scaled { identity: a, scale: s }) == path_spec(
            CacheKeyView::Scaled { identity: b, scale: t },
        ),
    ensures
        a == b,
        s == t,
{
    reveal_strlit(".");
    reveal_strlit("1");
    reveal_strlit("2");
    reveal_strlit("4");
    reveal_strlit("8");
    reveal_strlit("16");
    let head = "./.cache/scl/"@;
    let dot = "."@;
    let tail = ".png"@;
    let ds = scale_digits(s);
    let dt = scale_digits(t);
    let left = head + a + dot + ds + tail;
    let right = head + b + dot + dt + tail;
    let hl: int = head.len() as int;
    let al: int = a.len() as int;
    let bl: int = b.len() as int;
    assert(left.len() == head.len() + a.len() + 1 + ds.len() + tail.len());
    assert(right.len() == head.len() + b.len() + 1 + dt.len() + tail.len());
    assert(left[hl + al] == '.');
    assert(right[hl + bl] == '.');
    if a.len() < b.len() {
        assert(right[hl + al] == b[al]);
        lemma_identity_is_path_safe(b, al);
    }
    if b.len() < a.len() {
        assert(left[hl + bl] == a[bl]);
        lemma_identity_is_path_safe(a, bl);
    }
    assert forall|i: int| 0 <= i < a.len() implies a[i] == b[i] by {
        assert(left[head.len() + i] == a[i]);
        assert(right[head.len() + i] == b[i]);
    }
    assert(a =~= b);
    assert(ds.len() == dt.len());
    assert(left[hl + al + 1] == ds[0]);
    assert(right[hl + bl + 1] == dt[0]);
}

} // verus!
