use vstd::prelude::*;

verus! {

/// The identity of an extension's source package, as the package model
/// hands it over: read-only to this library.
#[derive(Debug)]
pub struct ExtensionPackage {
    /// The package name; it also names the shared library.
    pub name: String,
    /// The package version.
    pub version: String,
    /// A short identifier of where the package comes from.
    pub origin_id: String,
    /// The directory that holds the package's build definition.
    pub root: String,
}

/// `c` does not occur in `s`.
pub open spec fn lacks(s: Seq<char>, c: char) -> bool {
    forall|i: int| 0 <= i < s.len() ==> s[i] != c
}

/// A package name, as the package model allows it: not empty, and holding
/// neither `-` nor `/`. So it is a single path component, and it ends
/// before the first `-` of `<name>-<origin id>`.
pub open spec fn valid_name(name: Seq<char>) -> bool {
    name.len() > 0 && lacks(name, '-') && lacks(name, '/')
}

/// An origin identifier holds no `/`: with a valid name it makes a single
/// path component.
pub open spec fn valid_origin_id(origin_id: Seq<char>) -> bool {
    lacks(origin_id, '/')
}

/// `<name>-<origin id>`.
pub open spec fn ident_of(name: Seq<char>, origin_id: Seq<char>) -> Seq<char> {
    name + seq!['-'] + origin_id
}

/// Whether `c` does not occur in `s`.
pub fn lacks_char(s: &str, c: char) -> (r: bool)
    ensures
        r == lacks(s@, c),
{
    let n = s.unicode_len();
    let mut i: usize = 0;
    while i < n
        invariant
            n == s@.len(),
            i <= n,
            forall|j: int| 0 <= j < i ==> s@[j] != c,
        decreases n - i,
    {
        if s.get_char(i) == c {
            return false;
        }
        i = i + 1;
    }
    true
}

impl ExtensionPackage {
    /// The name and the origin id have the shape the package model gives
    /// them.
    pub open spec fn wf(&self) -> bool {
        valid_name(self.name@) && valid_origin_id(self.origin_id@)
    }

    /// The name under which the package's build outputs are kept:
    /// `<name>-<origin id>`.
    pub open spec fn spec_ident(&self) -> Seq<char> {
        ident_of(self.name@, self.origin_id@)
    }

    /// Builds a package identity from its parts; `None` where the name or
    /// the origin id does not have the shape the package model gives them.
    pub fn new(name: String, version: String, origin_id: String, root: String) -> (r: Option<Self>)
        ensures
            r is Some <==> valid_name(name@) && valid_origin_id(origin_id@),
            r matches Some(p) ==> {
                &&& p.wf()
                &&& p.name@ == name@
                &&& p.version@ == version@
                &&& p.origin_id@ == origin_id@
                &&& p.root@ == root@
            },
    {
        let p = ExtensionPackage { name, version, origin_id, root };
        if p.is_valid() {
            Some(p)
        } else {
            None
        }
    }

    /// Whether the name and the origin id have the shape the package model
    /// gives them.
    pub fn is_valid(&self) -> (r: bool)
        ensures
            r == self.wf(),
    {
        let n = self.name.as_str();
        n.unicode_len() > 0 && lacks_char(n, '-') && lacks_char(n, '/') && lacks_char(
            self.origin_id.as_str(),
            '/',
        )
    }

    /// The name under which the package's build outputs are kept.
    pub fn ident(&self) -> (r: String)
        ensures
            r@ == self.spec_ident(),
    {
        let r = self.name.clone().concat("-");
        let r = r.concat(self.origin_id.as_str());
        proof {
            reveal_strlit("-");
        }
        r
    }
}

/// Packages that differ in name or origin id have different idents, so
/// their build outputs never share a directory.
pub proof fn lemma_ident_injective(a: Seq<char>, x: Seq<char>, b: Seq<char>, y: Seq<char>)
    requires
        valid_name(a),
        valid_name(b),
        ident_of(a, x) == ident_of(b, y),
    ensures
        a == b,
        x == y,
{
    let s = ident_of(a, x);
    if a.len() < b.len() {
        assert(s[a.len() as int] == '-');
        assert(s[a.len() as int] == b[a.len() as int]);
    } else if b.len() < a.len() {
        assert(s[b.len() as int] == '-');
        assert(s[b.len() as int] == a[b.len() as int]);
    }
    assert(a =~= s.subrange(0, a.len() as int));
    assert(b =~= s.subrange(0, b.len() as int));
    assert(x =~= s.subrange(a.len() as int + 1, s.len() as int));
    assert(y =~= s.subrange(b.len() as int + 1, s.len() as int));
}

} // verus!
