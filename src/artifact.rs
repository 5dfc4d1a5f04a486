use vstd::prelude::*;
use crate::package::{ExtensionPackage, ident_of, lacks, valid_name, valid_origin_id, lemma_ident_injective};

verus! {

/// The build profile that the builder asks for and the loader looks under.
pub const PROC_MACRO_BUILD_PROFILE: &'static str = "release";

/// The name of the directory, inside a package's build directory, that the
/// build tool writes into.
pub const TARGET_DIR_NAME: &'static str = "target";

/// `base` with one more component `child`: a `/` separates them unless
/// `base` is empty or already ends with one.
pub open spec fn path_join(base: Seq<char>, child: Seq<char>) -> Seq<char> {
    if base.len() == 0 {
        child
    } else if base.last() == '/' {
        base + child
    } else {
        base + seq!['/'] + child
    }
}

/// `<build root>/<name>-<origin id>/target`: where the build tool is told to
/// put everything it produces for one package.
pub open spec fn target_dir_of(build_root: Seq<char>, name: Seq<char>, origin_id: Seq<char>) -> Seq<char> {
    path_join(path_join(build_root, ident_of(name, origin_id)), "target"@)
}

/// `<build root>/<name>-<origin id>/target/release/<library file>`.
pub open spec fn artifact_path_of(
    build_root: Seq<char>,
    name: Seq<char>,
    origin_id: Seq<char>,
    lib_file: Seq<char>,
) -> Seq<char> {
    path_join(path_join(target_dir_of(build_root, name, origin_id), "release"@), lib_file)
}

/// The file name that the target platform gives to the shared library of
/// the given name.
pub uninterp spec fn library_filename_of(name: Seq<char>) -> Seq<char>;

/// `prefix` and `suffix` are the platform's shared-library affixes: every
/// library file name is `prefix`, the name, then `suffix`, and neither affix
/// holds a `/`.
pub open spec fn library_affixes(prefix: Seq<char>, suffix: Seq<char>) -> bool {
    &&& lacks(prefix, '/')
    &&& lacks(suffix, '/')
    &&& forall|n: Seq<char>| #[trigger] library_filename_of(n) == prefix + n + suffix
}

/// `file` is `name` between the platform's library affixes.
pub open spec fn library_file_form(file: Seq<char>, name: Seq<char>) -> bool {
    exists|p: Seq<char>, s: Seq<char>| library_affixes(p, s) && file == p + name + s
}

/// Relies on `libloading::library_filename`: it returns `DLL_PREFIX`, the
/// name, then `DLL_SUFFIX`, where both are constants of the platform the
/// library is built for (`lib` or nothing; `.so`, `.dylib` or `.dll`), so
/// the file name depends on the name alone.
#[verifier::external_body]
fn library_filename(name: &str) -> (r: String)
    ensures
        r@ == library_filename_of(name@),
        library_file_form(r@, name@),
{
    libloading::library_filename(name).to_string_lossy().into_owned()
}

/// Appends the single path component `child` to the path `base`.
pub fn path_child(base: &str, child: &str) -> (r: String)
    requires
        child@.len() > 0,
        lacks(child@, '/'),
    ensures
        r@ == path_join(base@, child@),
{
    let n = base.unicode_len();
    let owned = String::from_str(base);
    if n == 0 {
        String::from_str(child)
    } else if base.get_char(n - 1) == '/' {
        owned.concat(child)
    } else {
        proof {
            reveal_strlit("/");
        }
        owned.concat("/").concat(child)
    }
}

impl ExtensionPackage {
    /// The directory that the build tool writes this package's outputs into.
    pub fn target_dir(&self, build_root: &str) -> (r: String)
        requires
            self.wf(),
        ensures
            r@ == target_dir_of(build_root@, self.name@, self.origin_id@),
    {
        let ident = self.ident();
        proof {
            lemma_ident_component(self.name@, self.origin_id@);
            reveal_strlit("target");
        }
        let dir = path_child(build_root, ident.as_str());
        path_child(dir.as_str(), TARGET_DIR_NAME)
    }

    /// Where the shared library of this package is, once built, given the
    /// platform's file name `lib_file` for it.
    pub fn artifact_path_for(&self, build_root: &str, lib_file: &str) -> (r: String)
        requires
            self.wf(),
            lib_file@.len() > 0,
            lacks(lib_file@, '/'),
        ensures
            r@ == artifact_path_of(build_root@, self.name@, self.origin_id@, lib_file@),
    {
        let target = self.target_dir(build_root);
        proof {
            reveal_strlit("release");
        }
        let profile_dir = path_child(target.as_str(), PROC_MACRO_BUILD_PROFILE);
        path_child(profile_dir.as_str(), lib_file)
    }

    /// Where the shared library of this package is, once built.
    pub fn shared_lib_path(&self, build_root: &str) -> (r: String)
        requires
            self.wf(),
        ensures
            r@ == artifact_path_of(
                build_root@,
                self.name@,
                self.origin_id@,
                library_filename_of(self.name@),
            ),
    {
        let lib_file = library_filename(self.name.as_str());
        proof {
            let (p, x) = choose|p: Seq<char>, x: Seq<char>|
                library_affixes(p, x) && lib_file@ == p + self.name@ + x;
            assert forall|i: int| 0 <= i < lib_file@.len() implies lib_file@[i] != '/' by {
                if i < p.len() {
                    assert(lib_file@[i] == p[i]);
                } else if i < p.len() + self.name@.len() {
                    assert(lib_file@[i] == self.name@[i - p.len()]);
                } else {
                    assert(lib_file@[i] == x[i - p.len() - self.name@.len()]);
                }
            }
        }
        self.artifact_path_for(build_root, lib_file.as_str())
    }
}

/// The shared library to load: an explicitly configured path where there is
/// one, else the path the build derives for the package. There is no other
/// fallback.
pub fn artifact_location(override_path: Option<String>, package: &ExtensionPackage, build_root: &str) -> (r: String)
    requires
        package.wf(),
    ensures
        r@ == match override_path {
            Some(p) => p@,
            None => artifact_path_of(
                build_root@,
                package.name@,
                package.origin_id@,
                library_filename_of(package.name@),
            ),
        },
{
    match override_path {
        Some(p) => p,
        None => package.shared_lib_path(build_root),
    }
}

/// The path of a package's shared library is determined by the build root,
/// the package name, its origin id and the fixed profile: packages that
/// agree on name and origin id get the same path whatever their version or
/// source directory, and the library lies in the profile directory under the
/// very directory the builder writes into.
pub proof fn lemma_artifact_path_determined(
    build_root: Seq<char>,
    a: ExtensionPackage,
    b: ExtensionPackage,
    lib_file: Seq<char>,
)
    requires
        a.name@ == b.name@,
        a.origin_id@ == b.origin_id@,
    ensures
        artifact_path_of(build_root, a.name@, a.origin_id@, library_filename_of(a.name@))
            == artifact_path_of(build_root, b.name@, b.origin_id@, library_filename_of(b.name@)),
        artifact_path_of(build_root, a.name@, a.origin_id@, lib_file) == path_join(
            path_join(target_dir_of(build_root, a.name@, a.origin_id@), "release"@),
            lib_file,
        ),
{
}

/// `<name>-<origin id>` of a valid package is a single path component.
proof fn lemma_ident_component(name: Seq<char>, origin_id: Seq<char>)
    requires
        valid_name(name),
        valid_origin_id(origin_id),
    ensures
        ident_of(name, origin_id).len() > 0,
        lacks(ident_of(name, origin_id), '/'),
{
    let t = ident_of(name, origin_id);
    assert forall|i: int| 0 <= i < t.len() implies t[i] != '/' by {
        if i < name.len() {
            assert(t[i] == name[i]);
        } else if i > name.len() {
            assert(t[i] == origin_id[i - name.len() - 1]);
        }
    }
}

/// Joining a component to a base with no trailing `/` adds exactly one `/`.
proof fn lemma_join_plain(base: Seq<char>, child: Seq<char>)
    requires
        base.len() > 0,
        base.last() != '/',
    ensures
        path_join(base, child) == base + seq!['/'] + child,
{
}

/// A path joined from a non-empty component ends with that component's
/// last character.
proof fn lemma_join_last(base: Seq<char>, child: Seq<char>)
    requires
        child.len() > 0,
    ensures
        path_join(base, child).len() > 0,
        path_join(base, child).last() == child.last(),
{
}

/// The same base joined with two components gives one path only for one
/// component.
proof fn lemma_join_cancel(base: Seq<char>, a: Seq<char>, b: Seq<char>)
    requires
        path_join(base, a) == path_join(base, b),
    ensures
        a == b,
{
    let j = path_join(base, a);
    let k = (j.len() - a.len()) as int;
    assert(path_join(base, b).len() == j.len());
    assert(a =~= j.subrange(k, j.len() as int));
    assert(b =~= j.subrange(k, j.len() as int));
}

/// Two sequences with one common end are equal where the whole is.
proof fn lemma_suffix_cancel(a: Seq<char>, b: Seq<char>, end: Seq<char>)
    requires
        a + end == b + end,
    ensures
        a == b,
{
    let j = a + end;
    assert(a =~= j.subrange(0, a.len() as int));
    assert(b =~= j.subrange(0, b.len() as int));
}

/// A path that is a directory ending in `/` followed by a file name without
/// `/` has one such split only.
proof fn lemma_split_last(x: Seq<char>, f: Seq<char>, y: Seq<char>, g: Seq<char>)
    requires
        x + f == y + g,
        x.len() > 0,
        y.len() > 0,
        x.last() == '/',
        y.last() == '/',
        lacks(f, '/'),
        lacks(g, '/'),
    ensures
        x == y,
        f == g,
{
    let j = x + f;
    assert(j.len() == x.len() + f.len());
    assert(j.len() == y.len() + g.len());
    if x.len() < y.len() {
        let n = y.len() - 1;
        assert((y + g)[n] == y[n]);
        assert(j[n] == f[n - x.len()]);
    } else if y.len() < x.len() {
        let n = x.len() - 1;
        assert(j[n] == x[n]);
        assert((y + g)[n] == g[n - y.len()]);
    }
    assert(x =~= j.subrange(0, x.len() as int));
    assert(y =~= j.subrange(0, y.len() as int));
    assert(f =~= j.subrange(x.len() as int, j.len() as int));
    assert(g =~= (y + g).subrange(y.len() as int, j.len() as int));
}

/// The package directory joined under a build root: `<root>/<name>-<origin>`
/// is non-empty and ends in a character other than `/`.
proof fn lemma_package_dir(build_root: Seq<char>, name: Seq<char>, origin_id: Seq<char>)
    requires
        valid_name(name),
        valid_origin_id(origin_id),
    ensures
        path_join(build_root, ident_of(name, origin_id)).len() > 0,
        path_join(build_root, ident_of(name, origin_id)).last() != '/',
        target_dir_of(build_root, name, origin_id) == path_join(build_root, ident_of(name, origin_id))
            + seq!['/'] + "target"@,
{
    lemma_ident_component(name, origin_id);
    let i = ident_of(name, origin_id);
    lemma_join_last(build_root, i);
    assert(i[i.len() - 1] != '/');
    lemma_join_plain(path_join(build_root, i), "target"@);
}

/// Packages that differ in name or origin id never share a build
/// directory under one build root.
pub proof fn lemma_target_dirs_distinct(build_root: Seq<char>, a: ExtensionPackage, b: ExtensionPackage)
    requires
        a.wf(),
        b.wf(),
        a.name@ != b.name@ || a.origin_id@ != b.origin_id@,
    ensures
        target_dir_of(build_root, a.name@, a.origin_id@) != target_dir_of(build_root, b.name@, b.origin_id@),
{
    lemma_package_dir(build_root, a.name@, a.origin_id@);
    lemma_package_dir(build_root, b.name@, b.origin_id@);
    if target_dir_of(build_root, a.name@, a.origin_id@) == target_dir_of(build_root, b.name@, b.origin_id@) {
        let ja = path_join(build_root, ident_of(a.name@, a.origin_id@));
        let jb = path_join(build_root, ident_of(b.name@, b.origin_id@));
        assert(ja + (seq!['/'] + "target"@) == jb + (seq!['/'] + "target"@)) by {
            assert(ja + (seq!['/'] + "target"@) =~= ja + seq!['/'] + "target"@);
            assert(jb + (seq!['/'] + "target"@) =~= jb + seq!['/'] + "target"@);
        }
        lemma_suffix_cancel(ja, jb, seq!['/'] + "target"@);
        lemma_join_cancel(build_root, ident_of(a.name@, a.origin_id@), ident_of(b.name@, b.origin_id@));
        lemma_ident_injective(a.name@, a.origin_id@, b.name@, b.origin_id@);
    }
}

/// The directory that holds a package's library file: the profile
/// directory under its build directory, ending in `/`.
proof fn lemma_library_dir(build_root: Seq<char>, name: Seq<char>, origin_id: Seq<char>, lib_file: Seq<char>)
    requires
        valid_name(name),
        valid_origin_id(origin_id),
    ensures
        artifact_path_of(build_root, name, origin_id, lib_file) == (target_dir_of(build_root, name, origin_id)
            + (seq!['/'] + "release"@ + seq!['/'])) + lib_file,
{
    reveal_strlit("target");
    reveal_strlit("release");
    lemma_package_dir(build_root, name, origin_id);
    let t = target_dir_of(build_root, name, origin_id);
    lemma_join_last(path_join(build_root, ident_of(name, origin_id)), "target"@);
    lemma_join_plain(t, "release"@);
    let r = path_join(t, "release"@);
    lemma_join_last(t, "release"@);
    lemma_join_plain(r, lib_file);
    assert(r + seq!['/'] + lib_file =~= (t + (seq!['/'] + "release"@ + seq!['/'])) + lib_file);
}

/// Packages that differ in name or origin id never get the same library
/// path under one build root, given the platform's library affixes, which
/// every call of `shared_lib_path` shows to exist.
pub proof fn lemma_artifact_paths_distinct(
    build_root: Seq<char>,
    a: ExtensionPackage,
    b: ExtensionPackage,
    prefix: Seq<char>,
    suffix: Seq<char>,
)
    requires
        a.wf(),
        b.wf(),
        a.name@ != b.name@ || a.origin_id@ != b.origin_id@,
        library_affixes(prefix, suffix),
    ensures
        artifact_path_of(build_root, a.name@, a.origin_id@, library_filename_of(a.name@))
            != artifact_path_of(build_root, b.name@, b.origin_id@, library_filename_of(b.name@)),
{
    reveal_strlit("release");
    let k = seq!['/'] + "release"@ + seq!['/'];
    let fa = library_filename_of(a.name@);
    let fb = library_filename_of(b.name@);
    let ta = target_dir_of(build_root, a.name@, a.origin_id@);
    let tb = target_dir_of(build_root, b.name@, b.origin_id@);
    lemma_library_dir(build_root, a.name@, a.origin_id@, fa);
    lemma_library_dir(build_root, b.name@, b.origin_id@, fb);
    lemma_target_dirs_distinct(build_root, a, b);
    if artifact_path_of(build_root, a.name@, a.origin_id@, fa) == artifact_path_of(build_root, b.name@, b.origin_id@, fb) {
        assert forall|i: int| 0 <= i < fa.len() implies fa[i] != '/' by {
            if i < prefix.len() {
                assert(fa[i] == prefix[i]);
            } else if i < prefix.len() + a.name@.len() {
                assert(fa[i] == a.name@[i - prefix.len()]);
            } else {
                assert(fa[i] == suffix[i - prefix.len() - a.name@.len()]);
            }
        }
        assert forall|i: int| 0 <= i < fb.len() implies fb[i] != '/' by {
            if i < prefix.len() {
                assert(fb[i] == prefix[i]);
            } else if i < prefix.len() + b.name@.len() {
                assert(fb[i] == b.name@[i - prefix.len()]);
            } else {
                assert(fb[i] == suffix[i - prefix.len() - b.name@.len()]);
            }
        }
        assert((ta + k).last() == '/');
        assert((tb + k).last() == '/');
        lemma_split_last(ta + k, fa, tb + k, fb);
        lemma_suffix_cancel(ta, tb, k);
    }
}

} // verus!
