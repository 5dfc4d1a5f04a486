use vstd::prelude::*;

verus! {

/// The package name of the built-in Starknet plugin.
pub const STARKNET_PACKAGE_NAME: &'static str = "starknet";

/// The package name of the built-in test plugin.
pub const TEST_PLUGIN_PACKAGE_NAME: &'static str = "test_plugin";

/// The source of packages that ship with the compiler.
pub const STD_SOURCE_ID: &'static str = "std";

/// The identity of a package: its name, its version and where it comes from.
#[derive(Debug)]
pub struct PackageId {
    pub name: String,
    pub version: String,
    pub source_id: String,
}

/// The Starknet plugin that ships with the compiler; it needs no build and
/// no loading.
pub struct BuiltinStarkNetPlugin;

impl BuiltinStarkNetPlugin {
    /// The plugin's package identity: the `starknet` package of the
    /// compiler's own source, at the version of the compiler it ships with.
    pub fn id(&self, compiler_version: &str) -> (r: PackageId)
        ensures
            r.name@ == "starknet"@,
            r.version@ == compiler_version@,
            r.source_id@ == "std"@,
    {
        PackageId {
            name: String::from_str(STARKNET_PACKAGE_NAME),
            version: String::from_str(compiler_version),
            source_id: String::from_str(STD_SOURCE_ID),
        }
    }
}

/// The package identity of the built-in test plugin: the `test_plugin`
/// package of the compiler's own source, at the compiler's version.
pub fn builtin_test_plugin_id(compiler_version: &str) -> (r: PackageId)
    ensures
        r.name@ == "test_plugin"@,
        r.version@ == compiler_version@,
        r.source_id@ == "std"@,
{
    PackageId {
        name: String::from_str(TEST_PLUGIN_PACKAGE_NAME),
        version: String::from_str(compiler_version),
        source_id: String::from_str(STD_SOURCE_ID),
    }
}

} // verus!
