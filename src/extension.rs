use vstd::prelude::*;
use vstd::utf8::encode_utf8;
use crate::error::ExtensionError;
use crate::interface::{EXPAND_SYMBOL, InterfaceVersion, LoadSession, LoadState};
use crate::wire::{same_result, ProcMacroResult, TokenStream, WireExpansionResult, WireTokenStream};

verus! {

/// A shared library that opened and exports every symbol of one interface
/// version. The host keeps the library handle beside it for as long as any
/// instance is in use.
#[derive(Debug)]
pub struct LoadedExtension {
    path: String,
    version: InterfaceVersion,
}

/// One call surface of a loaded extension. Making one opens and resolves
/// nothing: it copies what the loaded extension already knows.
#[derive(Debug)]
pub struct ExtensionInstance {
    path: String,
    version: InterfaceVersion,
}

/// A call of an extension's expansion entry point, as the host must make it.
#[derive(Debug)]
pub struct ExpansionCall {
    /// The symbol to call.
    pub symbol: String,
    /// The argument, handed over by value.
    pub input: WireTokenStream,
}

/// The name of the expansion entry point of an interface version.
pub open spec fn entry_point_of(version: InterfaceVersion) -> Seq<char> {
    match version {
        InterfaceVersion::V0 => "expand"@,
    }
}

impl LoadedExtension {
    pub closed spec fn spec_path(&self) -> Seq<char> {
        self.path@
    }

    pub closed spec fn spec_version(&self) -> InterfaceVersion {
        self.version
    }

    /// The outcome of a finished load session: the loaded extension where
    /// it became ready, its error where it failed.
    pub fn from_session(session: LoadSession) -> (r: Result<LoadedExtension, ExtensionError>)
        requires
            session.spec_finished(),
        ensures
            match session.state {
                LoadState::Ready { version } => match r {
                    Ok(e) => e.spec_path() == session.path@ && e.spec_version() == version,
                    Err(_) => false,
                },
                LoadState::Failed { error } => r == Err::<LoadedExtension, ExtensionError>(error),
                _ => false,
            },
    {
        match session.state {
            LoadState::Ready { version } => Ok(LoadedExtension { path: session.path, version }),
            LoadState::Failed { error } => Err(error),
            _ => Err(ExtensionError::ArtifactNotFound { path: session.path }),
        }
    }

    /// The path the library was loaded from.
    pub fn path(&self) -> (r: &str)
        ensures
            r@ == self.spec_path(),
    {
        self.path.as_str()
    }

    /// The interface version that was resolved.
    pub fn version(&self) -> (r: InterfaceVersion)
        ensures
            r == self.spec_version(),
    {
        self.version
    }

    /// A new call surface for this extension.
    pub fn instantiate(&self) -> (r: ExtensionInstance)
        ensures
            r.spec_path() == self.spec_path(),
            r.spec_version() == self.spec_version(),
    {
        ExtensionInstance { path: self.path.clone(), version: self.version }
    }
}

impl ExtensionInstance {
    pub closed spec fn spec_path(&self) -> Seq<char> {
        self.path@
    }

    pub closed spec fn spec_version(&self) -> InterfaceVersion {
        self.version
    }

    /// The path of the library behind this instance.
    pub fn path(&self) -> (r: &str)
        ensures
            r@ == self.spec_path(),
    {
        self.path.as_str()
    }

    /// The interface version this instance calls through.
    pub fn version(&self) -> (r: InterfaceVersion)
        ensures
            r == self.spec_version(),
    {
        self.version
    }

    /// `call` expands `token_stream`: it names the entry point of this
    /// instance's interface version and carries the text's UTF-8 bytes.
    pub open spec fn spec_prepares(&self, token_stream: TokenStream, call: ExpansionCall) -> bool {
        &&& call.symbol@ == entry_point_of(self.spec_version())
        &&& call.input.bytes@ == encode_utf8(token_stream.value@)
    }

    /// The call that expands `token_stream`: the entry point of this
    /// instance's interface version, given the text's UTF-8 bytes.
    pub fn prepare_call(&self, token_stream: TokenStream) -> (r: ExpansionCall)
        ensures
            self.spec_prepares(token_stream, r),
    {
        let symbol = match self.version {
            InterfaceVersion::V0 => String::from_str(EXPAND_SYMBOL),
        };
        ExpansionCall { symbol, input: WireTokenStream::from_token_stream(token_stream) }
    }

    /// The host's result for what the entry point returned; `None` where
    /// the extension returned replacement code that is not UTF-8, the one
    /// way a well-behaved call can still fail to give a result.
    pub fn finish_call(&self, returned: WireExpansionResult) -> (r: Option<ProcMacroResult>)
        ensures
            returned.spec_converts_to(r),
    {
        returned.into_proc_macro_result()
    }
}

/// The extensions loaded in this process, at most one per library path: a
/// path found here is never opened again, its extension is instantiated
/// instead.
#[derive(Debug)]
pub struct ExtensionRegistry {
    entries: Vec<LoadedExtension>,
}

impl ExtensionRegistry {
    /// The library paths of the registered extensions, in the order they
    /// were registered.
    pub closed spec fn spec_paths(&self) -> Seq<Seq<char>> {
        self.entries@.map_values(|e: LoadedExtension| e.path@)
    }

    /// No path is registered twice.
    pub open spec fn wf(&self) -> bool {
        forall|i: int, j: int|
            0 <= i < j < self.spec_paths().len() ==> self.spec_paths()[i] != self.spec_paths()[j]
    }

    /// A registry with nothing in it.
    pub fn new() -> (r: ExtensionRegistry)
        ensures
            r.wf(),
            r.spec_paths() == Seq::<Seq<char>>::empty(),
    {
        let r = ExtensionRegistry { entries: Vec::new() };
        assert(r.spec_paths() =~= Seq::<Seq<char>>::empty());
        r
    }

    /// How many extensions are registered.
    pub fn len(&self) -> (r: usize)
        ensures
            r == self.spec_paths().len(),
    {
        self.entries.len()
    }

    /// The index of the extension loaded from `path`, if there is one.
    pub fn find(&self, path: &str) -> (r: Option<usize>)
        ensures
            match r {
                Some(i) => i < self.spec_paths().len() && self.spec_paths()[i as int] == path@,
                None => !self.spec_paths().contains(path@),
            },
    {
        let wanted = String::from_str(path);
        let mut i: usize = 0;
        while i < self.entries.len()
            invariant
                i <= self.entries@.len(),
                wanted@ == path@,
                forall|j: int| 0 <= j < i ==> self.spec_paths()[j] != path@,
            decreases self.entries@.len() - i,
        {
            if self.entries[i].path == wanted {
                return Some(i);
            }
            i = i + 1;
        }
        None
    }

    /// The extension registered at `index`.
    pub fn get(&self, index: usize) -> (r: &LoadedExtension)
        requires
            index < self.spec_paths().len(),
        ensures
            r.spec_path() == self.spec_paths()[index as int],
    {
        &self.entries[index]
    }

    /// Registers `extension` unless its path is registered already; either
    /// way, returns the index that holds its path.
    pub fn register(&mut self, extension: LoadedExtension) -> (r: usize)
        requires
            old(self).wf(),
        ensures
            final(self).wf(),
            r < final(self).spec_paths().len(),
            final(self).spec_paths()[r as int] == extension.spec_path(),
            old(self).spec_paths().contains(extension.spec_path()) ==> final(self).spec_paths()
                == old(self).spec_paths(),
            !old(self).spec_paths().contains(extension.spec_path()) ==> final(self).spec_paths()
                == old(self).spec_paths().push(extension.spec_path()),
    {
        match self.find(extension.path.as_str()) {
            Some(i) => i,
            None => {
                let ghost before = self.spec_paths();
                self.entries.push(extension);
                assert(self.spec_paths() =~= before.push(extension.spec_path()));
                self.entries.len() - 1
            },
        }
    }
}

/// Two instances of one loaded extension call the same entry point with the
/// same bytes for the same token stream, and make the same host result of
/// the same returned value: nothing an instance holds makes them differ.
pub proof fn lemma_instances_agree(
    extension: LoadedExtension,
    a: ExtensionInstance,
    b: ExtensionInstance,
    input: TokenStream,
    call_a: ExpansionCall,
    call_b: ExpansionCall,
    returned: WireExpansionResult,
    result_a: Option<ProcMacroResult>,
    result_b: Option<ProcMacroResult>,
)
    requires
        a.spec_path() == extension.spec_path(),
        a.spec_version() == extension.spec_version(),
        b.spec_path() == extension.spec_path(),
        b.spec_version() == extension.spec_version(),
        a.spec_prepares(input, call_a),
        b.spec_prepares(input, call_b),
        returned.spec_converts_to(result_a),
        returned.spec_converts_to(result_b),
    ensures
        a.spec_path() == b.spec_path(),
        call_a.symbol@ == call_b.symbol@,
        call_a.input.bytes@ == call_b.input.bytes@,
        same_result(result_a, result_b),
{
}

} // verus!
