use vstd::prelude::*;
use crate::error::ExtensionError;

verus! {

/// The name of the expansion entry point of interface version 0.
pub const EXPAND_SYMBOL: &'static str = "expand";

/// A version of the binary interface between host and extension. A newer
/// version gets a new set of symbol names; the meaning of an existing
/// symbol never changes.
#[derive(Clone, Copy, Debug, PartialEq, Eq, Structural)]
pub enum InterfaceVersion {
    /// One entry point, `expand`, taking a token stream and returning an
    /// expansion result, both by value.
    V0,
}

impl InterfaceVersion {
    /// The symbols that a library must export to offer this version.
    pub open spec fn spec_symbols(self) -> Seq<Seq<char>> {
        match self {
            InterfaceVersion::V0 => seq!["expand"@],
        }
    }

    /// The symbols that a library must export to offer this version.
    pub fn required_symbols(&self) -> (r: Vec<String>)
        ensures
            r@.map_values(|s: String| s@) == self.spec_symbols(),
            r@.len() > 0,
    {
        let mut r: Vec<String> = Vec::new();
        match self {
            InterfaceVersion::V0 => r.push(String::from_str(EXPAND_SYMBOL)),
        }
        assert(r@.map_values(|s: String| s@) =~= self.spec_symbols());
        r
    }
}

/// The versions the host can use, the newest first: resolution tries them in
/// this order and falls back to the next one.
pub open spec fn spec_supported_versions() -> Seq<InterfaceVersion> {
    seq![InterfaceVersion::V0]
}

/// The versions the host can use, the newest first.
pub fn supported_versions() -> (r: Vec<InterfaceVersion>)
    ensures
        r@ == spec_supported_versions(),
{
    let mut r: Vec<InterfaceVersion> = Vec::new();
    r.push(InterfaceVersion::V0);
    assert(r@ =~= spec_supported_versions());
    r
}

/// The symbol with index `symbol` of the supported version with index
/// `version`.
pub open spec fn spec_symbol_at(version: int, symbol: int) -> Seq<char> {
    spec_supported_versions()[version].spec_symbols()[symbol]
}

/// Where the loading of one shared library stands.
#[derive(Debug)]
pub enum LoadState {
    /// Next: find out whether the file exists.
    CheckingPath,
    /// Next: open the library.
    Opening,
    /// Next: look up the symbol at `symbol_index` of the supported version
    /// at `version_index`; the symbols before it were found.
    Resolving { version_index: usize, symbol_index: usize },
    /// Every symbol of `version` was found: the library can be called.
    Ready { version: InterfaceVersion },
    /// Loading failed for good.
    Failed { error: ExtensionError },
}

/// What the host found when it did what a session asked.
#[derive(Debug)]
pub enum LoadEvent {
    /// Whether the library file exists.
    PathChecked { exists: bool },
    /// The library opened, or why it did not.
    Opened { failure: Option<String> },
    /// The symbol asked for was found, or why it was not.
    SymbolResolved { failure: Option<String> },
}

/// What a session asks the host to do next.
#[derive(Debug)]
pub enum LoadAction {
    /// Check that the file at the session's path exists.
    CheckPath,
    /// Open the library at the session's path.
    Open,
    /// Look up this symbol in the opened library.
    Resolve { symbol: String },
    /// Nothing: the session is ready or failed.
    Finished,
}

/// The decisions taken while a shared library is loaded and its interface
/// resolved. The host performs each action and hands the outcome back; the
/// library is ready only once every symbol of one interface version was
/// found, so no partly resolved interface is ever reported.
#[derive(Debug)]
pub struct LoadSession {
    pub path: String,
    pub state: LoadState,
}

impl LoadSession {
    /// The state holds indices into the supported versions and their symbols.
    pub open spec fn wf(&self) -> bool {
        match self.state {
            LoadState::Resolving { version_index: version, symbol_index: symbol } =>
                version < spec_supported_versions().len()
                && symbol < spec_supported_versions()[version as int].spec_symbols().len(),
            _ => true,
        }
    }

    /// The session has reached a final state.
    pub open spec fn spec_finished(&self) -> bool {
        self.state is Ready || self.state is Failed
    }

    /// How `next` follows from this session once `event` is handed in.
    pub open spec fn spec_step(&self, event: LoadEvent, next: LoadSession) -> bool {
        &&& next.path@ == self.path@
        &&& match (self.state, event) {
            (LoadState::CheckingPath, LoadEvent::PathChecked { exists }) =>
                if exists {
                    next.state is Opening
                } else {
                    match next.state {
                        LoadState::Failed { error: ExtensionError::ArtifactNotFound { path } } =>
                            path@ == self.path@,
                        _ => false,
                    }
                },
            (LoadState::Opening, LoadEvent::Opened { failure }) =>
                match failure {
                    None => next.state == (LoadState::Resolving { version_index: 0, symbol_index: 0 }),
                    Some(why) => match next.state {
                        LoadState::Failed { error: ExtensionError::Load { path, reason } } =>
                            path@ == self.path@ && reason@ == why@,
                        _ => false,
                    },
                },
            (LoadState::Resolving { version_index: version, symbol_index: symbol }, LoadEvent::SymbolResolved { failure }) => {
                let v = spec_supported_versions()[version as int];
                match failure {
                    None => if symbol + 1 == v.spec_symbols().len() {
                        next.state == (LoadState::Ready { version: v })
                    } else {
                        next.state == (LoadState::Resolving { version_index: version, symbol_index: (symbol + 1) as usize })
                    },
                    Some(why) => if version + 1 == spec_supported_versions().len() {
                        match next.state {
                            LoadState::Failed {
                                error: ExtensionError::InterfaceResolution { path, symbol: s, reason },
                            } => path@ == self.path@ && s@ == v.spec_symbols()[symbol as int]
                                && reason@ == why@,
                            _ => false,
                        }
                    } else {
                        next.state == (LoadState::Resolving { version_index: (version + 1) as usize, symbol_index: 0 })
                    },
                }
            },
            _ => next.state == self.state,
        }
    }

    /// A session for the library at `path`; it starts by checking that the
    /// file exists.
    pub fn start(path: String) -> (r: LoadSession)
        ensures
            r.path@ == path@,
            r.state is CheckingPath,
            r.wf(),
    {
        LoadSession { path, state: LoadState::CheckingPath }
    }

    /// Whether the session has reached a final state.
    pub fn is_finished(&self) -> (r: bool)
        ensures
            r == self.spec_finished(),
    {
        match self.state {
            LoadState::Ready { .. } | LoadState::Failed { .. } => true,
            _ => false,
        }
    }

    /// What the host must do next.
    pub fn action(&self) -> (r: LoadAction)
        requires
            self.wf(),
        ensures
            match self.state {
                LoadState::CheckingPath => r is CheckPath,
                LoadState::Opening => r is Open,
                LoadState::Resolving { version_index: version, symbol_index: symbol } => match r {
                    LoadAction::Resolve { symbol: s } => s@ == spec_symbol_at(version as int, symbol as int),
                    _ => false,
                },
                _ => r is Finished,
            },
    {
        match &self.state {
            LoadState::CheckingPath => LoadAction::CheckPath,
            LoadState::Opening => LoadAction::Open,
            LoadState::Resolving { version_index: version, symbol_index: symbol } => {
                let versions = supported_versions();
                let symbols = versions[*version].required_symbols();
                let s = symbols[*symbol].clone();
                assert(symbols@.map_values(|s: String| s@)[*symbol as int] == symbols@[*symbol as int]@);
                LoadAction::Resolve { symbol: s }
            },
            _ => LoadAction::Finished,
        }
    }

    /// The session once `event` is handed in.
    pub fn step(self, event: LoadEvent) -> (r: LoadSession)
        requires
            self.wf(),
        ensures
            r.wf(),
            self.spec_step(event, r),
    {
        let path = self.path;
        let state = match (self.state, event) {
            (LoadState::CheckingPath, LoadEvent::PathChecked { exists }) => {
                if exists {
                    LoadState::Opening
                } else {
                    LoadState::Failed { error: ExtensionError::ArtifactNotFound { path: path.clone() } }
                }
            },
            (LoadState::Opening, LoadEvent::Opened { failure }) => match failure {
                None => LoadState::Resolving { version_index: 0, symbol_index: 0 },
                Some(why) => LoadState::Failed {
                    error: ExtensionError::Load { path: path.clone(), reason: why },
                },
            },
            (LoadState::Resolving { version_index: version, symbol_index: symbol }, LoadEvent::SymbolResolved { failure }) => {
                let versions = supported_versions();
                let symbols = versions[version].required_symbols();
                match failure {
                    None => if symbol + 1 == symbols.len() {
                        LoadState::Ready { version: versions[version] }
                    } else {
                        LoadState::Resolving { version_index: version, symbol_index: symbol + 1 }
                    },
                    Some(why) => if version + 1 == versions.len() {
                        let s = symbols[symbol].clone();
                        assert(symbols@.map_values(|s: String| s@)[symbol as int] == symbols@[symbol as int]@);
                        LoadState::Failed {
                            error: ExtensionError::InterfaceResolution {
                                path: path.clone(),
                                symbol: s,
                                reason: why,
                            },
                        }
                    } else {
                        LoadState::Resolving { version_index: version + 1, symbol_index: 0 }
                    },
                }
            },
            (state, _) => state,
        };
        LoadSession { path, state }
    }
}

} // verus!
