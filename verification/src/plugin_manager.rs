//! The extension manager: owner of every loaded library and of the registry
//! that maps a plugin's name to its live instance.
//!
//! Opening a shared object and calling into it is the host's part. The host
//! reports how far it got as a [`LoadAttempt`]; the manager takes over what
//! the attempt produced and answers with the name that was registered, or
//! with the reason why nothing was.

use libloading::Library;
use std::sync::Arc;
use vstd::hash_map::StringHashMap;
use vstd::prelude::*;

verus! {

/// `libloading::Library`, an open dynamic module. The manager only keeps such
/// values alive; nothing is claimed about what one holds.
#[verifier::external_type_specification]
#[verifier::external_body]
pub struct ExLibrary(libloading::Library);

/// The symbol that every plugin exports: a function without arguments that
/// returns an owning pointer to the plugin's extension instance, or null.
pub const PLUGIN_ENTRYPOINT_SYMBOL: &'static str = "_plugin_create";

/// What every extension offers to the host. Plugin authors implement it; the
/// manager asks an instance for its name once, when it registers it.
pub trait Plugin {
    fn name(&self) -> &str;
}

/// How far the host got when it tried to bring a shared object in.
///
/// `P` is the capability type of the instances: `dyn Plugin` in a host that
/// loads shared objects, any one implementation elsewhere.
pub enum LoadAttempt<P: Plugin + ?Sized = dyn Plugin> {
    /// The library could not be opened; `message` is the loader's own.
    LibraryLoadFailed { message: String },
    /// The library is open, but it does not export the entry symbol.
    SymbolNotFound { library: Library, message: String },
    /// The entry symbol was called and returned no instance.
    NullConstructor { library: Library },
    /// The entry symbol was called and returned an instance.
    Constructed { library: Library, extend: Box<P> },
}

/// Why a load registered nothing.
#[derive(Clone, Debug, PartialEq, Eq)]
pub enum LoadError {
    LibraryLoadFailed(String),
    SymbolNotFound(String),
    NullConstructor,
}

impl LoadError {
    pub open spec fn message_spec(&self) -> Seq<char> {
        match self {
            LoadError::LibraryLoadFailed(m) => "Failed to load library: "@ + m@,
            LoadError::SymbolNotFound(m) => "Failed to load symbol: "@ + m@,
            LoadError::NullConstructor => "Constructor returned null pointer."@,
        }
    }

    /// The line that reports this failure.
    pub fn message(&self) -> (line: String)
        ensures
            line@ == self.message_spec(),
    {
        match self {
            LoadError::LibraryLoadFailed(m) => {
                let mut line = String::from_str("Failed to load library: ");
                line.append(m.as_str());
                line
            },
            LoadError::SymbolNotFound(m) => {
                let mut line = String::from_str("Failed to load symbol: ");
                line.append(m.as_str());
                line
            },
            LoadError::NullConstructor => String::from_str("Constructor returned null pointer."),
        }
    }
}

/// The library that an attempt brought with it, if it opened one.
pub open spec fn opened_library<P: Plugin + ?Sized>(attempt: LoadAttempt<P>) -> Option<Library> {
    match attempt {
        LoadAttempt::LibraryLoadFailed { .. } => None,
        LoadAttempt::SymbolNotFound { library, .. } => Some(library),
        LoadAttempt::NullConstructor { library } => Some(library),
        LoadAttempt::Constructed { library, .. } => Some(library),
    }
}

/// The libraries held after an attempt: an opened library is kept, whether or
/// not an extension came out of it.
pub open spec fn libraries_after<P: Plugin + ?Sized>(
    before: Seq<Library>,
    attempt: LoadAttempt<P>,
) -> Seq<Library> {
    match opened_library(attempt) {
        Some(library) => before.push(library),
        None => before,
    }
}

/// The registry of live extension instances and the libraries they came from.
/// Entries are only ever added or replaced, and no library is ever closed: an
/// instance may be in use for as long as the process runs.
#[verifier::reject_recursive_types(P)]
pub struct AppExtendManagerImpl<P: Plugin + ?Sized = dyn Plugin> {
    extends: StringHashMap<Arc<Box<P>>>,
    loaded_libraries: Vec<Library>,
}

impl<P: Plugin + ?Sized> AppExtendManagerImpl<P> {
    /// The registry: plugin name to live instance.
    pub closed spec fn registry(&self) -> Map<Seq<char>, Arc<Box<P>>> {
        self.extends@
    }

    /// The libraries that were opened, oldest first.
    pub closed spec fn libraries(&self) -> Seq<Library> {
        self.loaded_libraries@
    }

    pub fn new() -> (manager: Self)
        ensures
            manager.registry() == Map::<Seq<char>, Arc<Box<P>>>::empty(),
            manager.libraries() == Seq::<Library>::empty(),
    {
        AppExtendManagerImpl { extends: StringHashMap::new(), loaded_libraries: Vec::new() }
    }

    /// Puts `extend` into the registry under `name`. An earlier instance of
    /// that name is replaced: the last load wins.
    pub fn register(&mut self, name: String, extend: Box<P>)
        ensures
            final(self).registry() == old(self).registry().insert(name@, Arc::new(extend)),
            final(self).libraries() == old(self).libraries(),
    {
        self.extends.insert(name, Arc::new(extend));
    }

    /// Takes over what a load attempt produced.
    ///
    /// A library that was opened is kept in every case. Only an attempt that
    /// constructed an instance changes the registry: the instance is asked for
    /// its name and registered under it, and that name is returned.
    pub fn load_extend(&mut self, attempt: LoadAttempt<P>) -> (outcome: Result<String, LoadError>)
        ensures
            final(self).libraries() == libraries_after(old(self).libraries(), attempt),
            match attempt {
                LoadAttempt::LibraryLoadFailed { message } => {
                    &&& outcome == Err::<String, LoadError>(LoadError::LibraryLoadFailed(message))
                    &&& final(self).registry() == old(self).registry()
                },
                LoadAttempt::SymbolNotFound { library, message } => {
                    &&& outcome == Err::<String, LoadError>(LoadError::SymbolNotFound(message))
                    &&& final(self).registry() == old(self).registry()
                },
                LoadAttempt::NullConstructor { library } => {
                    &&& outcome == Err::<String, LoadError>(LoadError::NullConstructor)
                    &&& final(self).registry() == old(self).registry()
                },
                LoadAttempt::Constructed { library, extend } => {
                    &&& outcome matches Ok(name)
                    &&& final(self).registry() == old(self).registry().insert(
                        name@,
                        Arc::new(extend),
                    )
                },
            },
    {
        match attempt {
            LoadAttempt::LibraryLoadFailed { message } => Err(
                LoadError::LibraryLoadFailed(message),
            ),
            LoadAttempt::SymbolNotFound { library, message } => {
                self.loaded_libraries.push(library);
                Err(LoadError::SymbolNotFound(message))
            },
            LoadAttempt::NullConstructor { library } => {
                self.loaded_libraries.push(library);
                Err(LoadError::NullConstructor)
            },
            LoadAttempt::Constructed { library, extend } => {
                self.loaded_libraries.push(library);
                let name: String = String::from_str(extend.name());
                self.register(name.clone(), extend);
                Ok(name)
            },
        }
    }

    /// The instance registered under `name`, as a new shared handle.
    pub fn select(&self, name: &str) -> (found: Option<Arc<Box<P>>>)
        ensures
            found == (if self.registry().contains_key(name@) {
                Some(self.registry()[name@])
            } else {
                None
            }),
    {
        match self.extends.get(name) {
            Some(handle) => Some(Arc::clone(handle)),
            None => None,
        }
    }

    /// Whether an instance is registered under `name`.
    pub fn is_loaded(&self, name: &str) -> (loaded: bool)
        ensures
            loaded == self.registry().contains_key(name@),
    {
        self.extends.contains_key(name)
    }

    /// How many instances are registered.
    pub fn extend_count(&self) -> (n: usize)
        ensures
            n == self.registry().len(),
    {
        self.extends.len()
    }

    /// How many libraries are held.
    pub fn library_count(&self) -> (n: usize)
        ensures
            n == self.libraries().len(),
    {
        self.loaded_libraries.len()
    }
}

} // verus!
