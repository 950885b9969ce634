use vstd::prelude::*;

verus! {

/// What can go wrong while bringing up a runtime context or opening a stream.
#[derive(Debug, PartialEq, Eq)]
pub enum StreamError {
    /// The dynamic library could not be loaded; carries the loader's message.
    LibraryLoad(String),
    /// A required entry point is missing from the library; carries its symbol name.
    SymbolResolution(String),
    /// The host runtime refused to create a context.
    ContextCreation,
    /// The calling thread could not be registered with the context.
    ThreadAttach,
    /// The calling thread could not be deregistered from the context.
    ThreadDetach,
    /// The data-source path holds a zero byte and cannot be handed over as text.
    InvalidPath,
    /// The host runtime rejected the data source; carries its diagnostic text.
    DataSource(String),
}

} // verus!
