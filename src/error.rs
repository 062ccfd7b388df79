use vstd::prelude::*;

verus! {

/// The two kinds of handler blocks a program may hold.
#[derive(Clone, Copy, Debug, PartialEq, Eq, Structural)]
pub enum HandlerKind {
    Command,
    Query,
}

/// Generation-time failures. Each one names what was at fault.
#[derive(Clone, Debug, PartialEq, Eq)]
pub enum GenerationError {
    /// A handler declares a method receiver (`self`) among its parameters.
    UnsupportedSelfParameter { handler: String },
    /// A handler block declares no handler at all.
    EmptyHandlerSet { kind: HandlerKind },
    /// A second block of the same kind stands directly inside one program;
    /// `index` is the position of that second block among the program's
    /// declarations.
    DuplicateBlock { kind: HandlerKind, index: usize },
    /// A handler block that the program scan did not register: it stands
    /// outside any program, or deeper than the top level of one.
    MustBeInsideProgram { kind: HandlerKind },
    /// An entry point was asked for a set that holds an asynchronous handler.
    AsyncEntryPointUnsupported { kind: HandlerKind },
}

} // verus!
