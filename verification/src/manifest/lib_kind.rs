//! The kinds of library that a library target can be built as.

use crate::manifest::text::same_text;
use vstd::prelude::*;

verus! {

/// A kind of library as a mathematical value.
pub enum LibKindView {
    Lib,
    Rlib,
    Dylib,
    ProcMacro,
    Other(Seq<char>),
}

impl LibKindView {
    /// The kind that `name` names: one of the four known kinds by its name,
    /// any other name as `Other`.
    pub open spec fn named(name: Seq<char>) -> LibKindView {
        if name == "lib"@ {
            LibKindView::Lib
        } else if name == "rlib"@ {
            LibKindView::Rlib
        } else if name == "dylib"@ {
            LibKindView::Dylib
        } else if name == "proc-macro"@ {
            LibKindView::ProcMacro
        } else {
            LibKindView::Other(name)
        }
    }

    /// The name of the kind, as the compiler takes it for `--crate-type`.
    pub open spec fn crate_type(self) -> Seq<char> {
        match self {
            LibKindView::Lib => "lib"@,
            LibKindView::Rlib => "rlib"@,
            LibKindView::Dylib => "dylib"@,
            LibKindView::ProcMacro => "proc-macro"@,
            LibKindView::Other(name) => name,
        }
    }

    /// Whether other crates can link against a library of this kind.
    pub open spec fn linkable(self) -> bool {
        !(self is Other)
    }

    /// The name of the kind that a name names is that name.
    pub proof fn lemma_name_round_trip(name: Seq<char>)
        ensures
            LibKindView::named(name).crate_type() == name,
    {
    }
}

/// A kind of library: one that the compiler knows by name, or another that
/// is handed to it as it is.
#[derive(Clone, Debug, PartialEq, Eq, Hash, PartialOrd, Ord)]
pub enum LibKind {
    Lib,
    Rlib,
    Dylib,
    ProcMacro,
    Other(String),
}

impl View for LibKind {
    type V = LibKindView;

    open spec fn view(&self) -> LibKindView {
        match self {
            LibKind::Lib => LibKindView::Lib,
            LibKind::Rlib => LibKindView::Rlib,
            LibKind::Dylib => LibKindView::Dylib,
            LibKind::ProcMacro => LibKindView::ProcMacro,
            LibKind::Other(name) => LibKindView::Other(name@),
        }
    }
}

impl LibKind {
    /// The kind that `string` names.
    pub fn from_str(string: &str) -> (kind: LibKind)
        ensures
            kind@ == LibKindView::named(string@),
    {
        if same_text(string, "lib") {
            LibKind::Lib
        } else if same_text(string, "rlib") {
            LibKind::Rlib
        } else if same_text(string, "dylib") {
            LibKind::Dylib
        } else if same_text(string, "proc-macro") {
            LibKind::ProcMacro
        } else {
            LibKind::Other(string.to_owned())
        }
    }

    /// The argument for `--crate-type` that builds this kind.
    pub fn crate_type(&self) -> (name: &str)
        ensures
            name@ == self@.crate_type(),
    {
        match self {
            LibKind::Lib => "lib",
            LibKind::Rlib => "rlib",
            LibKind::Dylib => "dylib",
            LibKind::ProcMacro => "proc-macro",
            LibKind::Other(s) => s.as_str(),
        }
    }

    /// Whether other crates can link against a library of this kind.
    pub fn linkable(&self) -> (linkable: bool)
        ensures
            linkable == self@.linkable(),
    {
        match self {
            LibKind::Lib | LibKind::Rlib | LibKind::Dylib | LibKind::ProcMacro => true,
            LibKind::Other(_) => false,
        }
    }

    /// Whether two kinds are the same kind.
    pub fn same_as(&self, other: &LibKind) -> (same: bool)
        ensures
            same == (self@ == other@),
    {
        match (self, other) {
            (LibKind::Lib, LibKind::Lib) => true,
            (LibKind::Rlib, LibKind::Rlib) => true,
            (LibKind::Dylib, LibKind::Dylib) => true,
            (LibKind::ProcMacro, LibKind::ProcMacro) => true,
            (LibKind::Other(a), LibKind::Other(b)) => same_text(a.as_str(), b.as_str()),
            _ => false,
        }
    }
}

} // verus!
