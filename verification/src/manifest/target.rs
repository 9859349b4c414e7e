//! Build targets: a library, a binary, an example, a test, a benchmark or a
//! build script of a package.

use crate::manifest::lib_kind::{LibKind, LibKindView};
use crate::manifest::source_path::SourcePath;
use crate::manifest::text::{append_char, append_text};
use std::path::PathBuf;
use vstd::prelude::*;

verus! {

/// The views of a list of library kinds.
pub open spec fn kind_views(kinds: Seq<LibKind>) -> Seq<LibKindView> {
    Seq::new(kinds.len(), |i: int| kinds[i]@)
}

/// The views of a list of texts.
pub open spec fn text_views(texts: Seq<String>) -> Seq<Seq<char>> {
    Seq::new(texts.len(), |i: int| texts[i]@)
}

/// What a target is, as a mathematical value.
pub enum TargetKindView {
    Lib(Seq<LibKindView>),
    Bin,
    Test,
    Bench,
    ExampleLib(Seq<LibKindView>),
    ExampleBin,
    CustomBuild,
}

/// What a target is. A library and an example that is built as a library
/// name the kinds of library to build.
#[derive(Clone, Debug, Hash, PartialEq, Eq, PartialOrd, Ord)]
pub enum TargetKind {
    Lib(Vec<LibKind>),
    Bin,
    Test,
    Bench,
    ExampleLib(Vec<LibKind>),
    ExampleBin,
    CustomBuild,
}

impl View for TargetKind {
    type V = TargetKindView;

    open spec fn view(&self) -> TargetKindView {
        match self {
            TargetKind::Lib(kinds) => TargetKindView::Lib(kind_views(kinds@)),
            TargetKind::Bin => TargetKindView::Bin,
            TargetKind::Test => TargetKindView::Test,
            TargetKind::Bench => TargetKindView::Bench,
            TargetKind::ExampleLib(kinds) => TargetKindView::ExampleLib(kind_views(kinds@)),
            TargetKind::ExampleBin => TargetKindView::ExampleBin,
            TargetKind::CustomBuild => TargetKindView::CustomBuild,
        }
    }
}

impl TargetKindView {
    /// The names under which the kind is listed when a target is written
    /// out: the names of the kinds of a library, else the one name of the
    /// kind. An example is listed as `example`, whatever it is built as.
    pub open spec fn names(self) -> Seq<Seq<char>> {
        match self {
            TargetKindView::Lib(kinds) => crate_types_of(kinds),
            TargetKindView::Bin => seq!["bin"@],
            TargetKindView::ExampleBin => seq!["example"@],
            TargetKindView::ExampleLib(_) => seq!["example"@],
            TargetKindView::Test => seq!["test"@],
            TargetKindView::CustomBuild => seq!["custom-build"@],
            TargetKindView::Bench => seq!["bench"@],
        }
    }
}

/// The names of `kinds` as the compiler takes them, in their order.
fn crate_types(kinds: &Vec<LibKind>) -> (types: Vec<&str>)
    ensures
        types@.len() == kinds@.len(),
        forall|i: int|
            0 <= i < types@.len() ==> (#[trigger] types@[i])@ == kind_views(kinds@)[i].crate_type(),
{
    let mut types: Vec<&str> = Vec::new();
    let mut i: usize = 0;
    while i < kinds.len()
        invariant
            i <= kinds@.len(),
            types@.len() == i,
            forall|j: int|
                0 <= j < i ==> (#[trigger] types@[j])@ == kind_views(kinds@)[j].crate_type(),
        decreases kinds@.len() - i,
    {
        types.push(kinds[i].crate_type());
        i += 1;
    }
    types
}

impl TargetKind {
    /// The names under which the kind is listed when a target is written
    /// out.
    pub fn names(&self) -> (names: Vec<&str>)
        ensures
            names@.len() == self@.names().len(),
            forall|i: int| 0 <= i < names@.len() ==> (#[trigger] names@[i])@ == self@.names()[i],
    {
        match self {
            TargetKind::Lib(kinds) => crate_types(kinds),
            TargetKind::Bin => one_name("bin"),
            TargetKind::ExampleBin | TargetKind::ExampleLib(_) => one_name("example"),
            TargetKind::Test => one_name("test"),
            TargetKind::CustomBuild => one_name("custom-build"),
            TargetKind::Bench => one_name("bench"),
        }
    }
}

/// The list that holds `name` and nothing else.
fn one_name(name: &str) -> (names: Vec<&str>)
    ensures
        names@.len() == 1,
        names@[0]@ == name@,
{
    let mut names: Vec<&str> = Vec::new();
    names.push(name);
    names
}

/// A target as a mathematical value.
pub struct TargetView {
    /// What the target is.
    pub kind: TargetKindView,
    /// The target's name.
    pub name: Seq<char>,
    /// The absolute path of the root source file.
    pub src_path: PathBuf,
    /// The features that must be enabled for the target to be built.
    pub required_features: Option<Seq<Seq<char>>>,
    /// Whether the target is tested.
    pub tested: bool,
    /// Whether the target is benchmarked.
    pub benched: bool,
    /// Whether the target is documented.
    pub doc: bool,
    /// Whether the target asks for documentation tests.
    pub doctest: bool,
    /// Whether the target uses the test harness.
    pub harness: bool,
    /// Whether the target is built for the host.
    pub for_host: bool,
}

/// Whether `kinds` holds `kind`.
pub open spec fn holds_kind(kinds: Seq<LibKindView>, kind: LibKindView) -> bool {
    exists|i: int| 0 <= i < kinds.len() && kinds[i] == kind
}

/// Whether `kinds` holds a kind that other crates can link against.
pub open spec fn holds_linkable(kinds: Seq<LibKindView>) -> bool {
    exists|i: int| 0 <= i < kinds.len() && (#[trigger] kinds[i]).linkable()
}

/// The names of `kinds` as the compiler takes them, in their order.
pub open spec fn crate_types_of(kinds: Seq<LibKindView>) -> Seq<Seq<char>> {
    Seq::new(kinds.len(), |i: int| kinds[i].crate_type())
}

impl TargetView {
    /// The target that every other is made from: a binary without a name at
    /// `src_path`, tested and benchmarked with the test harness, not
    /// documented, not built for the host.
    pub open spec fn plain(src_path: PathBuf) -> TargetView {
        TargetView {
            kind: TargetKindView::Bin,
            name: Seq::empty(),
            src_path,
            required_features: None,
            tested: true,
            benched: true,
            doc: false,
            doctest: false,
            harness: true,
            for_host: false,
        }
    }

    /// The name with every `-` turned into `_`.
    pub open spec fn crate_name(self) -> Seq<char> {
        Seq::new(
            self.name.len(),
            |i: int|
                if self.name[i] == '-' {
                    '_'
                } else {
                    self.name[i]
                },
        )
    }

    /// Whether the target is a library.
    pub open spec fn is_lib(self) -> bool {
        self.kind is Lib
    }

    /// Whether the target is a binary.
    pub open spec fn is_bin(self) -> bool {
        self.kind is Bin
    }

    /// Whether the target is an example, of either form.
    pub open spec fn is_example(self) -> bool {
        self.kind is ExampleBin || self.kind is ExampleLib
    }

    /// Whether the target is an example that can be run.
    pub open spec fn is_bin_example(self) -> bool {
        self.kind is ExampleBin
    }

    /// Whether the target is a test.
    pub open spec fn is_test(self) -> bool {
        self.kind is Test
    }

    /// Whether the target is a benchmark.
    pub open spec fn is_bench(self) -> bool {
        self.kind is Bench
    }

    /// Whether the target is a build script.
    pub open spec fn is_custom_build(self) -> bool {
        self.kind is CustomBuild
    }

    /// Whether the target is a library built, among others, as a dynamic
    /// library.
    pub open spec fn is_dylib(self) -> bool {
        self.kind matches TargetKindView::Lib(kinds) && holds_kind(kinds, LibKindView::Dylib)
    }

    /// Whether the target is a library built, among others, as a dynamic
    /// library for C.
    pub open spec fn is_cdylib(self) -> bool {
        self.kind matches TargetKindView::Lib(kinds) && holds_kind(
            kinds,
            LibKindView::Other("cdylib"@),
        )
    }

    /// Whether the target is a library of a kind that other crates can link
    /// against.
    pub open spec fn linkable(self) -> bool {
        self.kind matches TargetKindView::Lib(kinds) && holds_linkable(kinds)
    }

    /// Whether the documentation tests of the target are run: it asks for
    /// them, and it is a library built as `lib`, `rlib` or `proc-macro`.
    pub open spec fn doctested(self) -> bool {
        self.doctest && (self.kind matches TargetKindView::Lib(kinds) && (holds_kind(
            kinds,
            LibKindView::Rlib,
        ) || holds_kind(kinds, LibKindView::Lib) || holds_kind(kinds, LibKindView::ProcMacro)))
    }

    /// Whether a name with underscores is accepted for the target.
    pub open spec fn allows_underscores(self) -> bool {
        self.is_bin() || self.is_example() || self.is_custom_build()
    }

    /// Whether the target can be optimised at link time: every target but a
    /// library built as `rlib`, `dylib` or `lib`.
    pub open spec fn can_lto(self) -> bool {
        match self.kind {
            TargetKindView::Lib(kinds) => !holds_kind(kinds, LibKindView::Rlib) && !holds_kind(
                kinds,
                LibKindView::Dylib,
            ) && !holds_kind(kinds, LibKindView::Lib),
            _ => true,
        }
    }

    /// The arguments for `--crate-type` that build the target: the names of
    /// the kinds of a library or a library example, else `bin`.
    pub open spec fn rustc_crate_types(self) -> Seq<Seq<char>> {
        match self.kind {
            TargetKindView::Lib(kinds) => crate_types_of(kinds),
            TargetKindView::ExampleLib(kinds) => crate_types_of(kinds),
            _ => seq!["bin"@],
        }
    }

    /// The text that describes the target to a reader.
    pub open spec fn description(self) -> Seq<char> {
        match self.kind {
            TargetKindView::Lib(_) => "Target(lib)"@,
            TargetKindView::Bin => "Target(bin: "@ + self.name + seq![')'],
            TargetKindView::Test => "Target(test: "@ + self.name + seq![')'],
            TargetKindView::Bench => "Target(bench: "@ + self.name + seq![')'],
            TargetKindView::ExampleBin => "Target(example: "@ + self.name + seq![')'],
            TargetKindView::ExampleLib(_) => "Target(example: "@ + self.name + seq![')'],
            TargetKindView::CustomBuild => "Target(script)"@,
        }
    }
}

/// A binary, a library, an example, a test, a benchmark or a build script
/// that is part of a package.
#[derive(Clone, Debug, Hash, PartialEq, Eq)]
pub struct Target {
    kind: TargetKind,
    name: String,
    src_path: SourcePath,
    required_features: Option<Vec<String>>,
    tested: bool,
    benched: bool,
    doc: bool,
    doctest: bool,
    harness: bool,
    for_host: bool,
}

impl View for Target {
    type V = TargetView;

    closed spec fn view(&self) -> TargetView {
        TargetView {
            kind: self.kind@,
            name: self.name@,
            src_path: self.src_path@,
            required_features: match self.required_features {
                Some(features) => Some(text_views(features@)),
                None => None,
            },
            tested: self.tested,
            benched: self.benched,
            doc: self.doc,
            doctest: self.doctest,
            harness: self.harness,
            for_host: self.for_host,
        }
    }
}

/// The view of a list of required features that may be absent.
pub open spec fn feature_views(features: Option<Vec<String>>) -> Option<Seq<Seq<char>>> {
    match features {
        Some(features) => Some(text_views(features@)),
        None => None,
    }
}

/// Whether `kinds` holds `wanted`.
fn has_kind(kinds: &Vec<LibKind>, wanted: &LibKind) -> (found: bool)
    ensures
        found == holds_kind(kind_views(kinds@), wanted@),
{
    let mut i: usize = 0;
    while i < kinds.len()
        invariant
            i <= kinds@.len(),
            forall|j: int| 0 <= j < i ==> kind_views(kinds@)[j] != wanted@,
        decreases kinds@.len() - i,
    {
        if kinds[i].same_as(wanted) {
            assert(kind_views(kinds@)[i as int] == wanted@);
            return true;
        }
        i += 1;
    }
    false
}

/// Whether `kinds` holds a kind that other crates can link against.
fn has_linkable(kinds: &Vec<LibKind>) -> (found: bool)
    ensures
        found == holds_linkable(kind_views(kinds@)),
{
    let mut i: usize = 0;
    while i < kinds.len()
        invariant
            i <= kinds@.len(),
            forall|j: int| 0 <= j < i ==> !(#[trigger] kind_views(kinds@)[j]).linkable(),
        decreases kinds@.len() - i,
    {
        if kinds[i].linkable() {
            assert(kind_views(kinds@)[i as int].linkable());
            return true;
        }
        i += 1;
    }
    false
}

impl Target {
    fn with_path(src_path: SourcePath) -> (target: Target)
        ensures
            target@ == TargetView::plain(src_path@),
    {
        Target {
            kind: TargetKind::Bin,
            name: String::new(),
            src_path,
            required_features: None,
            doc: false,
            doctest: false,
            harness: true,
            for_host: false,
            tested: true,
            benched: true,
        }
    }

    /// A library target, built as each of `crate_targets`; documented, with
    /// documentation tests.
    pub fn lib_target(name: &str, crate_targets: Vec<LibKind>, src_path: SourcePath) -> (target:
        Target)
        ensures
            target@ == (TargetView {
                kind: TargetKindView::Lib(kind_views(crate_targets@)),
                name: name@,
                doctest: true,
                doc: true,
                ..TargetView::plain(src_path@)
            }),
    {
        let mut target = Target::with_path(src_path);
        target.kind = TargetKind::Lib(crate_targets);
        target.name = name.to_owned();
        target.doctest = true;
        target.doc = true;
        target
    }

    /// A binary target; documented.
    pub fn bin_target(name: &str, src_path: SourcePath, required_features: Option<Vec<String>>) -> (target:
        Target)
        ensures
            target@ == (TargetView {
                kind: TargetKindView::Bin,
                name: name@,
                required_features: feature_views(required_features),
                doc: true,
                ..TargetView::plain(src_path@)
            }),
    {
        let mut target = Target::with_path(src_path);
        target.kind = TargetKind::Bin;
        target.name = name.to_owned();
        target.required_features = required_features;
        target.doc = true;
        target
    }

    /// The target of a build script: built for the host, neither tested nor
    /// benchmarked.
    pub fn custom_build_target(name: &str, src_path: SourcePath) -> (target: Target)
        ensures
            target@ == (TargetView {
                kind: TargetKindView::CustomBuild,
                name: name@,
                for_host: true,
                benched: false,
                tested: false,
                ..TargetView::plain(src_path@)
            }),
    {
        let mut target = Target::with_path(src_path);
        target.kind = TargetKind::CustomBuild;
        target.name = name.to_owned();
        target.for_host = true;
        target.benched = false;
        target.tested = false;
        target
    }

    /// An example target: a binary where `crate_targets` is empty, else a
    /// library built as each of them; neither tested nor benchmarked.
    pub fn example_target(
        name: &str,
        crate_targets: Vec<LibKind>,
        src_path: SourcePath,
        required_features: Option<Vec<String>>,
    ) -> (target: Target)
        ensures
            target@ == (TargetView {
                kind: if crate_targets@.len() == 0 {
                    TargetKindView::ExampleBin
                } else {
                    TargetKindView::ExampleLib(kind_views(crate_targets@))
                },
                name: name@,
                required_features: feature_views(required_features),
                tested: false,
                benched: false,
                ..TargetView::plain(src_path@)
            }),
    {
        let kind = if crate_targets.len() == 0 {
            TargetKind::ExampleBin
        } else {
            TargetKind::ExampleLib(crate_targets)
        };
        let mut target = Target::with_path(src_path);
        target.kind = kind;
        target.name = name.to_owned();
        target.required_features = required_features;
        target.tested = false;
        target.benched = false;
        target
    }

    /// A test target; not benchmarked.
    pub fn test_target(name: &str, src_path: SourcePath, required_features: Option<Vec<String>>) -> (target:
        Target)
        ensures
            target@ == (TargetView {
                kind: TargetKindView::Test,
                name: name@,
                required_features: feature_views(required_features),
                benched: false,
                ..TargetView::plain(src_path@)
            }),
    {
        let mut target = Target::with_path(src_path);
        target.kind = TargetKind::Test;
        target.name = name.to_owned();
        target.required_features = required_features;
        target.benched = false;
        target
    }

    /// A benchmark target; not tested.
    pub fn bench_target(name: &str, src_path: SourcePath, required_features: Option<Vec<String>>) -> (target:
        Target)
        ensures
            target@ == (TargetView {
                kind: TargetKindView::Bench,
                name: name@,
                required_features: feature_views(required_features),
                tested: false,
                ..TargetView::plain(src_path@)
            }),
    {
        let mut target = Target::with_path(src_path);
        target.kind = TargetKind::Bench;
        target.name = name.to_owned();
        target.required_features = required_features;
        target.tested = false;
        target
    }

    /// The target's name.
    pub fn name(&self) -> (name: &str)
        ensures
            name@ == self@.name,
    {
        self.name.as_str()
    }

    /// The name of the crate that the target is built as: the target's name
    /// with every `-` turned into `_`.
    pub fn crate_name(&self) -> (name: String)
        ensures
            name@ == self@.crate_name(),
    {
        let source = self.name.as_str();
        let mut name = String::new();
        for c in it: source.chars()
            invariant
                it.seq() == self@.name,
                name@ == self@.crate_name().take(it.index() as int),
        {
            let replaced = if c == '-' {
                '_'
            } else {
                c
            };
            append_char(&mut name, replaced);
            assert(name@ =~= self@.crate_name().take(it.index() + 1));
        }
        assert(name@ =~= self@.crate_name());
        name
    }

    /// The absolute path of the target's root source file.
    pub fn src_path(&self) -> (path: &PathBuf)
        ensures
            *path == self@.src_path,
    {
        self.src_path.path()
    }

    /// The features that must be enabled for the target to be built, if it
    /// names any.
    pub fn required_features(&self) -> (features: Option<&Vec<String>>)
        ensures
            self@.required_features == match features {
                Some(features) => Some(text_views(features@)),
                None => None,
            },
    {
        self.required_features.as_ref()
    }

    /// What the target is.
    pub fn kind(&self) -> (kind: &TargetKind)
        ensures
            kind@ == self@.kind,
    {
        &self.kind
    }

    /// Whether the target is tested.
    pub fn tested(&self) -> (tested: bool)
        ensures
            tested == self@.tested,
    {
        self.tested
    }

    /// Whether the target uses the test harness.
    pub fn harness(&self) -> (harness: bool)
        ensures
            harness == self@.harness,
    {
        self.harness
    }

    /// Whether the target is documented.
    pub fn documented(&self) -> (documented: bool)
        ensures
            documented == self@.doc,
    {
        self.doc
    }

    /// Whether the target is built for the host.
    pub fn for_host(&self) -> (for_host: bool)
        ensures
            for_host == self@.for_host,
    {
        self.for_host
    }

    /// Whether the target is benchmarked.
    pub fn benched(&self) -> (benched: bool)
        ensures
            benched == self@.benched,
    {
        self.benched
    }

    /// Whether the documentation tests of the target are run.
    pub fn doctested(&self) -> (doctested: bool)
        ensures
            doctested == self@.doctested(),
    {
        self.doctest && match &self.kind {
            TargetKind::Lib(kinds) => has_kind(kinds, &LibKind::Rlib) || has_kind(
                kinds,
                &LibKind::Lib,
            ) || has_kind(kinds, &LibKind::ProcMacro),
            _ => false,
        }
    }

    /// Whether a name with underscores is accepted for the target.
    pub fn allows_underscores(&self) -> (allowed: bool)
        ensures
            allowed == self@.allows_underscores(),
    {
        self.is_bin() || self.is_example() || self.is_custom_build()
    }

    /// Whether the target is a library.
    pub fn is_lib(&self) -> (is_lib: bool)
        ensures
            is_lib == self@.is_lib(),
    {
        match self.kind {
            TargetKind::Lib(_) => true,
            _ => false,
        }
    }

    /// Whether the target is a library built, among others, as a dynamic
    /// library.
    pub fn is_dylib(&self) -> (is_dylib: bool)
        ensures
            is_dylib == self@.is_dylib(),
    {
        match &self.kind {
            TargetKind::Lib(kinds) => has_kind(kinds, &LibKind::Dylib),
            _ => false,
        }
    }

    /// Whether the target is a library built, among others, as a dynamic
    /// library for C.
    pub fn is_cdylib(&self) -> (is_cdylib: bool)
        ensures
            is_cdylib == self@.is_cdylib(),
    {
        match &self.kind {
            TargetKind::Lib(kinds) => has_kind(kinds, &LibKind::Other("cdylib".to_owned())),
            _ => false,
        }
    }

    /// Whether other crates can link against the target.
    pub fn linkable(&self) -> (linkable: bool)
        ensures
            linkable == self@.linkable(),
    {
        match &self.kind {
            TargetKind::Lib(kinds) => has_linkable(kinds),
            _ => false,
        }
    }

    /// Whether the target is a binary.
    pub fn is_bin(&self) -> (is_bin: bool)
        ensures
            is_bin == self@.is_bin(),
    {
        match self.kind {
            TargetKind::Bin => true,
            _ => false,
        }
    }

    /// Whether the target is an example, of either form.
    pub fn is_example(&self) -> (is_example: bool)
        ensures
            is_example == self@.is_example(),
    {
        match self.kind {
            TargetKind::ExampleBin | TargetKind::ExampleLib(_) => true,
            _ => false,
        }
    }

    /// Whether the target is an example that can be run.
    pub fn is_bin_example(&self) -> (is_bin_example: bool)
        ensures
            is_bin_example == self@.is_bin_example(),
    {
        match self.kind {
            TargetKind::ExampleBin => true,
            _ => false,
        }
    }

    /// Whether the target is a test.
    pub fn is_test(&self) -> (is_test: bool)
        ensures
            is_test == self@.is_test(),
    {
        match self.kind {
            TargetKind::Test => true,
            _ => false,
        }
    }

    /// Whether the target is a benchmark.
    pub fn is_bench(&self) -> (is_bench: bool)
        ensures
            is_bench == self@.is_bench(),
    {
        match self.kind {
            TargetKind::Bench => true,
            _ => false,
        }
    }

    /// Whether the target is a build script.
    pub fn is_custom_build(&self) -> (is_custom_build: bool)
        ensures
            is_custom_build == self@.is_custom_build(),
    {
        match self.kind {
            TargetKind::CustomBuild => true,
            _ => false,
        }
    }

    /// The arguments for `--crate-type` that build the target.
    pub fn rustc_crate_types(&self) -> (types: Vec<&str>)
        ensures
            types@.len() == self@.rustc_crate_types().len(),
            forall|i: int| 0 <= i < types@.len() ==> (#[trigger] types@[i])@ == self@.rustc_crate_types()[i],
    {
        match &self.kind {
            TargetKind::Lib(kinds) | TargetKind::ExampleLib(kinds) => crate_types(kinds),
            TargetKind::CustomBuild
            | TargetKind::Bench
            | TargetKind::Test
            | TargetKind::ExampleBin
            | TargetKind::Bin => one_name("bin"),
        }
    }

    /// Whether the target can be optimised at link time.
    pub fn can_lto(&self) -> (can_lto: bool)
        ensures
            can_lto == self@.can_lto(),
    {
        match &self.kind {
            TargetKind::Lib(kinds) => !has_kind(kinds, &LibKind::Rlib) && !has_kind(
                kinds,
                &LibKind::Dylib,
            ) && !has_kind(kinds, &LibKind::Lib),
            _ => true,
        }
    }

    /// Sets whether the target is tested, and hands the target back for more
    /// changes.
    pub fn set_tested(&mut self, tested: bool) -> (target: &mut Target)
        ensures
            target@ == (TargetView { tested, ..old(self)@ }),
            *final(self) == *final(target),
    {
        self.tested = tested;
        self
    }

    /// Sets whether the target is benchmarked, and hands the target back for
    /// more changes.
    pub fn set_benched(&mut self, benched: bool) -> (target: &mut Target)
        ensures
            target@ == (TargetView { benched, ..old(self)@ }),
            *final(self) == *final(target),
    {
        self.benched = benched;
        self
    }

    /// Sets whether the target asks for documentation tests, and hands the
    /// target back for more changes.
    pub fn set_doctest(&mut self, doctest: bool) -> (target: &mut Target)
        ensures
            target@ == (TargetView { doctest, ..old(self)@ }),
            *final(self) == *final(target),
    {
        self.doctest = doctest;
        self
    }

    /// Sets whether the target is built for the host, and hands the target back
    /// for more changes.
    pub fn set_for_host(&mut self, for_host: bool) -> (target: &mut Target)
        ensures
            target@ == (TargetView { for_host, ..old(self)@ }),
            *final(self) == *final(target),
    {
        self.for_host = for_host;
        self
    }

    /// Sets whether the target uses the test harness, and hands the target back
    /// for more changes.
    pub fn set_harness(&mut self, harness: bool) -> (target: &mut Target)
        ensures
            target@ == (TargetView { harness, ..old(self)@ }),
            *final(self) == *final(target),
    {
        self.harness = harness;
        self
    }

    /// Sets whether the target is documented, and hands the target back for
    /// more changes.
    pub fn set_doc(&mut self, doc: bool) -> (target: &mut Target)
        ensures
            target@ == (TargetView { doc, ..old(self)@ }),
            *final(self) == *final(target),
    {
        self.doc = doc;
        self
    }

    /// The text that describes the target to a reader.
    pub fn description(&self) -> (text: String)
        ensures
            text@ == self@.description(),
    {
        let opening = match self.kind {
            TargetKind::Lib(_) => {
                return "Target(lib)".to_owned();
            },
            TargetKind::CustomBuild => {
                return "Target(script)".to_owned();
            },
            TargetKind::Bin => "Target(bin: ",
            TargetKind::Test => "Target(test: ",
            TargetKind::Bench => "Target(bench: ",
            TargetKind::ExampleBin | TargetKind::ExampleLib(_) => "Target(example: ",
        };
        let mut text = opening.to_owned();
        append_text(&mut text, self.name.as_str());
        append_char(&mut text, ')');
        text
    }
}

} // verus!
