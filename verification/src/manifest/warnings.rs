//! Warnings that are found while a manifest is read and shown later.

use vstd::prelude::*;

verus! {

/// A warning whose emission is put off: one found in the manifest of a
/// dependency may never be shown.
#[derive(Clone, Debug)]
pub struct DelayedWarning {
    pub message: String,
    pub is_critical: bool,
}

/// A warning as a mathematical value.
pub struct DelayedWarningView {
    pub message: Seq<char>,
    pub is_critical: bool,
}

impl View for DelayedWarning {
    type V = DelayedWarningView;

    open spec fn view(&self) -> DelayedWarningView {
        DelayedWarningView { message: self.message@, is_critical: self.is_critical }
    }
}

/// The warnings of one manifest, in the order in which they were added.
#[derive(Clone, Debug)]
pub struct Warnings(Vec<DelayedWarning>);

impl View for Warnings {
    type V = Seq<DelayedWarningView>;

    closed spec fn view(&self) -> Seq<DelayedWarningView> {
        Seq::new(self.0@.len(), |i: int| self.0@[i]@)
    }
}

/// The views of a list of warnings.
pub open spec fn warning_views(warnings: Seq<DelayedWarning>) -> Seq<DelayedWarningView> {
    Seq::new(warnings.len(), |i: int| warnings[i]@)
}

impl Warnings {
    /// No warnings.
    pub fn new() -> (warnings: Warnings)
        ensures
            warnings@ == Seq::<DelayedWarningView>::empty(),
    {
        let warnings = Warnings(Vec::new());
        assert(warnings@ =~= Seq::<DelayedWarningView>::empty());
        warnings
    }

    /// Adds a warning that is not critical, after those already there.
    pub fn add_warning(&mut self, s: String)
        ensures
            final(self)@ == old(self)@.push(DelayedWarningView { message: s@, is_critical: false }),
    {
        self.0.push(DelayedWarning { message: s, is_critical: false });
        assert(final(self)@ =~= old(self)@.push(
            DelayedWarningView { message: s@, is_critical: false },
        ));
    }

    /// Adds a critical warning, after those already there.
    pub fn add_critical_warning(&mut self, s: String)
        ensures
            final(self)@ == old(self)@.push(DelayedWarningView { message: s@, is_critical: true }),
    {
        self.0.push(DelayedWarning { message: s, is_critical: true });
        assert(final(self)@ =~= old(self)@.push(
            DelayedWarningView { message: s@, is_critical: true },
        ));
    }

    /// The warnings, in the order in which they were added.
    pub fn warnings(&self) -> (warnings: &[DelayedWarning])
        ensures
            warning_views(warnings@) == self@,
    {
        let warnings = self.0.as_slice();
        assert(warning_views(warnings@) =~= self@);
        warnings
    }
}

} // verus!
