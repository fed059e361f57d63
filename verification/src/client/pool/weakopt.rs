//! An optional weak reference.

use vstd::prelude::*;

verus! {

/// A weak reference that may be missing from the start. `W` is the weak reference
/// itself, such as [`std::sync::Weak`].
pub struct WeakOpt<W>(Option<W>);

impl<W> WeakOpt<W> {
    /// The weak reference, where there is one.
    pub closed spec fn reference(self) -> Option<W> {
        self.0
    }

    /// No reference.
    pub fn none() -> (weak: Self)
        ensures
            weak.reference() is None,
    {
        WeakOpt(None)
    }

    /// A weak reference.
    pub fn downgrade(reference: W) -> (weak: Self)
        ensures
            weak.reference() == Some(reference),
    {
        WeakOpt(Some(reference))
    }

    /// What is referred to, where there is a reference and `upgrade` finds that what
    /// it refers to is still there.
    pub fn upgrade<F, T>(&self, upgrade: F) -> (found: Option<T>) where F: FnOnce(&W) -> Option<T>
        requires
            self.reference() matches Some(reference) ==> upgrade.requires((&reference,)),
        ensures
            match self.reference() {
                Some(reference) => upgrade.ensures((&reference,), found),
                None => found is None,
            },
    {
        match &self.0 {
            Some(reference) => upgrade(reference),
            None => None,
        }
    }

    /// Whether there is no reference.
    pub fn is_none(&self) -> (none: bool)
        ensures
            none == (self.reference() is None),
    {
        self.0.is_none()
    }

    /// The reference as text for a developer, without what it refers to.
    pub fn debug_text(&self) -> (shown: &'static str)
        ensures
            shown@ == (if self.reference() is Some {
                "WeakOpt(Some(...))"@
            } else {
                "WeakOpt(None)"@
            }),
    {
        match &self.0 {
            Some(_) => "WeakOpt(Some(...))",
            None => "WeakOpt(None)",
        }
    }
}

impl<W: Clone> Clone for WeakOpt<W> {
    fn clone(&self) -> (copy: Self)
        ensures
            match self.reference() {
                Some(reference) => copy.reference() matches Some(other) && cloned(reference, other),
                None => copy.reference() is None,
            },
    {
        match &self.0 {
            Some(reference) => WeakOpt(Some(reference.clone())),
            None => WeakOpt(None),
        }
    }
}

/// No reference leads to nothing, and says so. A reference leads to what is still there, and
/// says that there is one; its text says no more.
pub proof fn law_reference_leads_to_what_is_there<W: Clone, F: FnOnce(&W) -> Option<T>, T>(
    reference: W,
    missing: WeakOpt<W>,
    present: WeakOpt<W>,
    upgrade: F,
    nothing: Option<T>,
    found: Option<T>,
    missing_none: bool,
    present_none: bool,
    missing_text: &'static str,
    present_text: &'static str,
    copy: WeakOpt<W>,
    copy_none: bool,
)
    requires
        call_ensures(WeakOpt::<W>::none, (), missing),
        call_ensures(WeakOpt::<W>::downgrade, (reference,), present),
        call_ensures(WeakOpt::<W>::upgrade::<F, T>, (&missing, upgrade), nothing),
        call_ensures(WeakOpt::<W>::upgrade::<F, T>, (&present, upgrade), found),
        call_ensures(WeakOpt::<W>::is_none, (&missing,), missing_none),
        call_ensures(WeakOpt::<W>::is_none, (&present,), present_none),
        call_ensures(WeakOpt::<W>::debug_text, (&missing,), missing_text),
        call_ensures(WeakOpt::<W>::debug_text, (&present,), present_text),
        call_ensures(WeakOpt::<W>::clone, (&present,), copy),
        call_ensures(WeakOpt::<W>::is_none, (&copy,), copy_none),
    ensures
        nothing is None,
        upgrade.ensures((&reference,), found),
        missing_none,
        !present_none,
        !copy_none,
        missing_text@ == "WeakOpt(None)"@,
        present_text@ == "WeakOpt(Some(...))"@,
{
}

} // verus!
