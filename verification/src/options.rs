//! Attaching a configuration value to a component.

use vstd::prelude::*;

verus! {

/// A component that owns one configuration value of type `T`.
///
/// `T` has a default, so that a component can be made before any configuration
/// is at hand.
pub trait HasOptions<T: Default>: Sized {
    /// The configuration value that the component holds.
    open spec fn options_value(&self) -> T {
        arbitrary()
    }

    /// The component with `options` in place of the value it held, and nothing
    /// else changed.
    open spec fn configured(self, options: T) -> Self {
        arbitrary()
    }

    /// Replaces the stored configuration value wholesale.
    fn set_options(&mut self, options: T)
        ensures
            *final(self) == old(self).configured(options),
            final(self).options_value() == options,
    ;

    /// Returns the stored configuration value.
    fn options(&self) -> (r: &T)
        ensures
            *r == self.options_value(),
    ;

    /// Consumes the component, stores `options` in it and hands it back: for
    /// use right after the component is made.
    fn with_options(self, options: T) -> (r: Self)
        ensures
            r == self.configured(options),
            r.options_value() == options,
    {
        let mut component = self;
        component.set_options(options);
        component
    }
}

} // verus!
