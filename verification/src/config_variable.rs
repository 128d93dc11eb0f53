//! Settings that a module can pin: once a module has set a value, the
//! general configuration no longer overrides it.
use vstd::prelude::*;

verus! {

/// A setting, and whether a module has set it.
#[derive(Clone, Debug)]
pub struct ConfigVariable<T> {
    pub value: T,
    pub set_by_module: bool,
}

/// What `set(value, module)` makes of `old`: a module always sets the value
/// and pins it; anyone else sets it only while no module has pinned it.
pub open spec fn spec_config_set<T>(old: ConfigVariable<T>, value: T, module: bool) -> ConfigVariable<T> {
    if module {
        ConfigVariable { value, set_by_module: true }
    } else if old.set_by_module {
        old
    } else {
        ConfigVariable { value, set_by_module: false }
    }
}

impl<T> ConfigVariable<T> {
    /// A setting that no module has pinned yet.
    pub fn new(value: T) -> (c: Self)
        ensures
            c.value == value,
            !c.set_by_module,
    {
        ConfigVariable { value, set_by_module: false }
    }

    /// Sets the value, on behalf of a module when `module` holds.
    pub fn set(&mut self, value: T, module: bool)
        ensures
            *final(self) == spec_config_set(*old(self), value, module),
    {
        if module {
            self.set_by_module = true;
        } else if self.set_by_module {
            return ;
        }
        self.value = value;
    }

    pub fn get(&self) -> (v: &T)
        ensures
            *v == self.value,
    {
        &self.value
    }

    pub fn is_set_by_module(&self) -> (b: bool)
        ensures
            b == self.set_by_module,
    {
        self.set_by_module
    }
}

/// Once a module has set a value, a later setting from elsewhere changes
/// nothing, and the value stays pinned.
pub proof fn lemma_module_setting_sticks<T>(c: ConfigVariable<T>, module_value: T, other: T)
    ensures
        spec_config_set(spec_config_set(c, module_value, true), other, false) == spec_config_set(
            c,
            module_value,
            true,
        ),
        spec_config_set(c, module_value, true).set_by_module,
{
}

/// The last setting by a module wins, whatever came before it.
pub proof fn lemma_module_setting_wins<T>(c: ConfigVariable<T>, first: T, first_module: bool, value: T)
    ensures
        spec_config_set(spec_config_set(c, first, first_module), value, true).value == value,
{
}

} // verus!
