//! The order in which the extension modules are registered at startup.
use vstd::prelude::*;

verus! {

/// An extension module registered once at startup.
#[derive(Clone, Copy, PartialEq, Eq, Structural, Debug)]
pub enum Module {
    Logging,
    Autostart,
    Store,
    GlobalShortcut,
    Opener,
    Panel,
}

/// The registration order: logging, launch at login, key-value store, global
/// shortcuts, URL opener, floating panels.
pub open spec fn module_order() -> Seq<Module> {
    seq![
        Module::Logging,
        Module::Autostart,
        Module::Store,
        Module::GlobalShortcut,
        Module::Opener,
        Module::Panel,
    ]
}

/// The modules to register, in the order they are registered; each must
/// succeed before the next is tried.
pub fn startup_modules() -> (r: Vec<Module>)
    ensures
        r@ == module_order(),
{
    let r = vec![
        Module::Logging,
        Module::Autostart,
        Module::Store,
        Module::GlobalShortcut,
        Module::Opener,
        Module::Panel,
    ];
    assert(r@ =~= module_order());
    r
}

} // verus!
