//! The application's coarse lifecycle: a splash screen while assets load, then
//! the main menu.
use vstd::prelude::*;

verus! {

/// The phase the application is in.
#[derive(Debug, Clone, Copy, PartialEq, Eq, Hash, Structural)]
pub enum Phase {
    SplashScreen,
    MainMenu,
}

impl Phase {
    /// The phase the application starts in.
    pub fn initial() -> (r: Phase)
        ensures
            r == Phase::SplashScreen,
    {
        Phase::SplashScreen
    }

    /// What the phase becomes once the loader has been asked whether every
    /// tracked load is done: the splash screen gives way to the main menu
    /// exactly when all loads are done, and the main menu is never left.
    pub fn after_progress(&self, all_loaded: bool) -> (r: Phase)
        ensures
            r == next_phase(*self, all_loaded),
    {
        match self {
            Phase::SplashScreen => {
                if all_loaded {
                    Phase::MainMenu
                } else {
                    Phase::SplashScreen
                }
            },
            Phase::MainMenu => Phase::MainMenu,
        }
    }
}

/// The transition relation of the phase machine.
pub open spec fn next_phase(p: Phase, all_loaded: bool) -> Phase {
    match p {
        Phase::SplashScreen => if all_loaded {
            Phase::MainMenu
        } else {
            Phase::SplashScreen
        },
        Phase::MainMenu => Phase::MainMenu,
    }
}

/// Once in the main menu, the application stays there whatever the loader
/// reports.
pub proof fn lemma_main_menu_is_final(all_loaded: bool)
    ensures
        next_phase(Phase::MainMenu, all_loaded) == Phase::MainMenu,
{
}

} // verus!
