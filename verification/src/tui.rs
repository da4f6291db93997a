//! The state of the terminal front end and how it reacts to input.
use vstd::prelude::*;

verus! {

/// The screens of the front end.
#[allow(non_camel_case_types)]
#[derive(Clone, Copy, PartialEq, Eq, Structural, Debug)]
pub enum Screens {
    HOME,
    BACKUP,
    SERVER,
}

/// The front end's state.
pub struct AppState {
    pub current_screen: Screens,
    pub should_quit: bool,
}

impl Default for AppState {
    fn default() -> (r: Self)
        ensures
            r.current_screen == Screens::HOME,
            !r.should_quit,
    {
        AppState { current_screen: Screens::HOME, should_quit: false }
    }
}

/// A terminal event, by kind.
#[derive(Clone, Copy, PartialEq, Eq, Structural, Debug)]
pub enum TermEvent {
    FocusGained,
    FocusLost,
    Key,
    Mouse,
    Paste,
    Resize,
}

/// The home screen.
pub struct HomeView {}

impl HomeView {
    /// Reacts to an event on the home screen: a key press quits; anything
    /// else changes nothing.
    pub fn update(state: &mut AppState, event: TermEvent)
        ensures
            final(state).should_quit == (old(state).should_quit || event == TermEvent::Key),
            final(state).current_screen == old(state).current_screen,
    {
        match event {
            TermEvent::Key => {
                state.should_quit = true;
            },
            _ => {},
        }
    }

    /// The titles of the tabs in the top bar.
    pub fn tab_titles() -> (r: Vec<String>)
        ensures
            r@.map_values(|s: String| s@) == seq!["Home"@, "Backups"@, "Server I/O"@],
    {
        let mut r: Vec<String> = Vec::new();
        r.push("Home".to_owned());
        r.push("Backups".to_owned());
        r.push("Server I/O".to_owned());
        assert(r@.map_values(|s: String| s@) =~= seq!["Home"@, "Backups"@, "Server I/O"@]);
        r
    }
}

/// The screen that shows whichever screen is current.
pub struct RootView {}

impl RootView {
    /// Passes an event to the current screen. Only the home screen exists so
    /// far.
    pub fn update(state: &mut AppState, event: TermEvent)
        requires
            old(state).current_screen == Screens::HOME,
        ensures
            final(state).should_quit == (old(state).should_quit || event == TermEvent::Key),
            final(state).current_screen == old(state).current_screen,
    {
        match state.current_screen {
            Screens::HOME => HomeView::update(state, event),
            Screens::BACKUP => {},
            Screens::SERVER => {},
        }
    }
}

/// A size constraint of a layout's area.
#[derive(Clone, Copy, PartialEq, Eq, Structural, Debug)]
pub enum LayoutConstraint {
    /// This fraction of the space.
    Ratio(u32, u32),
    /// A share of the space that is left, by weight.
    Fill(u16),
}

/// The home screen's vertical layout: a top bar and a bottom bar of an
/// eighth each, the body in between.
pub fn home_layout_constraints() -> (r: Vec<LayoutConstraint>)
    ensures
        r@ == seq![
            LayoutConstraint::Ratio(1, 8),
            LayoutConstraint::Fill(1),
            LayoutConstraint::Ratio(1, 8),
        ],
{
    let mut r: Vec<LayoutConstraint> = Vec::new();
    r.push(LayoutConstraint::Ratio(1, 8));
    r.push(LayoutConstraint::Fill(1));
    r.push(LayoutConstraint::Ratio(1, 8));
    assert(r@ =~= seq![
        LayoutConstraint::Ratio(1, 8),
        LayoutConstraint::Fill(1),
        LayoutConstraint::Ratio(1, 8),
    ]);
    r
}

} // verus!
