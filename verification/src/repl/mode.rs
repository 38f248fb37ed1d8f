//! The two names that a line without a prefix falls back on.

use crate::text::list::{clone_option, option_text};
use vstd::prelude::*;

verus! {

/// The current mode, which sticks once a prefix was used, and the default
/// mode, which is consulted only while there is no current one. Neither is
/// checked against the registry here.
#[derive(Debug)]
pub struct ModeState {
    current: Option<String>,
    default: Option<String>,
}

/// A [`ModeState`] as contracts see it.
pub struct ModeView {
    pub current: Option<Seq<char>>,
    pub default: Option<Seq<char>>,
}

impl View for ModeState {
    type V = ModeView;

    closed spec fn view(&self) -> ModeView {
        ModeView { current: option_text(self.current), default: option_text(self.default) }
    }
}

/// The name that a line without a prefix goes to: the current mode, else the
/// default mode.
pub open spec fn target_spec(m: ModeView) -> Option<Seq<char>> {
    if m.current is Some {
        m.current
    } else {
        m.default
    }
}

impl ModeState {
    /// A state with neither mode set.
    pub fn new() -> (m: Self)
        ensures
            m@ == (ModeView { current: None, default: None }),
    {
        ModeState { current: None, default: None }
    }

    /// The current mode.
    pub fn get_current(&self) -> (r: Option<String>)
        ensures
            option_text(r) == self@.current,
    {
        clone_option(&self.current)
    }

    /// Sets or clears the current mode.
    pub fn set_current(&mut self, name: Option<String>)
        ensures
            final(self)@ == (ModeView { current: option_text(name), default: old(self)@.default }),
    {
        self.current = name;
    }

    /// The default mode.
    pub fn get_default(&self) -> (r: Option<String>)
        ensures
            option_text(r) == self@.default,
    {
        clone_option(&self.default)
    }

    /// Sets or clears the default mode.
    pub fn set_default(&mut self, name: Option<String>)
        ensures
            final(self)@ == (ModeView { current: old(self)@.current, default: option_text(name) }),
    {
        self.default = name;
    }

    /// The name that a line without a prefix goes to.
    pub fn target(&self) -> (r: Option<String>)
        ensures
            option_text(r) == target_spec(self@),
    {
        match &self.current {
            Some(name) => Some(name.clone()),
            None => clone_option(&self.default),
        }
    }
}

impl Clone for ModeState {
    fn clone(&self) -> (r: Self)
        ensures
            r@ == self@,
    {
        ModeState { current: clone_option(&self.current), default: clone_option(&self.default) }
    }
}

impl Default for ModeState {
    fn default() -> (m: Self)
        ensures
            m@ == (ModeView { current: None, default: None }),
    {
        ModeState::new()
    }
}

} // verus!
