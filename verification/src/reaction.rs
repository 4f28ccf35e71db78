//! What the body of a dialog decides in one frame.

use vstd::prelude::*;
use crate::effect::Effect;
use crate::payload::Payload;

verus! {

/// What a dialog decided: whether it closes, which dialogs it opens, and what
/// it asks of the host.
#[derive(Debug, PartialEq, Eq)]
pub struct Reaction {
    /// The dialog closes at the end of its turn.
    pub close: bool,
    /// The dialogs that open in its wake, in the order in which they open.
    pub follow_ups: Vec<Payload>,
    /// What the host is to do, in order.
    pub effects: Vec<Effect>,
}

/// A `Reaction` as contracts see it.
#[verifier::ext_equal]
pub struct ReactionView {
    pub close: bool,
    pub follow_ups: Seq<Payload>,
    pub effects: Seq<Effect>,
}

impl View for Reaction {
    type V = ReactionView;

    open spec fn view(&self) -> ReactionView {
        ReactionView { close: self.close, follow_ups: self.follow_ups@, effects: self.effects@ }
    }
}

impl ReactionView {
    /// The dialog stays open, opens nothing and asks nothing.
    pub open spec fn stay() -> ReactionView {
        ReactionView { close: false, follow_ups: Seq::empty(), effects: Seq::empty() }
    }

    /// The dialog closes, opens nothing and asks nothing.
    pub open spec fn dismiss() -> ReactionView {
        ReactionView { close: true, follow_ups: Seq::empty(), effects: Seq::empty() }
    }
}

impl Reaction {
    /// The dialog stays open, opens nothing and asks nothing.
    pub fn stay() -> (reaction: Reaction)
        ensures
            reaction@ == ReactionView::stay(),
    {
        Reaction { close: false, follow_ups: Vec::new(), effects: Vec::new() }
    }

    /// The dialog closes, opens nothing and asks nothing.
    pub fn dismiss() -> (reaction: Reaction)
        ensures
            reaction@ == ReactionView::dismiss(),
    {
        Reaction { close: true, follow_ups: Vec::new(), effects: Vec::new() }
    }
}

} // verus!
