//! Visibility of a locus node, and how it reacts to the locus being detected
//! or concealed.
use vstd::prelude::*;

verus! {

/// Whether a locus node is drawn: the three states of a UI node's visibility.
///
/// `Inherited` draws the node when its parent is drawn, `Hidden` never draws
/// it, and `Visible` always draws it.
#[derive(Clone, Copy, Debug, PartialEq, Eq, Structural)]
pub enum LocusVisibility {
    Inherited,
    Hidden,
    Visible,
}

/// The visibility after toggling between `Inherited` and `Hidden`;
/// `Visible` stays as it is.
pub open spec fn toggled(v: LocusVisibility) -> LocusVisibility {
    match v {
        LocusVisibility::Inherited => LocusVisibility::Hidden,
        LocusVisibility::Hidden => LocusVisibility::Inherited,
        LocusVisibility::Visible => LocusVisibility::Visible,
    }
}

/// The visibility of a locus once it has been detected: a hidden locus is
/// shown again, the other two states are left alone.
pub open spec fn revealed(v: LocusVisibility) -> LocusVisibility {
    match v {
        LocusVisibility::Hidden => LocusVisibility::Inherited,
        _ => v,
    }
}

/// The visibility of a locus once its detection is withdrawn: a shown locus
/// is hidden, the other two states are left alone.
pub open spec fn concealed(v: LocusVisibility) -> LocusVisibility {
    match v {
        LocusVisibility::Inherited => LocusVisibility::Hidden,
        _ => v,
    }
}

impl LocusVisibility {
    /// Toggles between `Inherited` and `Hidden`; `Visible` is left unaffected.
    pub fn toggle_inherited_hidden(&mut self)
        ensures
            *final(self) == toggled(*old(self)),
    {
        *self = match *self {
            LocusVisibility::Inherited => LocusVisibility::Hidden,
            LocusVisibility::Hidden => LocusVisibility::Inherited,
            LocusVisibility::Visible => LocusVisibility::Visible,
        };
    }
}

/// Reaction of a locus to being detected.
///
/// A hidden locus is toggled back to `Inherited`; an `Inherited` one is left
/// as it is. A `Visible` locus is not touched, and the result says so: the
/// detection is ignored for it, which the caller reports.
pub fn reveal_on_detection(visibility: &mut LocusVisibility) -> (ignored: bool)
    ensures
        *final(visibility) == revealed(*old(visibility)),
        ignored == (*old(visibility) == LocusVisibility::Visible),
{
    match *visibility {
        LocusVisibility::Inherited => false,
        LocusVisibility::Hidden => {
            visibility.toggle_inherited_hidden();
            false
        },
        LocusVisibility::Visible => true,
    }
}

/// Reaction of a locus to losing its detection.
///
/// An `Inherited` locus is toggled to `Hidden`; a hidden one is left as it
/// is. A `Visible` locus is not touched, and the result says so.
pub fn conceal_on_removal(visibility: &mut LocusVisibility) -> (ignored: bool)
    ensures
        *final(visibility) == concealed(*old(visibility)),
        ignored == (*old(visibility) == LocusVisibility::Visible),
{
    match *visibility {
        LocusVisibility::Inherited => {
            visibility.toggle_inherited_hidden();
            false
        },
        LocusVisibility::Hidden => false,
        LocusVisibility::Visible => true,
    }
}

/// Toggling twice gives back the visibility one started from.
pub proof fn lemma_toggle_involutive(v: LocusVisibility)
    ensures
        toggled(toggled(v)) == v,
{
}

/// Detection and concealment are each idempotent: reacting to the same
/// event twice changes nothing more than reacting once.
pub proof fn lemma_reactions_idempotent(v: LocusVisibility)
    ensures
        revealed(revealed(v)) == revealed(v),
        concealed(concealed(v)) == concealed(v),
{
}

/// Detection and concealment undo one another on the two states they act
/// on: after a detection the locus is shown, after a concealment it is
/// hidden, whatever came before; a `Visible` locus is fixed by both.
pub proof fn lemma_reveal_conceal_round_trip(v: LocusVisibility)
    ensures
        v != LocusVisibility::Visible ==> concealed(revealed(v)) == LocusVisibility::Hidden,
        v != LocusVisibility::Visible ==> revealed(concealed(v)) == LocusVisibility::Inherited,
        v == LocusVisibility::Visible ==> revealed(v) == v && concealed(v) == v,
{
}

} // verus!
