use crate::coordinator::{dismiss_spec, display_spec, toggle_spec};
use crate::model::{spawned_aux, SysView};
use crate::payload::PayloadView;
use vstd::prelude::*;

verus! {

/// However many display requests are made, the auxiliary window stays a
/// singleton: a display request on a system with at most one auxiliary window
/// leaves at most one, so no sequence of requests can ever produce two.
pub proof fn lemma_single_auxiliary_window(s: SysView, p: PayloadView)
    requires
        s.aux.len() <= 1,
    ensures
        display_spec(s, p).aux.len() <= 1,
{
}

/// A display request on a system without an auxiliary window creates exactly
/// one, titled with the payload's plugin name, focused, with nothing
/// delivered yet: the payload follows over the background schedule.
pub proof fn lemma_display_creates(s: SysView, p: PayloadView)
    requires
        s.aux.len() == 0,
    ensures
        display_spec(s, p).aux.len() == 1,
        display_spec(s, p).aux[0] == spawned_aux(p.plugin_name),
        display_spec(s, p).aux[0].title == p.plugin_name,
        display_spec(s, p).aux[0].focused,
{
}

/// A display request on a system that already has an auxiliary window creates
/// no second one: the existing window keeps its identity — its title and its
/// delivery history — and is focused; a ready content receives the payload at
/// once, so the window then holds the most recently submitted payload.
pub proof fn lemma_display_reuses(s: SysView, p: PayloadView)
    requires
        s.aux.len() == 1,
    ensures
        display_spec(s, p).aux.len() == 1,
        display_spec(s, p).aux[0].title == s.aux[0].title,
        display_spec(s, p).aux[0].focused,
        s.aux[0].ready ==> display_spec(s, p).aux[0].delivered == s.aux[0].delivered.push(p),
        s.aux[0].ready ==> display_spec(s, p).aux[0].delivered.last() == p,
        !s.aux[0].ready ==> display_spec(s, p).aux[0].delivered == s.aux[0].delivered,
{
}

/// Two visibility toggles bring the primary window back where it started:
/// one toggle inverts its visibility, a second inverts it again, and nothing
/// else about the system changes.
pub proof fn lemma_toggle_round_trip(s: SysView)
    ensures
        toggle_spec(s).primary_visible == !s.primary_visible,
        toggle_spec(toggle_spec(s)) == s,
{
    assert(toggle_spec(toggle_spec(s)) =~= s);
}

/// A dismissal leaves no auxiliary window and the primary window focused,
/// whether or not an auxiliary window existed, and never touches the primary
/// window's visibility or size.
pub proof fn lemma_dismiss_clears(s: SysView)
    ensures
        dismiss_spec(s).aux.len() == 0,
        dismiss_spec(s).primary_focused,
        dismiss_spec(s).primary_visible == s.primary_visible,
        dismiss_spec(s).primary_width == s.primary_width,
        dismiss_spec(s).primary_height == s.primary_height,
{
}

/// A display request after a dismissal creates a fresh window, not a stale
/// reuse: it bears the new payload's plugin name and an empty delivery
/// history, whatever window existed before the dismissal.
pub proof fn lemma_dismiss_then_display_fresh(s: SysView, p: PayloadView)
    ensures
        display_spec(dismiss_spec(s), p).aux.len() == 1,
        display_spec(dismiss_spec(s), p).aux[0] == spawned_aux(p.plugin_name),
        display_spec(dismiss_spec(s), p).aux[0].delivered.len() == 0,
{
}

} // verus!
