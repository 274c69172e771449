use crate::payload::{PayloadView, PluginData};
use vstd::prelude::*;

verus! {

/// Mathematical image of one auxiliary window: its title, every payload ever
/// delivered to its content (in order — the window displays the last one),
/// whether its content has become ready to receive a delivery, and whether
/// the window has been given focus.
#[verifier::ext_equal]
pub struct AuxView {
    pub title: Seq<char>,
    pub delivered: Seq<PayloadView>,
    pub ready: bool,
    pub focused: bool,
}

/// Mathematical image of the whole window system: the primary window's
/// visibility, focus and logical size, and the auxiliary windows that exist.
/// The auxiliary windows form a sequence precisely so that "at most one ever
/// exists" is a claim about the coordinator, not a fact built into the model.
#[verifier::ext_equal]
pub struct SysView {
    pub primary_visible: bool,
    pub primary_focused: bool,
    pub primary_width: u32,
    pub primary_height: u32,
    pub aux: Seq<AuxView>,
}

/// The view of a freshly created auxiliary window: titled, focused, nothing
/// delivered yet, and its content not yet ready to receive a delivery.
pub open spec fn spawned_aux(title: Seq<char>) -> AuxView {
    AuxView { title, delivered: Seq::empty(), ready: false, focused: true }
}

/// What one delivery attempt does to a window: a ready content receives the
/// payload; a content that is not yet ready drops it without a trace.
pub open spec fn emit_view(w: AuxView, p: PayloadView) -> AuxView {
    if w.ready {
        AuxView { delivered: w.delivered.push(p), ..w }
    } else {
        w
    }
}

/// An auxiliary window after being brought to the foreground.
pub open spec fn focus_view(w: AuxView) -> AuxView {
    AuxView { focused: true, ..w }
}

/// One auxiliary window of the executable model.
pub struct AuxWindow {
    pub title: String,
    pub delivered: Vec<PluginData>,
    pub ready: bool,
    pub focused: bool,
}

impl View for AuxWindow {
    type V = AuxView;

    open spec fn view(&self) -> AuxView {
        AuxView {
            title: self.title@,
            delivered: self.delivered@.map_values(|p: PluginData| p@),
            ready: self.ready,
            focused: self.focused,
        }
    }
}

/// An executable model of the window system: the reference backend that the
/// coordinator's commands are verified against and that the tests drive. Its
/// operations are the capability interface the coordinator assumes of any
/// windowing backend — show, hide, query visibility, resize, create, focus,
/// emit, close — each with its exact effect on the system view.
pub struct ModelBackend {
    pub primary_visible: bool,
    pub primary_focused: bool,
    pub primary_width: u32,
    pub primary_height: u32,
    pub aux: Vec<AuxWindow>,
}

impl View for ModelBackend {
    type V = SysView;

    open spec fn view(&self) -> SysView {
        SysView {
            primary_visible: self.primary_visible,
            primary_focused: self.primary_focused,
            primary_width: self.primary_width,
            primary_height: self.primary_height,
            aux: self.aux@.map_values(|w: AuxWindow| w@),
        }
    }
}

/// The window system as the application starts: a visible, focused primary
/// window at its default logical size, and no auxiliary window.
pub open spec fn initial_sys() -> SysView {
    SysView {
        primary_visible: true,
        primary_focused: true,
        primary_width: 1024,
        primary_height: 768,
        aux: Seq::empty(),
    }
}

impl ModelBackend {
    pub fn new() -> (m: ModelBackend)
        ensures
            m@ == initial_sys(),
    {
        let m = ModelBackend {
            primary_visible: true,
            primary_focused: true,
            primary_width: 1024,
            primary_height: 768,
            aux: Vec::new(),
        };
        proof {
            assert(m@ =~= initial_sys());
        }
        m
    }

    pub fn show_primary(&mut self)
        ensures
            final(self)@ == (SysView { primary_visible: true, ..old(self)@ }),
    {
        self.primary_visible = true;
    }

    pub fn hide_primary(&mut self)
        ensures
            final(self)@ == (SysView { primary_visible: false, ..old(self)@ }),
    {
        self.primary_visible = false;
    }

    pub fn is_primary_visible(&self) -> (b: bool)
        ensures
            b == self@.primary_visible,
    {
        self.primary_visible
    }

    pub fn resize_primary(&mut self, width: u32, height: u32)
        ensures
            final(self)@ == (SysView {
                primary_width: width,
                primary_height: height,
                ..old(self)@
            }),
    {
        self.primary_width = width;
        self.primary_height = height;
    }

    pub fn primary_size(&self) -> (s: (u32, u32))
        ensures
            s.0 == self@.primary_width,
            s.1 == self@.primary_height,
    {
        (self.primary_width, self.primary_height)
    }

    pub fn focus_primary(&mut self)
        ensures
            final(self)@ == (SysView { primary_focused: true, ..old(self)@ }),
    {
        self.primary_focused = true;
    }

    /// Creates one more auxiliary window. The model never refuses: keeping
    /// the window a singleton is the coordinator's duty, not the backend's.
    pub fn create_aux(&mut self, title: String)
        ensures
            final(self)@ == (SysView {
                aux: old(self)@.aux.push(spawned_aux(title@)),
                ..old(self)@
            }),
    {
        let ghost t = title@;
        let w = AuxWindow { title, delivered: Vec::new(), ready: false, focused: true };
        proof {
            assert(w@.delivered =~= Seq::<PayloadView>::empty());
            assert(w@ =~= spawned_aux(t));
        }
        self.aux.push(w);
        proof {
            assert(self@.aux =~= old(self)@.aux.push(spawned_aux(t)));
            assert(self@ =~= (SysView { aux: old(self)@.aux.push(spawned_aux(t)), ..old(self)@ }));
        }
    }

    /// Brings the first auxiliary window to the foreground.
    pub fn focus_aux(&mut self)
        requires
            old(self)@.aux.len() > 0,
        ensures
            final(self)@ == (SysView {
                aux: old(self)@.aux.update(0, focus_view(old(self)@.aux[0])),
                ..old(self)@
            }),
    {
        let w = &mut self.aux[0];
        w.focused = true;
        proof {
            assert(self@.aux =~= old(self)@.aux.update(0, focus_view(old(self)@.aux[0])));
            assert(self@ =~= (SysView {
                aux: old(self)@.aux.update(0, focus_view(old(self)@.aux[0])),
                ..old(self)@
            }));
        }
    }

    /// Marks the first auxiliary window's content ready to receive payloads:
    /// the model's stand-in for the page inside the window finishing loading.
    pub fn set_aux_ready(&mut self)
        requires
            old(self)@.aux.len() > 0,
        ensures
            final(self)@ == (SysView {
                aux: old(self)@.aux.update(0, (AuxView { ready: true, ..old(self)@.aux[0] })),
                ..old(self)@
            }),
    {
        let w = &mut self.aux[0];
        w.ready = true;
        proof {
            assert(self@.aux =~= old(self)@.aux.update(
                0,
                (AuxView { ready: true, ..old(self)@.aux[0] }),
            ));
            assert(self@ =~= (SysView {
                aux: old(self)@.aux.update(0, (AuxView { ready: true, ..old(self)@.aux[0] })),
                ..old(self)@
            }));
        }
    }

    /// One push-style delivery attempt to the first auxiliary window. The
    /// push is fire-and-forget: a content that is not ready drops it.
    pub fn emit_aux(&mut self, p: &PluginData)
        requires
            old(self)@.aux.len() > 0,
        ensures
            final(self)@ == (SysView {
                aux: old(self)@.aux.update(0, emit_view(old(self)@.aux[0], p@)),
                ..old(self)@
            }),
    {
        if self.aux[0].ready {
            let copy = p.duplicate();
            let w = &mut self.aux[0];
            w.delivered.push(copy);
            proof {
                assert(self@.aux[0].delivered =~= old(self)@.aux[0].delivered.push(p@));
                assert(self@.aux =~= old(self)@.aux.update(0, emit_view(old(self)@.aux[0], p@)));
                assert(self@ =~= (SysView {
                    aux: old(self)@.aux.update(0, emit_view(old(self)@.aux[0], p@)),
                    ..old(self)@
                }));
            }
        } else {
            proof {
                assert(self@.aux =~= old(self)@.aux.update(0, emit_view(old(self)@.aux[0], p@)));
                assert(self@ =~= (SysView {
                    aux: old(self)@.aux.update(0, emit_view(old(self)@.aux[0], p@)),
                    ..old(self)@
                }));
            }
        }
    }

    /// Closes the first auxiliary window.
    pub fn close_aux(&mut self)
        requires
            old(self)@.aux.len() > 0,
        ensures
            final(self)@ == (SysView { aux: old(self)@.aux.remove(0), ..old(self)@ }),
    {
        self.aux.remove(0);
        proof {
            assert(self@.aux =~= old(self)@.aux.remove(0));
            assert(self@ =~= (SysView { aux: old(self)@.aux.remove(0), ..old(self)@ }));
        }
    }

    /// How many auxiliary windows exist right now.
    pub fn aux_count(&self) -> (n: usize)
        ensures
            n == self@.aux.len(),
    {
        self.aux.len()
    }
}

} // verus!
