use crate::model::{emit_view, focus_view, spawned_aux, ModelBackend, SysView};
use crate::payload::{PayloadView, PluginData};
use vstd::prelude::*;

verus! {

/// How many delivery attempts the background schedule makes after the
/// auxiliary window is created.
pub const RETRY_ATTEMPTS: u32 = 5;

/// How long, in milliseconds, the background schedule waits before each
/// delivery attempt.
pub const RETRY_DELAY_MS: u64 = 300;

/// The singleton identifier under which the auxiliary window is registered.
pub fn aux_window_label() -> (s: &'static str)
    ensures
        s@ == "plugin-window"@,
{
    "plugin-window"
}

/// The identifier of the primary window, which always exists and is never
/// created or destroyed here — only focused.
pub fn primary_window_label() -> (s: &'static str)
    ensures
        s@ == "main"@,
{
    "main"
}

/// The logical path of the view the auxiliary window renders.
pub fn result_page_path() -> (s: &'static str)
    ensures
        s@ == "/plugin-result.html"@,
{
    "/plugin-result.html"
}

/// The name of the event that carries a payload to the auxiliary window's
/// content.
pub fn data_event_name() -> (s: &'static str)
    ensures
        s@ == "plugin-data"@,
{
    "plugin-data"
}

/// The fixed presentation of a newly created auxiliary window.
#[derive(PartialEq, Eq, Structural)]
pub struct AuxWindowConfig {
    pub width: u32,
    pub height: u32,
    pub centered: bool,
    pub resizable: bool,
    pub decorations: bool,
    pub always_on_top: bool,
}

/// The auxiliary window is created 600 by 400 logical units, centered,
/// resizable, decorated and always on top.
pub fn aux_window_config() -> (c: AuxWindowConfig)
    ensures
        c == (AuxWindowConfig {
            width: 600,
            height: 400,
            centered: true,
            resizable: true,
            decorations: true,
            always_on_top: true,
        }),
{
    AuxWindowConfig {
        width: 600,
        height: 400,
        centered: true,
        resizable: true,
        decorations: true,
        always_on_top: true,
    }
}

/// What a visibility toggle asks of the primary window.
pub enum PrimaryAction {
    Show,
    Hide,
}

/// A visible primary window is hidden; a hidden one is shown.
pub fn toggle_action(visible: bool) -> (a: PrimaryAction)
    ensures
        visible ==> a is Hide,
        !visible ==> a is Show,
{
    if visible {
        PrimaryAction::Hide
    } else {
        PrimaryAction::Show
    }
}

/// Owner of the auxiliary window's lifecycle. Whether that window exists is
/// held here as an explicit state value with a single point of mutation,
/// rather than re-queried from the backend's ambient registry on every call.
pub struct Coordinator {
    aux_present: bool,
}

impl Coordinator {
    /// Whether the coordinator believes an auxiliary window exists.
    pub closed spec fn has_aux(&self) -> bool {
        self.aux_present
    }

    /// The coordinator's belief agrees with the window system: an auxiliary
    /// window exists exactly when the coordinator says so, and never more
    /// than one.
    pub open spec fn synced(&self, s: SysView) -> bool {
        &&& self.has_aux() <==> s.aux.len() == 1
        &&& s.aux.len() <= 1
    }

    /// A coordinator for a window system without an auxiliary window.
    pub fn new() -> (c: Coordinator)
        ensures
            !c.has_aux(),
    {
        Coordinator { aux_present: false }
    }

    /// The decision at the head of a display request: reuse the existing
    /// auxiliary window, or create one.
    pub fn aux_is_present(&self) -> (b: bool)
        ensures
            b == self.has_aux(),
    {
        self.aux_present
    }

    /// Records that an auxiliary window was created.
    pub fn note_aux_created(&mut self)
        ensures
            final(self).has_aux(),
    {
        self.aux_present = true;
    }

    /// Records that the auxiliary window is gone — closed by a dismissal, or
    /// torn down by the toolkit itself.
    pub fn note_aux_closed(&mut self)
        ensures
            !final(self).has_aux(),
    {
        self.aux_present = false;
    }
}

/// The effect of showing the primary window.
pub open spec fn show_spec(s: SysView) -> SysView {
    SysView { primary_visible: true, ..s }
}

/// The effect of hiding the primary window.
pub open spec fn hide_spec(s: SysView) -> SysView {
    SysView { primary_visible: false, ..s }
}

/// The effect of a visibility toggle: hide a visible primary window, show a
/// hidden one.
pub open spec fn toggle_spec(s: SysView) -> SysView {
    if s.primary_visible {
        hide_spec(s)
    } else {
        show_spec(s)
    }
}

/// The effect of resizing the primary window to the given logical size.
pub open spec fn resize_spec(s: SysView, width: u32, height: u32) -> SysView {
    SysView { primary_width: width, primary_height: height, ..s }
}

/// The effect of a display request. With no auxiliary window, one is created,
/// titled with the payload's plugin name, focused, its content not yet ready
/// — the payload follows over the background delivery schedule. With one
/// already present, that window is focused and the payload is emitted to it
/// at once; no second window appears.
pub open spec fn display_spec(s: SysView, p: PayloadView) -> SysView {
    if s.aux.len() == 0 {
        SysView { aux: s.aux.push(spawned_aux(p.plugin_name)), ..s }
    } else {
        SysView { aux: s.aux.update(0, emit_view(focus_view(s.aux[0]), p)), ..s }
    }
}

/// The effect of a dismissal: the auxiliary window, if any, is closed, and
/// the primary window is focused. The primary window's visibility is left
/// alone.
pub open spec fn dismiss_spec(s: SysView) -> SysView {
    SysView { primary_focused: true, aux: Seq::empty(), ..s }
}

/// Shows the primary window.
pub fn show_primary(m: &mut ModelBackend) -> (r: Result<(), String>)
    ensures
        final(m)@ == show_spec(old(m)@),
        r is Ok,
{
    m.show_primary();
    Ok(())
}

/// Hides the primary window.
pub fn hide_primary(m: &mut ModelBackend) -> (r: Result<(), String>)
    ensures
        final(m)@ == hide_spec(old(m)@),
        r is Ok,
{
    m.hide_primary();
    Ok(())
}

/// Queries the primary window's visibility and applies the opposite.
pub fn toggle_primary_visibility(m: &mut ModelBackend) -> (r: Result<(), String>)
    ensures
        final(m)@ == toggle_spec(old(m)@),
        r is Ok,
{
    let visible = m.is_primary_visible();
    match toggle_action(visible) {
        PrimaryAction::Hide => m.hide_primary(),
        PrimaryAction::Show => m.show_primary(),
    }
    Ok(())
}

/// Resizes the primary window to the given logical size.
pub fn resize_primary(m: &mut ModelBackend, width: u32, height: u32) -> (r: Result<(), String>)
    ensures
        final(m)@ == resize_spec(old(m)@, width, height),
        r is Ok,
{
    m.resize_primary(width, height);
    Ok(())
}

/// Presents the payload: reuses the auxiliary window if one exists, creating
/// it otherwise. Exactly one auxiliary window exists afterwards. On the
/// creation path the call succeeds as soon as the window exists; the payload
/// itself follows over `run_delivery_schedule`, which the caller runs off the
/// thread that owns the windows.
pub fn display_result(coord: &mut Coordinator, m: &mut ModelBackend, p: &PluginData) -> (r:
    Result<(), String>)
    requires
        old(coord).synced(old(m)@),
        p.wf(),
    ensures
        final(coord).synced(final(m)@),
        final(m)@ == display_spec(old(m)@, p@),
        final(m)@.aux.len() == 1,
        r is Ok,
{
    if coord.aux_is_present() {
        m.focus_aux();
        m.emit_aux(p);
        proof {
            assert(m@ =~= display_spec(old(m)@, p@));
        }
    } else {
        m.create_aux(p.plugin_name.clone());
        coord.note_aux_created();
        proof {
            assert(m@ =~= display_spec(old(m)@, p@));
        }
    }
    Ok(())
}

/// Dismisses the auxiliary window if one exists — a missing window is no
/// error — and focuses the primary window either way.
pub fn dismiss(coord: &mut Coordinator, m: &mut ModelBackend) -> (r: Result<(), String>)
    requires
        old(coord).synced(old(m)@),
    ensures
        final(coord).synced(final(m)@),
        final(m)@ == dismiss_spec(old(m)@),
        r is Ok,
{
    if coord.aux_is_present() {
        m.close_aux();
        coord.note_aux_closed();
    }
    m.focus_primary();
    proof {
        assert(m@ =~= dismiss_spec(old(m)@));
    }
    Ok(())
}

/// The background delivery schedule of the creation path: `RETRY_ATTEMPTS`
/// delivery attempts, each preceded by a `RETRY_DELAY_MS` pause (the model
/// does not wait). The window's content becomes ready just before attempt
/// `ready_at`; pass 0 for a content that never becomes ready during the
/// schedule. Once the content is ready — from the start, or at any attempt of
/// the schedule — the window ends up holding the payload; a content that
/// never readies leaves the window's deliveries untouched. Attempts are
/// fire-and-forget: a dropped attempt aborts nothing.
pub fn run_delivery_schedule(m: &mut ModelBackend, p: &PluginData, ready_at: u32)
    requires
        old(m)@.aux.len() == 1,
    ensures
        final(m)@.aux.len() == 1,
        final(m)@.aux[0].title == old(m)@.aux[0].title,
        final(m)@.aux[0].focused == old(m)@.aux[0].focused,
        final(m)@.primary_visible == old(m)@.primary_visible,
        final(m)@.primary_focused == old(m)@.primary_focused,
        final(m)@.primary_width == old(m)@.primary_width,
        final(m)@.primary_height == old(m)@.primary_height,
        final(m)@.aux[0].ready == (old(m)@.aux[0].ready || 1 <= ready_at <= RETRY_ATTEMPTS),
        old(m)@.aux[0].ready || 1 <= ready_at <= RETRY_ATTEMPTS ==> {
            &&& final(m)@.aux[0].delivered.len() > 0
            &&& final(m)@.aux[0].delivered.last() == p@
        },
        !old(m)@.aux[0].ready && !(1 <= ready_at <= RETRY_ATTEMPTS) ==> final(m)@.aux[0].delivered
            == old(m)@.aux[0].delivered,
{
    let mut attempt: u32 = 1;
    while attempt <= RETRY_ATTEMPTS
        invariant
            1 <= attempt <= RETRY_ATTEMPTS + 1,
            m@.aux.len() == 1,
            m@.aux[0].title == old(m)@.aux[0].title,
            m@.aux[0].focused == old(m)@.aux[0].focused,
            m@.primary_visible == old(m)@.primary_visible,
            m@.primary_focused == old(m)@.primary_focused,
            m@.primary_width == old(m)@.primary_width,
            m@.primary_height == old(m)@.primary_height,
            m@.aux[0].ready == (old(m)@.aux[0].ready || 1 <= ready_at < attempt),
            m@.aux[0].ready && attempt > 1 ==> {
                &&& m@.aux[0].delivered.len() > 0
                &&& m@.aux[0].delivered.last() == p@
            },
            !m@.aux[0].ready ==> m@.aux[0].delivered == old(m)@.aux[0].delivered,
        decreases RETRY_ATTEMPTS + 1 - attempt,
    {
        if attempt == ready_at {
            m.set_aux_ready();
        }
        m.emit_aux(p);
        attempt = attempt + 1;
    }
}

} // verus!
