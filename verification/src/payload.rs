use vstd::prelude::*;

verus! {

/// Mathematical image of a payload: each field as a sequence of characters.
/// The plugin's structured result travels in serialized form, so to the
/// coordinator it too is text.
#[verifier::ext_equal]
pub struct PayloadView {
    pub plugin_id: Seq<char>,
    pub plugin_name: Seq<char>,
    pub input: Seq<char>,
    pub result: Seq<char>,
}

impl PayloadView {
    /// A payload can be displayed only if it carries a window title.
    pub open spec fn wf(self) -> bool {
        self.plugin_name.len() > 0
    }
}

/// The one-shot payload handed to the auxiliary window for display: which
/// plugin ran, the input it ran on, and its serialized result. Immutable
/// after construction; it exists for a single display cycle.
#[derive(Clone, Debug, PartialEq, Eq)]
pub struct PluginData {
    pub plugin_id: String,
    pub plugin_name: String,
    pub input: String,
    pub result: String,
}

impl View for PluginData {
    type V = PayloadView;

    open spec fn view(&self) -> PayloadView {
        PayloadView {
            plugin_id: self.plugin_id@,
            plugin_name: self.plugin_name@,
            input: self.input@,
            result: self.result@,
        }
    }
}

impl PluginData {
    /// The payload's name is non-empty, so it can serve as a window title.
    pub open spec fn wf(&self) -> bool {
        self@.wf()
    }

    /// Builds a payload, rejecting one whose plugin name is empty: that name
    /// becomes the auxiliary window's title and must not be blank.
    pub fn new(
        plugin_id: String,
        plugin_name: String,
        input: String,
        result: String,
    ) -> (r: Option<PluginData>)
        ensures
            plugin_name@.len() > 0 ==> (r matches Some(p) && p@ == (PayloadView {
                plugin_id: plugin_id@,
                plugin_name: plugin_name@,
                input: input@,
                result: result@,
            }) && p.wf()),
            plugin_name@.len() == 0 ==> r is None,
    {
        if plugin_name.as_str().is_empty() {
            None
        } else {
            Some(PluginData { plugin_id, plugin_name, input, result })
        }
    }

    /// True exactly when the payload may be displayed.
    pub fn is_displayable(&self) -> (b: bool)
        ensures
            b == self.wf(),
    {
        !self.plugin_name.as_str().is_empty()
    }

    /// An equal payload, field for field; the copy handed to the background
    /// delivery schedule while the caller keeps the original.
    pub fn duplicate(&self) -> (r: PluginData)
        ensures
            r@ == self@,
    {
        PluginData {
            plugin_id: self.plugin_id.clone(),
            plugin_name: self.plugin_name.clone(),
            input: self.input.clone(),
            result: self.result.clone(),
        }
    }
}

} // verus!
