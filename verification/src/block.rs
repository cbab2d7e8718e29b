//! The watcher block itself: construction, the on-demand render pass, the
//! click action, and the block's view.
//!
//! The block owns the immutable configuration and the network line as last
//! rendered. The shared link-state record is created separately (see
//! [`crate::shared::SharedLinkState`]) so that the embedding application
//! can hand one handle to the background subscriber and keep another for
//! the render path.

use vstd::prelude::*;

use crate::render::{finish_render, RenderError, RenderPlan};
use crate::state::Severity;

verus! {

/// Construction-time configuration of one watcher block, immutable
/// thereafter.
#[derive(Debug)]
pub struct IWDConfig {
    /// Bus object path of the wifi device monitored by this block.
    pub device_id: String,
    /// Whether the block shows an interactive disconnect affordance.
    pub show_disconnect_btn: bool,
    /// Text shown in place of a network name while disconnected or
    /// disconnecting.
    pub disconnected_str: String,
}

impl Clone for IWDConfig {
    fn clone(&self) -> (r: Self)
        ensures
            r == *self,
    {
        IWDConfig {
            device_id: self.device_id.clone(),
            show_disconnect_btn: self.show_disconnect_btn,
            disconnected_str: self.disconnected_str.clone(),
        }
    }
}

impl Default for IWDConfig {
    fn default() -> (r: Self)
        ensures
            r.device_id@ == Seq::<char>::empty(),
            r.show_disconnect_btn == false,
            r.disconnected_str@ == Seq::<char>::empty(),
    {
        IWDConfig {
            device_id: String::new(),
            show_disconnect_btn: false,
            disconnected_str: String::new(),
        }
    }
}

/// The network line as shown to the display framework.
#[derive(Debug)]
pub struct NetworkWidget {
    /// The text on the line: a resolved network name, or the configured
    /// placeholder.
    pub text: String,
    /// The line's display priority.
    pub severity: Severity,
}

/// One element of the block's rendered view.
#[derive(Debug)]
pub enum ViewElement {
    /// The network line.
    Network { text: String, severity: Severity },
    /// The interactive disconnect affordance, present only when configured.
    DisconnectButton,
}

/// Relies on `uuid::Uuid::new_v4` and its `simple` formatter: a fresh
/// version-4 UUID rendered without hyphens is exactly 32 characters.
/// Nothing else is assumed of the (random) identifier.
#[verifier::external_body]
fn fresh_id() -> (r: String)
    ensures
        r@.len() == 32,
{
    uuid::Uuid::new_v4().simple().to_string()
}

/// The watcher block.
#[derive(Debug)]
pub struct IWD {
    /// Identifier under which this block's refresh notifications are sent.
    pub id: String,
    /// Bus object path of the watched device.
    pub device_id: String,
    /// The network line as last rendered.
    pub network: NetworkWidget,
    /// Whether the disconnect affordance is shown.
    pub show_disconnect: bool,
    /// Placeholder text shown while disconnected or disconnecting.
    pub disconnected_str: String,
}

impl IWD {
    /// Builds the block from its configuration, with a freshly generated
    /// identifier and the network line initially showing the literal
    /// disconnected state at critical severity, as it stands until the
    /// first render pass.
    pub fn new(block_config: IWDConfig) -> (r: IWD)
        ensures
            r.id@.len() == 32,
            r.device_id == block_config.device_id,
            r.show_disconnect == block_config.show_disconnect_btn,
            r.disconnected_str == block_config.disconnected_str,
            r.network.text@ == "disconnected"@,
            r.network.severity == Severity::Critical,
    {
        let IWDConfig { device_id, show_disconnect_btn, disconnected_str } = block_config;
        IWD {
            id: fresh_id(),
            device_id,
            network: NetworkWidget {
                text: "disconnected".to_owned(),
                severity: Severity::Critical,
            },
            show_disconnect: show_disconnect_btn,
            disconnected_str,
        }
    }

    /// The identifier refresh notifications carry for this block.
    pub fn id(&self) -> (r: &str)
        ensures
            r@ == self.id@,
    {
        self.id.as_str()
    }

    /// Applies a finished render pass to the network line. `plan` is the
    /// decision taken from a snapshot (see [`crate::render::render_plan`])
    /// and `resolved` the name the bus call produced where the plan asked
    /// for one; a plan that asked for resolution and got nothing fails this
    /// pass and leaves the line unchanged.
    pub fn update(&mut self, plan: RenderPlan, resolved: Option<String>) -> (r: Result<
        (),
        RenderError,
    >)
        ensures
            final(self).id == old(self).id,
            final(self).device_id == old(self).device_id,
            final(self).show_disconnect == old(self).show_disconnect,
            final(self).disconnected_str == old(self).disconnected_str,
            plan matches RenderPlan::Direct { text, severity } ==> r is Ok
                && final(self).network.text == text && final(self).network.severity == severity,
            plan matches RenderPlan::Resolve { network_ref: _, severity }
                ==> resolved matches Some(n) ==> r is Ok && final(self).network.text == n
                && final(self).network.severity == severity,
            plan is Resolve && resolved is None ==> r == Err::<(), RenderError>(
                RenderError::NameResolution,
            ) && final(self).network == old(self).network,
    {
        match finish_render(plan, resolved) {
            Ok((text, severity)) => {
                self.network = NetworkWidget { text, severity };
                Ok(())
            },
            Err(e) => Err(e),
        }
    }

    /// Decides the click action: the disconnect command is owed exactly
    /// when the affordance is configured and the event names the
    /// `"disconnect"` action. The embedding application then fires the
    /// bounded synchronous bus call and ignores its outcome — the normal
    /// signal path reflects whatever it caused.
    pub fn click(&self, event_name: &Option<String>) -> (issue_disconnect: bool)
        ensures
            issue_disconnect == (self.show_disconnect && event_name.deep_view() == Some(
                "disconnect"@,
            )),
    {
        if self.show_disconnect {
            match event_name {
                Some(name) => *name == "disconnect".to_owned(),
                None => false,
            }
        } else {
            false
        }
    }

    /// The ordered list of renderable elements: the network line first, the
    /// disconnect affordance after it when configured.
    pub fn view(&self) -> (r: Vec<ViewElement>)
        ensures
            r@.len() == (if self.show_disconnect {
                2int
            } else {
                1int
            }),
            r@[0] matches ViewElement::Network { text, severity } && text == self.network.text
                && severity == self.network.severity,
            self.show_disconnect ==> r@[1] is DisconnectButton,
    {
        let mut elements: Vec<ViewElement> = Vec::new();
        elements.push(
            ViewElement::Network {
                text: self.network.text.clone(),
                severity: self.network.severity,
            },
        );
        if self.show_disconnect {
            elements.push(ViewElement::DisconnectButton);
        }
        elements
    }
}

} // verus!
