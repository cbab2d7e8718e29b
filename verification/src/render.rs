//! The render pass: from a snapshot of the link state to display text and
//! severity.
//!
//! A pass has two halves. [`render_plan`] decides, from the snapshot alone,
//! whether the pass can produce its text directly or must first resolve the
//! associated network's display name on the bus; the embedding application
//! makes that bounded synchronous call where asked. [`finish_render`] then
//! turns the plan and the call's outcome into the `(text, severity)` pair
//! the display framework consumes.

use vstd::prelude::*;

use crate::state::{
    lemma_state_literals_distinct, severity_of_raw, ConnectionState, LinkState, Severity,
};

verus! {

/// True when a snapshot with this raw state string sends the renderer to
/// the bus for the associated network's display name: every state but the
/// two disconnected ones resolves.
pub open spec fn plan_resolves(s: Seq<char>) -> bool {
    s != "disconnected"@ && s != "disconnecting"@
}

/// What a render pass must do, decided from the snapshot before any bus
/// call is made.
#[derive(Debug)]
pub enum RenderPlan {
    /// Show `text` as it stands; no bus call.
    Direct { text: String, severity: Severity },
    /// Resolve the display name of `network_ref` on the bus and show it.
    Resolve { network_ref: Option<String>, severity: Severity },
}

/// Failure of a single render pass.
#[derive(Clone, Copy, Debug, PartialEq, Eq, Structural)]
pub enum RenderError {
    /// The associated network's display name could not be resolved.
    NameResolution,
}

/// Decides a render pass from a snapshot: the disconnected and
/// disconnecting states show the configured placeholder directly; every
/// other state asks for the associated network's name to be resolved.
pub fn render_plan(snapshot: &LinkState, placeholder: &str) -> (r: RenderPlan)
    requires
        snapshot.wf(),
    ensures
        (r is Resolve) == plan_resolves(snapshot@.state),
        r matches RenderPlan::Direct { text, severity } ==> text@ == placeholder@ && severity
            == severity_of_raw(snapshot@.state),
        r matches RenderPlan::Resolve { network_ref, severity } ==> network_ref.deep_view()
            == snapshot@.network && severity == severity_of_raw(snapshot@.state),
{
    proof {
        lemma_state_literals_distinct();
    }
    let severity: Severity = snapshot.connection_state.severity();
    match &snapshot.connection_state {
        ConnectionState::Disconnected | ConnectionState::Disconnecting => RenderPlan::Direct {
            text: placeholder.to_owned(),
            severity,
        },
        _ => {
            let network_ref: Option<String> = match &snapshot.network_object_ref {
                Some(s) => Some(s.clone()),
                None => None,
            };
            RenderPlan::Resolve { network_ref, severity }
        },
    }
}

/// Completes a render pass: a direct plan keeps its text; a resolving plan
/// shows the name the bus call produced, and fails this pass when the call
/// produced none (the display framework's standard error surfacing then
/// applies).
pub fn finish_render(plan: RenderPlan, resolved: Option<String>) -> (r: Result<
    (String, Severity),
    RenderError,
>)
    ensures
        plan matches RenderPlan::Direct { text, severity } ==> r == Ok::<
            (String, Severity),
            RenderError,
        >((text, severity)),
        plan matches RenderPlan::Resolve { network_ref: _, severity } ==> resolved matches Some(n)
            ==> r == Ok::<(String, Severity), RenderError>((n, severity)),
        plan is Resolve && resolved is None ==> r == Err::<(String, Severity), RenderError>(
            RenderError::NameResolution,
        ),
{
    match plan {
        RenderPlan::Direct { text, severity } => Ok((text, severity)),
        RenderPlan::Resolve { network_ref: _, severity } => match resolved {
            Some(name) => Ok((name, severity)),
            None => Err(RenderError::NameResolution),
        },
    }
}

/// While disconnected the renderer never goes to the bus: a snapshot whose
/// state is `"disconnected"` yields a direct plan, so no possibly-stale
/// network reference is ever resolved.
pub proof fn lemma_disconnected_never_resolves(s: Seq<char>)
    requires
        s == "disconnected"@,
    ensures
        !plan_resolves(s),
{
}

/// A connected snapshot resolves, at severity good: together with the
/// contracts of [`render_plan`] and [`finish_render`], a pass over a
/// connected snapshot whose reference resolves shows exactly the resolved
/// name.
pub proof fn lemma_connected_shows_resolved_name(s: Seq<char>)
    requires
        s == "connected"@,
    ensures
        plan_resolves(s),
        severity_of_raw(s) == Severity::Good,
{
    lemma_state_literals_distinct();
}

/// Any state string other than the recognized three keeps severity
/// `warning`; the string itself is preserved verbatim in the record (see
/// [`crate::state::parse_state`]), never discarded or defaulted.
pub proof fn lemma_unrecognized_state_warns(s: Seq<char>)
    requires
        s != "connected"@,
        s != "disconnected"@,
        s != "disconnecting"@,
    ensures
        severity_of_raw(s) == Severity::Warning,
{
}

} // verus!
