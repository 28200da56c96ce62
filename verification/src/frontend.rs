//! The frontend's update cycle: from a fired listener to the closure call,
//! and from what the guest's update returns to the effects the host owes.

use vstd::prelude::*;
use vstd::string::StringExecFns;
use crate::event::{convert_web_event_to_internal, spec_convert_event, WebEvent};
use crate::model::{Model, ModelStore};
use crate::render::{
    lemma_render_plan_is_balanced, spec_depth_after, spec_node_ops, spec_render_plan, DomBuilder,
    DomOpView,
};
use crate::values::{InternalEvent, InternalHtml, RocFunction, UpdateResult};


verus! {

/// One call of a guest closure: the closure and the event record it is
/// called with.
#[derive(Clone, Debug, PartialEq, Eq)]
pub struct ClosureCall {
    pub closure: RocFunction,
    pub argument: InternalEvent,
}

/// What the host owes after an update: the message to send to the backend,
/// if the guest produced one, and one render of the new model.
#[derive(Clone, Debug, PartialEq, Eq)]
pub struct FrontendEffects {
    pub to_backend: Option<String>,
    pub render: Model,
}

/// Why a render could not be planned.
#[derive(Clone, Copy, Debug, PartialEq, Eq, Structural)]
pub enum RenderError {
    /// The document has no element with the container's id.
    ContainerNotFound,
}

impl RenderError {
    /// The text that is logged for this error.
    pub fn message(&self) -> (r: String)
        ensures
            r@ == "Container element not found"@,
    {
        "Container element not found".to_owned()
    }
}

/// The address of the backend's socket: `wss:` behind `https:` and `ws:`
/// behind anything else, then the host and the path `/ws`.
pub open spec fn spec_ws_url(protocol: Seq<char>, host: Seq<char>) -> Seq<char> {
    (if protocol == "https:"@ {
        "wss:"@
    } else {
        "ws:"@
    }) + "//"@ + host + "/ws"@
}

/// The address of the backend's socket for the page's protocol and host.
pub fn get_ws_url(protocol: &str, host: &str) -> (r: String)
    ensures
        r@ == spec_ws_url(protocol@, host@),
{
    let secure = protocol.to_owned() == "https:".to_owned();
    let scheme = if secure {
        "wss:"
    } else {
        "ws:"
    };
    let mut url = scheme.to_owned();
    url.append("//");
    url.append(host);
    url.append("/ws");
    url
}

/// What a listener does when its event fires: it converts the event and
/// calls its closure with the record, once.
pub fn listener_fired(callback: &RocFunction, event: &WebEvent) -> (r: ClosureCall)
    ensures
        r.closure@ == callback@,
        r.argument@ == spec_convert_event(*event),
{
    let internal_event = convert_web_event_to_internal(event);
    ClosureCall {
        closure: callback.clone(),
        argument: internal_event,
    }
}

/// Takes in what the guest's update returned: the new model replaces the
/// current one, a message for the backend is handed on, and the new model is
/// to be rendered once.
pub fn update_model_and_rerender(store: &mut ModelStore, result: UpdateResult) -> (r:
    FrontendEffects)
    ensures
        *final(store) == old(store).spec_replace(result.model),
        r.render == final(store).spec_snapshot(),
        r.to_backend == match result.to_backend {
            Ok(message) => Some(message),
            Err(_) => None,
        },
{
    let UpdateResult { to_backend, model: updated_model } = result;
    store.replace(updated_model);

    let to_backend = match to_backend {
        Ok(to_backend_msg) => Some(to_backend_msg),
        Err(_) => None,
    };

    // Trigger re-render
    FrontendEffects { to_backend, render: store.snapshot() }
}

/// The model that a render shows: the current one.
pub fn render_app(store: &ModelStore) -> (r: Model)
    ensures
        r == store.spec_snapshot(),
{
    store.snapshot()
}

/// Plans the render of `html` into the container. Without the container
/// nothing is planned. With it the plan builds the node detached from the
/// page, closes every element it opens, and empties the container directly
/// before its last operation, which puts the node into the container: if an
/// earlier operation fails, the previous render is still in place.
pub fn render_to_dom(html: &InternalHtml, container_found: bool) -> (r: Result<
    DomBuilder,
    RenderError,
>)
    ensures
        !container_found ==> r == Err::<DomBuilder, RenderError>(RenderError::ContainerNotFound),
        container_found ==> r is Ok && r->Ok_0.plan() == spec_node_ops(html@).drop_last()
            + seq![DomOpView::ClearChildren] + seq![spec_node_ops(html@).last()],
        container_found ==> r->Ok_0.plan() == spec_render_plan(html@),
        container_found ==> spec_depth_after(r->Ok_0.plan(), 0) == Some(0int),
{
    if !container_found {
        return Err(RenderError::ContainerNotFound);
    }
    let mut builder = DomBuilder::new();
    builder.build_dom(html);
    proof {
        assert(builder.plan() =~= spec_render_plan(html@));
        lemma_render_plan_is_balanced(html@);
    }
    Ok(builder)
}

} // verus!
