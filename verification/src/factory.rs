//! Window factory: everything that is decided when one new window group
//! is created — the fresh logical id, the three derived labels, the
//! window's initial size and the title bar's boot script. The host takes
//! the finished plan and performs the actual window and surface
//! construction.

use vstd::prelude::*;
use vstd::string::StringExecFns;
use crate::encoding::{encode_component, url_encoded};
use crate::geometry::{resolve_spec, resolve_window_size, GeometryConfig, MonitorSize, WindowSize};
use crate::labels::{
    content_label_spec,
    derive_labels,
    titlebar_label_spec,
    window_label_spec,
    WindowLabels,
};
use crate::text::concat_strs;

verus! {

/// Whether a string parses as a URL.
pub uninterp spec fn url_parse_ok(s: Seq<char>) -> bool;

/// Relies on url::Url::parse: whether parsing succeeds depends on the
/// string alone; on failure the error's rendering is handed back for the
/// caller's message.
#[verifier::external_body]
fn check_url(s: &str) -> (r: Option<String>)
    ensures
        r is None <==> url_parse_ok(s@),
{
    match url::Url::parse(s) {
        Ok(_) => None,
        Err(e) => Some(e.to_string()),
    }
}

/// Relies on uuid::Uuid::new_v4 and its hyphenated display form: a fresh
/// random identifier, rendered as 36 characters.
#[verifier::external_body]
fn fresh_window_id() -> (r: String)
    ensures
        r@.len() == 36,
{
    uuid::Uuid::new_v4().to_string()
}

/// Why creating a window group failed.
#[derive(Debug)]
pub enum CreateError {
    /// The requested URL does not parse; nothing was created.
    InvalidUrl(String),
    /// The host failed to build the window or a surface; fatal to this
    /// call only.
    PlatformWindow(String),
}

/// Everything the host needs to build one window group.
#[derive(Debug)]
pub struct CreatePlan {
    /// The group's logical window id.
    pub id: String,
    /// The three labels derived from the id.
    pub labels: WindowLabels,
    /// The window's initial size.
    pub size: WindowSize,
    /// The script that routes the title-bar surface to its view, carrying
    /// the window label and the percent-encoded target URL.
    pub boot_script: String,
}

pub open spec fn boot_script_spec(window_label: Seq<char>, url: Seq<char>) -> Seq<char> {
    "window.history.replaceState({}, '', '/titlebar?windowLabel="@ + window_label + "&url="@
        + url_encoded(url) + "');"@
}

/// Plans the window group identified by `id` for the target `url`: fails
/// exactly when the URL does not parse, and otherwise fixes the labels,
/// the initial window size and the title bar's boot script.
pub fn plan_window_group(
    id: &str,
    url: &str,
    cfg: &GeometryConfig,
    monitor: Option<MonitorSize>,
) -> (r: Result<CreatePlan, CreateError>)
    requires
        cfg.valid(),
    ensures
        r is Ok <==> url_parse_ok(url@),
        r matches Ok(p) ==> ({
            &&& p.id@ == id@
            &&& p.labels.window@ == window_label_spec(id@)
            &&& p.labels.titlebar@ == titlebar_label_spec(id@)
            &&& p.labels.content@ == content_label_spec(id@)
            &&& p.size == resolve_spec(monitor, *cfg)
            &&& p.boot_script@ == boot_script_spec(window_label_spec(id@), url@)
        }),
        r matches Err(e) ==> e is InvalidUrl,
{
    match check_url(url) {
        Some(detail) => Err(CreateError::InvalidUrl(concat_strs("Invalid URL: ", detail.as_str()))),
        None => {
            let labels = derive_labels(id);
            let size = resolve_window_size(monitor, cfg);
            let mut boot = String::from_str(
                "window.history.replaceState({}, '', '/titlebar?windowLabel=",
            );
            boot.append(labels.window.as_str());
            boot.append("&url=");
            let encoded = encode_component(url);
            boot.append(encoded.as_str());
            boot.append("');");
            Ok(CreatePlan { id: String::from_str(id), labels, size, boot_script: boot })
        },
    }
}

/// Plans one new window group under a fresh logical id: what the
/// create-window command decides before the host builds anything. The
/// caller is handed the content label of the new group through the plan.
pub fn create_window_request(
    url: &str,
    cfg: &GeometryConfig,
    monitor: Option<MonitorSize>,
) -> (r: Result<CreatePlan, CreateError>)
    requires
        cfg.valid(),
    ensures
        r is Ok <==> url_parse_ok(url@),
        r matches Ok(p) ==> ({
            &&& p.id@.len() == 36
            &&& p.labels.window@ == window_label_spec(p.id@)
            &&& p.labels.titlebar@ == titlebar_label_spec(p.id@)
            &&& p.labels.content@ == content_label_spec(p.id@)
            &&& p.size == resolve_spec(monitor, *cfg)
            &&& p.boot_script@ == boot_script_spec(window_label_spec(p.id@), url@)
        }),
        r matches Err(e) ==> e is InvalidUrl,
{
    let id = fresh_window_id();
    plan_window_group(id.as_str(), url, cfg, monitor)
}

/// The "new window created" notification for an intercepted pop-up,
/// carrying the new group's content label and the opened URL.
#[derive(Debug)]
pub struct NewWindowNotice {
    pub content_label: String,
    pub url: String,
}

/// What follows an intercepted pop-up once creation was attempted: the
/// native pop-up is denied either way, and a notification is owed exactly
/// when the nested creation succeeded — a nested failure is swallowed,
/// not propagated, since no caller waits for it.
pub fn popup_followup(outcome: Result<CreatePlan, CreateError>, url: &str) -> (r: Option<
    NewWindowNotice,
>)
    ensures
        outcome matches Ok(p) ==> (r matches Some(n) && n.content_label@ == p.labels.content@
            && n.url@ == url@),
        outcome is Err ==> r is None,
{
    match outcome {
        Ok(p) => Some(
            NewWindowNotice { content_label: p.labels.content, url: String::from_str(url) },
        ),
        Err(_) => None,
    }
}

} // verus!
