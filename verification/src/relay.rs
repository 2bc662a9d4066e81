//! Window event relay: reacts to the host's resize and destroy
//! notifications for a group's window. A resize re-derives both surface
//! rectangles through the layout engine; a destroy turns into the single
//! authoritative "window closed" notification.

use vstd::prelude::*;
use vstd::string::StrSliceExecFns;
use crate::labels::{content_label_spec, titlebar_label_spec};
use crate::layout::{layout, layout_spec, SurfaceRect};
use crate::text::{chars_after, concat_strs, starts_with_spec, str_starts_with};

verus! {

/// A host window notification the relay reacts to.
#[derive(Clone, Copy, PartialEq, Eq, Structural, Debug)]
pub enum HostWindowEvent {
    Destroyed,
    /// The window's new width and height in pixels.
    Resized(u64, u64),
}

/// What the relay asks the host to do in response.
#[derive(Debug)]
pub enum RelayAction {
    /// The event did not concern a window group's window.
    Ignore,
    /// Publish the "window closed" notification, carrying the group's
    /// content label.
    EmitClosed { content_label: String },
    /// Re-apply both surface rectangles to the group's surfaces.
    Reposition {
        titlebar_label: String,
        titlebar_rect: SurfaceRect,
        content_label: String,
        content_rect: SurfaceRect,
    },
}

/// Reacts to one host window event. Only `window-` labels belong to a
/// window group; events for any other window are ignored.
pub fn relay_window_event(label: &str, event: HostWindowEvent, bar_height: u64) -> (a: RelayAction)
    ensures
        !starts_with_spec(label@, "window-"@) ==> a is Ignore,
        starts_with_spec(label@, "window-"@) ==> ({
            let id = label@.skip("window-"@.len() as int);
            match event {
                HostWindowEvent::Destroyed => a matches RelayAction::EmitClosed { content_label }
                    && content_label@ == content_label_spec(id),
                HostWindowEvent::Resized(w, h) => a matches RelayAction::Reposition {
                    titlebar_label,
                    titlebar_rect,
                    content_label,
                    content_rect,
                } && titlebar_label@ == titlebar_label_spec(id) && content_label@
                    == content_label_spec(id) && titlebar_rect == layout_spec(
                    w,
                    h,
                    bar_height,
                ).titlebar && content_rect == layout_spec(w, h, bar_height).content,
            }
        }),
{
    if !str_starts_with(label, "window-") {
        return RelayAction::Ignore;
    }
    let pl = "window-".unicode_len();
    let id = chars_after(label, pl);
    match event {
        HostWindowEvent::Destroyed => RelayAction::EmitClosed {
            content_label: concat_strs("content-", id),
        },
        HostWindowEvent::Resized(w, h) => {
            let l = layout(w, h, bar_height);
            RelayAction::Reposition {
                titlebar_label: concat_strs("titlebar-", id),
                titlebar_rect: l.titlebar,
                content_label: concat_strs("content-", id),
                content_rect: l.content,
            }
        },
    }
}

} // verus!
