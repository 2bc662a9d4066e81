//! Label scheme: every window group is addressed through three labels
//! derived from one logical window id by fixed-prefix substitution
//! (`window-<id>`, `titlebar-<id>`, `content-<id>`), and any surface label
//! can be mapped back to the label of its owning window.

use vstd::prelude::*;
use vstd::string::StrSliceExecFns;
use vstd::string::StringExecFns;
use crate::text::{chars_after, concat_strs, starts_with_spec, str_starts_with};

verus! {

pub open spec fn window_label_spec(id: Seq<char>) -> Seq<char> {
    "window-"@ + id
}

pub open spec fn titlebar_label_spec(id: Seq<char>) -> Seq<char> {
    "titlebar-"@ + id
}

pub open spec fn content_label_spec(id: Seq<char>) -> Seq<char> {
    "content-"@ + id
}

/// The label of the window that owns the surface addressed by `label`: a
/// `content-` or `titlebar-` label is rewritten to the owning `window-`
/// label, and any other label passes through unchanged, as a window label
/// in its own right.
pub open spec fn parent_label_spec(label: Seq<char>) -> Seq<char> {
    if starts_with_spec(label, "content-"@) {
        window_label_spec(label.skip("content-"@.len() as int))
    } else if starts_with_spec(label, "titlebar-"@) {
        window_label_spec(label.skip("titlebar-"@.len() as int))
    } else {
        label
    }
}

/// The three labels of one window group.
#[derive(Debug)]
pub struct WindowLabels {
    pub window: String,
    pub titlebar: String,
    pub content: String,
}

/// Derives the three labels of the window group identified by `id`.
pub fn derive_labels(id: &str) -> (r: WindowLabels)
    ensures
        r.window@ == window_label_spec(id@),
        r.titlebar@ == titlebar_label_spec(id@),
        r.content@ == content_label_spec(id@),
{
    WindowLabels {
        window: concat_strs("window-", id),
        titlebar: concat_strs("titlebar-", id),
        content: concat_strs("content-", id),
    }
}

/// Resolves any surface label to the label of its owning window.
pub fn get_parent_window_label(label: &str) -> (r: String)
    ensures
        r@ == parent_label_spec(label@),
{
    if str_starts_with(label, "content-") {
        let pl = "content-".unicode_len();
        concat_strs("window-", chars_after(label, pl))
    } else if str_starts_with(label, "titlebar-") {
        let pl = "titlebar-".unicode_len();
        concat_strs("window-", chars_after(label, pl))
    } else {
        String::from_str(label)
    }
}

/// Label derivation and parent resolution are inverse-consistent: for any
/// logical window id, the parent of the derived content label and the
/// parent of the derived titlebar label are both the derived window label,
/// and the window label itself resolves to itself.
pub proof fn lemma_parent_of_derived_labels(id: Seq<char>)
    ensures
        parent_label_spec(content_label_spec(id)) == window_label_spec(id),
        parent_label_spec(titlebar_label_spec(id)) == window_label_spec(id),
        parent_label_spec(window_label_spec(id)) == window_label_spec(id),
{
    reveal_strlit("window-");
    reveal_strlit("titlebar-");
    reveal_strlit("content-");
    assert(starts_with_spec(content_label_spec(id), "content-"@)) by {
        assert(("content-"@ + id).subrange(0, "content-"@.len() as int) =~= "content-"@);
    }
    assert(content_label_spec(id).skip("content-"@.len() as int) =~= id);
    assert(starts_with_spec(titlebar_label_spec(id), "titlebar-"@)) by {
        assert(("titlebar-"@ + id).subrange(0, "titlebar-"@.len() as int) =~= "titlebar-"@);
    }
    assert(titlebar_label_spec(id).skip("titlebar-"@.len() as int) =~= id);
    assert(!starts_with_spec(titlebar_label_spec(id), "content-"@)) by {
        if starts_with_spec(titlebar_label_spec(id), "content-"@) {
            assert(titlebar_label_spec(id).subrange(0, "content-"@.len() as int)[0]
                == titlebar_label_spec(id)[0]);
        }
    }
    assert(!starts_with_spec(window_label_spec(id), "content-"@)) by {
        if starts_with_spec(window_label_spec(id), "content-"@) {
            assert(window_label_spec(id).subrange(0, "content-"@.len() as int)[0]
                == window_label_spec(id)[0]);
        }
    }
    assert(!starts_with_spec(window_label_spec(id), "titlebar-"@)) by {
        if starts_with_spec(window_label_spec(id), "titlebar-"@) {
            assert(window_label_spec(id).subrange(0, "titlebar-"@.len() as int)[0]
                == window_label_spec(id)[0]);
        }
    }
}

} // verus!
