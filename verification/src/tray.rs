//! What the system tray indicator shows: its icon for each connection
//! status, its tooltip, the informational and radio labels of its menu, and
//! which configuration file the editor opens.
use vstd::prelude::*;
use crate::text::{concat2, lowercase, lowercase_of, owned, str_equals, uppercase, uppercase_of};

verus! {

/// The tray's identifier.
pub fn tray_id() -> (s: String)
    ensures
        s@ == "ai-voice-client"@,
{
    owned("ai-voice-client")
}

/// The tray's title.
pub fn tray_title() -> (s: String)
    ensures
        s@ == "AI Voice Client"@,
{
    owned("AI Voice Client")
}

/// The icon for a connection status: recording, an open stream or a
/// transcription in progress, the server offline, or idle.
pub open spec fn icon_of(status: Seq<char>) -> Seq<char> {
    if status == "Recording"@ {
        "media-record"@
    } else if status == "WS_Open"@ || status == "Processing"@ {
        "dialog-warning"@
    } else if status == "Disconnected"@ || status == "Offline"@ {
        "dialog-error"@
    } else {
        "microphone-sensitivity-high-symbolic"@
    }
}

pub fn icon_name(status: &str) -> (s: String)
    ensures
        s@ == icon_of(status@),
{
    if str_equals(status, "Recording") {
        owned("media-record")
    } else if str_equals(status, "WS_Open") || str_equals(status, "Processing") {
        owned("dialog-warning")
    } else if str_equals(status, "Disconnected") || str_equals(status, "Offline") {
        owned("dialog-error")
    } else {
        owned("microphone-sensitivity-high-symbolic")
    }
}

/// The tooltip's title and description.
pub struct ToolTipText {
    pub title: String,
    pub description: String,
}

/// The tooltip: the status in the title; the compute device (in upper
/// case) and the model in the description.
pub fn tool_tip_text(status: &str, device: &str, model: &str) -> (t: ToolTipText)
    ensures
        t.title@ == "AI Voice Client ("@ + status@ + ")"@,
        t.description@ == "Compute: "@ + uppercase_of(device@) + "\nModel: "@ + model@,
{
    let mut title = concat2("AI Voice Client (", status);
    title.append(")");
    let upper = uppercase(device);
    let mut description = concat2("Compute: ", upper.as_str());
    description.append("\nModel: ");
    description.append(model);
    ToolTipText { title, description }
}

/// The labels of the menu that depend on the daemon's state.
pub struct MenuLabels {
    pub status: String,
    pub compute: String,
    pub model: String,
    pub typing: String,
    pub clipboard: String,
}

/// The radio mark: filled for the selected entry.
pub open spec fn mark(selected: bool) -> Seq<char> {
    if selected {
        "●"@
    } else {
        "○"@
    }
}

/// The menu's labels; the output mode is compared without regard to case.
pub fn menu_labels(mode: &str, device: &str, model: &str, status: &str) -> (m: MenuLabels)
    ensures
        m.status@ == "Status: "@ + status@,
        m.compute@ == "Compute: "@ + uppercase_of(device@),
        m.model@ == "Model: "@ + model@,
        m.typing@ == mark(lowercase_of(mode@) == "type"@) + " Auto-Typing (ydotool)"@,
        m.clipboard@ == mark(lowercase_of(mode@) == "clipboard"@) + " Clipboard Copy (wl-copy)"@,
{
    let lower = lowercase(mode);
    let is_type = str_equals(lower.as_str(), "type");
    let is_clip = str_equals(lower.as_str(), "clipboard");
    let upper = uppercase(device);
    let typing = concat2(
        if is_type {
            "●"
        } else {
            "○"
        },
        " Auto-Typing (ydotool)",
    );
    let clipboard = concat2(
        if is_clip {
            "●"
        } else {
            "○"
        },
        " Clipboard Copy (wl-copy)",
    );
    MenuLabels {
        status: concat2("Status: ", status),
        compute: concat2("Compute: ", upper.as_str()),
        model: concat2("Model: ", model),
        typing,
        clipboard,
    }
}

/// The models offered for a remote switch.
pub fn hot_swap_models() -> (v: Vec<String>)
    ensures
        v.deep_view() == seq!["small.en"@, "medium.en"@, "large-v3"@],
{
    let mut v: Vec<String> = Vec::new();
    v.push(owned("small.en"));
    v.push(owned("medium.en"));
    v.push(owned("large-v3"));
    assert(v.deep_view() =~= seq!["small.en"@, "medium.en"@, "large-v3"@]);
    v
}

/// Which of the client's configuration files the editor opens: the first
/// that exists of `ai-voice-server/client.env`, `ai-voice/client.conf` and
/// `ai-voice/client.env`, and the first one when none does.
pub fn config_file_choice(exists: [bool; 3]) -> (i: usize)
    ensures
        i == (if exists[0] {
            0usize
        } else if exists[1] {
            1usize
        } else if exists[2] {
            2usize
        } else {
            0usize
        }),
{
    if exists[0] {
        0
    } else if exists[1] {
        1
    } else if exists[2] {
        2
    } else {
        0
    }
}

} // verus!
