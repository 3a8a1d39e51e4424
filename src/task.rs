//! One line per quest task.
use vstd::prelude::*;
use crate::text::{decimal, decimal_string, replace_underscores, same_text, underscores_to_spaces};

verus! {

/// How long a task takes: whole minutes above one minute, else seconds.
pub open spec fn duration_text(target_seconds: int) -> Seq<char> {
    if target_seconds > 60 {
        decimal(target_seconds / 60) + " minutes"@
    } else {
        decimal(target_seconds) + " seconds"@
    }
}

/// The display name of a known task event.
pub open spec fn task_name(event_name: Seq<char>) -> Option<Seq<char>> {
    if event_name == "WATCH_VIDEO"@ {
        Some("Watch video"@)
    } else if event_name == "WATCH_VIDEO_ON_MOBILE"@ {
        Some("Watch video on mobile"@)
    } else if event_name == "PLAY_ON_DESKTOP"@ {
        Some("Play on Desktop"@)
    } else if event_name == "STREAM_ON_DESKTOP"@ {
        Some("Stream on Desktop"@)
    } else {
        None
    }
}

/// `- <name> (<duration>)`, where an unknown event is named by its own text
/// with underscores read as spaces.
pub open spec fn task_line(event_name: Seq<char>, target_seconds: int) -> Seq<char> {
    let name = match task_name(event_name) {
        Some(n) => n,
        None => underscores_to_spaces(event_name),
    };
    "- "@ + name + " ("@ + duration_text(target_seconds) + ")"@
}

/// Describes one task of a quest.
pub fn format_task_description(event_name: &str, target_seconds: i32) -> (r: String)
    ensures
        r@ == task_line(event_name@, target_seconds as int),
{
    let mut duration = if target_seconds > 60 {
        decimal_string((target_seconds / 60) as i64)
    } else {
        decimal_string(target_seconds as i64)
    };
    if target_seconds > 60 {
        duration.append(" minutes");
    } else {
        duration.append(" seconds");
    }
    let name = if same_text(event_name, "WATCH_VIDEO") {
        String::from_str("Watch video")
    } else if same_text(event_name, "WATCH_VIDEO_ON_MOBILE") {
        String::from_str("Watch video on mobile")
    } else if same_text(event_name, "PLAY_ON_DESKTOP") {
        String::from_str("Play on Desktop")
    } else if same_text(event_name, "STREAM_ON_DESKTOP") {
        String::from_str("Stream on Desktop")
    } else {
        replace_underscores(event_name)
    };
    let mut r = String::from_str("- ");
    r.append(name.as_str());
    r.append(" (");
    r.append(duration.as_str());
    r.append(")");
    r
}

} // verus!
