//! The source channel's verified core: classifying one read from the
//! window-manager feed. The source is noisy and untrusted, so anything
//! malformed — bytes that do not decode, text that does not parse, a
//! notification without the expected fields — is discarded and the loop
//! goes on; only a recognized reset code triggers reconnection, and any
//! other read error is fatal.

use vstd::prelude::*;
use vstd::utf8::{decode_utf8, valid_utf8};

use crate::channel::{ReadEvent, SOURCE_RESET_CODE};
use crate::config::Configuration;
use crate::events::{
    handle_event, spec_resolve, view_opt_keys, view_opt_string_ref, Event,
};
use crate::jsonio::{bytes_to_string, dot_get_string, dot_strings, json_from_str, json_string_paths};
use crate::matching::str_eq;
use crate::protocol::change_layer_request_text;

verus! {

/// What the bridge should do after one read on the source channel.
#[derive(Debug)]
pub enum SourceOutcome {
    /// Nothing to do: a keep-alive, a malformed or irrelevant
    /// notification, or an event that produced no command.
    Ignore,
    /// Write these bytes to the sink channel.
    Dispatch(Vec<u8>),
    /// The source connection broke: re-subscribe and reconnect.
    Reconnect,
    /// Any other read error is fatal.
    Fatal,
}

/// The dotted path of the event kind in a source notification.
pub open spec fn kind_path() -> Seq<char> {
    "event.type"@
}

/// The dotted path of the process name in a source notification.
pub open spec fn exe_path() -> Seq<char> {
    "event.content.1.exe"@
}

/// The dotted path of the window title in a source notification.
pub open spec fn title_path() -> Seq<char> {
    "event.content.1.title"@
}

/// The event kind, process name and window title a parsed source
/// notification carries — when it carries all three and the kind is one
/// the bridge handles; anything else is discarded.
pub open spec fn notification_fields(m: Map<Seq<char>, Seq<char>>) -> Option<
    (Event, Seq<char>, Seq<char>),
> {
    if m.contains_key(kind_path()) && m.contains_key(exe_path()) && m.contains_key(title_path()) {
        if m[kind_path()] == "Show"@ {
            Some((Event::Show, m[exe_path()], m[title_path()]))
        } else if m[kind_path()] == "FocusChange"@ {
            Some((Event::FocusChange, m[exe_path()], m[title_path()]))
        } else {
            None
        }
    } else {
        None
    }
}

/// Extracts the handled event kind, process name and window title from a
/// parsed source notification; a notification of any other shape yields
/// nothing.
pub fn parse_notification(v: &serde_json::Value) -> (r: Option<(Event, String, String)>)
    ensures
        ({
            let fields = notification_fields(dot_strings(*v));
            match r {
                Some(p) => fields matches Some(f) && p.0 == f.0 && p.1@ == f.1 && p.2@ == f.2,
                None => fields is None,
            }
        }),
{
    let kind = match dot_get_string(v, "event.type") {
        Ok(Some(k)) => k,
        _ => return None,
    };
    let event = if str_eq(kind.as_str(), "Show") {
        Event::Show
    } else if str_eq(kind.as_str(), "FocusChange") {
        Event::FocusChange
    } else {
        return None;
    };
    let exe = match dot_get_string(v, "event.content.1.exe") {
        Ok(Some(e)) => e,
        _ => return None,
    };
    let title = match dot_get_string(v, "event.content.1.title") {
        Ok(Some(t)) => t,
        _ => return None,
    };
    Some((event, exe, title))
}

/// Handles one read from the source channel: classifies read errors, skips
/// keep-alives, discards what does not parse into a handled notification,
/// resolves the event and frames the command to dispatch. While the sink
/// is marked disconnected nothing is dispatched: the event is dropped.
pub fn source_step(
    config: &Configuration,
    default: Option<&String>,
    keys: Option<&Vec<i32>>,
    disconnected: bool,
    read: ReadEvent,
) -> (r: SourceOutcome)
    ensures
        ({
            match read {
                ReadEvent::Failed(code) => if code == Some(SOURCE_RESET_CODE) {
                    r is Reconnect
                } else {
                    r is Fatal
                },
                ReadEvent::Data(bytes) => {
                    if !valid_utf8(bytes@) {
                        r is Ignore
                    } else {
                        let text = decode_utf8(bytes@);
                        if text == "\n"@ {
                            r is Ignore
                        } else {
                            match json_string_paths(text) {
                                None => r is Ignore,
                                Some(m) => match notification_fields(m) {
                                    None => r is Ignore,
                                    Some(f) => {
                                        let target = spec_resolve(
                                            config@,
                                            f.0,
                                            f.1,
                                            Some(f.2),
                                            view_opt_string_ref(default),
                                            view_opt_keys(keys),
                                        );
                                        if disconnected || target is None {
                                            r is Ignore
                                        } else {
                                            r matches SourceOutcome::Dispatch(b) && b@
                                                == change_layer_request_text(target->Some_0)
                                        }
                                    },
                                },
                            }
                        }
                    }
                },
            }
        }),
{
    let bytes = match read {
        ReadEvent::Data(b) => b,
        ReadEvent::Failed(code) => {
            return match code {
                Some(c) => if c == SOURCE_RESET_CODE {
                    SourceOutcome::Reconnect
                } else {
                    SourceOutcome::Fatal
                },
                None => SourceOutcome::Fatal,
            };
        },
    };
    let text = match bytes_to_string(bytes) {
        Some(t) => t,
        None => return SourceOutcome::Ignore,
    };
    if str_eq(text.as_str(), "\n") {
        return SourceOutcome::Ignore;
    }
    let doc = match json_from_str(text.as_str()) {
        Ok(v) => v,
        Err(_) => return SourceOutcome::Ignore,
    };
    let parsed = match parse_notification(&doc) {
        Some(p) => p,
        None => return SourceOutcome::Ignore,
    };
    let (event, exe, title) = parsed;
    match handle_event(
        config,
        event,
        exe.as_str(),
        Some(title.as_str()),
        default,
        keys,
        disconnected,
    ) {
        Some(request) => SourceOutcome::Dispatch(request),
        None => SourceOutcome::Ignore,
    }
}

} // verus!
