//! The sink channel's verified core: classifying one read from the
//! remapper, the shared health flags that gate dispatch and drive lazy
//! writer reconnection, and the mirror of the last confirmed layer.

use vstd::prelude::*;
use vstd::utf8::{decode_utf8, valid_utf8};

use crate::channel::{ReadEvent, SINK_RESET_CODE};
use crate::jsonio::{bytes_to_string, dot_get_string, json_from_str, json_string_paths};
use crate::matching::str_eq;

verus! {

/// What the sink-channel reader should do after one read.
#[derive(Debug)]
pub enum SinkOutcome {
    /// Nothing to do: a keep-alive, or a notification carrying no layer
    /// confirmation.
    Ignore,
    /// The remapper confirmed this layer as now active.
    NewLayer(String),
    /// The sink connection was reset: flag it and reconnect.
    Reconnect,
    /// Anything malformed from this trusted peer, and any other read
    /// error, is fatal.
    Fatal,
}

/// The dotted path of the confirmed layer in a sink notification.
pub open spec fn layer_path() -> Seq<char> {
    "LayerChange.new"@
}

/// Handles one read from the sink channel. Unlike the source, the sink is
/// a trusted, controlled peer: input that fails to decode or parse means
/// protocol drift and is fatal rather than discarded.
pub fn sink_step(read: ReadEvent) -> (r: SinkOutcome)
    ensures
        ({
            match read {
                ReadEvent::Failed(code) => if code == Some(SINK_RESET_CODE) {
                    r is Reconnect
                } else {
                    r is Fatal
                },
                ReadEvent::Data(bytes) => {
                    if !valid_utf8(bytes@) {
                        r is Fatal
                    } else {
                        let text = decode_utf8(bytes@);
                        if text == "\n"@ {
                            r is Ignore
                        } else {
                            match json_string_paths(text) {
                                None => r is Fatal,
                                Some(m) => if m.contains_key(layer_path()) {
                                    r matches SinkOutcome::NewLayer(l) && l@ == m[layer_path()]
                                } else {
                                    r is Ignore || r is Fatal
                                },
                            }
                        }
                    }
                },
            }
        }),
{
    let bytes = match read {
        ReadEvent::Data(b) => b,
        ReadEvent::Failed(code) => {
            return match code {
                Some(c) => if c == SINK_RESET_CODE {
                    SinkOutcome::Reconnect
                } else {
                    SinkOutcome::Fatal
                },
                None => SinkOutcome::Fatal,
            };
        },
    };
    let text = match bytes_to_string(bytes) {
        Some(t) => t,
        None => return SinkOutcome::Fatal,
    };
    if str_eq(text.as_str(), "\n") {
        return SinkOutcome::Ignore;
    }
    let doc = match json_from_str(text.as_str()) {
        Ok(v) => v,
        Err(_) => return SinkOutcome::Fatal,
    };
    match dot_get_string(&doc, "LayerChange.new") {
        Ok(Some(layer)) => SinkOutcome::NewLayer(layer),
        Ok(None) => SinkOutcome::Ignore,
        Err(_) => SinkOutcome::Fatal,
    }
}

/// Sink-channel health, shared between the sink reader thread and the
/// dispatch path. `disconnected` gates dispatch off entirely;
/// `reconnect_pending` tells the writer to re-establish its own handle
/// lazily on its next use.
#[derive(Clone, Copy, Debug, PartialEq, Eq, Structural)]
pub struct SinkFlags {
    pub disconnected: bool,
    pub reconnect_pending: bool,
}

impl SinkFlags {
    /// Channel health at startup: connected, nothing pending.
    pub fn new() -> (r: SinkFlags)
        ensures
            !r.disconnected,
            !r.reconnect_pending,
    {
        SinkFlags { disconnected: false, reconnect_pending: false }
    }

    /// The reader saw a connection reset: dispatch is gated off.
    pub fn on_reader_reset(&mut self)
        ensures
            final(self).disconnected,
            final(self).reconnect_pending == old(self).reconnect_pending,
    {
        self.disconnected = true;
    }

    /// The reader reconnected: dispatch resumes, and the writer must
    /// re-establish its own handle before its next send.
    pub fn on_reader_reconnected(&mut self)
        ensures
            !final(self).disconnected,
            final(self).reconnect_pending,
    {
        self.disconnected = false;
        self.reconnect_pending = true;
    }

    /// The writer asks whether it must reconnect before sending; asking
    /// consumes the pending flag, and the writer then performs the
    /// reconnect outside any lock before installing the new handle.
    pub fn writer_takes_reconnect(&mut self) -> (r: bool)
        ensures
            r == old(self).reconnect_pending,
            !final(self).reconnect_pending,
            final(self).disconnected == old(self).disconnected,
    {
        let r = self.reconnect_pending;
        self.reconnect_pending = false;
        r
    }
}

/// The last layer the remapper confirmed as active, with the optional
/// persistence decision.
#[derive(Debug)]
pub struct LayerMirror {
    pub current: Option<String>,
    pub tmpfile: bool,
}

impl LayerMirror {
    /// An empty mirror; `tmpfile` gates persistence.
    pub fn new(tmpfile: bool) -> (r: LayerMirror)
        ensures
            r.current is None,
            r.tmpfile == tmpfile,
    {
        LayerMirror { current: None, tmpfile }
    }

    /// Records a confirmed layer. Returns the text to overwrite the
    /// well-known temp file with: the layer name itself when persistence
    /// is on, nothing otherwise. Purely observational: resolution never
    /// consults the mirror.
    pub fn observe(&mut self, layer: String) -> (persist: Option<String>)
        ensures
            final(self).current matches Some(l) && l@ == layer@,
            final(self).tmpfile == old(self).tmpfile,
            old(self).tmpfile ==> (persist matches Some(p) && p@ == layer@),
            !old(self).tmpfile ==> persist is None,
    {
        let persist = if self.tmpfile {
            Some(layer.clone())
        } else {
            None
        };
        self.current = Some(layer);
        persist
    }
}

} // verus!
