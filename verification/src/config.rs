//! The rule table: which process (and optionally which window title or held
//! virtual key) selects which keyboard layer.

use vstd::prelude::*;
use vstd::string::*;

verus! {

/// How a pattern is compared against a process name or a window title.
#[derive(Clone, Copy, Debug, PartialEq, Eq, Structural)]
pub enum Strategy {
    Equals,
    StartsWith,
    EndsWith,
    Contains,
}

/// Maps a window-title pattern to a target layer within a matching rule.
#[derive(Clone, Debug)]
pub struct TitleOverride {
    pub title: String,
    pub strategy: Strategy,
    pub target_layer: String,
}

/// Forces a target layer while a given virtual key is held down.
#[derive(Clone, Debug)]
pub struct VirtualKeyOverride {
    pub virtual_key_code: i32,
    pub target_layer: String,
}

/// One configuration entry: matches a process and selects a target layer,
/// possibly refined by title overrides and virtual-key overrides or ignores.
/// A missing process-match strategy defaults to `Equals`.
#[derive(Clone, Debug)]
pub struct Rule {
    pub exe: String,
    pub strategy: Option<Strategy>,
    pub target_layer: String,
    pub title_overrides: Option<Vec<TitleOverride>>,
    pub virtual_key_overrides: Option<Vec<VirtualKeyOverride>>,
    pub virtual_key_ignores: Option<Vec<i32>>,
}

/// The ordered rule list; within one resolution every matching rule is
/// applied in order, so later rules override earlier ones.
pub type Configuration = Vec<Rule>;

/// Expands a leading tilde in a raw configuration path to the home
/// directory; any other path is returned unchanged.
pub fn expand_tilde(raw: &str, home: &str) -> (r: String)
    ensures
        raw@.len() > 0 && raw@[0] == '~' ==> r@ == home@ + raw@.subrange(1, raw@.len() as int),
        !(raw@.len() > 0 && raw@[0] == '~') ==> r@ == raw@,
{
    let n = raw.unicode_len();
    if n > 0 && raw.get_char(0) == '~' {
        let rest = raw.substring_char(1, n);
        let mut out = home.to_owned();
        out.append(rest);
        out
    } else {
        raw.to_owned()
    }
}

} // verus!
