//! The kinds of JavaScript environment that glue code is generated for.

use crate::text::{ascii_lower, lowercase_is};
use vstd::prelude::*;
use vstd::string::*;

verus! {

/// Where the generated module is meant to be loaded.
#[derive(Clone, Copy, Debug, PartialEq, Eq, Structural)]
pub enum WasmTarget {
    /// Loaded by a browser as an ES module.
    Web,
    /// Bundled by rollup, which loads the module through a bootstrap script.
    Rollup,
    /// Bundled by webpack.
    Webpack,
}

/// The target that `name` stands for, whatever the case of its letters.
pub open spec fn target_named(name: Seq<char>) -> Option<WasmTarget> {
    if ascii_lower(name) == "web"@ {
        Some(WasmTarget::Web)
    } else if ascii_lower(name) == "webpack"@ {
        Some(WasmTarget::Webpack)
    } else if ascii_lower(name) == "rollup"@ {
        Some(WasmTarget::Rollup)
    } else {
        None
    }
}

/// What is said of a name that stands for no target.
pub open spec fn unknown_target_text(name: Seq<char>) -> Seq<char> {
    "'"@ + name + "' is not an allowed target. Supported options are: web (default), webpack"@
}

impl WasmTarget {
    /// The name that the glue generator knows the target by. A rollup build
    /// takes the same glue as the web.
    pub open spec fn cli_name(self) -> Seq<char> {
        match self {
            WasmTarget::Web => "web"@,
            WasmTarget::Rollup => "web"@,
            WasmTarget::Webpack => "bundler"@,
        }
    }

    /// Reads a target from its name: `web`, `webpack` or `rollup`, in any case
    /// of letters. Any other name is refused, with a message that quotes it.
    pub fn from_str(s: &str) -> (parsed: Result<WasmTarget, String>)
        ensures
            match parsed {
                Ok(target) => target_named(s@) == Some(target),
                Err(message) => target_named(s@) is None && message@ == unknown_target_text(s@),
            },
    {
        if lowercase_is(s, "web") {
            Ok(WasmTarget::Web)
        } else if lowercase_is(s, "webpack") {
            Ok(WasmTarget::Webpack)
        } else if lowercase_is(s, "rollup") {
            Ok(WasmTarget::Rollup)
        } else {
            let mut message = String::from_str("'");
            message.append(s);
            message.append(
                "' is not an allowed target. Supported options are: web (default), webpack",
            );
            Err(message)
        }
    }

    /// The name that the glue generator knows the target by.
    pub fn as_ref(&self) -> (name: &'static str)
        ensures
            name@ == self.cli_name(),
    {
        match self {
            WasmTarget::Web => "web",
            WasmTarget::Rollup => "web",
            WasmTarget::Webpack => "bundler",
        }
    }
}

impl Default for WasmTarget {
    /// The web is the target where none is asked for.
    fn default() -> (target: WasmTarget)
        ensures
            target == WasmTarget::Web,
    {
        WasmTarget::Web
    }
}

} // verus!
