//! How the provider is configured: which Gemini CLI binary it drives and which
//! model it falls back to, from the settings the process was started with.
use vstd::prelude::*;

verus! {

/// Runtime configuration for the Gemini provider plugin.
#[derive(Debug, Clone)]
pub struct GeminiConfig {
    /// Name (or absolute path) of the Gemini CLI binary the provider spawns.
    pub gemini_bin: String,
    /// Model used when a run request names none.
    pub default_model: String,
}

/// The binary a configuration names when none is set.
pub open spec fn spec_default_bin() -> Seq<char> {
    "gemini"@
}

/// The model a configuration falls back to when none is set.
pub open spec fn spec_default_config_model() -> Seq<char> {
    "gemini-3.1-pro-preview"@
}

impl GeminiConfig {
    /// A configuration for tests and embedders: the given binary and the default model.
    pub fn for_testing(gemini_bin: String) -> (config: GeminiConfig)
        ensures
            config.gemini_bin@ == gemini_bin@,
            config.default_model@ == spec_default_config_model(),
            config.default_model@ == "gemini-3.1-pro-preview"@,
    {
        GeminiConfig { gemini_bin, default_model: String::from_str("gemini-3.1-pro-preview") }
    }

    /// The configuration for the settings `GEMINI_BIN` and `GEMINI_DEFAULT_MODEL`
    /// (`None` where a setting is absent): each absent one takes its default.
    pub fn from_settings(gemini_bin: Option<String>, default_model: Option<String>) -> (config:
        GeminiConfig)
        ensures
            config.gemini_bin@ == match gemini_bin {
                Some(bin) => bin@,
                None => spec_default_bin(),
            },
            config.default_model@ == match default_model {
                Some(model) => model@,
                None => spec_default_config_model(),
            },
            gemini_bin is None ==> config.gemini_bin@ == "gemini"@,
            default_model is None ==> config.default_model@ == "gemini-3.1-pro-preview"@,
    {
        let gemini_bin = match gemini_bin {
            Some(bin) => bin,
            None => String::from_str("gemini"),
        };
        let default_model = match default_model {
            Some(model) => model,
            None => String::from_str("gemini-3.1-pro-preview"),
        };
        GeminiConfig { gemini_bin, default_model }
    }
}

/// Unicode's `White_Space` property: the characters that `char::is_whitespace`
/// accepts and that `str::trim` removes.
pub open spec fn is_white_space(c: char) -> bool {
    let u = c as u32;
    (0x9 <= u <= 0xd) || u == 0x20 || u == 0x85 || u == 0xa0 || u == 0x1680 || (0x2000 <= u
        <= 0x200a) || u == 0x2028 || u == 0x2029 || u == 0x202f || u == 0x205f || u == 0x3000
}

/// `char::is_whitespace` from std, which the documentation defines as the
/// Unicode `White_Space` property; the claim is that it accepts exactly the
/// characters `is_white_space` lists.
#[verifier::external_body]
fn char_is_whitespace(c: char) -> (b: bool)
    ensures
        b == is_white_space(c),
{
    c.is_whitespace()
}

/// A setting that says nothing: empty, or whitespace only (what trims to nothing).
pub open spec fn is_blank(s: Seq<char>) -> bool {
    forall|i: int| 0 <= i < s.len() ==> #[trigger] is_white_space(s[i])
}

/// Whether a setting trims to nothing.
pub fn blank(s: &String) -> (b: bool)
    ensures
        b == is_blank(s@),
{
    broadcast use vstd::string::group_string_axioms;

    let mut all_white = true;
    for c in it: s.as_str().chars()
        invariant
            it.seq() == s@,
            all_white == forall|j: int| 0 <= j < it.index() ==> #[trigger] is_white_space(s@[j]),
    {
        if !char_is_whitespace(c) {
            all_white = false;
        }
    }
    all_white
}

/// The setting, or `fallback` when it is absent or blank.
pub open spec fn setting_or(value: Option<Seq<char>>, fallback: Seq<char>) -> Seq<char> {
    match value {
        Some(v) => if is_blank(v) {
            fallback
        } else {
            v
        },
        None => fallback,
    }
}

/// What the plugin process starts the Gemini harness with.
pub struct HarnessSettings {
    /// The Gemini CLI binary to drive (in ACP mode).
    pub bin: String,
    /// The model used when a run names none.
    pub default_model: String,
}

/// The binary the harness falls back to.
pub open spec fn spec_harness_bin() -> Seq<char> {
    "gemini"@
}

/// The model the harness falls back to.
pub open spec fn spec_harness_model() -> Seq<char> {
    "gemini-2.5-flash"@
}

impl HarnessSettings {
    /// The harness settings for the values of `GEMINI_BIN` and
    /// `GEMINI_DEFAULT_MODEL` (`None` where one is absent or unreadable): a
    /// blank value counts as absent, and an absent one takes its default.
    pub fn from_settings(bin: Option<String>, default_model: Option<String>) -> (settings:
        HarnessSettings)
        ensures
            settings.bin@ == setting_or(bin.deep_view(), spec_harness_bin()),
            settings.default_model@ == setting_or(default_model.deep_view(), spec_harness_model()),
            settings.bin@ == match bin {
                Some(b) => if is_blank(b@) {
                    "gemini"@
                } else {
                    b@
                },
                None => "gemini"@,
            },
            settings.default_model@ == match default_model {
                Some(m) => if is_blank(m@) {
                    "gemini-2.5-flash"@
                } else {
                    m@
                },
                None => "gemini-2.5-flash"@,
            },
    {
        let bin = match bin {
            Some(b) => if blank(&b) {
                String::from_str("gemini")
            } else {
                b
            },
            None => String::from_str("gemini"),
        };
        let default_model = match default_model {
            Some(m) => if blank(&m) {
                String::from_str("gemini-2.5-flash")
            } else {
                m
            },
            None => String::from_str("gemini-2.5-flash"),
        };
        HarnessSettings { bin, default_model }
    }
}

} // verus!
