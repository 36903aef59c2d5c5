//! What the plugin says about itself: the provider manifest it answers with,
//! and the plugin descriptor it prints when asked on the command line.
use vstd::prelude::*;

verus! {

pub open spec fn spec_plugin_name() -> Seq<char> {
    "animus-provider-gemini"@
}

pub open spec fn spec_plugin_version() -> Seq<char> {
    "0.3.0"@
}

pub open spec fn spec_plugin_description() -> Seq<char> {
    "A Google Gemini CLI provider plugin for Animus."@
}

fn plugin_name() -> (s: String)
    ensures
        s@ == spec_plugin_name(),
{
    String::from_str("animus-provider-gemini")
}

fn plugin_version() -> (s: String)
    ensures
        s@ == spec_plugin_version(),
{
    String::from_str("0.3.0")
}

fn plugin_description() -> (s: String)
    ensures
        s@ == spec_plugin_description(),
{
    String::from_str("A Google Gemini CLI provider plugin for Animus.")
}

/// What the provider can do.
pub struct ProviderCapabilities {
    pub streaming: bool,
    pub resume: bool,
    pub cancellation: bool,
    pub write_capable: bool,
    pub mcp: bool,
}

/// The provider's answer to a manifest request.
pub struct ProviderManifest {
    pub name: String,
    pub version: String,
    pub description: String,
    pub supported_models: Vec<String>,
    pub tool: String,
    pub capabilities: ProviderCapabilities,
}

/// The models the provider advertises, in order.
pub open spec fn spec_supported_models() -> Seq<Seq<char>> {
    seq![
        "gemini-3.1-pro-preview"@,
        "gemini-2.5-pro"@,
        "gemini-2.5-flash"@,
        "gemini-1.5-pro"@,
        "gemini-1.5-flash"@,
    ]
}

/// The provider manifest: this plugin's name, version and description, the
/// models of `spec_supported_models`, the `gemini` tool, and every capability.
/// The Gemini CLI can write; whether a phase may be routed here is decided
/// elsewhere.
pub fn provider_manifest() -> (manifest: ProviderManifest)
    ensures
        manifest.name@ == spec_plugin_name(),
        manifest.version@ == spec_plugin_version(),
        manifest.description@ == spec_plugin_description(),
        manifest.supported_models.deep_view() == spec_supported_models(),
        manifest.tool@ == "gemini"@,
        manifest.capabilities.streaming,
        manifest.capabilities.resume,
        manifest.capabilities.cancellation,
        manifest.capabilities.write_capable,
        manifest.capabilities.mcp,
        manifest.name@ == "animus-provider-gemini"@,
        manifest.version@ == "0.3.0"@,
        manifest.description@ == "A Google Gemini CLI provider plugin for Animus."@,
        manifest.supported_models.deep_view() == seq![
            "gemini-3.1-pro-preview"@,
            "gemini-2.5-pro"@,
            "gemini-2.5-flash"@,
            "gemini-1.5-pro"@,
            "gemini-1.5-flash"@,
        ],
{
    let mut supported_models: Vec<String> = Vec::new();
    supported_models.push(String::from_str("gemini-3.1-pro-preview"));
    supported_models.push(String::from_str("gemini-2.5-pro"));
    supported_models.push(String::from_str("gemini-2.5-flash"));
    supported_models.push(String::from_str("gemini-1.5-pro"));
    supported_models.push(String::from_str("gemini-1.5-flash"));
    assert(supported_models.deep_view() =~= spec_supported_models());
    ProviderManifest {
        name: plugin_name(),
        version: plugin_version(),
        description: plugin_description(),
        supported_models,
        tool: String::from_str("gemini"),
        capabilities: ProviderCapabilities {
            streaming: true,
            resume: true,
            cancellation: true,
            write_capable: true,
            mcp: true,
        },
    }
}

/// An environment variable the plugin reads.
pub struct EnvRequirement {
    pub name: String,
    pub description: String,
    /// Whether the value is a secret.
    pub sensitive: bool,
    pub required: bool,
}

pub struct EnvRequirementModel {
    pub name: Seq<char>,
    pub description: Seq<char>,
    pub sensitive: bool,
    pub required: bool,
}

impl View for EnvRequirement {
    type V = EnvRequirementModel;

    open spec fn view(&self) -> EnvRequirementModel {
        EnvRequirementModel {
            name: self.name@,
            description: self.description@,
            sensitive: self.sensitive,
            required: self.required,
        }
    }
}

/// What the plugin prints about itself when asked with `--manifest` or `-m`
/// (the host adds the protocol version).
pub struct PluginDescriptor {
    pub name: String,
    pub version: String,
    pub plugin_kind: String,
    pub description: String,
    pub capabilities: Vec<String>,
    pub env_required: Vec<EnvRequirement>,
}

/// The requests the plugin serves, in order.
pub open spec fn spec_plugin_capabilities() -> Seq<Seq<char>> {
    seq!["agent/run"@, "agent/resume"@, "agent/cancel"@, "health/check"@]
}

/// The environment variables the plugin reads, in order; none is required.
pub open spec fn spec_env_requirements() -> Seq<EnvRequirementModel> {
    seq![
        EnvRequirementModel {
            name: "GEMINI_BIN"@,
            description: "Override the Gemini CLI binary (default `gemini`). Driven in ACP mode via `--acp`."@,
            sensitive: false,
            required: false,
        },
        EnvRequirementModel {
            name: "GEMINI_DEFAULT_MODEL"@,
            description: "Fallback model used when an agent/run request omits a model."@,
            sensitive: false,
            required: false,
        },
        EnvRequirementModel {
            name: "GEMINI_API_KEY"@,
            description: "API key for the Gemini harness when using API-key auth."@,
            sensitive: true,
            required: false,
        },
        EnvRequirementModel {
            name: "GOOGLE_API_KEY"@,
            description: "Google API key alternative for the Gemini harness."@,
            sensitive: true,
            required: false,
        },
        EnvRequirementModel {
            name: "ANIMUS_BIN"@,
            description: "Path to the `animus` binary used for the approve-hook approval gate (default: resolved on PATH)."@,
            sensitive: false,
            required: false,
        },
    ]
}

fn env_requirement(name: &str, description: &str, sensitive: bool) -> (r: EnvRequirement)
    ensures
        r@ == (EnvRequirementModel {
            name: name@,
            description: description@,
            sensitive,
            required: false,
        }),
{
    EnvRequirement {
        name: String::from_str(name),
        description: String::from_str(description),
        sensitive,
        required: false,
    }
}

/// The plugin descriptor: a provider plugin with this plugin's name, version
/// and description, the requests of `spec_plugin_capabilities` and the
/// environment variables of `spec_env_requirements`.
pub fn plugin_descriptor() -> (d: PluginDescriptor)
    ensures
        d.name@ == spec_plugin_name(),
        d.version@ == spec_plugin_version(),
        d.plugin_kind@ == "provider"@,
        d.description@ == spec_plugin_description(),
        d.capabilities.deep_view() == spec_plugin_capabilities(),
        d.env_required@.map_values(|r: EnvRequirement| r@) == spec_env_requirements(),
        d.name@ == "animus-provider-gemini"@,
        d.version@ == "0.3.0"@,
        d.description@ == "A Google Gemini CLI provider plugin for Animus."@,
        d.capabilities.deep_view() == seq![
            "agent/run"@,
            "agent/resume"@,
            "agent/cancel"@,
            "health/check"@,
        ],
        d.env_required@.len() == 5,
        d.env_required@[0]@ == (EnvRequirementModel {
            name: "GEMINI_BIN"@,
            description: "Override the Gemini CLI binary (default `gemini`). Driven in ACP mode via `--acp`."@,
            sensitive: false,
            required: false,
        }),
        d.env_required@[1]@ == (EnvRequirementModel {
            name: "GEMINI_DEFAULT_MODEL"@,
            description: "Fallback model used when an agent/run request omits a model."@,
            sensitive: false,
            required: false,
        }),
        d.env_required@[2]@ == (EnvRequirementModel {
            name: "GEMINI_API_KEY"@,
            description: "API key for the Gemini harness when using API-key auth."@,
            sensitive: true,
            required: false,
        }),
        d.env_required@[3]@ == (EnvRequirementModel {
            name: "GOOGLE_API_KEY"@,
            description: "Google API key alternative for the Gemini harness."@,
            sensitive: true,
            required: false,
        }),
        d.env_required@[4]@ == (EnvRequirementModel {
            name: "ANIMUS_BIN"@,
            description: "Path to the `animus` binary used for the approve-hook approval gate (default: resolved on PATH)."@,
            sensitive: false,
            required: false,
        }),
{
    let mut capabilities: Vec<String> = Vec::new();
    capabilities.push(String::from_str("agent/run"));
    capabilities.push(String::from_str("agent/resume"));
    capabilities.push(String::from_str("agent/cancel"));
    capabilities.push(String::from_str("health/check"));
    assert(capabilities.deep_view() =~= spec_plugin_capabilities());
    let mut env_required: Vec<EnvRequirement> = Vec::new();
    env_required.push(
        env_requirement(
            "GEMINI_BIN",
            "Override the Gemini CLI binary (default `gemini`). Driven in ACP mode via `--acp`.",
            false,
        ),
    );
    env_required.push(
        env_requirement(
            "GEMINI_DEFAULT_MODEL",
            "Fallback model used when an agent/run request omits a model.",
            false,
        ),
    );
    env_required.push(
        env_requirement(
            "GEMINI_API_KEY",
            "API key for the Gemini harness when using API-key auth.",
            true,
        ),
    );
    env_required.push(
        env_requirement("GOOGLE_API_KEY", "Google API key alternative for the Gemini harness.", true),
    );
    env_required.push(
        env_requirement(
            "ANIMUS_BIN",
            "Path to the `animus` binary used for the approve-hook approval gate (default: resolved on PATH).",
            false,
        ),
    );
    assert(env_required@.map_values(|r: EnvRequirement| r@) =~= spec_env_requirements());
    assert forall|i: int| 0 <= i < 5 implies env_required@[i]@ == spec_env_requirements()[i] by {
        assert(env_required@.map_values(|r: EnvRequirement| r@)[i] == env_required@[i]@);
    }
    PluginDescriptor {
        name: plugin_name(),
        version: plugin_version(),
        plugin_kind: String::from_str("provider"),
        description: plugin_description(),
        capabilities,
        env_required,
    }
}

/// An argument that asks for the plugin descriptor.
pub open spec fn is_manifest_flag(arg: Seq<char>) -> bool {
    arg == "--manifest"@ || arg == "-m"@
}

/// Whether the command line (program name first) asks for the plugin
/// descriptor: some argument after the program name is `--manifest` or `-m`.
pub fn manifest_requested(args: &Vec<String>) -> (requested: bool)
    ensures
        requested == exists|i: int| 1 <= i < args@.len() && #[trigger] is_manifest_flag(args@[i]@),
        requested == exists|i: int|
            1 <= i < args@.len() && ((#[trigger] args@[i])@ == "--manifest"@ || args@[i]@ == "-m"@),
{
    let long_flag = String::from_str("--manifest");
    let short_flag = String::from_str("-m");
    let mut i: usize = 1;
    while i < args.len()
        invariant
            long_flag@ == "--manifest"@,
            short_flag@ == "-m"@,
            1 <= i,
            forall|j: int| 1 <= j < i && j < args@.len() ==> !#[trigger] is_manifest_flag(args@[j]@),
        decreases args.len() - i,
    {
        if args[i] == long_flag || args[i] == short_flag {
            assert(is_manifest_flag(args@[i as int]@));
            return true;
        }
        i = i + 1;
    }
    assert forall|j: int| 1 <= j < args@.len() implies !((#[trigger] args@[j])@ == "--manifest"@
        || args@[j]@ == "-m"@) by {
        assert(!is_manifest_flag(args@[j]@));
    }
    false
}

/// The model a configuration falls back to, and the one the harness falls
/// back to, are both among the models the provider advertises.
pub proof fn lemma_default_models_supported()
    ensures
        spec_supported_models().contains(crate::config::spec_default_config_model()),
        spec_supported_models().contains(crate::config::spec_harness_model()),
{
    assert(spec_supported_models()[0] == crate::config::spec_default_config_model());
    assert(spec_supported_models()[2] == crate::config::spec_harness_model());
}

} // verus!
