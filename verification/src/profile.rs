//! The language profile resolver and the container configuration built from
//! it: a pure mapping from a language tag and the submitted code to the
//! image, command line and resource limits of the container to create.

use vstd::prelude::*;

use crate::config::Config;
use crate::models::Language;
use crate::numerals::{parse_i64, spec_parse_i64};
use crate::text::{spec_swap_quotes, swap_quotes};

verus! {

/// The container image that runs each language.
pub open spec fn spec_image(language: Language) -> Seq<char> {
    match language {
        Language::Python => "python:3.9-slim"@,
        Language::JavaScript => "node:18-alpine"@,
        Language::Golang => "golang:1.19-alpine"@,
        Language::Kotlin => "kotlin:latest"@,
    }
}

/// The in-container shell invocation: make a working directory, write the
/// quote-substituted code into a source file, run it with the language's
/// toolchain.
pub open spec fn spec_shell_command(language: Language, code: Seq<char>) -> Seq<char> {
    match language {
        Language::Python => "mkdir -p /app && echo '"@ + spec_swap_quotes(code)
            + "' > /app/code.py && python /app/code.py"@,
        Language::JavaScript => "mkdir -p /app && echo '"@ + spec_swap_quotes(code)
            + "' > /app/code.js && node /app/code.js"@,
        Language::Golang => "mkdir -p /app && echo '"@ + spec_swap_quotes(code)
            + "' > /app/code.go && cd /app && go run code.go"@,
        Language::Kotlin => "mkdir -p /app && echo '"@ + spec_swap_quotes(code)
            + "' > /app/code.kt && cd /app && kotlinc code.kt -include-runtime -d code.jar && java -jar code.jar"@,
    }
}

/// The fixed image and command line that run one language's code.
pub struct LanguageProfile {
    pub image: String,
    /// Argv tokens: a shell, its command flag, and the invocation itself.
    pub command: Vec<String>,
}

/// The memory ceiling in bytes read from a configured size string; an
/// unparsable string falls back to 100 MiB.
pub const DEFAULT_MEMORY_BYTES: i64 = 100 * 1024 * 1024;

pub open spec fn spec_memory_bytes(memory_limit: Seq<char>) -> i64 {
    match spec_parse_i64(memory_limit) {
        Some(v) => v,
        None => DEFAULT_MEMORY_BYTES,
    }
}

/// Everything the daemon needs to create one container: entry command from
/// the resolved profile, limits from the static configuration, swap forced
/// to zero so the memory ceiling cannot be bypassed, and automatic removal
/// disabled because removal is explicit and unconditional later.
pub struct ContainerSpec {
    pub image: String,
    pub cmd: Vec<String>,
    pub network_mode: String,
    pub memory: i64,
    pub memory_swap: i64,
    pub cpu_shares: i64,
    pub auto_remove: bool,
}

/// The value of a [`ContainerSpec`], with every string as its characters.
#[verifier::ext_equal]
pub ghost struct ContainerSpecV {
    pub image: Seq<char>,
    pub cmd: Seq<Seq<char>>,
    pub network_mode: Seq<char>,
    pub memory: i64,
    pub memory_swap: i64,
    pub cpu_shares: i64,
    pub auto_remove: bool,
}

impl View for ContainerSpec {
    type V = ContainerSpecV;

    open spec fn view(&self) -> ContainerSpecV {
        ContainerSpecV {
            image: self.image@,
            cmd: self.cmd@.map_values(|s: String| s@),
            network_mode: self.network_mode@,
            memory: self.memory,
            memory_swap: self.memory_swap,
            cpu_shares: self.cpu_shares,
            auto_remove: self.auto_remove,
        }
    }
}

/// The container configuration owed for a request: image and shell command
/// from the language profile, limits from the static configuration.
pub open spec fn spec_container_config(
    network: Seq<char>,
    memory_limit: Seq<char>,
    cpu_shares: i64,
    language: Language,
    code: Seq<char>,
) -> ContainerSpecV {
    ContainerSpecV {
        image: spec_image(language),
        cmd: seq!["sh"@, "-c"@, spec_shell_command(language, code)],
        network_mode: network,
        memory: spec_memory_bytes(memory_limit),
        memory_swap: 0,
        cpu_shares: cpu_shares,
        auto_remove: false,
    }
}

/// Resolves a language tag to its profile: total and pure, with the
/// submitted code substituted into the shell invocation.
pub fn resolve_profile(language: Language, code: &str) -> (p: LanguageProfile)
    ensures
        p.image@ == spec_image(language),
        p.command@.map_values(|s: String| s@) =~= seq![
            "sh"@,
            "-c"@,
            spec_shell_command(language, code@),
        ],
{
    let escaped = swap_quotes(code);
    let image: String;
    let shell: String;
    match language {
        Language::Python => {
            image = "python:3.9-slim".to_owned();
            shell = "mkdir -p /app && echo '".to_owned().concat(escaped.as_str()).concat(
                "' > /app/code.py && python /app/code.py",
            );
        },
        Language::JavaScript => {
            image = "node:18-alpine".to_owned();
            shell = "mkdir -p /app && echo '".to_owned().concat(escaped.as_str()).concat(
                "' > /app/code.js && node /app/code.js",
            );
        },
        Language::Golang => {
            image = "golang:1.19-alpine".to_owned();
            shell = "mkdir -p /app && echo '".to_owned().concat(escaped.as_str()).concat(
                "' > /app/code.go && cd /app && go run code.go",
            );
        },
        Language::Kotlin => {
            image = "kotlin:latest".to_owned();
            shell = "mkdir -p /app && echo '".to_owned().concat(escaped.as_str()).concat(
                "' > /app/code.kt && cd /app && kotlinc code.kt -include-runtime -d code.jar && java -jar code.jar",
            );
        },
    }
    proof {
        assert(shell@ =~= spec_shell_command(language, code@));
    }
    let mut command: Vec<String> = Vec::new();
    command.push("sh".to_owned());
    command.push("-c".to_owned());
    command.push(shell);
    LanguageProfile { image, command }
}

/// Builds the full container configuration for one request.
pub fn create_container_config(config: &Config, language: Language, code: &str) -> (c:
    ContainerSpec)
    ensures
        c@ == spec_container_config(
            config.docker.network@,
            config.docker.memory_limit@,
            config.docker.cpu_shares,
            language,
            code@,
        ),
{
    let profile = resolve_profile(language, code);
    let memory: i64 = match parse_i64(config.docker.memory_limit.as_str()) {
        Some(v) => v,
        None => DEFAULT_MEMORY_BYTES,
    };
    let c = ContainerSpec {
        image: profile.image,
        cmd: profile.command,
        network_mode: config.docker.network.clone(),
        memory,
        memory_swap: 0,
        cpu_shares: config.docker.cpu_shares,
        auto_remove: false,
    };
    proof {
        assert(c@ =~~= spec_container_config(
            config.docker.network@,
            config.docker.memory_limit@,
            config.docker.cpu_shares,
            language,
            code@,
        ));
    }
    c
}

} // verus!
