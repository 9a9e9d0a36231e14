//! Static service configuration: fixed at startup, read-only afterwards.

use vstd::prelude::*;

verus! {

/// Where the HTTP boundary listens.
pub struct ServerConfig {
    pub host: String,
    pub port: u16,
}

/// How the container daemon is reached and how containers are constrained.
pub struct DockerConfig {
    pub socket_path: String,
    pub network: String,
    /// A human-readable size string; an unparsable value falls back to a
    /// fixed default when the container configuration is built.
    pub memory_limit: String,
    pub cpu_shares: i64,
}

/// Execution-wide limits.
pub struct ExecutionConfig {
    /// Applied when a request names no timeout of its own, in seconds.
    pub default_timeout: u64,
    /// Ceiling on each returned output stream, in characters.
    pub max_output_size: usize,
}

/// The whole service configuration.
pub struct Config {
    pub server: ServerConfig,
    pub docker: DockerConfig,
    pub execution: ExecutionConfig,
}

impl core::default::Default for Config {
    /// The stock configuration: local daemon socket, no network, 100 MiB of
    /// memory, 512 CPU shares, a two-minute timeout and a 10 MiB output cap.
    fn default() -> (r: Config)
        ensures
            r.server.host@ == "0.0.0.0"@,
            r.server.port == 8080,
            r.docker.socket_path@ == "/var/run/docker.sock"@,
            r.docker.network@ == "none"@,
            r.docker.memory_limit@ == "100m"@,
            r.docker.cpu_shares == 512,
            r.execution.default_timeout == 120,
            r.execution.max_output_size == 10485760,
    {
        Config {
            server: ServerConfig { host: "0.0.0.0".to_owned(), port: 8080 },
            docker: DockerConfig {
                socket_path: "/var/run/docker.sock".to_owned(),
                network: "none".to_owned(),
                memory_limit: "100m".to_owned(),
                cpu_shares: 512,
            },
            execution: ExecutionConfig {
                default_timeout: 120,
                max_output_size: 10 * 1024 * 1024,
            },
        }
    }
}

} // verus!
