//! The build configuration: what is built, for which target, with which
//! paging mode.

use vstd::prelude::*;
use vstd::std_specs::hash::*;
use vstd::string::*;
use std::collections::hash_map::DefaultHasher;
use std::hash::Hasher;
use crate::mode::MemoryMode;
use crate::target::Target;

verus! {

/// The per-hart stack size of the kernel, in pages, where the configuration
/// gives none.
pub fn kernel_default_stack_size_pages() -> (pages: usize)
    ensures
        pages == 16,
{
    16
}

/// The per-hart stack size of the bootloader, in pages, where the
/// configuration gives none.
pub fn bootloader_default_stack_size_pages() -> (pages: usize)
    ensures
        pages == 4,
{
    4
}

/// The available verbosity levels of logging output
#[derive(Clone, Copy, Debug, PartialEq, Eq, Structural)]
pub enum LogLevel {
    /// Log only very serious errors.
    Error,
    /// Log only on hazardous situations.
    Warn,
    /// Log general information. This is the default.
    Info,
    /// Log lower priority, debug information.
    Debug,
    /// Log everything, often extremely verbose, very low priority information.
    Trace,
}

impl LogLevel {
    /// The number of the level: 1 for `Error`, rising with the verbosity.
    pub open spec fn number(self) -> nat {
        match self {
            LogLevel::Error => 1,
            LogLevel::Warn => 2,
            LogLevel::Info => 3,
            LogLevel::Debug => 4,
            LogLevel::Trace => 5,
        }
    }

    /// The number of the level: 1 for `Error`, rising with the verbosity.
    pub fn as_usize(self) -> (n: usize)
        ensures
            n == self.number(),
    {
        match self {
            LogLevel::Error => 1,
            LogLevel::Warn => 2,
            LogLevel::Info => 3,
            LogLevel::Debug => 4,
            LogLevel::Trace => 5,
        }
    }

    /// Whether a message of the level `message` is logged at this level:
    /// it is, unless it is more verbose than the level allows.
    pub fn allows(self, message: LogLevel) -> (r: bool)
        ensures
            r == (message.number() <= self.number()),
    {
        message.as_usize() <= self.as_usize()
    }
}

impl Default for LogLevel {
    fn default() -> (level: Self)
        ensures
            level == LogLevel::Info,
    {
        LogLevel::Info
    }
}

/// The configuration of the kernel.
#[derive(Clone, Debug)]
pub struct KernelConfig {
    /// The per-hart stack size in pages
    pub stack_size_pages: usize,
    /// Rust features to enable
    pub features: Vec<String>,
    /// The verbosity level of logging output
    pub log_level: LogLevel,
    /// The baud rate for the kernel UART debugging output
    pub uart_baud_rate: u32,
    /// Optionally overrides the default target
    pub target: Option<Target>,
}

/// The configuration of the bootloader.
#[derive(Clone, Debug)]
pub struct LoaderConfig {
    /// The per-hart stack size in pages
    pub stack_size_pages: usize,
    /// Rust features to enable
    pub features: Vec<String>,
    /// The verbosity level of logging output
    pub log_level: LogLevel,
    /// Optionally overrides the default target
    pub target: Option<Target>,
}

/// What a configuration file holds.
#[derive(Clone, Debug)]
pub struct RawConfig {
    pub name: String,
    pub version: Option<String>,
    pub kernel: KernelConfig,
    pub bootloader: LoaderConfig,
    pub memory_mode: MemoryMode,
    pub target: Target,
}

/// The configuration of one build.
#[derive(Clone, Debug)]
pub struct Config {
    /// The name of the configuration, used for debugging purposes only
    pub name: String,
    /// The version of the configuration.
    pub version: Option<String>,
    /// The kernel configuration
    pub kernel: KernelConfig,
    /// The bootloader configuration
    pub loader: LoaderConfig,
    /// The virtual memory mode to use
    pub memory_mode: MemoryMode,
    /// A hash of the configuration file that was used for this build
    pub buildhash: u64,
    /// The path to the configuration file that was used for this build
    pub config_path: String,
    /// The default Rust target to build for
    pub target: Target,
}

/// The hash of a configuration file with the given text: that of the
/// default hasher after one write of the bytes of the text.
pub open spec fn build_hash(text: Seq<char>) -> u64 {
    DefaultHasher::spec_finish(seq![vstd::utf8::encode_utf8(text)])
}

/// Hashes the text of a configuration file.
pub fn hash_contents(contents: &str) -> (hash: u64)
    ensures
        hash == build_hash(contents@),
{
    let mut hasher = DefaultHasher::new();
    hasher.write(contents.as_bytes());
    assert(hasher@ =~= seq![vstd::utf8::encode_utf8(contents@)]);
    hasher.finish()
}

impl Config {
    /// The configuration of a build from the file at `path`, whose text is
    /// `contents` and holds `raw`. Everything is taken over from the file;
    /// the hash of its text and its path are recorded beside it.
    pub fn from_file(path: &str, contents: &str, raw: RawConfig) -> (config: Self)
        ensures
            config.name == raw.name,
            config.version == raw.version,
            config.kernel == raw.kernel,
            config.loader == raw.bootloader,
            config.memory_mode == raw.memory_mode,
            config.target == raw.target,
            config.buildhash == build_hash(contents@),
            config.config_path@ == path@,
    {
        Self {
            name: raw.name,
            version: raw.version,
            memory_mode: raw.memory_mode,
            kernel: raw.kernel,
            loader: raw.bootloader,
            buildhash: hash_contents(contents),
            config_path: path.to_owned(),
            target: raw.target,
        }
    }
}

} // verus!
