use std::collections::hash_map::DefaultHasher;
use std::hash::Hasher;
use vmm::config::{
    bootloader_default_stack_size_pages, hash_contents, kernel_default_stack_size_pages, Config,
    KernelConfig, LoaderConfig, LogLevel, RawConfig,
};
use vmm::mode::MemoryMode;
use vmm::target::Target;

#[test]
fn default_stack_sizes() {
    assert_eq!(kernel_default_stack_size_pages(), 16);
    assert_eq!(bootloader_default_stack_size_pages(), 4);
}

#[test]
fn default_log_level_is_info() {
    assert_eq!(LogLevel::default(), LogLevel::Info);
}

#[test]
fn log_levels_are_numbered_from_one() {
    assert_eq!(LogLevel::Error.as_usize(), 1);
    assert_eq!(LogLevel::Warn.as_usize(), 2);
    assert_eq!(LogLevel::Info.as_usize(), 3);
    assert_eq!(LogLevel::Debug.as_usize(), 4);
    assert_eq!(LogLevel::Trace.as_usize(), 5);
}

#[test]
fn level_allows_what_is_no_more_verbose() {
    assert!(LogLevel::Info.allows(LogLevel::Error));
    assert!(LogLevel::Info.allows(LogLevel::Info));
    assert!(!LogLevel::Info.allows(LogLevel::Debug));
    assert!(LogLevel::Trace.allows(LogLevel::Trace));
    assert!(!LogLevel::Error.allows(LogLevel::Warn));
}

fn reference_hash(text: &str) -> u64 {
    let mut hasher = DefaultHasher::default();
    hasher.write(text.as_bytes());
    hasher.finish()
}

#[test]
fn hash_is_that_of_the_default_hasher() {
    for text in ["", "name = \"k23\"\n", "ä", "a much longer text\nwith lines\n"] {
        assert_eq!(hash_contents(text), reference_hash(text));
    }
    assert_ne!(hash_contents("a"), hash_contents("b"));
}

fn raw() -> RawConfig {
    RawConfig {
        name: String::from("qemu"),
        version: Some(String::from("0.1.0")),
        kernel: KernelConfig {
            stack_size_pages: kernel_default_stack_size_pages(),
            features: vec![String::from("smp")],
            log_level: LogLevel::Debug,
            uart_baud_rate: 38400,
            target: None,
        },
        bootloader: LoaderConfig {
            stack_size_pages: 8,
            features: Vec::new(),
            log_level: LogLevel::default(),
            target: Some(Target::Path(String::from("loader.json"))),
        },
        memory_mode: MemoryMode::Riscv64Sv48,
        target: Target::from_str("riscv64gc-unknown-none-elf").unwrap(),
    }
}

#[test]
fn config_takes_over_what_the_file_holds() {
    let text = "name = \"qemu\"\n";
    let config = Config::from_file("configs/qemu.toml", text, raw());
    assert_eq!(config.name, "qemu");
    assert_eq!(config.version, Some(String::from("0.1.0")));
    assert_eq!(config.kernel.stack_size_pages, 16);
    assert_eq!(config.kernel.features, vec![String::from("smp")]);
    assert_eq!(config.kernel.log_level, LogLevel::Debug);
    assert_eq!(config.kernel.uart_baud_rate, 38400);
    assert!(config.kernel.target.is_none());
    assert_eq!(config.loader.stack_size_pages, 8);
    assert!(config.loader.features.is_empty());
    assert_eq!(config.loader.log_level, LogLevel::Info);
    assert_eq!(config.loader.target.as_ref().unwrap().to_string(), "loader.json");
    assert_eq!(config.memory_mode, MemoryMode::Riscv64Sv48);
    assert_eq!(config.memory_mode.levels(), 4);
    assert_eq!(config.target.to_string(), "riscv64gc-unknown-none-elf");
    assert_eq!(config.config_path, "configs/qemu.toml");
    assert_eq!(config.buildhash, reference_hash(text));
}

#[test]
fn config_hash_follows_the_text_of_the_file() {
    let one = Config::from_file("a.toml", "one", raw());
    let two = Config::from_file("a.toml", "two", raw());
    let again = Config::from_file("b.toml", "one", raw());
    assert_ne!(one.buildhash, two.buildhash);
    assert_eq!(one.buildhash, again.buildhash);
    assert_eq!(again.config_path, "b.toml");
}
