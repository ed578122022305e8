use vstd::prelude::*;

verus! {

/// Why the configuration could not be read or written.
#[derive(Debug, Clone, Copy, PartialEq, Eq, Structural)]
pub enum ConfigError {
    IoError,
    SerializeError,
}

/// How much the emulator logs.
#[allow(non_camel_case_types)]
#[derive(Debug, Clone, Copy, PartialEq, Eq, Structural)]
pub enum LoggingLevel {
    ERROR,
    INFO,
    DEBUG,
}

} // verus!
