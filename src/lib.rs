//! Translation of a parsed logging configuration document into a validated
//! description of appenders, the root logger and per-namespace loggers.
pub mod value;
pub mod level;
pub mod creator;
pub mod config;
pub mod raw;
pub mod translate;

pub use value::{Value, Table};
pub use level::LevelFilter;
pub use creator::{Appender, CreationError, CreateAppender, Creator, BuiltinCreator, FileAppenderCreator, ConsoleAppenderCreator};
pub use config::{Config, ConfigError, Root, Logger};
pub use raw::{RawConfig, RawRoot, RawLogger, RawAppender, extract};
pub use translate::{TomlConfig, Error, parse, translate};
