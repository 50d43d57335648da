//! The settings that the program keeps between runs.

use crate::text::glue;
use vstd::prelude::*;

verus! {

/// The file beside the running program that holds the settings.
pub const CONFIG_FILE: &'static str = "upx_gui_config.json";

/// The settings.
#[derive(Clone, Copy, Debug, PartialEq, Eq, Structural)]
pub struct AppConfig {
    pub compression_level: i32,
    pub overwrite: bool,
    pub backup: bool,
    pub ultra_brute: bool,
    pub include_subfolders: bool,
    pub force_compress: bool,
}

/// The settings of a program that has none stored.
pub open spec fn default_config() -> AppConfig {
    AppConfig {
        compression_level: 9,
        overwrite: true,
        backup: false,
        ultra_brute: false,
        include_subfolders: false,
        force_compress: false,
    }
}

impl Default for AppConfig {
    fn default() -> (config: AppConfig)
        ensures
            config == default_config(),
    {
        AppConfig {
            compression_level: 9,
            overwrite: true,
            backup: false,
            ultra_brute: false,
            include_subfolders: false,
            force_compress: false,
        }
    }
}

/// How reading the stored settings ended.
#[derive(Debug, PartialEq, Eq)]
pub enum StoredConfig {
    /// The place of the file could not be told.
    NoPath,
    /// There is no file.
    Missing,
    /// The file could not be read; the cause.
    Unreadable(String),
    /// The file does not hold settings; the cause.
    Malformed(String),
    /// The settings that the file holds.
    Parsed(AppConfig),
}

/// How storing the settings ended.
#[derive(Debug, PartialEq, Eq)]
pub enum SavedConfig {
    /// The place of the file could not be told.
    NoPath,
    /// The settings could not be written down; the cause.
    NotSerialized(String),
    /// The file could not be written; the cause.
    NotWritten(String),
    /// The file holds the settings.
    Written,
}

/// The settings to run with: the stored ones, the defaults where there is no
/// file; a file that cannot be read or understood is a failure.
pub open spec fn loaded(stored: StoredConfig) -> Result<AppConfig, Seq<char>> {
    match stored {
        StoredConfig::NoPath => Err("无法获取配置文件路径"@),
        StoredConfig::Missing => Ok(default_config()),
        StoredConfig::Unreadable(cause) => Err("读取配置文件失败: "@ + cause@),
        StoredConfig::Malformed(cause) => Err("解析配置文件失败: "@ + cause@),
        StoredConfig::Parsed(config) => Ok(config),
    }
}

/// What storing the settings came to.
pub open spec fn saved(outcome: SavedConfig) -> Result<(), Seq<char>> {
    match outcome {
        SavedConfig::NoPath => Err("无法获取配置文件路径"@),
        SavedConfig::NotSerialized(cause) => Err("序列化配置失败: "@ + cause@),
        SavedConfig::NotWritten(cause) => Err("保存配置文件失败: "@ + cause@),
        SavedConfig::Written => Ok(()),
    }
}

/// The settings to run with, from how reading the stored ones ended.
pub fn load_config(stored: &StoredConfig) -> (result: Result<AppConfig, String>)
    ensures
        match result {
            Ok(config) => loaded(*stored) == Ok::<AppConfig, Seq<char>>(config),
            Err(why) => loaded(*stored) == Err::<AppConfig, Seq<char>>(why@),
        },
{
    match stored {
        StoredConfig::NoPath => Err(String::from_str("无法获取配置文件路径")),
        StoredConfig::Missing => Ok(AppConfig::default()),
        StoredConfig::Unreadable(cause) => Err(glue("读取配置文件失败: ", cause.as_str())),
        StoredConfig::Malformed(cause) => Err(glue("解析配置文件失败: ", cause.as_str())),
        StoredConfig::Parsed(config) => Ok(*config),
    }
}

/// What storing the settings came to, from how it ended.
pub fn save_config(outcome: &SavedConfig) -> (result: Result<(), String>)
    ensures
        match result {
            Ok(_) => saved(*outcome) == Ok::<(), Seq<char>>(()),
            Err(why) => saved(*outcome) == Err::<(), Seq<char>>(why@),
        },
{
    match outcome {
        SavedConfig::NoPath => Err(String::from_str("无法获取配置文件路径")),
        SavedConfig::NotSerialized(cause) => Err(glue("序列化配置失败: ", cause.as_str())),
        SavedConfig::NotWritten(cause) => Err(glue("保存配置文件失败: ", cause.as_str())),
        SavedConfig::Written => Ok(()),
    }
}

} // verus!
