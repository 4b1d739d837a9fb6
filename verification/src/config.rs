//! The settings a webview is built from.

use vstd::prelude::*;
use vstd::string::*;

verus! {

/// The settings of one webview. `H` is whatever the host keeps a script
/// function by.
pub struct LuaWebViewConfig<H> {
    pub init_script: Option<String>,
    pub url: String,
    pub custom_protocol_name: Option<String>,
    pub custom_protocol_handler: Option<H>,
}

/// A script value as far as the settings are read from it. Of a table the
/// host hands over each field that holds a value of the right type; of
/// anything else, the name of its type.
pub enum ConfigValue<H> {
    Table {
        init_script: Option<String>,
        url: Option<String>,
        custom_protocol_name: Option<String>,
        custom_protocol_handler: Option<H>,
    },
    Other { kind_name: String },
}

/// A value that is no table was given where settings were expected.
#[derive(Debug)]
pub struct ConversionError {
    pub from: String,
    pub to: String,
    pub message: Option<String>,
}

impl<H> LuaWebViewConfig<H> {
    /// Whether `value` can be read as settings without a fault: a table
    /// has to name its `url`.
    pub open spec fn readable(value: ConfigValue<H>) -> bool {
        value matches ConfigValue::Table { url, .. } ==> url is Some
    }

    /// Reads the settings from a script value. Only a table holds
    /// settings; anything else is refused with the name of its type.
    pub fn from_lua(value: ConfigValue<H>) -> (config: Result<LuaWebViewConfig<H>, ConversionError>)
        requires
            Self::readable(value),
        ensures
            match value {
                ConfigValue::Table {
                    init_script,
                    url,
                    custom_protocol_name,
                    custom_protocol_handler,
                } => config == Ok::<LuaWebViewConfig<H>, ConversionError>(
                    LuaWebViewConfig {
                        init_script,
                        url: url->0,
                        custom_protocol_name,
                        custom_protocol_handler,
                    },
                ),
                ConfigValue::Other { kind_name } => config matches Err(error) && error.from == kind_name
                    && error.to@ == "table"@ && error.message is None,
            },
    {
        match value {
            ConfigValue::Table { init_script, url, custom_protocol_name, custom_protocol_handler } => Ok(
                LuaWebViewConfig {
                    init_script,
                    url: url.unwrap(),
                    custom_protocol_name,
                    custom_protocol_handler,
                },
            ),
            ConfigValue::Other { kind_name } => Err(
                ConversionError { from: kind_name, to: String::from_str("table"), message: None },
            ),
        }
    }
}

} // verus!
