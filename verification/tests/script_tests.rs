use event_bridge::config::{ConfigValue, LuaWebViewConfig};
use event_bridge::script::LuaWebViewScript;

#[test]
fn a_new_script_is_empty() {
    assert_eq!(&*LuaWebViewScript::new().read(), "");
}

#[test]
fn write_closes_each_statement_with_a_semicolon() {
    let mut script = LuaWebViewScript::new();
    script.write("let a = 1");
    assert_eq!(&*script.read(), "let a = 1;");
}

#[test]
fn statements_follow_each_other_in_order() {
    let mut script = LuaWebViewScript::new();
    script.write("a()");
    script.write("b()");
    script.write("");
    assert_eq!(&*script.read(), "a();b();;");
}

#[test]
fn extract_from_option_appends_what_is_there() {
    let mut script = LuaWebViewScript::new();
    script.extract_from_option(Some("init()".to_string()));
    assert_eq!(&*script.read(), "init();");
}

#[test]
fn extract_from_option_appends_an_empty_statement_for_nothing() {
    let mut script = LuaWebViewScript::new();
    script.write("a()");
    script.extract_from_option(None);
    script.extract_from_option(Some("b()".to_string()));
    assert_eq!(&*script.read(), "a();;b();");
}

#[test]
fn settings_are_read_from_a_table() {
    let value = ConfigValue::Table {
        init_script: Some("init()".to_string()),
        url: Some("https://example.org".to_string()),
        custom_protocol_name: None,
        custom_protocol_handler: Some(11u32),
    };
    let config = LuaWebViewConfig::from_lua(value).unwrap();
    assert_eq!(config.init_script, Some("init()".to_string()));
    assert_eq!(config.url, "https://example.org");
    assert_eq!(config.custom_protocol_name, None);
    assert_eq!(config.custom_protocol_handler, Some(11));
}

#[test]
fn settings_with_only_a_url() {
    let value: ConfigValue<u32> = ConfigValue::Table {
        init_script: None,
        url: Some("about:blank".to_string()),
        custom_protocol_name: Some("app".to_string()),
        custom_protocol_handler: None,
    };
    let config = LuaWebViewConfig::from_lua(value).unwrap();
    assert_eq!(config.init_script, None);
    assert_eq!(config.url, "about:blank");
    assert_eq!(config.custom_protocol_name, Some("app".to_string()));
    assert_eq!(config.custom_protocol_handler, None);
}

#[test]
fn a_value_that_is_no_table_is_refused() {
    let value: ConfigValue<u32> = ConfigValue::Other { kind_name: "number".to_string() };
    match LuaWebViewConfig::from_lua(value) {
        Ok(_) => panic!("a number holds no settings"),
        Err(error) => {
            assert_eq!(error.from, "number");
            assert_eq!(error.to, "table");
            assert_eq!(error.message, None);
        }
    }
}

#[test]
fn the_init_script_of_the_settings_goes_into_the_script() {
    let value: ConfigValue<u32> = ConfigValue::Table {
        init_script: Some("boot()".to_string()),
        url: Some("about:blank".to_string()),
        custom_protocol_name: None,
        custom_protocol_handler: None,
    };
    let config = LuaWebViewConfig::from_lua(value).unwrap();
    let mut script = LuaWebViewScript::new();
    script.write("first()");
    script.extract_from_option(config.init_script);
    assert_eq!(&*script.read(), "first();boot();");
}
