use esp_hal::generate::{
    apply_assignments, capture_from_env, create_config, emit_configuration, generate_config_internal, joined,
    parse_integer, screaming_snake_case, snake_case, starts_with, CargoLine, ConfigOption, ConfigProblem, Error, Value,
};

fn options() -> Vec<ConfigOption> {
    vec![
        ConfigOption::new("place-spi-driver-in-ram", "Places the SPI driver in RAM", Value::Bool(true)),
        ConfigOption::new("stack-size", "The stack size", Value::Integer(4096)),
        ConfigOption::new("hidden", "Not offered", Value::Bool(false)).active(false),
    ]
}

fn env(pairs: &[(&str, &str)]) -> Vec<(String, String)> {
    pairs.iter().map(|(k, v)| (k.to_string(), v.to_string())).collect()
}

#[test]
fn snake_case_lowers_and_replaces_dashes() {
    assert_eq!(snake_case("Place-SPI-Driver"), "place_spi_driver");
    assert_eq!(snake_case(""), "");
    assert_eq!(snake_case("already_snake"), "already_snake");
}

#[test]
fn screaming_snake_case_uppers_and_replaces_dashes() {
    assert_eq!(screaming_snake_case("esp-hal"), "ESP_HAL");
    assert_eq!(screaming_snake_case("Stack-size2"), "STACK_SIZE2");
}

#[test]
fn case_conversion_is_idempotent() {
    let once = screaming_snake_case("esp-hal-embassy");
    assert_eq!(screaming_snake_case(&once), once);
    let once = snake_case("ESP-HAL-Embassy");
    assert_eq!(snake_case(&once), once);
}

#[test]
fn concat_and_starts_with() {
    assert_eq!(joined("ESP_HAL", "_CONFIG_"), "ESP_HAL_CONFIG_");
    assert!(starts_with("ESP_HAL_CONFIG_X", "ESP_HAL_CONFIG_"));
    assert!(!starts_with("ESP_HAL", "ESP_HAL_CONFIG_"));
    assert!(starts_with("anything", ""));
}

#[test]
fn option_names() {
    let option = ConfigOption::new("place-spi-driver-in-ram", "d", Value::Bool(false));
    assert!(option.active);
    assert_eq!(option.env_var("ESP_HAL_CONFIG_"), "ESP_HAL_CONFIG_PLACE_SPI_DRIVER_IN_RAM");
    assert_eq!(option.cfg_name(), "place_spi_driver_in_ram");
    assert!(!option.active(false).active);
}

#[test]
fn parse_error_keeps_its_message() {
    let Error::Parse(message) = Error::parse("bad value".to_string());
    assert_eq!(message, "bad value");
}

#[test]
fn an_error_displays_its_message() {
    assert_eq!(Error::parse("bad value".to_string()).message(), "bad value");
    assert_eq!(Error::parse(String::new()).message(), "");
}

#[test]
fn create_config_uses_defaults() {
    let configs = create_config("ESP_HAL_CONFIG_", &options());
    assert_eq!(configs.len(), 3);
    assert_eq!(configs[0].0, "ESP_HAL_CONFIG_PLACE_SPI_DRIVER_IN_RAM");
    assert_eq!(configs[1].0, "ESP_HAL_CONFIG_STACK_SIZE");
    assert_eq!(configs[2].0, "ESP_HAL_CONFIG_HIDDEN");
    assert_eq!(configs[1].1, 1);
    assert!(matches!(configs[0].2, Value::Bool(true)));
    assert!(matches!(configs[1].2, Value::Integer(4096)));
}

#[test]
fn capture_sorts_known_and_unknown_variables() {
    let opts = options();
    let configs = create_config("ESP_HAL_CONFIG_", &opts);
    let env = env(&[
        ("PATH", "/usr/bin"),
        ("ESP_HAL_CONFIG_STACK_SIZE", "0x2000"),
        ("ESP_HAL_CONFIG_TYPO", "1"),
        ("ESP_HAL_CONFIG_HIDDEN", "true"),
        ("ESP_HAL_CONFIG_PLACE_SPI_DRIVER_IN_RAM", "false"),
    ]);
    let (assigned, unknown) = capture_from_env("ESP_HAL_CONFIG_", &configs, &opts, &env);
    assert_eq!(assigned, vec![(1, "0x2000".to_string()), (0, "false".to_string())]);
    assert_eq!(unknown, vec!["ESP_HAL_CONFIG_TYPO".to_string(), "ESP_HAL_CONFIG_HIDDEN".to_string()]);
}

#[test]
fn capture_with_empty_environment() {
    let opts = options();
    let configs = create_config("ESP_HAL_CONFIG_", &opts);
    let (assigned, unknown) = capture_from_env("ESP_HAL_CONFIG_", &configs, &opts, &Vec::new());
    assert!(assigned.is_empty());
    assert!(unknown.is_empty());
}

#[test]
fn emit_configuration_lines() {
    let opts = options();
    let configs = create_config("ESP_HAL_CONFIG_", &opts);
    let lines = emit_configuration(&configs, &opts);
    assert_eq!(lines.len(), 11);
    assert!(matches!(&lines[0], CargoLine::RerunIfBuildScriptChanged));
    assert!(matches!(&lines[1], CargoLine::RustcEnv { var, config: 0 } if var == "ESP_HAL_CONFIG_PLACE_SPI_DRIVER_IN_RAM"));
    assert!(matches!(&lines[2], CargoLine::RerunIfEnvChanged(v) if v == "ESP_HAL_CONFIG_PLACE_SPI_DRIVER_IN_RAM"));
    assert!(matches!(&lines[3], CargoLine::CheckCfg(n) if n == "place_spi_driver_in_ram"));
    assert!(matches!(&lines[4], CargoLine::Cfg(n) if n == "place_spi_driver_in_ram"));
    assert!(matches!(&lines[5], CargoLine::RustcEnv { config: 1, .. }));
    assert!(matches!(&lines[7], CargoLine::CheckCfg(n) if n == "stack_size"));
    assert!(matches!(&lines[8], CargoLine::RustcEnv { config: 2, .. }));
    assert!(matches!(&lines[10], CargoLine::CheckCfg(n) if n == "hidden"));
}

#[test]
fn generate_config_internal_uses_crate_prefix() {
    let opts = options();
    let env = env(&[("ESP_HAL_CONFIG_STACK_SIZE", "100"), ("ESP_HAL_CONFIG_NOPE", "x"), ("ESP_WIFI_CONFIG_X", "1")]);
    let generated = generate_config_internal("esp-hal", &opts, &env);
    assert_eq!(generated.configs[1].0, "ESP_HAL_CONFIG_STACK_SIZE");
    assert_eq!(generated.assignments, vec![(1, "100".to_string())]);
    assert_eq!(generated.unknown, vec!["ESP_HAL_CONFIG_NOPE".to_string()]);
    assert!(matches!(generated.configs[1].2, Value::Integer(100)));
    assert!(matches!(&generated.problem, Some(ConfigProblem::Unknown(u)) if u == &generated.unknown));
    assert_eq!(generated.lines.len(), 1);
    assert!(matches!(&generated.lines[0], CargoLine::RerunIfBuildScriptChanged));
}

#[test]
fn generate_config_internal_announces_a_clean_configuration() {
    let cfg = vec![ConfigOption::new("foo-bar", "d", Value::Bool(true))];
    let generated = generate_config_internal("esp-hal", &cfg, &Vec::new());
    assert!(generated.problem.is_none());
    assert_eq!(generated.lines.len(), 5);
    assert!(matches!(&generated.lines[0], CargoLine::RerunIfBuildScriptChanged));
    assert!(matches!(&generated.lines[1], CargoLine::RustcEnv { var, config: 0 } if var == "ESP_HAL_CONFIG_FOO_BAR"));
    assert!(matches!(&generated.lines[2], CargoLine::RerunIfEnvChanged(v) if v == "ESP_HAL_CONFIG_FOO_BAR"));
    assert!(matches!(&generated.lines[3], CargoLine::CheckCfg(n) if n == "foo_bar"));
    assert!(matches!(&generated.lines[4], CargoLine::Cfg(n) if n == "foo_bar"));
}

#[test]
fn invalid_values_are_refused_before_unknown_variables() {
    let opts = options();
    let env = env(&[
        ("ESP_HAL_CONFIG_STACK_SIZE", "lots"),
        ("ESP_HAL_CONFIG_PLACE_SPI_DRIVER_IN_RAM", "false"),
        ("ESP_HAL_CONFIG_NOPE", "x"),
    ]);
    let generated = generate_config_internal("esp-hal", &opts, &env);
    match &generated.problem {
        Some(ConfigProblem::Invalid(failed)) => assert_eq!(
            failed,
            &vec!["ESP_HAL_CONFIG_STACK_SIZE: Expected valid integer value, found: 'lots'".to_string()]
        ),
        _ => panic!("the stack size does not parse"),
    }
    assert!(matches!(generated.configs[0].2, Value::Bool(false)));
    assert!(matches!(generated.configs[1].2, Value::Integer(4096)));
    assert_eq!(generated.lines.len(), 1);
}

#[test]
fn integers_parse_in_decimal_and_hexadecimal() {
    assert_eq!(parse_integer("42"), Some(42));
    assert_eq!(parse_integer("-42"), Some(-42));
    assert_eq!(parse_integer("+7"), Some(7));
    assert_eq!(parse_integer("0x1F"), Some(31));
    assert_eq!(parse_integer("0xff"), Some(255));
    assert_eq!(parse_integer("0x-10"), Some(-16));
    assert_eq!(parse_integer("170141183460469231731687303715884105727"), Some(i128::MAX));
    assert_eq!(parse_integer("-170141183460469231731687303715884105728"), Some(i128::MIN));
    assert_eq!(parse_integer("170141183460469231731687303715884105728"), None);
    assert_eq!(parse_integer("99999999999999999999999999999999999999999"), None);
    assert_eq!(parse_integer(""), None);
    assert_eq!(parse_integer("-"), None);
    assert_eq!(parse_integer("0x"), None);
    assert_eq!(parse_integer("12a"), None);
    assert_eq!(parse_integer("ff"), None);
}

#[test]
fn values_parse_by_their_kind() {
    let mut b = Value::Bool(false);
    assert!(b.parse_in_place("true").is_ok());
    assert!(matches!(b, Value::Bool(true)));
    let Err(Error::Parse(m)) = b.parse_in_place("yes") else { panic!("not a flag") };
    assert_eq!(m, "Expected 'true' or 'false', found: 'yes'");
    assert!(matches!(b, Value::Bool(true)));
    let mut t = Value::String("a".to_string());
    assert!(t.parse_in_place("anything").is_ok());
    assert!(matches!(&t, Value::String(s) if s == "anything"));
}

#[test]
fn assignments_update_the_values() {
    let opts = options();
    let mut configs = create_config("P_", &opts);
    let asg = vec![(1, "0x10".to_string()), (0, "maybe".to_string()), (9, "x".to_string())];
    let r = apply_assignments(&mut configs, &asg);
    assert_eq!(r, Err(vec!["P_PLACE_SPI_DRIVER_IN_RAM: Expected 'true' or 'false', found: 'maybe'".to_string()]));
    assert!(matches!(configs[1].2, Value::Integer(16)));
    assert!(matches!(configs[0].2, Value::Bool(true)));
    assert_eq!(apply_assignments(&mut configs, &vec![(1, "3".to_string())]), Ok(()));
    assert!(matches!(configs[1].2, Value::Integer(3)));
}

