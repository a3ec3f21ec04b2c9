use tell::config::{load_config, save_config, Config, ConfigError, CONFIG_FILE_NAME, DEFAULT_MODEL};

fn config_of(model: &str) -> Config {
    Config { model: model.to_string() }
}

#[test]
fn default_config_names_gemma() {
    assert_eq!(Config::default_config().model, "gemma2:2b");
    assert_eq!(DEFAULT_MODEL, "gemma2:2b");
    assert_eq!(CONFIG_FILE_NAME, "tell.toml");
}

#[test]
fn load_without_file_creates_default_that_reads_back() {
    let loaded = load_config(None).unwrap();
    assert_eq!(loaded.config.model, "gemma2:2b");
    let text = loaded.write_back.expect("a default is written when no file exists");
    let again = load_config(Some(text)).unwrap();
    assert_eq!(again.config.model, "gemma2:2b");
    assert!(again.write_back.is_none());
}

#[test]
fn save_writes_model_entry() {
    let text = save_config(&config_of("gemma2:2b"));
    assert_eq!(text, "model = \"gemma2:2b\"\n");
}

#[test]
fn save_then_load_gives_same_model() {
    let models = [
        "llama3",
        "gemma2:2b",
        "",
        "with space",
        "quote\"inside",
        "back\\slash",
        "line\nbreak",
        "tab\there",
        "apostrophe's",
        "ünïcödé-模型",
    ];
    for m in models {
        let text = save_config(&config_of(m));
        let loaded = load_config(Some(text)).unwrap();
        assert_eq!(loaded.config.model, m);
        assert!(loaded.write_back.is_none());
    }
}

#[test]
fn decode_reads_model_and_ignores_other_keys() {
    let c = Config::decode("other = 3\nmodel = 'mistral'\n").unwrap();
    assert_eq!(c.model, "mistral");
}

#[test]
fn decode_rejects_malformed_text() {
    assert!(matches!(Config::decode("model = "), Err(ConfigError::Syntax(_))));
    assert!(matches!(Config::decode("model = \"a\"\nmodel = \"b\"\n"), Err(ConfigError::Syntax(_))));
    assert!(matches!(load_config(Some("[[[".to_string())), Err(ConfigError::Syntax(_))));
}

#[test]
fn decode_requires_string_model() {
    assert!(matches!(Config::decode(""), Err(ConfigError::MissingModel)));
    assert!(matches!(Config::decode("name = \"x\"\n"), Err(ConfigError::MissingModel)));
    assert!(matches!(Config::decode("model = 5\n"), Err(ConfigError::MissingModel)));
}

#[test]
fn switching_twice_keeps_last_model() {
    let mut config = load_config(None).unwrap().config;
    config.switch_model("foo".to_string());
    let first = save_config(&config);
    let mut config = load_config(Some(first)).unwrap().config;
    assert_eq!(config.model, "foo");
    config.switch_model("bar".to_string());
    let second = save_config(&config);
    assert_eq!(second, "model = \"bar\"\n");
    let config = load_config(Some(second)).unwrap().config;
    assert_eq!(config.model, "bar");
}

#[test]
fn saving_twice_gives_equal_text() {
    let config = config_of("llama3");
    assert_eq!(save_config(&config), save_config(&config));
}

#[test]
fn unknown_model_name_saved_verbatim() {
    let text = save_config(&config_of("no-such-model"));
    assert_eq!(text, "model = \"no-such-model\"\n");
    let loaded = load_config(Some(text)).unwrap();
    assert_eq!(loaded.config.model, "no-such-model");
}
