use vstd::prelude::*;
use vstd::string::*;

verus! {

/// The TOML table type, held opaquely.
#[verifier::external_type_specification]
#[verifier::external_body]
#[verifier::reject_recursive_types(K)]
#[verifier::reject_recursive_types(V)]
pub struct ExTomlMap<K, V>(toml::map::Map<K, V>);

/// A TOML value, held opaquely.
#[verifier::external_type_specification]
#[verifier::external_body]
pub struct ExTomlValue(toml::Value);

/// The string-valued entries of a TOML table.
pub uninterp spec fn table_strings(t: toml::map::Map<String, toml::Value>) -> Map<Seq<char>, Seq<char>>;

/// The string-valued entries of the document that TOML parsing reads from
/// `text`, or `None` where the text is not a TOML document.
pub uninterp spec fn toml_document(text: Seq<char>) -> Option<Map<Seq<char>, Seq<char>>>;

/// The TOML text that serialising a table of the single string entry
/// `key = value` produces.
pub uninterp spec fn toml_entry_text(key: Seq<char>, value: Seq<char>) -> Seq<char>;

/// Relies on `toml::from_str` into a `toml::Table`: the parse depends on the
/// text alone; the error is turned into its message.
#[verifier::external_body]
fn parse_table(text: &str) -> (r: Result<toml::map::Map<String, toml::Value>, String>)
    ensures
        r is Ok <==> toml_document(text@) is Some,
        r is Ok ==> toml_document(text@) == Some(table_strings(r->Ok_0)),
{
    toml::from_str::<toml::Table>(text).map_err(|e| e.to_string())
}

/// Relies on `toml::map::Map::get`: the value stored under `key`, kept only
/// where it is a TOML string.
#[verifier::external_body]
fn table_string(t: &toml::map::Map<String, toml::Value>, key: &str) -> (r: Option<String>)
    ensures
        r is Some <==> table_strings(*t).contains_key(key@),
        r is Some ==> r->Some_0@ == table_strings(*t)[key@],
{
    match t.get(key) {
        Some(toml::Value::String(s)) => Some(s.clone()),
        _ => None,
    }
}

/// Relies on `toml::to_string` on a table that holds the one string entry
/// `key = value`: a table of string entries has no failing step in the
/// serialiser, so the result is always there.
#[verifier::external_body]
fn render_entry(key: &str, value: &str) -> (r: Option<String>)
    ensures
        r is Some,
        r->Some_0@ == toml_entry_text(key@, value@),
{
    let mut table = toml::Table::new();
    table.insert(key.to_string(), toml::Value::String(value.to_string()));
    toml::to_string(&table).ok()
}

/// The model chosen when no configuration has been saved yet.
pub const DEFAULT_MODEL: &'static str = "gemma2:2b";

/// The file name of the configuration inside the user's config directory.
pub const CONFIG_FILE_NAME: &'static str = "tell.toml";

/// The key under which the model name is stored.
pub const MODEL_KEY: &'static str = "model";

pub open spec fn default_model() -> Seq<char> {
    seq!['g', 'e', 'm', 'm', 'a', '2', ':', '2', 'b']
}

pub open spec fn model_key() -> Seq<char> {
    seq!['m', 'o', 'd', 'e', 'l']
}

/// The persisted settings: the name of the model that prompts are sent to.
pub struct Config {
    pub model: String,
}

/// Why a configuration text could not be read or written.
#[derive(Debug)]
pub enum ConfigError {
    /// The text is not a TOML document; the parser's message.
    Syntax(String),
    /// The document has no string entry `model`.
    MissingModel,
}

/// What loading yields: the configuration, and the text to write back when
/// none was stored before.
pub struct Loaded {
    pub config: Config,
    pub write_back: Option<String>,
}

/// The text that saving a configuration with model `m` writes.
pub open spec fn config_text(m: Seq<char>) -> Seq<char> {
    toml_entry_text(model_key(), m)
}

/// The model that a configuration text names, if it parses and names one.
pub open spec fn model_in(text: Seq<char>) -> Option<Seq<char>> {
    match toml_document(text) {
        Some(entries) => if entries.contains_key(model_key()) {
            Some(entries[model_key()])
        } else {
            None
        },
        None => None,
    }
}

impl Config {
    /// The configuration used before any has been saved.
    pub fn default_config() -> (r: Config)
        ensures
            r.model@ == default_model(),
    {
        proof {
            reveal_strlit("gemma2:2b");
        }
        Config { model: String::from_str(DEFAULT_MODEL) }
    }

    /// The configuration that a TOML text describes.
    pub fn decode(text: &str) -> (r: Result<Config, ConfigError>)
        ensures
            toml_document(text@) is None <==> r matches Err(ConfigError::Syntax(_)),
            r matches Err(ConfigError::MissingModel) <==> (toml_document(text@) is Some
                && model_in(text@) is None),
            r is Ok <==> model_in(text@) is Some,
            r is Ok ==> model_in(text@) == Some(r->Ok_0.model@),
    {
        match parse_table(text) {
            Err(message) => Err(ConfigError::Syntax(message)),
            Ok(table) => {
                let key = MODEL_KEY;
                proof {
                    reveal_strlit("model");
                    assert(key@ == model_key());
                }
                match table_string(&table, key) {
                    Some(model) => Ok(Config { model }),
                    None => Err(ConfigError::MissingModel),
                }
            },
        }
    }

    /// Makes `model` the chosen model, whatever was chosen before.
    pub fn switch_model(&mut self, model: String)
        ensures
            final(self).model@ == switched(old(self).model@, model@),
    {
        self.model = model;
    }
}

/// The model chosen after switching from `current` to `next`.
pub open spec fn switched(current: Seq<char>, next: Seq<char>) -> Seq<char> {
    next
}

/// The TOML text that stores `config`, to be written over the config file.
pub fn save_config(config: &Config) -> (r: String)
    ensures
        r@ == config_text(config.model@),
{
    let key = MODEL_KEY;
    proof {
        reveal_strlit("model");
        assert(key@ == model_key());
    }
    render_entry(key, config.model.as_str()).unwrap()
}

/// Loads the configuration from the config file's text, `None` when there is
/// no file yet: then the default is chosen and its text is to be written.
pub fn load_config(stored: Option<String>) -> (r: Result<Loaded, ConfigError>)
    ensures
        stored is None ==> (r is Ok && r->Ok_0.config.model@ == default_model()
            && r->Ok_0.write_back is Some
            && r->Ok_0.write_back->Some_0@ == config_text(default_model())),
        stored is Some ==> (r is Ok <==> model_in(stored->Some_0@) is Some),
        stored is Some ==> (r is Ok ==> model_in(stored->Some_0@) == Some(r->Ok_0.config.model@)
            && r->Ok_0.write_back is None),
        stored is Some ==> (r matches Err(ConfigError::Syntax(_)) <==> toml_document(
            stored->Some_0@,
        ) is None),
        stored is Some ==> (r matches Err(ConfigError::MissingModel) <==> (toml_document(
            stored->Some_0@,
        ) is Some && model_in(stored->Some_0@) is None)),
{
    match stored {
        None => {
            let config = Config::default_config();
            let text = save_config(&config);
            Ok(Loaded { config, write_back: Some(text) })
        },
        Some(text) => match Config::decode(text.as_str()) {
            Ok(config) => Ok(Loaded { config, write_back: None }),
            Err(e) => Err(e),
        },
    }
}

/// Switching twice leaves the second choice: the first one is overwritten,
/// not merged, so saving afterwards writes the text of the last model alone.
pub proof fn switch_last_write_wins(current: Seq<char>, first: Seq<char>, second: Seq<char>)
    ensures
        switched(switched(current, first), second) == second,
        config_text(switched(switched(current, first), second)) == config_text(second),
{
}

/// Saving and then loading gives back the saved model, unchanged and with
/// nothing to write back, wherever the TOML text that saving writes reads
/// back as the one entry it was made from.
pub proof fn load_reads_back_saved(model: Seq<char>)
    requires
        toml_document(config_text(model)) == Some(map![model_key() => model]),
    ensures
        model_in(config_text(model)) == Some(model),
{
}

} // verus!
