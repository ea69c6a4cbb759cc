use vstd::prelude::*;
use crate::errors::AppError;

verus! {

/// The application's configuration, read once from `config.toml` at startup
/// and immutable afterward.
#[derive(Clone, Copy, Debug, PartialEq, Eq, Structural)]
pub struct AppConfig {
    /// The intents bitmask negotiated with the gateway at connect time.
    pub intents: u64,
    /// Configuration of the snapshot cache.
    pub cache: AppCacheConfig,
}

/// Configuration of the snapshot cache.
#[derive(Clone, Copy, Debug, PartialEq, Eq, Structural)]
pub struct AppCacheConfig {
    /// The number of messages stored per channel; zero when the
    /// configuration file leaves it out.
    pub message_cache_size: usize,
}

/// The configuration built from the two integer fields of the configuration
/// file. `intents` is required and must be non-negative;
/// `message_cache_size` is optional, must be non-negative and fit this
/// machine's `usize`, and defaults to zero when absent.
pub open spec fn spec_config_from_fields(intents: Option<i64>, cache_size: Option<i64>) -> Result<
    AppConfig,
    AppError,
> {
    match intents {
        Option::None => Err(AppError::ConfigMissingIntents),
        Option::Some(i) => if i < 0 {
            Err(AppError::ConfigIntentsOutOfRange)
        } else {
            match cache_size {
                Option::None => Ok(
                    (AppConfig { intents: i as u64, cache: AppCacheConfig { message_cache_size: 0 } }),
                ),
                Option::Some(s) => if s < 0 || (s as int) > (usize::MAX as int) {
                    Err(AppError::ConfigCacheSizeOutOfRange)
                } else {
                    Ok(
                        (AppConfig {
                            intents: i as u64,
                            cache: AppCacheConfig { message_cache_size: s as usize },
                        }),
                    )
                },
            }
        },
    }
}

/// Builds the configuration from the file's two integer fields, exactly as
/// `spec_config_from_fields` describes: success if and only if `intents` is
/// present and non-negative and the optional cache size, when present, is
/// non-negative and fits `usize`.
pub fn config_from_fields(intents: Option<i64>, cache_size: Option<i64>) -> (r: Result<
    AppConfig,
    AppError,
>)
    ensures
        r == spec_config_from_fields(intents, cache_size),
{
    match intents {
        Option::None => Err(AppError::ConfigMissingIntents),
        Option::Some(i) => {
            if i < 0 {
                Err(AppError::ConfigIntentsOutOfRange)
            } else {
                match cache_size {
                    Option::None => Ok(
                        AppConfig { intents: i as u64, cache: AppCacheConfig { message_cache_size: 0 } },
                    ),
                    Option::Some(s) => {
                        if s < 0 || (s as u128) > (usize::MAX as u128) {
                            Err(AppError::ConfigCacheSizeOutOfRange)
                        } else {
                            Ok(
                                AppConfig {
                                    intents: i as u64,
                                    cache: AppCacheConfig { message_cache_size: s as usize },
                                },
                            )
                        }
                    },
                }
            }
        },
    }
}

#[verifier::external_type_specification]
#[verifier::external_body]
#[verifier::reject_recursive_types(K)]
#[verifier::reject_recursive_types(V)]
pub struct ExTomlMap<K, V>(toml::map::Map<K, V>);

#[verifier::external_type_specification]
#[verifier::external_body]
pub struct ExTomlValue(toml::Value);

#[verifier::external_type_specification]
#[verifier::external_body]
pub struct ExTomlDeError(toml::de::Error);

/// The top-level table that parsing a text as a TOML document yields, when
/// parsing succeeds: a function of the text alone.
pub uninterp spec fn toml_doc(s: Seq<char>) -> Option<toml::Table>;

/// The value stored under a key of a TOML table, when one is: a function of
/// the table and the key alone.
pub uninterp spec fn table_entry(t: toml::Table, key: Seq<char>) -> Option<toml::Value>;

/// The integer a TOML value holds, when it holds one.
pub uninterp spec fn value_int(v: toml::Value) -> Option<i64>;

/// The table a TOML value holds, when it holds one.
pub uninterp spec fn value_table(v: toml::Value) -> Option<toml::Table>;

/// Relies on toml::from_str: parses the text as a TOML document and returns
/// its top-level table, or the syntax error that made it fail. The outcome
/// depends on the text alone, named `toml_doc`.
#[verifier::external_body]
fn parse_toml_table(content: &str) -> (r: Result<toml::Table, toml::de::Error>)
    ensures
        match r {
            Result::Ok(t) => toml_doc(content@) == Option::Some(t),
            Result::Err(_) => toml_doc(content@) is None,
        },
{
    toml::from_str::<toml::Table>(content)
}

/// Relies on toml::map::Map::get: looks a key up in a TOML table. The
/// outcome depends on the table and the key alone, named `table_entry`.
#[verifier::external_body]
fn table_get<'a>(table: &'a toml::Table, key: &str) -> (r: Option<&'a toml::Value>)
    ensures
        match r {
            Option::Some(v) => table_entry(*table, key@) == Option::Some(*v),
            Option::None => table_entry(*table, key@) is None,
        },
{
    table.get(key)
}

/// Relies on toml::Value::as_integer: the integer a TOML value holds, when
/// it holds one — a function of the value alone, named `value_int`.
#[verifier::external_body]
fn value_as_integer(value: &toml::Value) -> (r: Option<i64>)
    ensures
        r == value_int(*value),
{
    value.as_integer()
}

/// Relies on toml::Value::as_table: the table a TOML value holds, when it
/// holds one — a function of the value alone, named `value_table`.
#[verifier::external_body]
fn value_as_table(value: &toml::Value) -> (r: Option<&toml::Table>)
    ensures
        match r {
            Option::Some(t) => value_table(*value) == Option::Some(*t),
            Option::None => value_table(*value) is None,
        },
{
    value.as_table()
}

/// The document's `intents` field: the integer when it is one, `Some(None)`
/// when the key is absent, and `None` when the key holds a non-integer.
pub open spec fn spec_intents_field(doc: toml::Table) -> Option<Option<i64>> {
    match table_entry(doc, "intents"@) {
        Option::None => Option::Some(Option::None),
        Option::Some(v) => match value_int(v) {
            Option::Some(n) => Option::Some(Option::Some(n)),
            Option::None => Option::None,
        },
    }
}

/// The document's `cache.message_cache_size` field: the integer when the
/// `cache` table and the key are present, `Some(None)` when either is
/// absent, and `None` when `cache` is not a table or the key holds a
/// non-integer.
pub open spec fn spec_cache_size_field(doc: toml::Table) -> Option<Option<i64>> {
    match table_entry(doc, "cache"@) {
        Option::None => Option::Some(Option::None),
        Option::Some(v) => match value_table(v) {
            Option::None => Option::None,
            Option::Some(t) => match table_entry(t, "message_cache_size"@) {
                Option::None => Option::Some(Option::None),
                Option::Some(sv) => match value_int(sv) {
                    Option::Some(n) => Option::Some(Option::Some(n)),
                    Option::None => Option::None,
                },
            },
        },
    }
}

/// What parsing a configuration text yields, as a function of the text
/// alone: a document that does not parse, an `intents` key holding a
/// non-integer, a `cache` key holding a non-table, or a size key holding a
/// non-integer is a syntax error; otherwise the configuration is built from
/// the two fields by `spec_config_from_fields`.
pub open spec fn spec_get_config(content: Seq<char>) -> Result<AppConfig, AppError> {
    match toml_doc(content) {
        Option::None => Err(AppError::ConfigSyntax),
        Option::Some(doc) => match spec_intents_field(doc) {
            Option::None => Err(AppError::ConfigSyntax),
            Option::Some(intents) => match spec_cache_size_field(doc) {
                Option::None => Err(AppError::ConfigSyntax),
                Option::Some(size) => spec_config_from_fields(intents, size),
            },
        },
    }
}

/// Parses the contents of the configuration file. The result is exactly
/// `spec_get_config` of the text — in particular it depends on the text
/// alone.
///
/// A document that is not well-formed TOML, or whose `intents`, `cache` or
/// `cache.message_cache_size` field has the wrong type, is a syntax error.
/// Otherwise the configuration is built from the two integer fields exactly
/// as `spec_config_from_fields` describes: `intents` is required and must be
/// non-negative, and the cache size defaults to zero when left out.
pub fn get_config(content: &str) -> (r: Result<AppConfig, AppError>)
    ensures
        r == spec_get_config(content@),
{
    let table = match parse_toml_table(content) {
        Result::Ok(t) => t,
        Result::Err(_) => {
            return Err(AppError::ConfigSyntax);
        },
    };
    let intents: Option<i64> = match table_get(&table, "intents") {
        Option::Some(v) => match value_as_integer(v) {
            Option::Some(n) => Some(n),
            Option::None => {
                return Err(AppError::ConfigSyntax);
            },
        },
        Option::None => None,
    };
    let cache_size: Option<i64> = match table_get(&table, "cache") {
        Option::Some(v) => match value_as_table(v) {
            Option::Some(t) => match table_get(t, "message_cache_size") {
                Option::Some(sv) => match value_as_integer(sv) {
                    Option::Some(n) => Some(n),
                    Option::None => {
                        return Err(AppError::ConfigSyntax);
                    },
                },
                Option::None => None,
            },
            Option::None => {
                return Err(AppError::ConfigSyntax);
            },
        },
        Option::None => None,
    };
    config_from_fields(intents, cache_size)
}

} // verus!
