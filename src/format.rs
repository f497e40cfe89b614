//! Output formats for the records that a command prints.
use vstd::prelude::*;
use crate::utils::str_eq;

verus! {

/// Output data format.
#[derive(Clone, Copy, Debug, PartialEq, Eq, Structural)]
pub enum Format {
    Rust,
    RustPretty,
    Json,
    JsonPretty,
    Yaml,
    Toml,
    TomlPretty,
    Metrics,
}

/// The format that the name `n` (long or one-letter) stands for.
pub open spec fn format_named(n: Seq<char>) -> Option<Format> {
    if n == "r"@ || n == "rust"@ {
        Some(Format::Rust)
    } else if n == "R"@ || n == "rust-pretty"@ {
        Some(Format::RustPretty)
    } else if n == "j"@ || n == "json"@ {
        Some(Format::Json)
    } else if n == "J"@ || n == "json-pretty"@ {
        Some(Format::JsonPretty)
    } else if n == "y"@ || n == "yaml"@ {
        Some(Format::Yaml)
    } else if n == "t"@ || n == "toml"@ {
        Some(Format::Toml)
    } else if n == "T"@ || n == "toml-pretty"@ {
        Some(Format::TomlPretty)
    } else if n == "m"@ || n == "metrics"@ {
        Some(Format::Metrics)
    } else {
        None
    }
}

impl Format {
    /// The format named `s`, by its long name or its one-letter short name.
    pub fn from_name(s: &str) -> (r: Option<Format>)
        ensures
            r == format_named(s@),
    {
        if str_eq(s, "r") || str_eq(s, "rust") {
            Some(Format::Rust)
        } else if str_eq(s, "R") || str_eq(s, "rust-pretty") {
            Some(Format::RustPretty)
        } else if str_eq(s, "j") || str_eq(s, "json") {
            Some(Format::Json)
        } else if str_eq(s, "J") || str_eq(s, "json-pretty") {
            Some(Format::JsonPretty)
        } else if str_eq(s, "y") || str_eq(s, "yaml") {
            Some(Format::Yaml)
        } else if str_eq(s, "t") || str_eq(s, "toml") {
            Some(Format::Toml)
        } else if str_eq(s, "T") || str_eq(s, "toml-pretty") {
            Some(Format::TomlPretty)
        } else if str_eq(s, "m") || str_eq(s, "metrics") {
            Some(Format::Metrics)
        } else {
            None
        }
    }
}

impl core::str::FromStr for Format {
    type Err = String;

    fn from_str(s: &str) -> core::result::Result<Format, String> {
        match Format::from_name(s) {
            Some(f) => Ok(f),
            None => Err(<String as vstd::string::StringExecFns>::from_str("Unknown data format: ").concat(s)),
        }
    }
}

} // verus!
