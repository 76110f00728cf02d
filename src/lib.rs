//! Conversion of configuration documents between JSON, YAML and TOML.
//!
//! Each document is decoded into one value model, [`ConfValue`], and
//! encoded from it; validation decodes only, and formatting re-encodes a
//! document in its own format. The parsers and serializers are those of
//! serde_json, serde_yml and toml; the choice of format, the value model,
//! the rules on what each format can hold and the error taxonomy are this
//! crate's own and verified.
pub mod cli;
pub mod codec;
pub mod convert;
pub mod error;
pub mod format;
pub mod value;

pub use cli::{Cli, Commands};
pub use convert::{convert, decode, encode, format_file, validate};
pub use error::{EncodeError, Error};
pub use format::{infer_from_path, parse_name, resolve_format, Format};
pub use value::ConfValue;
