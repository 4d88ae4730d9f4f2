pub mod b64;
pub mod cli;
pub mod convert;
pub mod hex;
pub mod text;

pub use cli::{
    basename, mode_from_name, no_input_message, parse_args, unknown_arg_message,
    unknown_mode_message, usage_text, CliOptions,
};
pub use convert::{b64_to_hex, convert, hex_to_b64, run, Mode, RunError};
pub use hex::{bytes_to_hex, parse_hex, HexCase};
pub use text::normalize_input;
