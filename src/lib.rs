//! Safe, verified core of a wrapper around a networked video/audio transport SDK.
//!
//! The library holds what can be decided without touching native memory: which
//! shared library to load and where to look for it, how text crosses the native
//! boundary as NUL-terminated bytes, how native results are checked before use,
//! and when a native handle is handed back for destruction.
use vstd::prelude::*;

mod bootstrap;
mod error;
mod find;
mod marshal;
mod routing;
mod source;

pub use bootstrap::{
    check_initialize, first_existing, first_true, lemma_runtime_dir_preferred, library_file_name,
    library_name_spec, opt_view, runtime_dirs, search_directories, search_dirs_spec, system_dirs,
    version, Os, Platform, SearchDir,
};
pub use error::{NDIError, NDIResult};
pub use find::{
    all_readable, c_list_of, join_comma, join_with_commas, opt_bytes, source_views, sources_of,
    views_of, FindCreate, FindInstance, FindSettings, NativeSourceList,
};
pub use marshal::{
    c_bytes_of, has_nul, lemma_c_bytes_text, lemma_encoding_has_no_zero_byte, string_from_c_bytes,
    text_of_c_bytes, to_c_bytes,
};
pub use routing::{str_views, RouteCreate, RouteInstance};
pub use source::{
    can_marshal, can_read, lemma_native_round_trip, native_of, source_of, NativeSource, Source,
};
