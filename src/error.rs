use vstd::prelude::*;

verus! {

/// Declares `libloading::Error`, the loader's failure, which `LoadingError`
/// carries unopened.
#[verifier::external_type_specification]
#[verifier::external_body]
pub struct ExLoadingError(libloading::Error);

/// Declares `core::str::Utf8Error`, the failure of `core::str::from_utf8`,
/// which `Utf8Error` carries unopened.
#[verifier::external_type_specification]
#[verifier::external_body]
pub struct ExUtf8Error(core::str::Utf8Error);

/// Every way in which work at the native boundary can fail.
#[derive(Debug)]
pub enum NDIError {
    /// The dynamic loader could not load the library, or resolve its entry symbol.
    LoadingError(libloading::Error),
    /// The entry symbol returned no function table.
    LoadV5Failed,
    /// The table's `initialize` reported failure (for example, an unsupported CPU).
    InitializeFailed,
    /// The function table has no entry under this name.
    MissingSymbolV5(&'static str),
    /// The named native call returned a null pointer where one was not allowed.
    UnexpectedNullPointer(&'static str),
    /// Text from the native side is not valid UTF-8.
    Utf8Error(core::str::Utf8Error),
    /// Text bound for the native side holds a NUL character.
    InvalidCString,
}

pub type NDIResult<T> = core::result::Result<T, NDIError>;

} // verus!
