//! A minimal binding over the operating system's dynamic-library loader.
//!
//! The calls into the loader itself (`dlopen`, `dlsym`, `dlclose`, `dlerror` on Unix;
//! `LoadLibraryW`, `GetProcAddress`, `FreeLibrary` on Windows) are made by the caller.
//! This crate holds the library handle, checks symbol names, and turns what the loader
//! reported into handles, addresses and errors.
mod error;
mod lemmas;
mod library;
mod text;

pub use error::{Error, ErrorKind};
pub use lemmas::{
    lemma_missing_ordinal_named, lemma_missing_symbol_named, lemma_refused_load_names_path,
};
pub use library::{
    bad_exe_message, dl_text, dlerror_string_lossy, load_error, missing_ordinal_message,
    missing_symbol_message, name_fault, not_found_message, other_bits, own_bits, report_error,
    resolved, unload_succeeded, valid_symbol_name, Library, LoaderReport, NameFault,
    ERROR_BAD_EXE_FORMAT, ERROR_MOD_NOT_FOUND,
};
pub use text::{
    contains_text, debug_quoted, decimal, digit, lemma_decimal_injective, lemma_decimal_nonempty,
    push_decimal, utf8_lossy,
};
