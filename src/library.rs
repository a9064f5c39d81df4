use crate::error::{Error, ErrorKind};
use crate::text::{debug_quoted, debug_text, decimal, lossy_text, push_decimal, utf8_lossy};
use vstd::prelude::*;
use vstd::std_specs::iter::IteratorSpec;
use vstd::string::{StrSliceExecFns, StringExecFns};

verus! {

/// The Windows error code for an image of the wrong format (32- against 64-bit).
pub const ERROR_BAD_EXE_FORMAT: i32 = 0xC1;

/// The Windows error code for a module the loader could not find.
pub const ERROR_MOD_NOT_FOUND: i32 = 0x7E;

/// What a platform loader reported about its last call.
pub enum LoaderReport {
    /// Unix: the text `dlerror()` returned, as bytes, or `None` where it returned null.
    Dl(Option<Vec<u8>>),
    /// Windows: the thread's last error code, with the system's text for it.
    Os { code: i32, text: String },
}

/// What is wrong with a symbol name.
#[derive(Clone, Copy, Debug, PartialEq, Eq, Structural)]
pub enum NameFault {
    /// The name does not end with a `'\0'`.
    Unterminated,
    /// A `'\0'` stands before the last character.
    InteriorNul,
}

/// The text of a `dlerror()` result: none for a null one, else its bytes decoded.
pub open spec fn dl_text(raw: Option<Vec<u8>>) -> Seq<char> {
    match raw {
        Some(b) => utf8_lossy(b@),
        None => Seq::empty(),
    }
}

/// The error a loader report stands for, taken as the platform gave it.
pub open spec fn report_error(report: LoaderReport) -> (ErrorKind, Seq<char>) {
    match report {
        LoaderReport::Dl(raw) => (ErrorKind::Other, dl_text(raw)),
        LoaderReport::Os { code, text } => (ErrorKind::Os(code), text@),
    }
}

/// The bit width of this build's pointers, in words.
pub open spec fn own_bits() -> Seq<char> {
    if usize::BITS == 64 {
        "64"@
    } else {
        "32"@
    }
}

/// The other bit width, in words.
pub open spec fn other_bits() -> Seq<char> {
    if usize::BITS == 64 {
        "32"@
    } else {
        "64"@
    }
}

/// The text for an image of the wrong bit width.
pub open spec fn bad_exe_message(path: Seq<char>) -> Seq<char> {
    "Unable to load "@ + path + ": ERROR_BAD_EXE_FORMAT (likely tried to load a "@ + other_bits()
        + "-bit DLL into this "@ + own_bits() + "-bit process)"@
}

/// The text for a module that was not found.
pub open spec fn not_found_message(path: Seq<char>) -> Seq<char> {
    "Unable to load "@ + path + ": NotFound"@
}

/// The error for a load of `path` that the loader refused, by what it reported.
pub open spec fn load_error(path: Seq<char>, report: LoaderReport) -> (ErrorKind, Seq<char>) {
    match report {
        LoaderReport::Os { code, .. } => {
            if code == ERROR_BAD_EXE_FORMAT {
                (ErrorKind::Other, bad_exe_message(path))
            } else if code == ERROR_MOD_NOT_FOUND {
                (ErrorKind::NotFound, not_found_message(path))
            } else {
                report_error(report)
            }
        },
        LoaderReport::Dl(_) => report_error(report),
    }
}

/// Whether an unload succeeded, by its status: `dlclose` gives zero on success,
/// `FreeLibrary` gives non-zero.
pub open spec fn unload_succeeded(status: i32, report: LoaderReport) -> bool {
    match report {
        LoaderReport::Dl(_) => status == 0,
        LoaderReport::Os { .. } => status != 0,
    }
}

/// A symbol name fit to hand to the loader: it ends with a `'\0'` and holds no other.
pub open spec fn valid_symbol_name(name: Seq<char>) -> bool {
    &&& name.len() > 0
    &&& name.last() == '\0'
    &&& !name.drop_last().contains('\0')
}

/// What is wrong with `name`, checked in the order: terminator first, then the rest.
pub open spec fn name_fault(name: Seq<char>) -> Option<NameFault> {
    if !(name.len() > 0 && name.last() == '\0') {
        Some(NameFault::Unterminated)
    } else if name.drop_last().contains('\0') {
        Some(NameFault::InteriorNul)
    } else {
        None
    }
}

/// The address a lookup gave, where it found anything.
pub open spec fn resolved(addr: usize) -> Option<usize> {
    if addr == 0 {
        None
    } else {
        Some(addr)
    }
}

/// The text for a symbol missing from a library: its name, without the terminator,
/// in its quoted form.
pub open spec fn missing_symbol_message(name: Seq<char>) -> Seq<char> {
    "Symbol "@ + debug_quoted(name.drop_last()) + " missing from library"@
}

/// The text for an ordinal missing from a library.
pub open spec fn missing_ordinal_message(ordinal: u16) -> Seq<char> {
    "Symbol @"@ + decimal(ordinal as nat) + " missing from library"@
}

/// The text of a `dlerror()` result: empty where it returned null, else its bytes
/// decoded, with each invalid sequence replaced.
pub fn dlerror_string_lossy(raw: &Option<Vec<u8>>) -> (r: String)
    ensures
        r@ == dl_text(*raw),
{
    match raw {
        Some(b) => lossy_text(b.as_slice()),
        None => String::new(),
    }
}

fn bad_exe_error(path: &str) -> (r: Error)
    ensures
        r@ == (ErrorKind::Other, bad_exe_message(path@)),
{
    let mut m = String::from_str("Unable to load ");
    m.append(path);
    m.append(": ERROR_BAD_EXE_FORMAT (likely tried to load a ");
    if usize::BITS == 64 {
        m.append("32");
        m.append("-bit DLL into this ");
        m.append("64");
    } else {
        m.append("64");
        m.append("-bit DLL into this ");
        m.append("32");
    }
    m.append("-bit process)");
    assert(m@ =~= bad_exe_message(path@));
    Error::new(ErrorKind::Other, m)
}

fn not_found_error(path: &str) -> (r: Error)
    ensures
        r@ == (ErrorKind::NotFound, not_found_message(path@)),
{
    let mut m = String::from_str("Unable to load ");
    m.append(path);
    m.append(": NotFound");
    Error::new(ErrorKind::NotFound, m)
}

fn report_to_error(report: &LoaderReport) -> (r: Error)
    ensures
        r@ == report_error(*report),
{
    match report {
        LoaderReport::Dl(raw) => Error::new(ErrorKind::Other, dlerror_string_lossy(raw)),
        LoaderReport::Os { code, text } => Error::new(ErrorKind::Os(*code), text.clone()),
    }
}

/// A loaded library: the non-null handle its loader returned.
///
/// A handle carries no lifetime and no reference count: every copy is an equally
/// valid alias, and a library is treated as loaded for the rest of the process.
#[derive(Clone, Copy, Debug, PartialEq, Eq, PartialOrd, Ord, Hash)]
pub struct Library {
    handle: usize,
}

impl View for Library {
    type V = usize;

    closed spec fn view(&self) -> usize {
        self.handle
    }
}

impl Library {
    #[verifier::type_invariant]
    closed spec fn inv(self) -> bool {
        self.handle != 0
    }

    /// Wraps a loader handle; a null one gives `None`.
    pub fn from_ptr(handle: usize) -> (r: Option<Library>)
        ensures
            r matches Some(lib) ==> lib@ == handle,
            r is None <==> handle == 0,
    {
        if handle == 0 {
            None
        } else {
            Some(Library { handle })
        }
    }

    /// Wraps a loader handle known to be non-null.
    pub fn from_non_null(handle: usize) -> (r: Library)
        requires
            handle != 0,
        ensures
            r@ == handle,
    {
        Library { handle }
    }

    /// The loader handle.
    pub fn as_ptr(&self) -> (r: usize)
        ensures
            r == self@,
    {
        self.handle
    }

    /// The loader handle, which is never null.
    pub fn as_non_null(&self) -> (r: usize)
        ensures
            r == self@,
            r != 0,
    {
        proof {
            use_type_invariant(self);
        }
        self.handle
    }

    /// Settles a load of `path`: `handle` is what the loader returned, and `report` what
    /// its error facility said afterwards. A null handle is always a failure.
    ///
    /// On Windows an image of the wrong bit width, and a module that was not found, get
    /// texts of their own that name `path`; any other code is kept as the system gave it.
    /// On Unix the text of `dlerror()`, which already names the path, is the message.
    pub fn load(path: &str, handle: usize, report: &LoaderReport) -> (r: Result<Library, Error>)
        ensures
            r is Ok <==> handle != 0,
            r matches Ok(lib) ==> lib@ == handle,
            r matches Err(e) ==> e@ == load_error(path@, *report),
    {
        if handle != 0 {
            return Ok(Library { handle });
        }
        match report {
            LoaderReport::Os { code, .. } => {
                if *code == ERROR_BAD_EXE_FORMAT {
                    Err(bad_exe_error(path))
                } else if *code == ERROR_MOD_NOT_FOUND {
                    Err(not_found_error(path))
                } else {
                    Err(report_to_error(report))
                }
            },
            LoaderReport::Dl(_) => Err(report_to_error(report)),
        }
    }

    /// Checks a symbol name before it goes to the loader: `None` where it ends with a
    /// `'\0'` and holds no other, else what is wrong with it.
    pub fn symbol_name_fault(name: &str) -> (r: Option<NameFault>)
        ensures
            r == name_fault(name@),
            r is None <==> valid_symbol_name(name@),
    {
        broadcast use vstd::string::group_string_axioms;

        let mut chars = name.chars();
        let ghost mut i: int = 0;
        let mut last_nul = false;
        let mut interior = false;
        loop
            invariant
                0 <= i <= name@.len(),
                chars.obeys_prophetic_iter_laws(),
                chars.remaining() == name@.skip(i),
                last_nul == (i > 0 && name@[i - 1] == '\0'),
                interior == (i > 0 && name@.take(i - 1).contains('\0')),
            ensures
                i == name@.len(),
            decreases name@.len() - i,
        {
            match chars.next() {
                None => break,
                Some(c) => {
                    proof {
                        assert(name@.skip(i).drop_first() =~= name@.skip(i + 1));
                        if i > 0 {
                            let pre = name@.take(i - 1);
                            let cur = name@.take(i);
                            assert(cur =~= pre.push(name@[i - 1]));
                            if cur.contains('\0') {
                                let j = choose|j: int| 0 <= j < cur.len() && cur[j] == '\0';
                                if j < i - 1 {
                                    assert(pre[j] == '\0');
                                }
                            }
                            if pre.contains('\0') {
                                let j = choose|j: int| 0 <= j < pre.len() && pre[j] == '\0';
                                assert(cur[j] == '\0');
                            }
                            if last_nul {
                                assert(cur[i - 1] == '\0');
                            }
                        }
                    }
                    if last_nul {
                        interior = true;
                    }
                    last_nul = c == '\0';
                    proof {
                        i = i + 1;
                    }
                }
            }
        }
        if !last_nul {
            Some(NameFault::Unterminated)
        } else if interior {
            Some(NameFault::InteriorNul)
        } else {
            None
        }
    }

    /// Settles a lookup of the symbol `name`, where `addr` is what `dlsym` or
    /// `GetProcAddress` returned for it: a null address means it is missing.
    pub fn sym_opt(name: &str, addr: usize) -> (r: Option<usize>)
        requires
            valid_symbol_name(name@),
        ensures
            r == resolved(addr),
    {
        if addr == 0 {
            None
        } else {
            Some(addr)
        }
    }

    /// Settles a lookup of the symbol `name` that must succeed: a missing symbol is an
    /// error that names it, without its terminator.
    pub fn sym(name: &str, addr: usize) -> (r: Result<usize, Error>)
        requires
            valid_symbol_name(name@),
        ensures
            r is Ok <==> addr != 0,
            r matches Ok(a) ==> a == addr,
            r matches Err(e) ==> e@ == (ErrorKind::InvalidInput, missing_symbol_message(name@)),
    {
        match Self::sym_opt(name, addr) {
            Some(a) => Ok(a),
            None => {
                let n = name.unicode_len();
                let stem = name.substring_char(0, n - 1);
                let mut m = String::from_str("Symbol ");
                m.append(debug_text(stem).as_str());
                m.append(" missing from library");
                Err(Error::new(ErrorKind::InvalidInput, m))
            },
        }
    }

    /// Settles a lookup by `ordinal`, where `addr` is what the loader returned for it;
    /// where the platform has no ordinals, `addr` is null.
    pub fn sym_opt_by_ordinal(ordinal: u16, addr: usize) -> (r: Option<usize>)
        ensures
            r == resolved(addr),
    {
        if addr == 0 {
            None
        } else {
            Some(addr)
        }
    }

    /// Settles a lookup by `ordinal` that must succeed: a missing ordinal is an error
    /// that names it.
    pub fn sym_by_ordinal(ordinal: u16, addr: usize) -> (r: Result<usize, Error>)
        ensures
            r is Ok <==> addr != 0,
            r matches Ok(a) ==> a == addr,
            r matches Err(e) ==> e@ == (ErrorKind::InvalidInput, missing_ordinal_message(ordinal)),
    {
        match Self::sym_opt_by_ordinal(ordinal, addr) {
            Some(a) => Ok(a),
            None => {
                let mut m = String::from_str("Symbol @");
                push_decimal(&mut m, ordinal);
                m.append(" missing from library");
                Err(Error::new(ErrorKind::InvalidInput, m))
            },
        }
    }

    /// Whether the lookup of the symbol `name` that gave `addr` found it.
    pub fn has_sym(name: &str, addr: usize) -> (r: bool)
        requires
            valid_symbol_name(name@),
        ensures
            r == (addr != 0),
    {
        Self::sym_opt(name, addr).is_some()
    }

    /// Settles an attempt to unload this library: `status` is what `dlclose` or
    /// `FreeLibrary` returned, and `report` what the platform's error facility said.
    ///
    /// Unloading is unsound: once the platform has done it, this handle, every copy of
    /// it and every symbol looked up through any of them dangle.
    pub fn close_unsafe_unsound_possible_noop_do_not_use_in_production(
        self,
        status: i32,
        report: &LoaderReport,
    ) -> (r: Result<(), Error>)
        ensures
            r is Ok <==> unload_succeeded(status, *report),
            r matches Err(e) ==> e@ == report_error(*report),
    {
        let ok = match report {
            LoaderReport::Dl(_) => status == 0,
            LoaderReport::Os { .. } => status != 0,
        };
        if ok {
            Ok(())
        } else {
            Err(report_to_error(report))
        }
    }
}

} // verus!
