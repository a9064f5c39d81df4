use crate::error::ErrorKind;
use crate::library::{
    load_error, missing_ordinal_message, missing_symbol_message, resolved, LoaderReport,
    ERROR_BAD_EXE_FORMAT, ERROR_MOD_NOT_FOUND,
};
use crate::text::{contains_text, debug_quoted, decimal, lemma_decimal_injective};
use vstd::prelude::*;

verus! {

/// A load that the Windows loader refused because the module was not found, or was
/// built for the other bit width, fails with a text that holds the requested path;
/// a missing module is a not-found error.
pub proof fn lemma_refused_load_names_path(path: Seq<char>, report: LoaderReport)
    requires
        report matches LoaderReport::Os { code, .. } && (code == ERROR_MOD_NOT_FOUND || code
            == ERROR_BAD_EXE_FORMAT),
    ensures
        contains_text(load_error(path, report).1, path),
        (report matches LoaderReport::Os { code, .. } && code == ERROR_MOD_NOT_FOUND) ==> load_error(
            path,
            report,
        ).0 == ErrorKind::NotFound,
{
    let m = load_error(path, report).1;
    let k = "Unable to load "@.len() as int;
    assert(m.subrange(k, k + path.len()) =~= path);
}

/// A symbol missing from a library: the optional lookup yields nothing, and the
/// required one fails with a text that holds that very name, in its quoted form; two
/// names give the same text only where their quoted forms agree.
pub proof fn lemma_missing_symbol_named(name: Seq<char>, other: Seq<char>)
    ensures
        resolved(0) is None,
        contains_text(missing_symbol_message(name), debug_quoted(name.drop_last())),
        missing_symbol_message(name) == missing_symbol_message(other) ==> debug_quoted(
            name.drop_last(),
        ) == debug_quoted(other.drop_last()),
{
    let k = "Symbol "@.len() as int;
    let d = debug_quoted(name.drop_last());
    let e = debug_quoted(other.drop_last());
    let tail = " missing from library"@;
    let m = missing_symbol_message(name);
    assert(m.subrange(k, k + d.len()) =~= d);
    if m == missing_symbol_message(other) {
        assert(m.len() == k + d.len() + tail.len());
        assert(m.len() == k + e.len() + tail.len());
        assert(missing_symbol_message(other).subrange(k, k + e.len()) =~= e);
    }
}

/// An ordinal missing from a library fails with a text that holds its decimal form,
/// and different ordinals give different texts.
pub proof fn lemma_missing_ordinal_named(ordinal: u16, other: u16)
    ensures
        contains_text(missing_ordinal_message(ordinal), decimal(ordinal as nat)),
        ordinal != other ==> missing_ordinal_message(ordinal) != missing_ordinal_message(other),
{
    let k = "Symbol @"@.len() as int;
    let d = decimal(ordinal as nat);
    let e = decimal(other as nat);
    let tail = " missing from library"@;
    let m = missing_ordinal_message(ordinal);
    assert(m.subrange(k, k + d.len()) =~= d);
    if m == missing_ordinal_message(other) {
        assert(m.len() == k + d.len() + tail.len());
        assert(m.len() == k + e.len() + tail.len());
        assert(missing_ordinal_message(other).subrange(k, k + e.len()) =~= e);
        lemma_decimal_injective(ordinal as nat, other as nat);
    }
}

} // verus!
