//! The error of this layer.

use vstd::prelude::*;

verus! {

/// `core::fmt::Formatter`, the sink that the formatting traits write to. Nothing
/// is stated of it: a formatter is handed on to the standard library and never
/// looked into.
#[verifier::external_type_specification]
#[verifier::external_body]
pub struct ExFormatter<'a>(core::fmt::Formatter<'a>);

/// `core::fmt::Error`, the error of the formatting traits. Nothing is stated
/// of it.
#[verifier::external_type_specification]
#[verifier::external_body]
pub struct ExFmtError(core::fmt::Error);

/// `Formatter::write_str` of the standard library: writes `text` to the
/// formatter and reports whether the formatter took it. Nothing is claimed of
/// the result.
#[verifier::external_body]
fn write_str(f: &mut core::fmt::Formatter<'_>, text: &str) -> core::fmt::Result {
    f.write_str(text)
}

/// An error that came from the host.
///
/// The host reports no reason with its failures, so this value holds none. It
/// only reminds whoever reads it that the host writes to the system log, and
/// that the reason may be found there.
#[derive(Clone)]
pub struct ZygiskError;

impl ZygiskError {
    /// The message for a reader. It is the same for every error: it names the
    /// system log and says nothing else, as there is nothing else to say.
    pub fn display_text(&self) -> (text: &'static str)
        ensures
            text@ == "an error occurred within Zygisk (see logcat for details)"@,
            text@.len() == 56,
            text@.subrange(37, 43) == "logcat"@,
    {
        proof {
            reveal_strlit("an error occurred within Zygisk (see logcat for details)");
            reveal_strlit("logcat");
        }
        "an error occurred within Zygisk (see logcat for details)"
    }

    /// The error as a record with one note, for a developer.
    pub fn debug_text(&self) -> (text: &'static str)
        ensures
            text@ == "ZygiskError { _note: \"see logcat for details\" }"@,
    {
        "ZygiskError { _note: \"see logcat for details\" }"
    }
}

/// Hands [`ZygiskError::debug_text`] to the formatter, as it is, and hands the
/// formatter's answer back. Whether the text arrives is up to the sink behind
/// the formatter.
impl core::fmt::Debug for ZygiskError {
    fn fmt(&self, f: &mut core::fmt::Formatter<'_>) -> core::fmt::Result {
        write_str(f, self.debug_text())
    }
}

/// Hands [`ZygiskError::display_text`] to the formatter, as it is, and hands
/// the formatter's answer back. Whether the text arrives is up to the sink
/// behind the formatter.
impl core::fmt::Display for ZygiskError {
    fn fmt(&self, f: &mut core::fmt::Formatter<'_>) -> core::fmt::Result {
        write_str(f, self.display_text())
    }
}

impl std::error::Error for ZygiskError {
}

} // verus!
