use vstd::prelude::*;
use vstd::string::StringExecFns;

verus! {

/// A failure to read text from the system clipboard.
#[derive(Clone, Copy, Debug, PartialEq, Eq, Structural)]
pub enum ClipboardError {
    /// The clipboard handle could not be acquired, or the platform
    /// refused access.
    AccessDenied,
    /// The clipboard holds no readable text: it is empty, or its content
    /// is not text.
    NotText,
}

/// The description of a clipboard failure.
pub open spec fn clipboard_error_text(e: ClipboardError) -> Seq<char> {
    match e {
        ClipboardError::AccessDenied => "Failed to access clipboard"@,
        ClipboardError::NotText => "Clipboard holds no readable text"@,
    }
}

impl ClipboardError {
    /// A short description of the failure.
    pub fn text(&self) -> (r: String)
        ensures
            r@ == clipboard_error_text(*self),
    {
        match self {
            ClipboardError::AccessDenied => String::from_str("Failed to access clipboard"),
            ClipboardError::NotText => String::from_str("Clipboard holds no readable text"),
        }
    }
}

#[verifier::external_type_specification]
#[verifier::external_body]
pub struct ExClipboard(arboard::Clipboard);

/// Relies on arboard::Clipboard::new: acquires a scoped handle to the
/// system clipboard, released when the value drops.
#[verifier::external_body]
fn clipboard_open() -> (r: Result<arboard::Clipboard, ()>) {
    arboard::Clipboard::new().map_err(|_| ())
}

/// Relies on arboard::Clipboard::get_text: a snapshot of the clipboard's
/// text. arboard reports an empty or non-text clipboard as
/// `ContentNotAvailable`; that case alone becomes `NotText`, every other
/// failure `AccessDenied`.
#[verifier::external_body]
fn clipboard_read_text(c: &mut arboard::Clipboard) -> (r: Result<String, ClipboardError>)
    ensures
        r matches Err(e) ==> e == ClipboardError::NotText || e == ClipboardError::AccessDenied,
{
    c.get_text().map_err(|e| match e {
        arboard::Error::ContentNotAvailable => ClipboardError::NotText,
        _ => ClipboardError::AccessDenied,
    })
}

/// Reads a UTF-8 snapshot of the system clipboard. No ownership of the
/// clipboard is taken and nothing is written back. Fails with
/// `AccessDenied` when no handle can be acquired or the platform refuses,
/// and with `NotText` when the clipboard holds no readable text — an
/// empty clipboard is `NotText`, never an empty success.
pub fn get_clipboard_text() -> (r: Result<String, ClipboardError>)
    ensures
        r matches Err(e) ==> e == ClipboardError::AccessDenied || e == ClipboardError::NotText,
{
    match clipboard_open() {
        Err(()) => Err(ClipboardError::AccessDenied),
        Ok(mut handle) => clipboard_read_text(&mut handle),
    }
}

} // verus!
