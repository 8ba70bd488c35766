//! Clipboard logic for file lists, text and raw bytes on Linux, macOS and
//! Windows: which native steps an operation takes, what their results
//! amount to, and how reads that partly fail are reconciled. The native
//! steps themselves are made by the caller.

pub mod content;
pub mod encoding;
pub mod error;
pub mod platforms;
pub mod preview;
pub mod resolver;
pub mod text;

pub use crate::content::{read_clipboard_results, ClipboardContent, ClipboardReadResult};
pub use crate::error::{platform_error_reason, ClipboardError, ErrorKind};
pub use crate::preview::{
    detect_mime_type, generate_preview, read_clipboard_readable, ReadableClipboardContent,
};

use vstd::prelude::*;
use vstd::string::*;

verus! {

/// The name under which an operating system is shown: the usual spelling
/// for macOS, Windows and Linux, and any other name as it stands.
pub open spec fn os_display_name(os: Seq<char>) -> Seq<char> {
    if os == "macos"@ {
        "macOS"@
    } else if os == "windows"@ {
        "Windows"@
    } else if os == "linux"@ {
        "Linux"@
    } else {
        os
    }
}

/// The greeting of the library in the given version on the given system.
pub open spec fn greeting(os: Seq<char>, version: Seq<char>) -> Seq<char> {
    "Hello from Rust "@ + version + " on "@ + os_display_name(os) + "!"@
}

/// Greets: a sign of life that names the library's version and the
/// operating system.
pub fn hello_world(os: &str, version: &str) -> (text: String)
    ensures
        text@ == greeting(os@, version@),
{
    let name = String::from_str(os);
    let mut text = String::from_str("Hello from Rust ");
    text.append(version);
    text.append(" on ");
    if name == String::from_str("macos") {
        text.append("macOS");
    } else if name == String::from_str("windows") {
        text.append("Windows");
    } else if name == String::from_str("linux") {
        text.append("Linux");
    } else {
        text.append(os);
    }
    text.append("!");
    text
}

} // verus!
