//! What the text model asks of the application around it.

use vstd::prelude::*;

verus! {

/// A handle to the system clipboard. It carries no state of its own.
#[derive(Clone, Copy, Debug, PartialEq, Eq, Structural)]
pub struct Clipboard;

/// The application that owns the windows in which text is shown.
pub struct Application;

impl Application {
    /// The locale that text is laid out for.
    pub open spec fn locale() -> Seq<char> {
        "en-US"@
    }

    /// A handle to the system clipboard.
    pub fn clipboard() -> (handle: Clipboard)
        ensures
            handle == Clipboard,
    {
        Clipboard
    }

    /// The locale of the application: always `en-US`.
    pub fn get_locale() -> (locale: String)
        ensures
            locale@ == Self::locale(),
    {
        "en-US".to_string()
    }
}

} // verus!
