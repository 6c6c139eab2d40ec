//! The two operations that need nothing from outside.

use vstd::prelude::*;
use vstd::string::*;
use crate::records::result_text;
use crate::text::joined;

verus! {

/// The words that greet `name`.
pub open spec fn greeting(name: Seq<char>) -> Seq<char> {
    "Hello, "@ + name + "! Welcome to YouTube Music Downloader Pro!"@
}

/// Greets `name`.
pub fn greet(name: &str) -> (r: String)
    ensures
        r@ == greeting(name@),
{
    joined("Hello, ", name).concat("! Welcome to YouTube Music Downloader Pro!")
}

/// The folder that downloads go to unless another is chosen.
pub open spec fn default_folder() -> Seq<char> {
    "/Users/Downloads"@
}

/// Selects the folder for downloads: always the default one.
pub fn select_folder() -> (r: Result<String, String>)
    ensures
        result_text(r) == Ok::<Seq<char>, Seq<char>>(default_folder()),
{
    Ok("/Users/Downloads".to_owned())
}

} // verus!
