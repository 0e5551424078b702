//! What the viewer takes on its command line.

use vstd::prelude::*;

verus! {

/// The viewer's command-line arguments: an optional path of a Markdown
/// file to view. With none given, the document comes from standard
/// input.
#[derive(Debug)]
pub struct Args {
    pub file: Option<String>,
}

} // verus!
