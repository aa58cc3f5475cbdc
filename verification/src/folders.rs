//! Folders: the grouping attribute tasks live under, and the functional
//! style a folder carries, with its textual storage form.

use vstd::prelude::*;
use vstd::string::StringSliceAdditionalSpecFns;

verus! {

/// A folder in the folder tree.  Root folders have no parent; the status
/// code's meaning is context-dependent and reserved.
pub struct Folder {
    pub id: u32,
    pub parent_id: Option<u32>,
    pub name: String,
    pub style: Style,
    pub status: Option<u32>,
}

impl Folder {
    /// Build a folder as the prompts assemble it: a fresh entry under the
    /// chosen parent, with no status yet.
    pub fn new(parent_id: u32, name: String, style: Style) -> (f: Folder)
        ensures
            f.id == 0,
            f.parent_id == Some(parent_id),
            f.name == name,
            f.style == style,
            f.status is None,
    {
        Folder { id: 0, parent_id: Some(parent_id), name, style, status: None }
    }
}

/// The functional style of a folder; it decides how the folder's tasks are
/// offered.
#[derive(Clone, Copy, Debug, PartialEq, Eq, Structural)]
pub enum Style {
    /// An ordinary grouping of tasks and further folders.
    Directory,
    /// A set of tasks of which one is displayed, all resetting together.
    Selector,
    /// A set of tasks displayed one after the other, resetting when the
    /// last completes.
    Iterator,
}

/// Two byte strings hold the same bytes.
fn eq_bytes(a: &[u8], b: &[u8]) -> (r: bool)
    ensures
        r <==> a@ == b@,
{
    if a.len() != b.len() {
        return false;
    }
    let mut i: usize = 0;
    while i < a.len()
        invariant
            a@.len() == b@.len(),
            i <= a@.len(),
            forall|j: int| 0 <= j < i ==> a@[j] == b@[j],
        decreases a@.len() - i,
    {
        if a[i] != b[i] {
            return false;
        }
        i = i + 1;
    }
    proof {
        assert(a@ =~= b@);
    }
    true
}

impl Style {
    /// The style's textual form, as stored.
    pub fn as_str(&self) -> (r: &'static str)
        ensures
            *self is Directory ==> r@ == "Directory"@,
            *self is Selector ==> r@ == "Selector"@,
            *self is Iterator ==> r@ == "Iterator"@,
    {
        match self {
            Style::Directory => "Directory",
            Style::Selector => "Selector",
            Style::Iterator => "Iterator",
        }
    }

    /// Read a style back from its stored textual form; any other text is
    /// rejected, carrying the offending input.
    pub fn from_str(s: &str) -> (r: Result<Style, ParseStyleError>)
        ensures
            s.spec_bytes() == "Directory".spec_bytes() ==> r == Ok::<Style, ParseStyleError>(
                Style::Directory,
            ),
            s.spec_bytes() != "Directory".spec_bytes() && s.spec_bytes()
                == "Selector".spec_bytes() ==> r == Ok::<Style, ParseStyleError>(Style::Selector),
            s.spec_bytes() != "Directory".spec_bytes() && s.spec_bytes()
                != "Selector".spec_bytes() && s.spec_bytes() == "Iterator".spec_bytes() ==> r
                == Ok::<Style, ParseStyleError>(Style::Iterator),
            s.spec_bytes() != "Directory".spec_bytes() && s.spec_bytes()
                != "Selector".spec_bytes() && s.spec_bytes() != "Iterator".spec_bytes() ==> (
            r matches Err(e) && e matches ParseStyleError::InvalidInput(orig) && orig@ == s@),
    {
        let bytes = s.as_bytes();
        if eq_bytes(bytes, "Directory".as_bytes()) {
            Ok(Style::Directory)
        } else if eq_bytes(bytes, "Selector".as_bytes()) {
            Ok(Style::Selector)
        } else if eq_bytes(bytes, "Iterator".as_bytes()) {
            Ok(Style::Iterator)
        } else {
            Err(ParseStyleError::InvalidInput(s.to_owned()))
        }
    }

    /// The style offered at the given one-based prompt position, if any.
    pub fn from_choice(choice: usize) -> (r: Option<Style>)
        ensures
            choice == 1 ==> r == Some(Style::Directory),
            choice == 2 ==> r == Some(Style::Selector),
            choice == 3 ==> r == Some(Style::Iterator),
            !(1 <= choice <= 3) ==> r is None,
    {
        if choice == 1 {
            Some(Style::Directory)
        } else if choice == 2 {
            Some(Style::Selector)
        } else if choice == 3 {
            Some(Style::Iterator)
        } else {
            None
        }
    }
}

/// Why a stored folder style could not be read back.
#[derive(Clone, Debug, PartialEq, Eq)]
pub enum ParseStyleError {
    /// The text matches no known style; carries the offending input.
    InvalidInput(String),
}

} // verus!
