//! The text editor that comes with a platform.
use vstd::prelude::*;

verus! {

/// The identifier of the text editor that comes with a platform, where one is known.
pub fn default_text_editor_id(platform: &str) -> (r: Option<&'static str>)
    ensures
        match r {
            Some(id) => platform@ == "macos"@ && id@ == "textedit"@ || platform@ == "windows"@ && id@
                == "notepad"@,
            None => platform@ != "macos"@ && platform@ != "windows"@,
        },
{
    if *platform == *"macos" {
        Some("textedit")
    } else if *platform == *"windows" {
        Some("notepad")
    } else {
        None
    }
}

} // verus!
