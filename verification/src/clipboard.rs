//! An exclusively owned clipboard capability. The handle remembers the last
//! text it successfully wrote, so contracts can speak of the clipboard's
//! contents; an OS-backed handle forwards every write to the system
//! clipboard, while a buffered handle only records it, for use where no OS
//! clipboard is available.

use vstd::prelude::*;

verus! {

#[verifier::external_type_specification]
#[verifier::external_body]
pub struct ExClipboard(arboard::Clipboard);

/// Relies on arboard::Clipboard::new: acquires an OS clipboard handle, or
/// reports why none is available. The outcome depends on the environment,
/// so nothing further is promised.
#[verifier::external_body]
fn os_clipboard_new() -> Result<arboard::Clipboard, String> {
    arboard::Clipboard::new().map_err(|e| e.to_string())
}

/// Relies on arboard::Clipboard::set_text: places the text onto the OS
/// clipboard, reporting failure. The outcome depends on the environment,
/// so nothing further is promised.
#[verifier::external_body]
fn os_clipboard_set(clip: &mut arboard::Clipboard, text: &str) -> Result<(), String> {
    clip.set_text(text.to_string()).map_err(|e| e.to_string())
}

/// The clipboard capability owned by the unlocked vault state. At most one
/// handle is live at a time from this program's perspective, and it moves by
/// value through the state machine, never by copy.
pub struct ClipboardHandle {
    last_write: Option<String>,
    os: Option<arboard::Clipboard>,
}

impl ClipboardHandle {
    /// The text this handle has successfully written, if any.
    pub closed spec fn written(&self) -> Option<Seq<char>> {
        match self.last_write {
            Some(s) => Some(s@),
            None => None,
        }
    }

    /// Acquires the OS clipboard, or reports why none is available.
    pub fn acquire() -> (r: Result<ClipboardHandle, String>)
        ensures
            r matches Ok(h) ==> h.written() is None,
    {
        match os_clipboard_new() {
            Ok(c) => Ok(ClipboardHandle { last_write: None, os: Some(c) }),
            Err(e) => Err(e),
        }
    }

    /// A handle with no OS clipboard behind it: writes are recorded in the
    /// handle alone and always succeed.
    pub fn buffered() -> (h: ClipboardHandle)
        ensures
            h.written() is None,
    {
        ClipboardHandle { last_write: None, os: None }
    }

    /// Writes the text through this handle. On success the handle's recorded
    /// contents are exactly the text; on failure they are unchanged.
    pub fn set_text(&mut self, text: &str) -> (r: Result<(), String>)
        ensures
            r is Ok ==> final(self).written() == Some(text@),
            r is Err ==> final(self).written() == old(self).written(),
    {
        let os = self.os.take();
        match os {
            Some(mut c) => {
                let outcome = os_clipboard_set(&mut c, text);
                self.os = Some(c);
                match outcome {
                    Ok(_) => {
                        self.last_write = Some(text.to_string());
                        Ok(())
                    },
                    Err(e) => Err(e),
                }
            },
            None => {
                self.last_write = Some(text.to_string());
                Ok(())
            },
        }
    }

    /// The text this handle last successfully wrote, if any.
    pub fn last_written(&self) -> (r: Option<&String>)
        ensures
            match r {
                Some(s) => self.written() == Some(s@),
                None => self.written() is None,
            },
    {
        self.last_write.as_ref()
    }
}

} // verus!
