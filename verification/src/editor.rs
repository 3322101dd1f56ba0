//! The document state and its transitions.
//!
//! `Project1` is the single mutable record of the application: the text
//! buffer, the optionally bound file path, and the pin-to-top flag. The
//! functions here are the Open / Save / Save-As / Edit / TogglePin
//! transitions. File dialogs and filesystem reads and writes happen in the
//! unverified shell; their outcomes arrive here as plain `Option` values,
//! and a requested write leaves as a `WriteRequest` value, so that every
//! state change is decided, and proved correct, in this module.

use vstd::prelude::*;

verus! {

/// The mathematical value of a document state: the buffer contents, the
/// bound path (if any), and the pin flag, as pure sequences.
pub struct DocView {
    pub text: Seq<char>,
    pub path: Option<Seq<char>>,
    pub pinned: bool,
}

/// The document state: one instance exists per running application.
pub struct Project1 {
    /// The full contents of the editable text area.
    pub text_buffer: String,
    /// The path last associated with a successful read or write;
    /// `None` while the buffer is unbound.
    pub file_path: Option<String>,
    /// Whether the window is to be kept above all others.
    pub is_window_pinned: bool,
}

impl View for Project1 {
    type V = DocView;

    open spec fn view(&self) -> DocView {
        DocView {
            text: self.text_buffer@,
            path: match self.file_path {
                Option::Some(p) => Option::Some(p@),
                Option::None => Option::None,
            },
            pinned: self.is_window_pinned,
        }
    }
}

/// The view of an optional string handed in by the shell.
pub open spec fn opt_view(o: Option<String>) -> Option<Seq<char>> {
    match o {
        Option::Some(s) => Option::Some(s@),
        Option::None => Option::None,
    }
}

/// A write that the shell must perform on the filesystem: the full
/// `contents` replace whatever the file at `path` held.
pub struct WriteRequest {
    pub path: String,
    pub contents: String,
}

/// The view of an optional write request: the path and the contents.
pub open spec fn req_view(w: Option<WriteRequest>) -> Option<(Seq<char>, Seq<char>)> {
    match w {
        Option::Some(r) => Option::Some((r.path@, r.contents@)),
        Option::None => Option::None,
    }
}

/// The window-stacking hint issued to the window manager on every tick.
#[derive(Clone, Copy, Debug, PartialEq, Eq, Structural)]
pub enum WindowHint {
    AlwaysOnTop,
    Normal,
}

/// Open: when a path was chosen and its contents could be read, the buffer is
/// replaced wholesale and the path bound; a cancelled dialog or a failed read
/// changes nothing.
pub open spec fn open_step(
    d: DocView,
    chosen: Option<Seq<char>>,
    contents: Option<Seq<char>>,
) -> DocView {
    match (chosen, contents) {
        (Option::Some(p), Option::Some(c)) => DocView { text: c, path: Option::Some(p), ..d },
        _ => d,
    }
}

/// Save, first half: an unbound document takes whatever the destination
/// prompt returned (a cancelled prompt leaves it unbound); a bound document
/// keeps its path.
pub open spec fn save_bind_step(d: DocView, prompt: Option<Seq<char>>) -> DocView {
    if d.path is None {
        DocView { path: prompt, ..d }
    } else {
        d
    }
}

/// Save, second half: the write that Save performs — the whole buffer to the
/// bound path — or no write at all while the document is unbound.
pub open spec fn write_of(d: DocView) -> Option<(Seq<char>, Seq<char>)> {
    match d.path {
        Option::Some(p) => Option::Some((p, d.text)),
        Option::None => Option::None,
    }
}

/// Save-As, first half: the write goes to the freshly chosen path, whatever
/// the current binding; a cancelled prompt asks for no write.
pub open spec fn save_as_write_of(d: DocView, chosen: Option<Seq<char>>) -> Option<
    (Seq<char>, Seq<char>),
> {
    match chosen {
        Option::Some(p) => Option::Some((p, d.text)),
        Option::None => Option::None,
    }
}

/// Save-As, second half: only a successful write rebinds the document; a
/// failed one leaves the old binding in place.
pub open spec fn save_as_commit_step(d: DocView, path: Seq<char>, write_ok: bool) -> DocView {
    if write_ok {
        DocView { path: Option::Some(path), ..d }
    } else {
        d
    }
}

impl Default for Project1 {
    /// A fresh document: empty buffer, unbound, not pinned.
    fn default() -> (d: Self)
        ensures
            d@ == (DocView { text: Seq::<char>::empty(), path: Option::None, pinned: false }),
    {
        Project1 {
            text_buffer: String::new(),
            file_path: None,
            is_window_pinned: false,
        }
    }
}

impl Project1 {
    /// Edit: unconditional replacement of the buffer by the text widget.
    pub fn edit(&mut self, new_content: String)
        ensures
            final(self)@ == (DocView { text: new_content@, ..old(self)@ }),
    {
        self.text_buffer = new_content;
    }

    /// TogglePin: sets the pin flag.
    pub fn toggle_pin(&mut self, value: bool)
        ensures
            final(self)@ == (DocView { pinned: value, ..old(self)@ }),
    {
        self.is_window_pinned = value;
    }

    /// Open: `chosen` is what the file dialog returned, `contents` what the
    /// filesystem read of the chosen path returned. A cancelled dialog or a
    /// failed read leaves both the buffer and the binding unchanged.
    pub fn open(&mut self, chosen: Option<String>, contents: Option<String>)
        ensures
            final(self)@ == open_step(old(self)@, opt_view(chosen), opt_view(contents)),
    {
        if let Some(p) = chosen {
            if let Some(c) = contents {
                self.text_buffer = c;
                self.file_path = Some(p);
            }
        }
    }

    /// Whether Save must first prompt for a destination: exactly when the
    /// document is unbound.
    pub fn needs_save_prompt(&self) -> (r: bool)
        ensures
            r <==> self@.path is None,
    {
        self.file_path.is_none()
    }

    /// Save: `prompt` is what the destination prompt returned, where one was
    /// needed (`needs_save_prompt`); an already bound document never prompts.
    /// Returns the write the shell must perform — the whole buffer to the
    /// bound path — or nothing, when the document is unbound and the prompt
    /// was cancelled. A later write failure does not revert the binding, so
    /// the state after this call is final either way.
    pub fn save(&mut self, prompt: Option<String>) -> (w: Option<WriteRequest>)
        ensures
            final(self)@ == save_bind_step(old(self)@, opt_view(prompt)),
            req_view(w) == write_of(final(self)@),
    {
        if self.file_path.is_none() {
            self.file_path = prompt;
        }
        match &self.file_path {
            Some(p) => Some(
                WriteRequest { path: p.clone(), contents: self.text_buffer.clone() },
            ),
            None => None,
        }
    }

    /// Save-As, first half: always goes by the destination prompt, never by
    /// the current binding. Returns the write the shell must perform — the
    /// whole buffer to the chosen path — or nothing on cancellation. The
    /// state is untouched: rebinding waits for the write's outcome.
    pub fn save_as_request(&self, chosen: Option<String>) -> (w: Option<WriteRequest>)
        ensures
            req_view(w) == save_as_write_of(self@, opt_view(chosen)),
    {
        match chosen {
            Some(p) => Some(WriteRequest { path: p, contents: self.text_buffer.clone() }),
            None => None,
        }
    }

    /// Save-As, second half: `write_ok` is the outcome of the write requested
    /// by `save_as_request`. Only a successful write rebinds the document to
    /// `path`; a failure leaves the old binding, and everything else,
    /// unchanged.
    pub fn finish_save_as(&mut self, path: String, write_ok: bool)
        ensures
            final(self)@ == save_as_commit_step(old(self)@, path@, write_ok),
    {
        if write_ok {
            self.file_path = Some(path);
        }
    }

    /// The window-stacking hint, re-issued by the shell on every tick: above
    /// all other windows exactly while the document is pinned.
    pub fn window_hint(&self) -> (h: WindowHint)
        ensures
            h == (if self@.pinned {
                WindowHint::AlwaysOnTop
            } else {
                WindowHint::Normal
            }),
    {
        if self.is_window_pinned {
            WindowHint::AlwaysOnTop
        } else {
            WindowHint::Normal
        }
    }
}

} // verus!
