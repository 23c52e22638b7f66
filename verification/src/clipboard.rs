//! The seam to the local clipboard, with a stub and a test double.
use vstd::prelude::*;

verus! {

/// A clipboard operation failed.
#[derive(Debug, PartialEq, Eq)]
pub enum ClipboardError {
    /// The backend does not support the operation.
    Unsupported {
        /// Why not.
        reason: &'static str,
    },
    /// The system's clipboard failed. The message describes the failure, never the content.
    Backend(String),
}

impl ClipboardError {
    /// The error as text.
    pub open spec fn message(self) -> Seq<char> {
        match self {
            ClipboardError::Unsupported { reason } => "unsupported clipboard operation: "@
                + reason@,
            ClipboardError::Backend(text) => "clipboard backend error: "@ + text@,
        }
    }

    /// The error as text.
    pub fn to_text(&self) -> (r: String)
        ensures
            r@ == self.message(),
    {
        match self {
            ClipboardError::Unsupported { reason } => {
                let mut s = "unsupported clipboard operation: ".to_owned();
                s.append(reason);
                s
            },
            ClipboardError::Backend(text) => {
                let mut s = "clipboard backend error: ".to_owned();
                s.append(text.as_str());
                s
            },
        }
    }
}

/// Reads and writes the text of the local clipboard. Text must have been made safe and bounded
/// before it is written: an implementation writes what it is given.
pub trait ClipboardAccess: Send {
    /// The clipboard's text; `None` when it is empty or holds no text.
    fn get_text(&mut self) -> Result<Option<String>, ClipboardError>;

    /// Write `text` to the clipboard.
    fn set_text(&mut self, text: &str) -> Result<(), ClipboardError>;
}

/// A clipboard that reads empty and discards what is written. A session that may not use the
/// clipboard is given this one, so that it cannot reach the real one.
#[derive(Debug, Clone, Copy)]
pub struct NoopClipboard;

impl NoopClipboard {
    /// A stub.
    pub fn new() -> (r: Self)
        ensures
            r == NoopClipboard,
    {
        NoopClipboard
    }
}

impl Default for NoopClipboard {
    fn default() -> (r: Self)
        ensures
            r == NoopClipboard,
    {
        NoopClipboard
    }
}

impl ClipboardAccess for NoopClipboard {
    fn get_text(&mut self) -> (r: Result<Option<String>, ClipboardError>)
        ensures
            r == Ok::<Option<String>, ClipboardError>(None),
            *final(self) == *old(self),
    {
        Ok(None)
    }

    fn set_text(&mut self, text: &str) -> (r: Result<(), ClipboardError>)
        ensures
            r == Ok::<(), ClipboardError>(()),
            *final(self) == *old(self),
    {
        Ok(())
    }
}

/// Abstract state of a [`RecordingClipboard`].
pub struct Recording {
    /// What was written, in order.
    pub writes: Seq<Seq<char>>,
    /// What reads give.
    pub read_value: Option<Seq<char>>,
}

/// The text of an optional string.
pub open spec fn text_of(value: Option<String>) -> Option<Seq<char>> {
    match value {
        Some(s) => Some(s@),
        None => None,
    }
}

/// A clipboard that records every write in order and serves a preset value to reads.
#[derive(Debug)]
pub struct RecordingClipboard {
    writes: Vec<String>,
    read_value: Option<String>,
}

impl View for RecordingClipboard {
    type V = Recording;

    closed spec fn view(&self) -> Recording {
        Recording {
            writes: self.writes@.map_values(|s: String| s@),
            read_value: text_of(self.read_value),
        }
    }
}

impl RecordingClipboard {
    /// Nothing written, nothing to read.
    pub fn new() -> (r: Self)
        ensures
            r@ == (Recording { writes: Seq::empty(), read_value: None }),
    {
        let r = RecordingClipboard { writes: Vec::new(), read_value: None };
        assert(r@.writes =~= Seq::<Seq<char>>::empty());
        r
    }

    /// Set the value that reads give from now on.
    pub fn set_read_value(&mut self, value: Option<String>)
        ensures
            final(self)@ == (Recording { read_value: text_of(value), ..old(self)@ }),
    {
        self.read_value = value;
    }

    /// What was written, in order.
    pub fn writes(&self) -> (r: &[String])
        ensures
            r@.map_values(|s: String| s@) == self@.writes,
    {
        self.writes.as_slice()
    }

    /// How many writes there were.
    pub fn len(&self) -> (r: usize)
        ensures
            r == self@.writes.len(),
    {
        self.writes.len()
    }

    /// Whether there was no write.
    pub fn is_empty(&self) -> (r: bool)
        ensures
            r == (self@.writes.len() == 0),
    {
        self.writes.is_empty()
    }

    /// Forget the writes; the value for reads stays.
    pub fn clear(&mut self)
        ensures
            final(self)@ == (Recording { writes: Seq::empty(), ..old(self)@ }),
    {
        self.writes.clear();
        assert(self@.writes =~= Seq::<Seq<char>>::empty());
    }
}

impl Default for RecordingClipboard {
    fn default() -> (r: Self)
        ensures
            r@ == (Recording { writes: Seq::empty(), read_value: None }),
    {
        RecordingClipboard::new()
    }
}

impl ClipboardAccess for RecordingClipboard {
    fn get_text(&mut self) -> (r: Result<Option<String>, ClipboardError>)
        ensures
            r is Ok,
            text_of(r->Ok_0) == old(self)@.read_value,
            final(self)@ == old(self)@,
    {
        let value = match &self.read_value {
            Some(s) => Some(s.clone()),
            None => None,
        };
        Ok(value)
    }

    fn set_text(&mut self, text: &str) -> (r: Result<(), ClipboardError>)
        ensures
            r is Ok,
            final(self)@ == (Recording { writes: old(self)@.writes.push(text@), ..old(self)@ }),
    {
        self.writes.push(text.to_owned());
        assert(self@.writes =~= old(self)@.writes.push(text@));
        Ok(())
    }
}

} // verus!
