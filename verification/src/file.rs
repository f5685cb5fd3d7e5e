//! A file-like resource: a named byte buffer guarded by an explicit
//! open/closed lifecycle. Reading is valid only while the file is open;
//! a read in any other state fails without touching the caller's buffer.

use vstd::prelude::*;

verus! {

/// Whether a file is currently open for reading.
#[derive(Debug, PartialEq, Eq, Structural)]
pub enum FileState {
    Open,
    Closed,
}

/// Why a file operation failed.
#[derive(Debug, PartialEq, Eq, Structural)]
pub enum FileError {
    /// A read was attempted while the file was not open.
    NotOpenForReading,
}

/// The mathematical content of a `File`: its name, lifecycle state and bytes.
#[verifier::ext_equal]
pub struct FileView {
    pub name: Seq<char>,
    pub state: FileState,
    pub data: Seq<u8>,
}

/// The state a file reaches when it is opened: only the tag changes.
pub open spec fn opened_view(v: FileView) -> FileView {
    FileView { state: FileState::Open, ..v }
}

/// The state a file reaches when it is closed: only the tag changes.
pub open spec fn closed_view(v: FileView) -> FileView {
    FileView { state: FileState::Closed, ..v }
}

/// A named byte buffer whose contents are readable only in the `Open` state.
#[derive(Debug)]
pub struct File {
    pub name: String,
    pub state: FileState,
    data: Vec<u8>,
}

impl View for File {
    type V = FileView;

    closed spec fn view(&self) -> FileView {
        FileView { name: self.name@, state: self.state, data: self.data@ }
    }
}

impl File {
    /// New files are assumed to be empty, but a name is required.
    pub fn new(name: &str) -> (f: File)
        ensures
            f@ == (FileView {
                name: name@,
                state: FileState::Closed,
                data: Seq::<u8>::empty(),
            }),
    {
        File { name: String::from_str(name), state: FileState::Closed, data: Vec::new() }
    }

    /// Creates a new file instance with associated data.
    pub fn new_with_data(name: &str, data: &[u8]) -> (f: File)
        ensures
            f@ == (FileView { name: name@, state: FileState::Closed, data: data@ }),
    {
        let mut f = File::new(name);
        f.data = vstd::slice::slice_to_vec(data);
        f
    }

    /// Returns the file's length in bytes.
    pub fn len(&self) -> (n: usize)
        ensures
            n == self@.data.len(),
    {
        self.data.len()
    }

    /// Checks if the file data is empty.
    pub fn is_empty(&self) -> (b: bool)
        ensures
            b == (self@.data.len() == 0),
    {
        self.data.is_empty()
    }

    /// Returns the file's name.
    pub fn name(&self) -> (n: String)
        ensures
            n@ == self@.name,
    {
        self.name.clone()
    }

    /// Appends the file's full contents to `save_to` and returns the number
    /// of bytes appended; valid only while the file is open. A read in any
    /// other state fails and leaves `save_to` untouched.
    pub fn read(&self, save_to: &mut Vec<u8>) -> (r: Result<usize, FileError>)
        ensures
            match r {
                Ok(n) => self@.state == FileState::Open && n == self@.data.len()
                    && final(save_to)@ == old(save_to)@ + self@.data,
                Err(e) => self@.state != FileState::Open && e == FileError::NotOpenForReading
                    && final(save_to)@ == old(save_to)@,
            },
    {
        if self.state != FileState::Open {
            return Err(FileError::NotOpenForReading);
        }

        let mut tmp = vstd::slice::slice_to_vec(self.data.as_slice());
        let read_length = tmp.len();

        save_to.append(&mut tmp);

        Ok(read_length)
    }
}

/// Moves the file into the `Open` state; everything else is kept.
pub fn open(f: File) -> (r: Result<File, FileError>)
    ensures
        r matches Ok(g) && g@ == opened_view(f@),
{
    let mut g = f;
    g.state = FileState::Open;
    Ok(g)
}

/// Moves the file into the `Closed` state; everything else is kept.
pub fn close(f: File) -> (r: Result<File, FileError>)
    ensures
        r matches Ok(g) && g@ == closed_view(f@),
{
    let mut g = f;
    g.state = FileState::Closed;
    Ok(g)
}

/// Closing a file is idempotent: closing it twice in a row leaves exactly
/// the observable state that closing it once leaves.
pub proof fn lemma_close_idempotent(v: FileView)
    ensures
        closed_view(closed_view(v)) == closed_view(v),
{
}

/// Opening changes only the lifecycle tag: the stored bytes and the name
/// survive, so a read right after `open` yields exactly the original data.
pub proof fn lemma_open_preserves_content(v: FileView)
    ensures
        opened_view(v).state == FileState::Open,
        opened_view(v).data == v.data,
        opened_view(v).name == v.name,
{
}

} // verus!
