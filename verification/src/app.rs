//! The file browser's state: the current remote directory, the entries last
//! listed in it, and which one is selected.

use vstd::prelude::*;

verus! {

/// One entry of a remote directory listing. An immutable snapshot: it is not
/// kept in sync with the remote filesystem, a fresh listing must be requested
/// after any mutation.
#[derive(Debug, Clone)]
pub struct FileEntry {
    pub name: String,
    pub path: String,
    pub is_dir: bool,
    pub size: u64,
    pub modified: Option<i64>,
    pub permissions: Option<u32>,
}

/// Browser state: where we are, what we see, and what is selected.
pub struct App {
    pub current_path: String,
    pub files: Vec<FileEntry>,
    pub selected_index: usize,
    pub should_quit: bool,
    pub status_message: String,
}

impl App {
    /// A fresh browser at the remote root with nothing listed yet.
    pub fn new() -> (app: App)
        ensures
            app.current_path@ == "/"@,
            app.files@.len() == 0,
            app.selected_index == 0,
            !app.should_quit,
            app.status_message@.len() == 0,
    {
        App {
            current_path: String::from_str("/"),
            files: Vec::new(),
            selected_index: 0,
            should_quit: false,
            status_message: String::new(),
        }
    }

    /// Move the selection down one entry, wrapping to the top.
    pub fn select_next(&mut self)
        requires
            old(self).selected_index < usize::MAX,
        ensures
            old(self).files@.len() == 0 ==> *final(self) == *old(self),
            old(self).files@.len() > 0 ==> final(self).selected_index as int == (old(self).selected_index + 1) as int % (old(self).files@.len() as int),
            final(self).files@ == old(self).files@,
            final(self).current_path == old(self).current_path,
            final(self).should_quit == old(self).should_quit,
            final(self).status_message == old(self).status_message,
    {
        if self.files.len() > 0 {
            self.selected_index = (self.selected_index + 1) % self.files.len();
        }
    }

    /// Move the selection up one entry, wrapping to the bottom.
    pub fn select_previous(&mut self)
        ensures
            old(self).files@.len() == 0 ==> *final(self) == *old(self),
            old(self).files@.len() > 0 && old(self).selected_index == 0 ==> final(self).selected_index == old(self).files@.len() - 1,
            old(self).files@.len() > 0 && old(self).selected_index > 0 ==> final(self).selected_index == old(self).selected_index - 1,
            final(self).files@ == old(self).files@,
            final(self).current_path == old(self).current_path,
            final(self).should_quit == old(self).should_quit,
            final(self).status_message == old(self).status_message,
    {
        if self.files.len() > 0 {
            if self.selected_index == 0 {
                self.selected_index = self.files.len() - 1;
            } else {
                self.selected_index = self.selected_index - 1;
            }
        }
    }

    /// The entry under the cursor, if the cursor is inside the list.
    pub fn get_selected_file(&self) -> (r: Option<&FileEntry>)
        ensures
            match r {
                Some(e) => self.selected_index < self.files@.len() && *e == self.files@[self.selected_index as int],
                None => self.selected_index >= self.files@.len(),
            },
    {
        if self.selected_index < self.files.len() {
            Some(&self.files[self.selected_index])
        } else {
            None
        }
    }

    /// Ask the browser loop to stop.
    pub fn quit(&mut self)
        ensures
            final(self).should_quit,
            final(self).files@ == old(self).files@,
            final(self).current_path == old(self).current_path,
            final(self).selected_index == old(self).selected_index,
            final(self).status_message == old(self).status_message,
    {
        self.should_quit = true;
    }

    /// Replace the status line shown under the file list.
    pub fn set_status(&mut self, message: String)
        ensures
            final(self).status_message == message,
            final(self).files@ == old(self).files@,
            final(self).current_path == old(self).current_path,
            final(self).selected_index == old(self).selected_index,
            final(self).should_quit == old(self).should_quit,
    {
        self.status_message = message;
    }
}

} // verus!
