//! The per-connection session state that outlives a run: where the
//! browser was and what was selected. Writing it to and reading it from
//! disk happen outside the library.

use vstd::prelude::*;

verus! {

/// What is remembered about one connection between runs.
#[derive(Debug, Clone)]
pub struct SessionState {
    pub host: String,
    pub port: u16,
    pub username: String,
    pub current_path: String,
    pub selected_index: usize,
}

impl SessionState {
    pub fn new(
        host: String,
        port: u16,
        username: String,
        current_path: String,
        selected_index: usize,
    ) -> (r: SessionState)
        ensures
            r.host == host,
            r.port == port,
            r.username == username,
            r.current_path == current_path,
            r.selected_index == selected_index,
    {
        SessionState { host, port, username, current_path, selected_index }
    }
}

} // verus!
