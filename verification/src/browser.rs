//! The file browser's decision layer: what each key asks for, what each
//! action does to the browser state, and which remote operation the
//! surrounding loop must perform next. The loop itself — drawing,
//! polling, the network calls — lives outside the library and hands
//! every result back in as a value.

use vstd::prelude::*;

verus! {

use vstd::string::StrSliceExecFns;
use vstd::string::StringExecFns;
use crate::app::App;
use crate::app::FileEntry;
use crate::keys::Key;
use crate::text::digit_char;
use crate::text::rfind_char;
use crate::text::spec_dec;
use crate::text::str_eq;
use crate::text::str_rfind;
use crate::text::string_take;
use crate::text::u64_to_string;

/// What the user asked the browser to do.
#[derive(Debug, Clone, PartialEq, Eq, Structural)]
pub enum InputAction {
    MoveUp,
    MoveDown,
    Enter,
    Download,
    Upload,
    NewDirectory,
    Rename,
    Delete,
    Execute,
    Quit,
    Idle,
}

/// The action bound to one key press in the browser.
pub open spec fn spec_input_action(key: Key, ctrl: bool) -> InputAction {
    if key == Key::Up || key == Key::Char('k') {
        InputAction::MoveUp
    } else if key == Key::Down || key == Key::Char('j') {
        InputAction::MoveDown
    } else if key == Key::Enter {
        InputAction::Enter
    } else if key == Key::Char('d') {
        InputAction::Download
    } else if key == Key::Char('u') {
        InputAction::Upload
    } else if key == Key::Char('n') {
        InputAction::NewDirectory
    } else if key == Key::Char('r') {
        InputAction::Rename
    } else if key == Key::Delete || key == Key::Char('x') {
        InputAction::Delete
    } else if key == Key::Char('e') {
        InputAction::Execute
    } else if (key == Key::Char('q') || key == Key::Char('c')) && ctrl {
        InputAction::Quit
    } else {
        InputAction::Idle
    }
}

/// Maps one key press to the browser action it is bound to; quitting
/// needs Control held.
pub fn handle_input_key(key: Key, ctrl: bool) -> (r: InputAction)
    ensures
        r == spec_input_action(key, ctrl),
{
    match key {
        Key::Up => InputAction::MoveUp,
        Key::Down => InputAction::MoveDown,
        Key::Enter => InputAction::Enter,
        Key::Delete => InputAction::Delete,
        Key::Char(c) => {
            if c == 'k' {
                InputAction::MoveUp
            } else if c == 'j' {
                InputAction::MoveDown
            } else if c == 'd' {
                InputAction::Download
            } else if c == 'u' {
                InputAction::Upload
            } else if c == 'n' {
                InputAction::NewDirectory
            } else if c == 'r' {
                InputAction::Rename
            } else if c == 'x' {
                InputAction::Delete
            } else if c == 'e' {
                InputAction::Execute
            } else if (c == 'q' || c == 'c') && ctrl {
                InputAction::Quit
            } else {
                InputAction::Idle
            }
        },
        _ => InputAction::Idle,
    }
}

/// The remote work the browser loop must do next, if any.
#[derive(Debug)]
pub enum BrowserCommand {
    /// Nothing to do outside; the state change, if any, was local.
    Stay,
    /// List this directory and hand the entries back.
    ListDirectory(String),
    /// Open this remote file in the editor.
    OpenEditor { path: String, name: String },
    /// Stream this remote file into a local file of the entry's name.
    Download { remote_path: String, local_name: String },
    /// Remove this entry, then refresh the listing.
    Delete { path: String, is_dir: bool },
}

/// A path with trailing slashes removed.
pub open spec fn rtrim_slash(s: Seq<char>) -> Seq<char>
    decreases s.len(),
{
    if s.len() > 0 && s.last() == '/' {
        rtrim_slash(s.drop_last())
    } else {
        s
    }
}

/// The parent of a remote path: everything up to the last slash of the
/// slash-trimmed path, or the root when nothing is left.
pub open spec fn spec_parent_path(s: Seq<char>) -> Seq<char> {
    if s == "/"@ {
        "/"@
    } else {
        let t = rtrim_slash(s);
        match rfind_char(t, '/') {
            Some(p) => if p == 0 {
                "/"@
            } else {
                t.take(p)
            },
            None => "/"@,
        }
    }
}

/// The directory above a remote path; the root is its own parent.
pub fn get_parent_path(path: &str) -> (r: String)
    ensures
        r@ == spec_parent_path(path@),
{
    if str_eq(path, "/") {
        return String::from_str("/");
    }
    let n = path.unicode_len();
    let mut e: usize = n;
    proof {
        assert(path@.take(n as int) =~= path@);
    }
    while e > 0 && path.get_char(e - 1) == '/'
        invariant
            e <= n,
            n == path@.len(),
            rtrim_slash(path@) == rtrim_slash(path@.take(e as int)),
        decreases e,
    {
        proof {
            assert(path@.take(e as int).drop_last() =~= path@.take(e - 1));
        }
        e = e - 1;
    }
    proof {
        if e > 0 {
            assert(path@.take(e as int).last() == path@[e - 1]);
        }
        assert(rtrim_slash(path@) == path@.take(e as int));
    }
    let trimmed = string_take(path, e);
    match str_rfind(trimmed.as_str(), '/') {
        Some(pos) => {
            if pos == 0 {
                String::from_str("/")
            } else {
                string_take(trimmed.as_str(), pos)
            }
        },
        None => String::from_str("/"),
    }
}

/// One kibibyte: the step between display units.
pub const KIB: u64 = 1024;

/// A scaled size with one decimal digit: the quantity times ten divided
/// by the unit, rounded to the nearest whole with ties to even, then
/// printed as whole part, a dot, and the tenths digit.
pub open spec fn spec_scaled(bytes: nat, d: nat, unit: Seq<char>) -> Seq<char> {
    let n = bytes * 10;
    let q = n / d;
    let r = n % d;
    let rounded: nat = if 2 * r > d {
        q + 1
    } else if 2 * r == d && q % 2 == 1 {
        q + 1
    } else {
        q
    };
    spec_dec(rounded / 10) + seq!['.'] + seq![digit_char((rounded % 10) as int)] + unit
}

/// A byte count for display: whole bytes below one KiB, otherwise one
/// decimal digit in the largest unit the count reaches.
pub open spec fn spec_format_size(bytes: nat) -> Seq<char> {
    if bytes < 1024 {
        spec_dec(bytes) + " B"@
    } else if bytes < 1024 * 1024 {
        spec_scaled(bytes, 1024, " KB"@)
    } else if bytes < 1024 * 1024 * 1024 {
        spec_scaled(bytes, 1024 * 1024, " MB"@)
    } else if bytes < 1024 * 1024 * 1024 * 1024 {
        spec_scaled(bytes, 1024 * 1024 * 1024, " GB"@)
    } else {
        spec_scaled(bytes, 1024 * 1024 * 1024 * 1024, " TB"@)
    }
}

fn format_scaled(bytes: u64, d: u64, unit: &str) -> (r: String)
    requires
        d >= 10,
        bytes >= d,
    ensures
        r@ == spec_scaled(bytes as nat, d as nat, unit@),
{
    let n: u128 = (bytes as u128) * 10;
    let dd: u128 = d as u128;
    let q: u128 = n / dd;
    let rem: u128 = n % dd;
    let rounded: u128 = if 2 * rem > dd {
        q + 1
    } else if 2 * rem == dd && q % 2 == 1 {
        q + 1
    } else {
        q
    };
    proof {
        assert(rounded <= q + 1);
        vstd::arithmetic::div_mod::lemma_div_is_ordered_by_denominator(n as int, 10, dd as int);
        assert(q <= n / 10);
    }
    let whole: u64 = (rounded / 10) as u64;
    let tenth: u8 = (rounded % 10) as u8;
    let mut out = u64_to_string(whole);
    out.push('.');
    let dch: char = match tenth {
        0 => '0',
        1 => '1',
        2 => '2',
        3 => '3',
        4 => '4',
        5 => '5',
        6 => '6',
        7 => '7',
        8 => '8',
        _ => '9',
    };
    out.push(dch);
    out.append(unit);
    proof {
        assert(out@ =~= spec_scaled(bytes as nat, d as nat, unit@));
    }
    out
}

/// Formats a byte count for the file list: whole bytes up to one KiB,
/// then one decimal digit in KiB, MiB, GiB or TiB steps.
pub fn format_size(bytes: u64) -> (r: String)
    ensures
        r@ == spec_format_size(bytes as nat),
{
    if bytes < KIB {
        let mut out = u64_to_string(bytes);
        out.append(" B");
        out
    } else if bytes < KIB * KIB {
        format_scaled(bytes, KIB, " KB")
    } else if bytes < KIB * KIB * KIB {
        format_scaled(bytes, KIB * KIB, " MB")
    } else if bytes < KIB * KIB * KIB * KIB {
        format_scaled(bytes, KIB * KIB * KIB, " GB")
    } else {
        format_scaled(bytes, KIB * KIB * KIB * KIB, " TB")
    }
}

/// Replaces the browser's file list with a fresh listing and pulls the
/// selection back inside it; an empty listing leaves the selection at
/// the top.
pub fn set_files(app: &mut App, files: Vec<FileEntry>)
    ensures
        final(app).files@ == files@,
        old(app).selected_index < files@.len() ==> final(app).selected_index == old(
            app,
        ).selected_index,
        old(app).selected_index >= files@.len() && files@.len() > 0 ==> final(app).selected_index
            == files@.len() - 1,
        files@.len() == 0 ==> final(app).selected_index == 0,
        final(app).current_path == old(app).current_path,
        final(app).should_quit == old(app).should_quit,
        final(app).status_message == old(app).status_message,
{
    app.files = files;
    if app.selected_index >= app.files.len() {
        if app.files.len() > 0 {
            app.selected_index = app.files.len() - 1;
        } else {
            app.selected_index = 0;
        }
    }
}

/// Carries out one browser action on the state and names the remote
/// work, if any, that the loop must do before the next draw: moving the
/// selection is local; entering a directory changes the current path and
/// asks for its listing; entering a file, downloading and deleting name
/// the selected entry; the unimplemented actions only set a status line.
pub fn browser_step(app: &mut App, action: InputAction) -> (cmd: BrowserCommand)
    requires
        old(app).selected_index < usize::MAX,
    ensures
        action == InputAction::MoveUp || action == InputAction::MoveDown || action
            == InputAction::Quit ==> cmd is Stay,
        action == InputAction::Quit ==> final(app).should_quit,
        action == InputAction::MoveUp || action == InputAction::MoveDown ==> final(app).files@
            == old(app).files@ && final(app).current_path == old(app).current_path,
        action == InputAction::Enter ==> ({
            if old(app).selected_index < old(app).files@.len() {
                let sel = old(app).files@[old(app).selected_index as int];
                if sel.is_dir {
                    &&& (cmd matches BrowserCommand::ListDirectory(p) && p@ == (if sel.name@
                        == ".."@ {
                        spec_parent_path(old(app).current_path@)
                    } else {
                        sel.path@
                    }) && final(app).current_path@ == p@)
                    &&& final(app).selected_index == 0
                } else {
                    &&& (cmd matches BrowserCommand::OpenEditor { path, name } && path@
                        == sel.path@ && name@ == sel.name@)
                    &&& *final(app) == *old(app)
                }
            } else {
                cmd is Stay && *final(app) == *old(app)
            }
        }),
        action == InputAction::Download ==> ({
            if old(app).selected_index < old(app).files@.len() && !old(app).files@[old(
                app,
            ).selected_index as int].is_dir {
                let sel = old(app).files@[old(app).selected_index as int];
                (cmd matches BrowserCommand::Download { remote_path, local_name } && remote_path@
                    == sel.path@ && local_name@ == sel.name@) && *final(app) == *old(app)
            } else {
                cmd is Stay && *final(app) == *old(app)
            }
        }),
        action == InputAction::Delete ==> ({
            if old(app).selected_index < old(app).files@.len() {
                let sel = old(app).files@[old(app).selected_index as int];
                (cmd matches BrowserCommand::Delete { path, is_dir } && path@ == sel.path@
                    && is_dir == sel.is_dir) && *final(app) == *old(app)
            } else {
                cmd is Stay && *final(app) == *old(app)
            }
        }),
        action == InputAction::Upload ==> cmd is Stay && final(app).status_message@
            == "Upload not yet implemented"@,
        action == InputAction::NewDirectory ==> cmd is Stay && final(app).status_message@
            == "New directory not yet implemented"@,
        action == InputAction::Rename ==> cmd is Stay && final(app).status_message@
            == "Rename not yet implemented"@,
        action == InputAction::Execute ==> cmd is Stay && final(app).status_message@
            == "Execute not yet implemented"@,
        action == InputAction::Idle ==> cmd is Stay && *final(app) == *old(app),
{
    match action {
        InputAction::MoveUp => {
            app.select_previous();
            BrowserCommand::Stay
        },
        InputAction::MoveDown => {
            app.select_next();
            BrowserCommand::Stay
        },
        InputAction::Enter => {
            let sel: Option<(String, String, bool)> = match app.get_selected_file() {
                Some(f) => Some((f.name.clone(), f.path.clone(), f.is_dir)),
                None => None,
            };
            match sel {
                Some((name, fpath, is_dir)) => {
                    if is_dir {
                        let new_path = if str_eq(name.as_str(), "..") {
                            get_parent_path(app.current_path.as_str())
                        } else {
                            fpath
                        };
                        app.current_path = new_path.clone();
                        app.selected_index = 0;
                        BrowserCommand::ListDirectory(new_path)
                    } else {
                        BrowserCommand::OpenEditor { path: fpath, name }
                    }
                },
                None => BrowserCommand::Stay,
            }
        },
        InputAction::Download => {
            let sel: Option<(String, String, bool)> = match app.get_selected_file() {
                Some(f) => Some((f.name.clone(), f.path.clone(), f.is_dir)),
                None => None,
            };
            match sel {
                Some((name, fpath, is_dir)) => {
                    if !is_dir {
                        BrowserCommand::Download { remote_path: fpath, local_name: name }
                    } else {
                        BrowserCommand::Stay
                    }
                },
                None => BrowserCommand::Stay,
            }
        },
        InputAction::Delete => {
            let sel: Option<(String, bool)> = match app.get_selected_file() {
                Some(f) => Some((f.path.clone(), f.is_dir)),
                None => None,
            };
            match sel {
                Some((fpath, is_dir)) => BrowserCommand::Delete { path: fpath, is_dir },
                None => BrowserCommand::Stay,
            }
        },
        InputAction::Upload => {
            app.set_status(String::from_str("Upload not yet implemented"));
            BrowserCommand::Stay
        },
        InputAction::NewDirectory => {
            app.set_status(String::from_str("New directory not yet implemented"));
            BrowserCommand::Stay
        },
        InputAction::Rename => {
            app.set_status(String::from_str("Rename not yet implemented"));
            BrowserCommand::Stay
        },
        InputAction::Execute => {
            app.set_status(String::from_str("Execute not yet implemented"));
            BrowserCommand::Stay
        },
        InputAction::Quit => {
            app.quit();
            BrowserCommand::Stay
        },
        InputAction::Idle => BrowserCommand::Stay,
    }
}

} // verus!
