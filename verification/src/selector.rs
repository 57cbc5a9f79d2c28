//! The saved-connection picker and its edit form: which entry is
//! highlighted, what each key does, and the little five-field form that
//! edits one connection in place. Drawing and the clipboard live outside
//! the library; the step function names what they must do.

use vstd::prelude::*;

verus! {

use vstd::string::StrSliceExecFns;
use vstd::string::StringExecFns;
use crate::connections::SavedConnection;
use crate::keys::Key;
use crate::text::dec_val;
use crate::text::is_port_str;
use crate::text::parse_u16;
use crate::text::port_body;
use crate::text::spec_dec;
use crate::text::string_drop_last;
use crate::text::u64_to_string;

/// How the picker ended, when it did.
#[derive(Debug, Clone)]
pub enum SelectorResult {
    /// Connect to this entry.
    Connect(SavedConnection),
    /// Open this entry in the edit form.
    Edit(SavedConnection),
    /// Leave without choosing.
    Cancel,
}

/// The field of the edit form that has the cursor.
#[derive(Debug, Clone, Copy, PartialEq, Eq, Structural)]
pub enum EditField {
    Name,
    Host,
    Port,
    Username,
    IdentityFile,
}

/// The field after this one, wrapping around.
pub open spec fn next_field_of(f: EditField) -> EditField {
    match f {
        EditField::Name => EditField::Host,
        EditField::Host => EditField::Port,
        EditField::Port => EditField::Username,
        EditField::Username => EditField::IdentityFile,
        EditField::IdentityFile => EditField::Name,
    }
}

/// The field before this one, wrapping around.
pub open spec fn prev_field_of(f: EditField) -> EditField {
    match f {
        EditField::Name => EditField::IdentityFile,
        EditField::Host => EditField::Name,
        EditField::Port => EditField::Host,
        EditField::Username => EditField::Port,
        EditField::IdentityFile => EditField::Username,
    }
}

impl EditField {
    pub fn next(self) -> (r: EditField)
        ensures
            r == next_field_of(self),
    {
        match self {
            EditField::Name => EditField::Host,
            EditField::Host => EditField::Port,
            EditField::Port => EditField::Username,
            EditField::Username => EditField::IdentityFile,
            EditField::IdentityFile => EditField::Name,
        }
    }

    pub fn prev(self) -> (r: EditField)
        ensures
            r == prev_field_of(self),
    {
        match self {
            EditField::Name => EditField::IdentityFile,
            EditField::Host => EditField::Name,
            EditField::Port => EditField::Host,
            EditField::Username => EditField::Port,
            EditField::IdentityFile => EditField::Username,
        }
    }
}

/// The form that edits one saved connection: every field as editable
/// text, plus which field has the cursor and the name the entry had
/// when editing began.
#[derive(Debug, Clone)]
pub struct EditForm {
    pub name: String,
    pub host: String,
    pub port: String,
    pub username: String,
    pub identity_file: String,
    pub current_field: EditField,
    pub original_name: String,
}

/// The text of one field of the form.
pub open spec fn field_text(f: EditForm, fd: EditField) -> Seq<char> {
    match fd {
        EditField::Name => f.name@,
        EditField::Host => f.host@,
        EditField::Port => f.port@,
        EditField::Username => f.username@,
        EditField::IdentityFile => f.identity_file@,
    }
}

impl EditForm {
    /// Opens the form over one saved connection, cursor on the name; the
    /// port is spelled out in decimal, a missing identity path shows as
    /// empty text.
    pub fn from_connection(conn: &SavedConnection) -> (r: EditForm)
        ensures
            r.name@ == conn.name@,
            r.host@ == conn.host@,
            r.port@ == spec_dec(conn.port as nat),
            r.username@ == conn.username@,
            match conn.identity_file {
                Some(ref p) => r.identity_file@ == p@,
                None => r.identity_file@.len() == 0,
            },
            r.current_field == EditField::Name,
            r.original_name@ == conn.name@,
    {
        EditForm {
            name: conn.name.clone(),
            host: conn.host.clone(),
            port: u64_to_string(conn.port as u64),
            username: conn.username.clone(),
            identity_file: match &conn.identity_file {
                Some(p) => p.clone(),
                None => String::new(),
            },
            current_field: EditField::Name,
            original_name: conn.name.clone(),
        }
    }

    /// The text under the cursor.
    pub fn current_value(&self) -> (r: &str)
        ensures
            r@ == field_text(*self, self.current_field),
    {
        match self.current_field {
            EditField::Name => self.name.as_str(),
            EditField::Host => self.host.as_str(),
            EditField::Port => self.port.as_str(),
            EditField::Username => self.username.as_str(),
            EditField::IdentityFile => self.identity_file.as_str(),
        }
    }

    /// Mutable access to the text under the cursor.
    pub fn current_value_mut(&mut self) -> (r: &mut String)
        ensures
            (*r)@ == field_text(*old(self), old(self).current_field),
            field_text(*final(self), old(self).current_field) == (*final(r))@,
            forall|g: EditField|
                g != old(self).current_field ==> field_text(*final(self), g) == field_text(
                    *old(self),
                    g,
                ),
            final(self).current_field == old(self).current_field,
            final(self).original_name == old(self).original_name,
    {
        match self.current_field {
            EditField::Name => &mut self.name,
            EditField::Host => &mut self.host,
            EditField::Port => &mut self.port,
            EditField::Username => &mut self.username,
            EditField::IdentityFile => &mut self.identity_file,
        }
    }

    /// Moves the cursor to the next field.
    pub fn next_field(&mut self)
        ensures
            final(self).current_field == next_field_of(old(self).current_field),
            forall|g: EditField| field_text(*final(self), g) == field_text(*old(self), g),
            final(self).original_name == old(self).original_name,
    {
        self.current_field = self.current_field.next();
    }

    /// Moves the cursor to the previous field.
    pub fn prev_field(&mut self)
        ensures
            final(self).current_field == prev_field_of(old(self).current_field),
            forall|g: EditField| field_text(*final(self), g) == field_text(*old(self), g),
            final(self).original_name == old(self).original_name,
    {
        self.current_field = self.current_field.prev();
    }

    /// Appends one character to the field under the cursor.
    pub fn insert_char(&mut self, c: char)
        ensures
            field_text(*final(self), old(self).current_field) == field_text(
                *old(self),
                old(self).current_field,
            ).push(c),
            forall|g: EditField|
                g != old(self).current_field ==> field_text(*final(self), g) == field_text(
                    *old(self),
                    g,
                ),
            final(self).current_field == old(self).current_field,
            final(self).original_name == old(self).original_name,
    {
        match self.current_field {
            EditField::Name => self.name.push(c),
            EditField::Host => self.host.push(c),
            EditField::Port => self.port.push(c),
            EditField::Username => self.username.push(c),
            EditField::IdentityFile => self.identity_file.push(c),
        }
    }

    /// Drops the last character of the field under the cursor; an empty
    /// field stays empty.
    pub fn delete_char(&mut self)
        ensures
            ({
                let t = field_text(*old(self), old(self).current_field);
                field_text(*final(self), old(self).current_field) == (if t.len() > 0 {
                    t.drop_last()
                } else {
                    t
                })
            }),
            forall|g: EditField|
                g != old(self).current_field ==> field_text(*final(self), g) == field_text(
                    *old(self),
                    g,
                ),
            final(self).current_field == old(self).current_field,
            final(self).original_name == old(self).original_name,
    {
        match self.current_field {
            EditField::Name => {
                let t = string_drop_last(self.name.as_str());
                self.name = t;
            },
            EditField::Host => {
                let t = string_drop_last(self.host.as_str());
                self.host = t;
            },
            EditField::Port => {
                let t = string_drop_last(self.port.as_str());
                self.port = t;
            },
            EditField::Username => {
                let t = string_drop_last(self.username.as_str());
                self.username = t;
            },
            EditField::IdentityFile => {
                let t = string_drop_last(self.identity_file.as_str());
                self.identity_file = t;
            },
        }
    }

    /// Reads the form back into a saved connection. Succeeds exactly
    /// when the port text is a port number; an empty identity field
    /// means no identity path.
    pub fn to_connection(&self) -> (r: Result<SavedConnection, String>)
        ensures
            r is Ok <==> is_port_str(self.port@),
            r matches Ok(c) ==> ({
                &&& c.name@ == self.name@
                &&& c.host@ == self.host@
                &&& c.port as int == dec_val(port_body(self.port@))
                &&& c.username@ == self.username@
                &&& (self.identity_file@.len() == 0 ==> c.identity_file is None)
                &&& (self.identity_file@.len() > 0 ==> (c.identity_file matches Some(p) && p@
                    == self.identity_file@))
            }),
            r matches Err(m) ==> m@ == "Invalid port number"@,
    {
        match parse_u16(self.port.as_str()) {
            Some(port) => {
                let identity_file: Option<String> = if self.identity_file.as_str().is_empty() {
                    None
                } else {
                    Some(self.identity_file.clone())
                };
                Ok(
                    SavedConnection::new(
                        self.name.clone(),
                        self.host.clone(),
                        port,
                        self.username.clone(),
                        identity_file,
                    ),
                )
            },
            None => Err(String::from_str("Invalid port number")),
        }
    }
}

/// The picker over the saved connections: the list, the highlight, an
/// optional status line, and the edit form while one entry is being
/// edited.
pub struct ConnectionSelector {
    pub connections: Vec<SavedConnection>,
    pub selected_index: usize,
    pub status_message: Option<String>,
    pub edit_form: Option<EditForm>,
}

impl ConnectionSelector {
    /// A fresh picker over a list of connections, highlight on top.
    pub fn new(connections: Vec<SavedConnection>) -> (r: ConnectionSelector)
        ensures
            r.connections@ == connections@,
            r.selected_index == 0,
            r.status_message is None,
            r.edit_form is None,
    {
        ConnectionSelector { connections, selected_index: 0, status_message: None, edit_form: None }
    }
}

/// What the picker's loop must do after one key.
#[derive(Debug)]
pub enum SelectorCommand {
    /// Redraw and wait for the next key.
    Stay,
    /// Leave the picker with this choice.
    Finish(Option<SavedConnection>),
    /// Persist this update of the named entry, then redraw.
    SaveConnection { original_name: String, updated: SavedConnection },
    /// Put this text on the clipboard, then redraw.
    CopyToClipboard(String),
}

/// Carries out one key press on the picker. With the edit form open the
/// key edits the form: Esc abandons it, Enter reads it back, replaces
/// the entry it came from in the list and asks the loop to persist it,
/// and a bad port only sets the status line. Without the form, movement
/// keys shift the highlight inside the list, `e` opens the form, `c`
/// asks for the ssh command on the clipboard, Enter chooses the entry,
/// and `q`, Esc or Ctrl-c leave with nothing.
pub fn selector_step(sel: &mut ConnectionSelector, key: Key, ctrl: bool) -> (cmd: SelectorCommand)
    requires
        old(sel).connections@.len() > 0,
        old(sel).selected_index < old(sel).connections@.len(),
    ensures
        final(sel).connections@.len() == old(sel).connections@.len(),
        final(sel).selected_index < final(sel).connections@.len(),
        old(sel).edit_form is None ==> ({
            &&& key == Key::Char('q') || key == Key::Esc || (ctrl && key == Key::Char('c'))
                ==> (cmd matches SelectorCommand::Finish(r) && r is None)
            &&& (key == Key::Up || key == Key::Char('k')) ==> final(sel).selected_index as int == (
            if old(sel).selected_index > 0 {
                old(sel).selected_index - 1
            } else {
                0
            }) && final(sel).connections@ == old(sel).connections@
            &&& (key == Key::Down || key == Key::Char('j')) ==> final(sel).selected_index as int
                == (if old(sel).selected_index + 1 < old(sel).connections@.len() {
                old(sel).selected_index + 1
            } else {
                old(sel).selected_index as int
            }) && final(sel).connections@ == old(sel).connections@
            &&& key == Key::Enter ==> (cmd matches SelectorCommand::Finish(r) && r matches Some(c)
                && c == old(sel).connections@[old(sel).selected_index as int])
            &&& key == Key::Char('e') && !(ctrl && key == Key::Char('c')) ==> (final(sel).edit_form matches Some(f)
                && f.original_name@ == old(sel).connections@[old(sel).selected_index as int].name@)
        }),
        old(sel).edit_form matches Some(f) ==> ({
            &&& key == Key::Esc ==> final(sel).edit_form is None && final(sel).connections@ == old(sel).connections@
            &&& key == Key::Enter && is_port_str(f.port@) ==> (final(sel).edit_form is None && (
            cmd matches SelectorCommand::SaveConnection { original_name, updated }
                && original_name@ == f.original_name@ && updated.name@ == f.name@ && updated.host@
                == f.host@ && updated.port as int == dec_val(port_body(f.port@))
                && updated.username@ == f.username@))
            &&& key == Key::Enter && !is_port_str(f.port@) ==> (final(sel).edit_form == old(sel).edit_form && final(sel).connections@ == old(sel).connections@ && cmd is Stay)
            &&& (key == Key::Tab || key == Key::Down) ==> (final(sel).edit_form matches Some(g)
                && g.current_field == next_field_of(f.current_field))
            &&& (key == Key::BackTab || key == Key::Up) ==> (final(sel).edit_form matches Some(g)
                && g.current_field == prev_field_of(f.current_field))
            &&& (key matches Key::Char(c)) ==> (final(sel).edit_form matches Some(g) && field_text(
                g,
                f.current_field,
            ) == field_text(f, f.current_field).push(key->Char_0))
        }),
{
    let editing = edit_form_open(sel);
    if editing {
        match key {
            Key::Esc => {
                sel.edit_form = None;
                sel.status_message = Some(String::from_str("Edit cancelled"));
                SelectorCommand::Stay
            },
            Key::Enter => {
                let form_result = match &sel.edit_form {
                    Some(form) => form.to_connection(),
                    None => Err(String::new()),
                };
                match form_result {
                    Ok(updated) => {
                        let original_name = match &sel.edit_form {
                            Some(form) => form.original_name.clone(),
                            None => String::new(),
                        };
                        let n = sel.connections.len();
                        let mut i: usize = 0;
                        while i < n
                            invariant
                                i <= n,
                                n == sel.connections@.len(),
                                sel.connections@.len() == old(sel).connections@.len(),
                                sel.selected_index == old(sel).selected_index,
                                sel.selected_index < sel.connections@.len(),
                            decreases n - i,
                        {
                            if crate::text::str_eq(
                                sel.connections[i].name.as_str(),
                                original_name.as_str(),
                            ) {
                                let c = updated.duplicate();
                                sel.connections[i] = c;
                                break ;
                            }
                            i = i + 1;
                        }
                        sel.edit_form = None;
                        SelectorCommand::SaveConnection { original_name, updated }
                    },
                    Err(_) => {
                        sel.status_message = Some(String::from_str("Invalid: Invalid port number"));
                        SelectorCommand::Stay
                    },
                }
            },
            Key::Tab | Key::Down => {
                match &mut sel.edit_form {
                    Some(form) => form.next_field(),
                    None => {},
                }
                SelectorCommand::Stay
            },
            Key::BackTab | Key::Up => {
                match &mut sel.edit_form {
                    Some(form) => form.prev_field(),
                    None => {},
                }
                SelectorCommand::Stay
            },
            Key::Backspace => {
                match &mut sel.edit_form {
                    Some(form) => form.delete_char(),
                    None => {},
                }
                SelectorCommand::Stay
            },
            Key::Char(c) => {
                match &mut sel.edit_form {
                    Some(form) => form.insert_char(c),
                    None => {},
                }
                SelectorCommand::Stay
            },
            _ => SelectorCommand::Stay,
        }
    } else {
        match key {
            Key::Esc => SelectorCommand::Finish(None),
            Key::Char(c) => {
                if c == 'q' {
                    SelectorCommand::Finish(None)
                } else if c == 'c' && ctrl {
                    SelectorCommand::Finish(None)
                } else if c == 'k' {
                    if sel.selected_index > 0 {
                        sel.selected_index = sel.selected_index - 1;
                    }
                    SelectorCommand::Stay
                } else if c == 'j' {
                    let n = sel.connections.len();
                    if sel.selected_index < n - 1 {
                        sel.selected_index = sel.selected_index + 1;
                    }
                    SelectorCommand::Stay
                } else if c == 'c' {
                    let cmd_text = sel.connections[sel.selected_index].ssh_command();
                    SelectorCommand::CopyToClipboard(cmd_text)
                } else if c == 'e' {
                    let form = EditForm::from_connection(&sel.connections[sel.selected_index]);
                    sel.edit_form = Some(form);
                    SelectorCommand::Stay
                } else {
                    SelectorCommand::Stay
                }
            },
            Key::Up => {
                if sel.selected_index > 0 {
                    sel.selected_index = sel.selected_index - 1;
                }
                SelectorCommand::Stay
            },
            Key::Down => {
                let n = sel.connections.len();
                if sel.selected_index < n - 1 {
                    sel.selected_index = sel.selected_index + 1;
                }
                SelectorCommand::Stay
            },
            Key::Enter => {
                let c = sel.connections[sel.selected_index].duplicate();
                SelectorCommand::Finish(Some(c))
            },
            _ => SelectorCommand::Stay,
        }
    }
}

/// Whether the edit form is open.
fn edit_form_open(sel: &ConnectionSelector) -> (r: bool)
    ensures
        r == (sel.edit_form is Some),
{
    match &sel.edit_form {
        Some(_) => true,
        None => false,
    }
}

} // verus!
