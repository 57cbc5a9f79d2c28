//! The saved-connection book: named connections and the pure edits on
//! the list of them. Loading and saving the list to disk happen outside
//! the library; every rule about what the list holds afterwards is
//! verified here.

use vstd::prelude::*;

verus! {

use vstd::string::StrSliceExecFns;
use vstd::string::StringExecFns;
use crate::text::spec_dec;
use crate::text::str_eq;
use crate::text::u64_to_string;

/// One saved connection, identified by its name.
#[derive(Debug, Clone)]
pub struct SavedConnection {
    pub name: String,
    pub host: String,
    pub port: u16,
    pub username: String,
    /// Path of the identity key to offer, if one was saved.
    pub identity_file: Option<String>,
}

impl SavedConnection {
    pub fn new(
        name: String,
        host: String,
        port: u16,
        username: String,
        identity_file: Option<String>,
    ) -> (r: SavedConnection)
        ensures
            r.name == name,
            r.host == host,
            r.port == port,
            r.username == username,
            r.identity_file == identity_file,
    {
        SavedConnection { name, host, port, username, identity_file }
    }

    /// The `user@host:port` label shown in lists.
    pub fn display_name(&self) -> (r: String)
        ensures
            r@ == self.username@ + "@"@ + self.host@ + ":"@ + spec_dec(self.port as nat),
    {
        let mut s = self.username.clone();
        s.append("@");
        s.append(self.host.as_str());
        s.append(":");
        let p = u64_to_string(self.port as u64);
        s.append(p.as_str());
        s
    }

    /// The equivalent plain ssh invocation, with the identity flag when
    /// a key path was saved.
    pub fn ssh_command(&self) -> (r: String)
        ensures
            match self.identity_file {
                Some(ref p) => r@ == "ssh -i "@ + p@ + " -p "@ + spec_dec(self.port as nat) + " "@
                    + self.username@ + "@"@ + self.host@,
                None => r@ == "ssh -p "@ + spec_dec(self.port as nat) + " "@ + self.username@
                    + "@"@ + self.host@,
            },
    {
        let port = u64_to_string(self.port as u64);
        match &self.identity_file {
            Some(p) => {
                let mut s = String::from_str("ssh -i ");
                s.append(p.as_str());
                s.append(" -p ");
                s.append(port.as_str());
                s.append(" ");
                s.append(self.username.as_str());
                s.append("@");
                s.append(self.host.as_str());
                s
            },
            None => {
                let mut s = String::from_str("ssh -p ");
                s.append(port.as_str());
                s.append(" ");
                s.append(self.username.as_str());
                s.append("@");
                s.append(self.host.as_str());
                s
            },
        }
    }
}

impl SavedConnection {
    /// An equal copy, field by field; the derived clone carries no
    /// specification, this one does.
    pub fn duplicate(&self) -> (r: SavedConnection)
        ensures
            r == *self,
    {
        SavedConnection {
            name: self.name.clone(),
            host: self.host.clone(),
            port: self.port,
            username: self.username.clone(),
            identity_file: match &self.identity_file {
                Some(p) => Some(p.clone()),
                None => None,
            },
        }
    }
}

/// The position of the first connection with the given name, if any.
pub open spec fn find_connection(s: Seq<SavedConnection>, name: Seq<char>) -> Option<int>
    decreases s.len(),
{
    if s.len() == 0 {
        None
    } else if s[0].name@ == name {
        Some(0)
    } else {
        match find_connection(s.drop_first(), name) {
            Some(i) => Some(i + 1),
            None => None,
        }
    }
}

pub proof fn lemma_find_connection_ensures(s: Seq<SavedConnection>, name: Seq<char>)
    ensures
        match find_connection(s, name) {
            Some(i) => 0 <= i < s.len() && s[i].name@ == name && forall|j: int|
                0 <= j < i ==> s[j].name@ != name,
            None => forall|j: int| 0 <= j < s.len() ==> s[j].name@ != name,
        },
    decreases s.len(),
{
    if s.len() > 0 && s[0].name@ != name {
        lemma_find_connection_ensures(s.drop_first(), name);
        assert forall|j: int| 1 <= j < s.len() implies s.drop_first()[j - 1] == s[j] by {}
    }
}

/// Adds a connection to the book: any entry carrying the same name is
/// replaced, everything else is kept in order, and the new entry goes to
/// the end.
pub fn add_connection(connections: Vec<SavedConnection>, connection: SavedConnection) -> (r: Vec<
    SavedConnection,
>)
    ensures
        r@ == connections@.filter(
            |c: SavedConnection| c.name@ != connection.name@,
        ).push(connection),
{
    let mut out: Vec<SavedConnection> = Vec::new();
    let n = connections.len();
    let mut i: usize = 0;
    proof {
        reveal(Seq::filter);
    }
    while i < n
        invariant
            i <= n,
            n == connections@.len(),
            out@ == connections@.take(i as int).filter(
                |c: SavedConnection| c.name@ != connection.name@,
            ),
        decreases n - i,
    {
        proof {
            reveal(Seq::filter);
            assert(connections@.take(i + 1).drop_last() =~= connections@.take(i as int));
            assert(connections@.take(i + 1).last() == connections@[i as int]);
        }
        if !str_eq(connections[i].name.as_str(), connection.name.as_str()) {
            let c = connections[i].duplicate();
            out.push(c);
        }
        i = i + 1;
    }
    proof {
        assert(connections@.take(n as int) =~= connections@);
    }
    out.push(connection);
    out
}

/// Removes every connection of the given name, keeping the rest in
/// order.
pub fn remove_connection(connections: Vec<SavedConnection>, name: &str) -> (r: Vec<
    SavedConnection,
>)
    ensures
        r@ == connections@.filter(|c: SavedConnection| c.name@ != name@),
{
    let mut out: Vec<SavedConnection> = Vec::new();
    let n = connections.len();
    let mut i: usize = 0;
    proof {
        reveal(Seq::filter);
    }
    while i < n
        invariant
            i <= n,
            n == connections@.len(),
            out@ == connections@.take(i as int).filter(|c: SavedConnection| c.name@ != name@),
        decreases n - i,
    {
        proof {
            reveal(Seq::filter);
            assert(connections@.take(i + 1).drop_last() =~= connections@.take(i as int));
            assert(connections@.take(i + 1).last() == connections@[i as int]);
        }
        if !str_eq(connections[i].name.as_str(), name) {
            let c = connections[i].duplicate();
            out.push(c);
        }
        i = i + 1;
    }
    proof {
        assert(connections@.take(n as int) =~= connections@);
    }
    out
}

/// Replaces the first connection of the given name with the updated
/// one, leaving every other entry exactly as it was; a name that is not
/// in the book is an error.
pub fn update_connection(connections: Vec<SavedConnection>, name: &str, updated: SavedConnection)
    -> (r: Result<Vec<SavedConnection>, String>)
    ensures
        r is Ok <==> find_connection(connections@, name@) is Some,
        r matches Ok(v) ==> ({
            match find_connection(connections@, name@) {
                Some(i) => v@ == connections@.update(i, updated),
                None => false,
            }
        }),
        r matches Err(m) ==> m@ == "Connection '"@ + name@ + "' not found"@,
{
    let n = connections.len();
    let mut i: usize = 0;
    while i < n
        invariant
            i <= n,
            n == connections@.len(),
            forall|j: int| 0 <= j < i ==> connections@[j].name@ != name@,
        decreases n - i,
    {
        if str_eq(connections[i].name.as_str(), name) {
            proof {
                lemma_find_connection_ensures(connections@, name@);
                match find_connection(connections@, name@) {
                    Some(k) => {
                        if k < i {
                            assert(connections@[k].name@ != name@);
                        }
                        if k > i {
                            assert(connections@[i as int].name@ != name@);
                        }
                    },
                    None => {
                        assert(connections@[i as int].name@ != name@);
                    },
                }
            }
            let mut v = connections;
            v[i] = updated;
            return Ok(v);
        }
        i = i + 1;
    }
    proof {
        lemma_find_connection_ensures(connections@, name@);
        match find_connection(connections@, name@) {
            Some(k) => {
                assert(connections@[k].name@ != name@);
            },
            None => {},
        }
    }
    let mut m = String::from_str("Connection '");
    m.append(name);
    m.append("' not found");
    Err(m)
}

} // verus!
