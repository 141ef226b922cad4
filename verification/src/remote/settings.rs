//! Saved remote servers, the active one, and the sharing configuration.
//!
//! A connection is found by its id; the first connection with a given id is
//! the one every lookup returns. A well-formed settings value has pairwise
//! distinct ids and an active id (if any) that names a saved connection; every
//! operation here keeps that shape.
use vstd::prelude::*;

use crate::text::{decimal, decimal_string, push_str, str_eq};

verus! {

/// Default port of the sharing server.
pub const DEFAULT_PORT: u16 = 47842;

/// What the last check of a saved server found.
#[derive(Debug, Clone, Copy, PartialEq, Eq, Structural)]
pub enum ConnectionStatus {
    /// Not checked yet.
    Unknown,
    Online,
    Offline,
    AuthFailed,
    /// The server is this machine.
    SelfConnection,
}

/// A remote server the user saved.
#[derive(Debug)]
pub struct SavedConnection {
    pub id: String,
    pub host: String,
    pub port: u16,
    pub password: Option<String>,
    pub name: Option<String>,
    /// The model the server reported last.
    pub model: Option<String>,
    pub status: ConnectionStatus,
}

/// The configuration of this machine's own sharing server.
#[derive(Debug)]
pub struct ServerConfig {
    pub enabled: bool,
    pub port: u16,
    pub password: Option<String>,
}

/// All remote-transcription settings.
#[derive(Debug)]
pub struct RemoteSettings {
    pub saved_connections: Vec<SavedConnection>,
    pub active_connection_id: Option<String>,
    /// Sharing was running when a remote server was selected, so it is to be
    /// restored when the selection is cleared.
    pub sharing_was_active: bool,
    pub server_config: ServerConfig,
}

// ---------------------------------------------------------------------------
// Model
// ---------------------------------------------------------------------------

/// Some saved connection has the id `id`.
pub open spec fn id_in_use(conns: Seq<SavedConnection>, id: Seq<char>) -> bool {
    exists|i: int| 0 <= i < conns.len() && (#[trigger] conns[i]).id@ == id
}

/// `i` is the position of the first connection with id `id`.
pub open spec fn is_first_with_id(conns: Seq<SavedConnection>, id: Seq<char>, i: int) -> bool {
    &&& 0 <= i < conns.len()
    &&& conns[i].id@ == id
    &&& forall|j: int| 0 <= j < i ==> (#[trigger] conns[j]).id@ != id
}

/// The position of the first connection with id `id`, or -1.
pub open spec fn position_of(conns: Seq<SavedConnection>, id: Seq<char>) -> int {
    if exists|i: int| is_first_with_id(conns, id, i) {
        choose|i: int| is_first_with_id(conns, id, i)
    } else {
        -1
    }
}

/// The connections without those whose id is `id`, in order.
pub open spec fn without_id(conns: Seq<SavedConnection>, id: Seq<char>) -> Seq<SavedConnection>
    decreases conns.len(),
{
    if conns.len() == 0 {
        conns
    } else {
        let rest = without_id(conns.drop_last(), id);
        if conns.last().id@ == id {
            rest
        } else {
            rest.push(conns.last())
        }
    }
}

/// No two connections share an id.
pub open spec fn ids_distinct(conns: Seq<SavedConnection>) -> bool {
    forall|i: int, j: int|
        0 <= i < j < conns.len() ==> (#[trigger] conns[i]).id@ != (#[trigger] conns[j]).id@
}

/// The name shown for a connection: its name, else `host:port`.
pub open spec fn display_name_of(c: SavedConnection) -> Seq<char> {
    match c.name {
        Some(n) => n@,
        None => c.host@ + ":"@ + decimal(c.port as nat),
    }
}

/// The connection with its status set and, when a model is given, its model.
pub open spec fn with_status(
    c: SavedConnection,
    status: ConnectionStatus,
    model: Option<String>,
) -> SavedConnection {
    SavedConnection {
        status,
        model: if model.is_some() {
            model
        } else {
            c.model
        },
        ..c
    }
}

/// Every connection with id `id` updated by `with_status`, the others unchanged.
pub open spec fn statuses_updated(
    conns: Seq<SavedConnection>,
    id: Seq<char>,
    status: ConnectionStatus,
    model: Option<String>,
) -> Seq<SavedConnection> {
    Seq::new(
        conns.len(),
        |i: int|
            if conns[i].id@ == id {
                with_status(conns[i], status, model)
            } else {
                conns[i]
            },
    )
}

// ---------------------------------------------------------------------------
// Lemmas
// ---------------------------------------------------------------------------

/// The first position with a given id is the one `position_of` names.
pub proof fn lemma_position_is_first(conns: Seq<SavedConnection>, id: Seq<char>, i: int)
    requires
        is_first_with_id(conns, id, i),
    ensures
        position_of(conns, id) == i,
{
    let k = choose|k: int| is_first_with_id(conns, id, k);
    assert(is_first_with_id(conns, id, k));
    if k < i {
        assert(conns[k].id@ != id);
    }
    if i < k {
        assert(conns[i].id@ != id);
    }
}

/// Without a connection carrying `id`, `position_of` is -1.
pub proof fn lemma_position_absent(conns: Seq<SavedConnection>, id: Seq<char>)
    requires
        !id_in_use(conns, id),
    ensures
        position_of(conns, id) == -1,
{
    if exists|i: int| is_first_with_id(conns, id, i) {
        let k = choose|k: int| is_first_with_id(conns, id, k);
        assert(conns[k].id@ == id);
    }
}

/// A used id has a first position.
pub proof fn lemma_position_present(conns: Seq<SavedConnection>, id: Seq<char>)
    requires
        id_in_use(conns, id),
    ensures
        is_first_with_id(conns, id, position_of(conns, id)),
    decreases conns.len(),
{
    let w = choose|i: int| 0 <= i < conns.len() && (#[trigger] conns[i]).id@ == id;
    if w > 0 && id_in_use(conns.take(w), id) {
        lemma_position_present(conns.take(w), id);
        let p = position_of(conns.take(w), id);
        assert(conns.take(w)[p] == conns[p]);
        assert forall|j: int| 0 <= j < p implies (#[trigger] conns[j]).id@ != id by {
            assert(conns.take(w)[j] == conns[j]);
        }
        assert(is_first_with_id(conns, id, p));
        lemma_position_is_first(conns, id, p);
    } else {
        assert forall|j: int| 0 <= j < w implies (#[trigger] conns[j]).id@ != id by {
            if conns[j].id@ == id {
                assert(conns.take(w)[j] == conns[j]);
                assert(id_in_use(conns.take(w), id));
            }
        }
        assert(is_first_with_id(conns, id, w));
        lemma_position_is_first(conns, id, w);
    }
}

/// What `without_id` keeps: exactly the connections whose id differs.
pub proof fn lemma_without_id(conns: Seq<SavedConnection>, id: Seq<char>)
    ensures
        !id_in_use(without_id(conns, id), id),
        forall|c: SavedConnection| #[trigger]
            without_id(conns, id).contains(c) <==> (conns.contains(c) && c.id@ != id),
        without_id(conns, id).len() <= conns.len(),
    decreases conns.len(),
{
    if conns.len() > 0 {
        let rest = conns.drop_last();
        lemma_without_id(rest, id);
        let w = without_id(conns, id);
        let wr = without_id(rest, id);
        assert forall|c: SavedConnection| #[trigger] w.contains(c) implies (conns.contains(c) && c.id@
            != id) by {
            let k = choose|k: int| 0 <= k < w.len() && w[k] == c;
            if conns.last().id@ != id && k == w.len() - 1 {
                assert(conns[conns.len() - 1] == c);
            } else {
                assert(wr[k] == c);
                assert(wr.contains(c));
                let m = choose|m: int| 0 <= m < rest.len() && rest[m] == c;
                assert(conns[m] == c);
            }
        }
        assert forall|c: SavedConnection| conns.contains(c) && c.id@ != id implies #[trigger] w.contains(
            c,
        ) by {
            let k = choose|k: int| 0 <= k < conns.len() && conns[k] == c;
            if k < conns.len() - 1 {
                assert(rest[k] == c);
                assert(rest.contains(c));
                assert(wr.contains(c));
                let m = choose|m: int| 0 <= m < wr.len() && wr[m] == c;
                if conns.last().id@ != id {
                    assert(w[m] == c);
                }
            } else {
                assert(conns.last() == c);
                assert(w[w.len() - 1] == c);
            }
        }
        if id_in_use(w, id) {
            let k = choose|k: int| 0 <= k < w.len() && (#[trigger] w[k]).id@ == id;
            assert(w.contains(w[k]));
        }
    }
}

/// Distinct ids stay distinct when connections are dropped.
pub proof fn lemma_without_id_distinct(conns: Seq<SavedConnection>, id: Seq<char>)
    requires
        ids_distinct(conns),
    ensures
        ids_distinct(without_id(conns, id)),
    decreases conns.len(),
{
    if conns.len() > 0 {
        let rest = conns.drop_last();
        assert(ids_distinct(rest)) by {
            assert forall|i: int, j: int| 0 <= i < j < rest.len() implies (#[trigger] rest[i]).id@
                != (#[trigger] rest[j]).id@ by {
                assert(conns[i] == rest[i] && conns[j] == rest[j]);
            }
        }
        lemma_without_id_distinct(rest, id);
        lemma_without_id(rest, id);
        let w = without_id(conns, id);
        if conns.last().id@ != id {
            assert forall|i: int, j: int| 0 <= i < j < w.len() implies (#[trigger] w[i]).id@ != (
            #[trigger] w[j]).id@ by {
                if j == w.len() - 1 {
                    let wr = without_id(rest, id);
                    assert(wr.contains(wr[i]));
                    let m = choose|m: int| 0 <= m < rest.len() && rest[m] == wr[i];
                    assert(conns[m] == rest[m]);
                    assert(conns[conns.len() - 1] == conns.last());
                }
            }
        }
    }
}

// ---------------------------------------------------------------------------
// Connections
// ---------------------------------------------------------------------------

/// A copy of an optional string.
pub fn copy_opt_string(o: &Option<String>) -> (r: Option<String>)
    ensures
        r == *o,
{
    match o {
        Some(s) => Some(s.clone()),
        None => None,
    }
}

impl SavedConnection {
    /// A copy of the connection.
    pub fn duplicate(&self) -> (r: SavedConnection)
        ensures
            r == *self,
    {
        SavedConnection {
            id: self.id.clone(),
            host: self.host.clone(),
            port: self.port,
            password: copy_opt_string(&self.password),
            name: copy_opt_string(&self.name),
            model: copy_opt_string(&self.model),
            status: self.status,
        }
    }

    /// The name shown for the connection: its name, else `host:port`.
    pub fn display_name(&self) -> (r: String)
        ensures
            r@ == display_name_of(*self),
    {
        match &self.name {
            Some(n) => n.clone(),
            None => {
                let mut r = self.host.clone();
                push_str(&mut r, ":");
                let p = decimal_string(self.port as u64);
                push_str(&mut r, p.as_str());
                r
            },
        }
    }
}

/// Whether some connection of `conns` has the id `id`.
pub fn is_id_in_use(conns: &Vec<SavedConnection>, id: &str) -> (r: bool)
    ensures
        r == id_in_use(conns@, id@),
{
    let mut i: usize = 0;
    while i < conns.len()
        invariant
            i <= conns@.len(),
            forall|j: int| 0 <= j < i ==> (#[trigger] conns@[j]).id@ != id@,
        decreases conns@.len() - i,
    {
        if str_eq(conns[i].id.as_str(), id) {
            return true;
        }
        i = i + 1;
    }
    false
}

/// The id `server-<k>`.
fn numbered_id(k: u64) -> (r: String)
    ensures
        r@ == "server-"@ + decimal(k as nat),
{
    let mut r = "server-".to_owned();
    let d = decimal_string(k);
    push_str(&mut r, d.as_str());
    r
}

/// An id that no connection of `conns` has: the first free `server-<k>` for
/// `k` up to the number of connections, and otherwise a string longer than
/// every id in use.
pub fn fresh_connection_id(conns: &Vec<SavedConnection>) -> (id: String)
    ensures
        !id_in_use(conns@, id@),
{
    let n: u64 = conns.len() as u64;
    let mut k: u64 = 0;
    while k <= n
        invariant
            k <= n + 1,
        decreases n + 1 - k,
    {
        let cand = numbered_id(k);
        if !is_id_in_use(conns, cand.as_str()) {
            return cand;
        }
        if k == n {
            break;
        }
        k = k + 1;
    }
    let mut longest = String::new();
    let mut longest_len: usize = 0;
    let mut i: usize = 0;
    while i < conns.len()
        invariant
            i <= conns@.len(),
            longest_len == longest@.len(),
            forall|j: int| 0 <= j < i ==> (#[trigger] conns@[j]).id@.len() <= longest_len,
        decreases conns@.len() - i,
    {
        let chars = crate::text::chars_of(conns[i].id.as_str());
        if chars.len() > longest_len {
            longest_len = chars.len();
            longest = conns[i].id.clone();
        }
        i = i + 1;
    }
    let mut id = longest;
    push_str(&mut id, "-1");
    proof {
        reveal_strlit("-1");
    }
    assert forall|j: int| 0 <= j < conns@.len() implies (#[trigger] conns@[j]).id@ != id@ by {
        assert(conns@[j].id@.len() < id@.len());
    }
    id
}

impl Default for RemoteSettings {
    /// The same as `RemoteSettings::new`.
    fn default() -> (r: RemoteSettings)
        ensures
            r.saved_connections@.len() == 0,
            r.active_connection_id.is_none(),
            !r.sharing_was_active,
            !r.server_config.enabled,
            r.server_config.port == DEFAULT_PORT,
            r.server_config.password.is_none(),
    {
        RemoteSettings::new()
    }
}

impl RemoteSettings {
    /// Settings with no saved server, nothing active and sharing off on the
    /// default port.
    pub fn new() -> (r: RemoteSettings)
        ensures
            r.saved_connections@.len() == 0,
            r.active_connection_id.is_none(),
            !r.sharing_was_active,
            !r.server_config.enabled,
            r.server_config.port == DEFAULT_PORT,
            r.server_config.password.is_none(),
            r.well_formed(),
    {
        RemoteSettings {
            saved_connections: Vec::new(),
            active_connection_id: None,
            sharing_was_active: false,
            server_config: ServerConfig { enabled: false, port: DEFAULT_PORT, password: None },
        }
    }

    /// Ids are distinct and the active id names a saved connection.
    pub open spec fn well_formed(&self) -> bool {
        &&& ids_distinct(self.saved_connections@)
        &&& (self.active_connection_id matches Some(a) ==> id_in_use(
            self.saved_connections@,
            a@,
        ))
    }

    /// The connection that a lookup of `id` finds, if any.
    pub open spec fn lookup(&self, id: Seq<char>) -> Option<SavedConnection> {
        let p = position_of(self.saved_connections@, id);
        if p >= 0 {
            Some(self.saved_connections@[p])
        } else {
            None
        }
    }

    /// The active connection, if one is set and saved.
    pub open spec fn active(&self) -> Option<SavedConnection> {
        match self.active_connection_id {
            Some(a) => self.lookup(a@),
            None => None,
        }
    }

    /// Saves a new connection under a fresh id, with status `Unknown`, and
    /// returns a copy of it.
    pub fn add_connection(
        &mut self,
        host: String,
        port: u16,
        password: Option<String>,
        name: Option<String>,
        model: Option<String>,
    ) -> (c: SavedConnection)
        ensures
            !id_in_use(old(self).saved_connections@, c.id@),
            c.host == host,
            c.port == port,
            c.password == password,
            c.name == name,
            c.model == model,
            c.status == ConnectionStatus::Unknown,
            final(self).saved_connections@ == old(self).saved_connections@.push(c),
            final(self).active_connection_id == old(self).active_connection_id,
            final(self).sharing_was_active == old(self).sharing_was_active,
            final(self).server_config == old(self).server_config,
            final(self).lookup(c.id@) == Some(c),
            old(self).well_formed() ==> final(self).well_formed(),
    {
        let id = fresh_connection_id(&self.saved_connections);
        let c = SavedConnection {
            id,
            host,
            port,
            password,
            name,
            model,
            status: ConnectionStatus::Unknown,
        };
        let r = c.duplicate();
        let ghost before = self.saved_connections@;
        self.saved_connections.push(c);
        proof {
            let after = self.saved_connections@;
            assert forall|j: int| 0 <= j < before.len() implies (#[trigger] after[j]).id@ != r.id@ by {
                assert(after[j] == before[j]);
            }
            assert(is_first_with_id(after, r.id@, before.len() as int));
            lemma_position_is_first(after, r.id@, before.len() as int);
            if let Some(a) = &self.active_connection_id {
                if id_in_use(before, a@) {
                    let k = choose|k: int| 0 <= k < before.len() && (#[trigger] before[k]).id@ == a@;
                    assert(after[k] == before[k]);
                }
            }
        }
        r
    }

    /// Whether a connection with id `id` is saved.
    pub fn has_connection(&self, id: &str) -> (r: bool)
        ensures
            r == id_in_use(self.saved_connections@, id@),
    {
        is_id_in_use(&self.saved_connections, id)
    }

    /// The first saved connection with id `id`.
    pub fn get_connection(&self, id: &str) -> (r: Option<&SavedConnection>)
        ensures
            match r {
                Some(c) => self.lookup(id@) == Some(*c),
                None => self.lookup(id@).is_none(),
            },
            r.is_some() == id_in_use(self.saved_connections@, id@),
    {
        let mut i: usize = 0;
        while i < self.saved_connections.len()
            invariant
                i <= self.saved_connections@.len(),
                forall|j: int| 0 <= j < i ==> (#[trigger] self.saved_connections@[j]).id@ != id@,
            decreases self.saved_connections@.len() - i,
        {
            if str_eq(self.saved_connections[i].id.as_str(), id) {
                proof {
                    assert(is_first_with_id(self.saved_connections@, id@, i as int));
                    lemma_position_is_first(self.saved_connections@, id@, i as int);
                }
                return Some(&self.saved_connections[i]);
            }
            i = i + 1;
        }
        proof {
            lemma_position_absent(self.saved_connections@, id@);
        }
        None
    }

    /// Removes the connection with id `id` (and clears the active id if it
    /// was that one); an unknown id is an error.
    pub fn remove_connection(&mut self, id: &str) -> (r: Result<(), String>)
        ensures
            r is Ok <==> id_in_use(old(self).saved_connections@, id@),
            r matches Err(m) ==> m@ == "Server '"@ + id@ + "' not found"@,
            r is Ok ==> final(self).saved_connections@ == without_id(
                old(self).saved_connections@,
                id@,
            ),
            r is Ok ==> final(self).active_connection_id == (if old(
                self,
            ).active_connection_id matches Some(a) && a@ == id@ {
                None
            } else {
                old(self).active_connection_id
            }),
            r is Ok ==> final(self).lookup(id@).is_none(),
            r is Err ==> *final(self) == *old(self),
            final(self).sharing_was_active == old(self).sharing_was_active,
            final(self).server_config == old(self).server_config,
            old(self).well_formed() ==> final(self).well_formed(),
    {
        if !is_id_in_use(&self.saved_connections, id) {
            let mut m = "Server '".to_owned();
            push_str(&mut m, id);
            push_str(&mut m, "' not found");
            return Err(m);
        }
        let ghost before = self.saved_connections@;
        let mut kept: Vec<SavedConnection> = Vec::new();
        let mut i: usize = 0;
        while i < self.saved_connections.len()
            invariant
                i <= self.saved_connections@.len(),
                self.saved_connections@ == before,
                kept@ == without_id(before.take(i as int), id@),
            decreases self.saved_connections@.len() - i,
        {
            assert(before.take(i + 1).drop_last() == before.take(i as int));
            if !str_eq(self.saved_connections[i].id.as_str(), id) {
                kept.push(self.saved_connections[i].duplicate());
            }
            i = i + 1;
        }
        assert(before.take(before.len() as int) == before);
        self.saved_connections = kept;
        let clear = match &self.active_connection_id {
            Some(a) => str_eq(a.as_str(), id),
            None => false,
        };
        if clear {
            self.active_connection_id = None;
        }
        proof {
            lemma_without_id(before, id@);
            lemma_position_absent(self.saved_connections@, id@);
            if ids_distinct(before) {
                lemma_without_id_distinct(before, id@);
            }
            if let Some(a) = &self.active_connection_id {
                if id_in_use(before, a@) {
                    let k = choose|k: int| 0 <= k < before.len() && (#[trigger] before[k]).id@ == a@;
                    assert(before.contains(before[k]));
                    assert(without_id(before, id@).contains(before[k]));
                    let m = choose|m: int|
                        0 <= m < self.saved_connections@.len() && self.saved_connections@[m]
                            == before[k];
                    assert(self.saved_connections@[m].id@ == a@);
                }
            }
        }
        Ok(())
    }

    /// Makes `id` the active server (it must be saved) or, with `None`,
    /// clears the selection.
    pub fn set_active_connection(&mut self, id: Option<String>) -> (r: Result<(), String>)
        ensures
            match id {
                Some(s) => {
                    &&& r is Ok <==> id_in_use(old(self).saved_connections@, s@)
                    &&& r matches Err(m) ==> m@ == "Server '"@ + s@ + "' not found"@
                },
                None => r is Ok,
            },
            r is Ok ==> final(self).active_connection_id == id,
            r is Err ==> *final(self) == *old(self),
            final(self).saved_connections@ == old(self).saved_connections@,
            final(self).sharing_was_active == old(self).sharing_was_active,
            final(self).server_config == old(self).server_config,
            old(self).well_formed() ==> final(self).well_formed(),
    {
        match id {
            Some(s) => {
                if !is_id_in_use(&self.saved_connections, s.as_str()) {
                    let mut m = "Server '".to_owned();
                    push_str(&mut m, s.as_str());
                    push_str(&mut m, "' not found");
                    return Err(m);
                }
                self.active_connection_id = Some(s);
                Ok(())
            },
            None => {
                self.active_connection_id = None;
                Ok(())
            },
        }
    }

    /// Records the outcome of a check on every connection with id `id`: the
    /// status always, the model only when one is given.
    pub fn update_connection_status(
        &mut self,
        id: &str,
        status: ConnectionStatus,
        model: Option<String>,
    )
        ensures
            final(self).saved_connections@ == statuses_updated(
                old(self).saved_connections@,
                id@,
                status,
                model,
            ),
            final(self).active_connection_id == old(self).active_connection_id,
            final(self).sharing_was_active == old(self).sharing_was_active,
            final(self).server_config == old(self).server_config,
            old(self).well_formed() ==> final(self).well_formed(),
    {
        let ghost before = self.saved_connections@;
        let ghost target = statuses_updated(before, id@, status, model);
        let mut updated: Vec<SavedConnection> = Vec::new();
        let mut i: usize = 0;
        while i < self.saved_connections.len()
            invariant
                i <= self.saved_connections@.len(),
                self.saved_connections@ == before,
                target == statuses_updated(before, id@, status, model),
                updated@ == target.take(i as int),
            decreases self.saved_connections@.len() - i,
        {
            let c = &self.saved_connections[i];
            if str_eq(c.id.as_str(), id) {
                let new_model = match &model {
                    Some(m) => Some(m.clone()),
                    None => copy_opt_string(&c.model),
                };
                updated.push(
                    SavedConnection {
                        id: c.id.clone(),
                        host: c.host.clone(),
                        port: c.port,
                        password: copy_opt_string(&c.password),
                        name: copy_opt_string(&c.name),
                        model: new_model,
                        status,
                    },
                );
            } else {
                updated.push(c.duplicate());
            }
            assert(updated@ =~= target.take(i + 1));
            i = i + 1;
        }
        assert(target.take(before.len() as int) =~= target);
        self.saved_connections = updated;
        proof {
            let after = self.saved_connections@;
            assert forall|j: int| 0 <= j < after.len() implies (#[trigger] after[j]).id@
                == before[j].id@ by {}
            if let Some(a) = &self.active_connection_id {
                if id_in_use(before, a@) {
                    let k = choose|k: int| 0 <= k < before.len() && (#[trigger] before[k]).id@ == a@;
                    assert(after[k].id@ == a@);
                }
            }
        }
    }

    /// Copies of all saved connections, in order.
    pub fn list_connections(&self) -> (r: Vec<SavedConnection>)
        ensures
            r@ == self.saved_connections@,
    {
        let mut r: Vec<SavedConnection> = Vec::new();
        let mut i: usize = 0;
        while i < self.saved_connections.len()
            invariant
                i <= self.saved_connections@.len(),
                r@ == self.saved_connections@.take(i as int),
            decreases self.saved_connections@.len() - i,
        {
            r.push(self.saved_connections[i].duplicate());
            assert(r@ =~= self.saved_connections@.take(i + 1));
            i = i + 1;
        }
        assert(self.saved_connections@.take(self.saved_connections@.len() as int)
            =~= self.saved_connections@);
        r
    }

    /// The active connection, if one is selected and saved.
    pub fn get_active_connection(&self) -> (r: Option<&SavedConnection>)
        ensures
            match r {
                Some(c) => self.active() == Some(*c),
                None => self.active().is_none(),
            },
    {
        match &self.active_connection_id {
            Some(a) => self.get_connection(a.as_str()),
            None => None,
        }
    }
}

} // verus!
