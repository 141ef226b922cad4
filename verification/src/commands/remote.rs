//! The decisions behind the remote-transcription commands: which engine may be
//! shared, which server may be selected, how an edited server is stored, what
//! a status check found, and which local addresses and firewall state to show.
use vstd::prelude::*;

use crate::remote::settings::{
    display_name_of, id_in_use, without_id, ConnectionStatus, RemoteSettings, SavedConnection,
};
use crate::text::{
    contains, decimal, decimal_string, has_prefix, lines, lines_of, push_str, str_contains,
    str_eq, str_starts_with, to_lowercase, unicode_lowercase,
};

pub use crate::remote::settings::DEFAULT_PORT;

verus! {

/// Why sharing cannot use a Soniox model.
pub const SONIOX_SHARING_MESSAGE: &'static str =
    "Network sharing is not available for Soniox yet. Please select a Whisper or Parakeet model to share.";

/// Why sharing cannot start while a remote server is the model source.
pub const SHARING_BLOCKED_MESSAGE: &'static str =
    "Network sharing is unavailable while using a remote VoiceTypr instance as your model source.";

/// Why this machine cannot be selected as its own remote server.
pub const SELF_SELECTION_MESSAGE: &'static str =
    "Cannot use this VoiceTypr instance as its own remote server";

/// Why this machine cannot be added as a remote server.
pub const SELF_ADD_MESSAGE: &'static str = "Cannot add your own machine as a remote server";

/// The text of a failed check that means the password was refused.
pub const AUTH_FAILED_TEXT: &'static str = "Authentication failed";

/// The server name used when the machine's host name is unavailable.
pub const DEFAULT_SERVER_NAME: &'static str = "VoiceTypr Server";

/// The entry shown when no usable local address exists.
pub const NO_NETWORK_TEXT: &'static str = "No network connection";

/// `Server '<id>' not found`.
pub open spec fn server_not_found(id: Seq<char>) -> Seq<char> {
    "Server '"@ + id + "' not found"@
}

/// Sharing works for every engine but Soniox.
pub fn ensure_sharing_engine_supported(engine: &str) -> (r: Result<(), String>)
    ensures
        r is Err <==> engine@ == "soniox"@,
        r matches Err(m) ==> m@ == SONIOX_SHARING_MESSAGE@,
{
    if str_eq(engine, "soniox") {
        return Err(SONIOX_SHARING_MESSAGE.to_owned());
    }
    Ok(())
}

/// What the sharing server is started with: the model path (empty for
/// Parakeet) and the engine.
pub open spec fn shareable_config(
    model_name: Seq<char>,
    engine: Seq<char>,
    whisper_model_path: Option<Seq<char>>,
    parakeet_downloaded: bool,
) -> Result<(Seq<char>, Seq<char>), Seq<char>> {
    if engine == "soniox"@ {
        Err(SONIOX_SHARING_MESSAGE@)
    } else if engine == "whisper"@ {
        match whisper_model_path {
            Some(p) => Ok((p, engine)),
            None => Err("Model '"@ + model_name + "' not found or not downloaded"@),
        }
    } else if engine == "parakeet"@ {
        if parakeet_downloaded {
            Ok((Seq::empty(), engine))
        } else {
            Err("Parakeet model '"@ + model_name + "' not found or not downloaded"@)
        }
    } else {
        Err("Unsupported sharing engine '"@ + engine + "'"@)
    }
}

/// Resolves the model to share from what the model managers report: the path
/// of the Whisper model, if it is downloaded, and whether the Parakeet model is.
pub fn resolve_shareable_model_config(
    model_name: &str,
    engine: &str,
    whisper_model_path: Option<String>,
    parakeet_downloaded: bool,
) -> (r: Result<(String, String), String>)
    ensures
        match (r, shareable_config(
            model_name@,
            engine@,
            match whisper_model_path {
                Some(p) => Some(p@),
                None => None,
            },
            parakeet_downloaded,
        )) {
            (Ok((p, e)), Ok((sp, se))) => p@ == sp && e@ == se,
            (Err(m), Err(sm)) => m@ == sm,
            _ => false,
        },
{
    ensure_sharing_engine_supported(engine)?;
    if str_eq(engine, "whisper") {
        match whisper_model_path {
            Some(p) => Ok((p, engine.to_owned())),
            None => {
                let mut m = "Model '".to_owned();
                push_str(&mut m, model_name);
                push_str(&mut m, "' not found or not downloaded");
                Err(m)
            },
        }
    } else if str_eq(engine, "parakeet") {
        if parakeet_downloaded {
            Ok((String::new(), engine.to_owned()))
        } else {
            let mut m = "Parakeet model '".to_owned();
            push_str(&mut m, model_name);
            push_str(&mut m, "' not found or not downloaded");
            Err(m)
        }
    } else {
        let mut m = "Unsupported sharing engine '".to_owned();
        push_str(&mut m, engine);
        push_str(&mut m, "'");
        Err(m)
    }
}

/// A server is this machine when it reports this machine's id.
pub fn is_self_connection(local_machine_id: Option<&str>, remote_machine_id: &str) -> (b: bool)
    ensures
        b <==> (local_machine_id matches Some(l) && l@ == remote_machine_id@),
{
    match local_machine_id {
        Some(l) => str_eq(l, remote_machine_id),
        None => false,
    }
}

/// Sharing may start only while no remote server is selected.
pub fn ensure_sharing_can_start(settings: &RemoteSettings) -> (r: Result<(), String>)
    ensures
        r is Err <==> settings.active_connection_id.is_some(),
        r matches Err(m) ==> m@ == SHARING_BLOCKED_MESSAGE@,
{
    if settings.active_connection_id.is_some() {
        return Err(SHARING_BLOCKED_MESSAGE.to_owned());
    }
    Ok(())
}

/// A server may be selected when it is saved and is not this machine.
pub fn ensure_remote_selection_is_allowed(settings: &RemoteSettings, server_id: &str) -> (r: Result<
    (),
    String,
>)
    ensures
        match settings.lookup(server_id@) {
            None => r matches Err(m) && m@ == server_not_found(server_id@),
            Some(c) => if c.status == ConnectionStatus::SelfConnection {
                r matches Err(m) && m@ == SELF_SELECTION_MESSAGE@
            } else {
                r is Ok
            },
        },
{
    match settings.get_connection(server_id) {
        None => {
            let mut m = "Server '".to_owned();
            push_str(&mut m, server_id);
            push_str(&mut m, "' not found");
            Err(m)
        },
        Some(c) => {
            if c.status == ConnectionStatus::SelfConnection {
                Err(SELF_SELECTION_MESSAGE.to_owned())
            } else {
                Ok(())
            }
        },
    }
}

/// `host:port`.
pub fn host_port(host: &str, port: u16) -> (r: String)
    ensures
        r@ == host@ + ":"@ + decimal(port as nat),
{
    let mut r = host.to_owned();
    push_str(&mut r, ":");
    let p = decimal_string(port as u64);
    push_str(&mut r, p.as_str());
    r
}

/// Replaces the saved server `server_id` by one with the new address,
/// password, name (`host:port` when none is given) and model, under the same
/// id; if it was the active server it stays active. An unknown id is an error
/// and changes nothing.
pub fn apply_server_update(
    settings: &mut RemoteSettings,
    server_id: &str,
    host: String,
    port: u16,
    password: Option<String>,
    name: Option<String>,
    model: Option<String>,
) -> (r: Result<SavedConnection, String>)
    ensures
        r is Ok <==> id_in_use(old(settings).saved_connections@, server_id@),
        r matches Err(m) ==> m@ == server_not_found(server_id@) && *final(settings) == *old(settings),
        r matches Ok(c) ==> {
            &&& c.id@ == server_id@
            &&& c.host == host
            &&& c.port == port
            &&& c.password == password
            &&& c.name matches Some(n) && n@ == (match name {
                Some(given) => given@,
                None => host@ + ":"@ + decimal(port as nat),
            })
            &&& c.model == model
            &&& c.status == ConnectionStatus::Unknown
            &&& final(settings).saved_connections@ == without_id(
                old(settings).saved_connections@,
                server_id@,
            ).push(c)
            &&& final(settings).lookup(server_id@) == Some(c)
            &&& (if old(settings).active_connection_id matches Some(a) && a@ == server_id@ {
                final(settings).active_connection_id matches Some(a2) && a2@ == server_id@
            } else {
                final(settings).active_connection_id == old(settings).active_connection_id
            })
        },
        final(settings).sharing_was_active == old(settings).sharing_was_active,
        final(settings).server_config == old(settings).server_config,
        old(settings).well_formed() ==> final(settings).well_formed(),
{
    let was_active = match &settings.active_connection_id {
        Some(a) => str_eq(a.as_str(), server_id),
        None => false,
    };
    let ghost before = *settings;
    settings.remove_connection(server_id)?;
    let ghost removed = *settings;
    let display_name = match name {
        Some(n) => n,
        None => host_port(host.as_str(), port),
    };
    let added = settings.add_connection(host, port, password, Some(display_name), model);
    let ghost with_added = *settings;
    let last = settings.saved_connections.pop();
    let connection = match last {
        Some(mut c) => {
            c.id = server_id.to_owned();
            let copy = c.duplicate();
            settings.saved_connections.push(c);
            copy
        },
        None => {
            let mut c = added;
            c.id = server_id.to_owned();
            c
        },
    };
    if was_active {
        settings.active_connection_id = Some(server_id.to_owned());
    }
    proof {
        let base = without_id(before.saved_connections@, server_id@);
        crate::remote::settings::lemma_without_id(before.saved_connections@, server_id@);
        assert(settings.saved_connections@ =~= base.push(connection));
        let after = settings.saved_connections@;
        assert forall|j: int| 0 <= j < base.len() implies (#[trigger] after[j]).id@
            != server_id@ by {
            assert(after[j] == base[j]);
            assert(base.contains(base[j]));
        }
        assert(crate::remote::settings::is_first_with_id(after, server_id@, base.len() as int));
        crate::remote::settings::lemma_position_is_first(after, server_id@, base.len() as int);
        if before.well_formed() {
            assert forall|i: int, j: int| 0 <= i < j < after.len() implies (#[trigger] after[i]).id@
                != (#[trigger] after[j]).id@ by {
                if j == after.len() - 1 {
                    assert(after[i] == base[i]);
                    assert(base.contains(base[i]));
                } else {
                    assert(after[i] == removed.saved_connections@[i]);
                    assert(after[j] == removed.saved_connections@[j]);
                }
            }
            if let Some(a) = &settings.active_connection_id {
                if a@ == server_id@ {
                    assert(after[base.len() as int].id@ == a@);
                } else {
                    assert(removed.active_connection_id == before.active_connection_id);
                    let k = choose|k: int|
                        0 <= k < before.saved_connections@.len()
                            && (#[trigger] before.saved_connections@[k]).id@ == a@;
                    assert(before.saved_connections@.contains(before.saved_connections@[k]));
                    assert(base.contains(before.saved_connections@[k]));
                    let m = choose|m: int| 0 <= m < base.len() && base[m] == before.saved_connections@[k];
                    assert(after[m] == base[m]);
                }
            }
        }
    }
    Ok(connection)
}

/// The status a check leaves on a saved server, and the model it reported:
/// a reply from this machine is `SelfConnection`, another reply `Online`; a
/// refused password is `AuthFailed` and every other failure `Offline`.
pub open spec fn check_outcome(
    reply: Result<(Seq<char>, Seq<char>), Seq<char>>,
    local_machine_id: Option<Seq<char>>,
) -> (ConnectionStatus, Option<Seq<char>>) {
    match reply {
        Ok((machine_id, model)) => if local_machine_id == Some(machine_id) {
            (ConnectionStatus::SelfConnection, Some(model))
        } else {
            (ConnectionStatus::Online, Some(model))
        },
        Err(e) => if contains(e, AUTH_FAILED_TEXT@) {
            (ConnectionStatus::AuthFailed, None)
        } else {
            (ConnectionStatus::Offline, None)
        },
    }
}

/// Classifies the reply of a status check: `Ok((machine id, model))` or the
/// error text.
pub fn classify_status_check(
    reply: Result<(String, String), String>,
    local_machine_id: Option<&str>,
) -> (r: (ConnectionStatus, Option<String>))
    ensures
        ({
            let spec_reply = match reply {
                Ok((m, md)) => Ok((m@, md@)),
                Err(e) => Err(e@),
            };
            let expected = check_outcome(
                spec_reply,
                match local_machine_id {
                    Some(l) => Some(l@),
                    None => None,
                },
            );
            &&& r.0 == expected.0
            &&& match (r.1, expected.1) {
                (Some(a), Some(b)) => a@ == b,
                (None, None) => true,
                _ => false,
            }
        }),
{
    match reply {
        Ok((machine_id, model)) => {
            if is_self_connection(local_machine_id, machine_id.as_str()) {
                (ConnectionStatus::SelfConnection, Some(model))
            } else {
                (ConnectionStatus::Online, Some(model))
            }
        },
        Err(e) => {
            if str_contains(e.as_str(), AUTH_FAILED_TEXT) {
                (ConnectionStatus::AuthFailed, None)
            } else {
                (ConnectionStatus::Offline, None)
            }
        },
    }
}

/// Stores the outcome of a check on server `server_id` and returns the
/// updated server.
pub fn record_status_check(
    settings: &mut RemoteSettings,
    server_id: &str,
    status: ConnectionStatus,
    model: Option<String>,
) -> (r: Result<SavedConnection, String>)
    ensures
        final(settings).saved_connections@ == crate::remote::settings::statuses_updated(
            old(settings).saved_connections@,
            server_id@,
            status,
            model,
        ),
        final(settings).active_connection_id == old(settings).active_connection_id,
        r is Ok <==> id_in_use(old(settings).saved_connections@, server_id@),
        r matches Ok(c) ==> final(settings).lookup(server_id@) == Some(c) && c.status == status,
        r matches Err(m) ==> m@ == "Server '"@ + server_id@ + "' not found after update"@,
{
    settings.update_connection_status(server_id, status, model);
    proof {
        let b = old(settings).saved_connections@;
        let a = settings.saved_connections@;
        if id_in_use(b, server_id@) {
            let k = choose|k: int| 0 <= k < b.len() && (#[trigger] b[k]).id@ == server_id@;
            assert(a[k].id@ == server_id@);
        }
        if id_in_use(a, server_id@) {
            let k = choose|k: int| 0 <= k < a.len() && (#[trigger] a[k]).id@ == server_id@;
            assert(b[k].id@ == server_id@);
        }
    }
    match settings.get_connection(server_id) {
        Some(c) => {
            proof {
                let a = settings.saved_connections@;
                crate::remote::settings::lemma_position_present(a, server_id@);
            }
            Ok(c.duplicate())
        },
        None => {
            let mut m = "Server '".to_owned();
            push_str(&mut m, server_id);
            push_str(&mut m, "' not found after update");
            Err(m)
        },
    }
}

/// The name and model a new server is saved with, from the probe of the
/// server (`Some((machine id, server name, model))` when it answered): a given
/// name wins, else the name the server reports, else `host:port`. A server
/// that is this machine is refused.
pub fn new_server_details(
    host: &str,
    port: u16,
    name: Option<String>,
    probe: Option<(String, String, String)>,
    local_machine_id: Option<&str>,
) -> (r: Result<(String, Option<String>), String>)
    ensures
        match probe {
            Some((machine_id, server_name, model)) => if (local_machine_id matches Some(l) && l@
                == machine_id@) {
                r matches Err(m) && m@ == SELF_ADD_MESSAGE@
            } else {
                r matches Ok((n, md)) && n@ == (match name {
                    Some(g) => g@,
                    None => server_name@,
                }) && md == Some(model)
            },
            None => r matches Ok((n, md)) && n@ == (match name {
                Some(g) => g@,
                None => host@ + ":"@ + decimal(port as nat),
            }) && md.is_none(),
        },
{
    match probe {
        Some((machine_id, server_name, model)) => {
            if is_self_connection(local_machine_id, machine_id.as_str()) {
                return Err(SELF_ADD_MESSAGE.to_owned());
            }
            let n = match name {
                Some(g) => g,
                None => server_name,
            };
            Ok((n, Some(model)))
        },
        None => {
            let n = match name {
                Some(g) => g,
                None => host_port(host, port),
            };
            Ok((n, None))
        },
    }
}

/// Edits saved server `server_id`: the model is the one the server reported
/// just now, else the one saved before; then `apply_server_update`.
pub fn update_saved_server(
    settings: &mut RemoteSettings,
    server_id: &str,
    host: String,
    port: u16,
    password: Option<String>,
    name: Option<String>,
    reported_model: Option<String>,
) -> (r: Result<SavedConnection, String>)
    ensures
        r is Ok <==> id_in_use(old(settings).saved_connections@, server_id@),
        r matches Err(m) ==> m@ == server_not_found(server_id@) && *final(settings) == *old(settings),
        r matches Ok(c) ==> c.id@ == server_id@ && c.host == host && c.port == port
            && c.password == password && c.model == (if reported_model.is_some() {
            reported_model
        } else {
            old(settings).lookup(server_id@).unwrap().model
        }) && final(settings).lookup(server_id@) == Some(c),
        old(settings).well_formed() ==> final(settings).well_formed(),
{
    let existing_model = match settings.get_connection(server_id) {
        Some(c) => crate::remote::settings::copy_opt_string(&c.model),
        None => {
            let mut m = "Server '".to_owned();
            push_str(&mut m, server_id);
            push_str(&mut m, "' not found");
            return Err(m);
        },
    };
    let model = match reported_model {
        Some(m) => Some(m),
        None => existing_model,
    };
    apply_server_update(settings, server_id, host, port, password, name, model)
}

/// Stores the model a server reported if it differs from the saved one;
/// whether it did.
pub fn record_reported_model(settings: &mut RemoteSettings, server_id: &str, model: String) -> (changed:
    bool)
    ensures
        changed <==> (match old(settings).lookup(server_id@) {
            Some(c) => !(c.model matches Some(m) && m@ == model@),
            None => true,
        }),
        final(settings).active_connection_id == old(settings).active_connection_id,
        changed ==> final(settings).saved_connections@.len() == old(settings).saved_connections@.len(),
        changed && id_in_use(old(settings).saved_connections@, server_id@) ==> (final(settings).lookup(server_id@) matches Some(c) && c.model == Some(model)),
        !changed ==> *final(settings) == *old(settings),
        old(settings).well_formed() ==> final(settings).well_formed(),
{
    let same = match settings.get_connection(server_id) {
        Some(c) => match &c.model {
            Some(m) => str_eq(m.as_str(), model.as_str()),
            None => false,
        },
        None => false,
    };
    if same {
        return false;
    }
    let status = match settings.get_connection(server_id) {
        Some(c) => c.status,
        None => ConnectionStatus::Unknown,
    };
    let ghost b = settings.saved_connections@;
    settings.update_connection_status(server_id, status, Some(model));
    proof {
        let a = settings.saved_connections@;
        if id_in_use(b, server_id@) {
            crate::remote::settings::lemma_position_present(b, server_id@);
            let p = crate::remote::settings::position_of(b, server_id@);
            assert forall|j: int| 0 <= j < p implies (#[trigger] a[j]).id@ != server_id@ by {
                assert(b[j].id@ != server_id@);
            }
            assert(crate::remote::settings::is_first_with_id(a, server_id@, p));
            crate::remote::settings::lemma_position_is_first(a, server_id@, p);
        }
    }
    true
}

/// What selecting (or clearing) the active server asks of the sharing server.
#[derive(Debug, Clone, Copy, PartialEq, Eq, Structural)]
pub struct ActiveServerChange {
    /// Sharing runs and must stop before the remote server is used.
    pub stop_sharing: bool,
    /// The selection was cleared and sharing ran before a server was
    /// selected, so it is to be started again.
    pub restore_sharing: bool,
}

/// Selects server `server_id` (or clears the selection with `None`) and says
/// what happens to sharing: a selection is checked first and refused as
/// `ensure_remote_selection_is_allowed` says, changing nothing; selecting while
/// sharing runs stops sharing and remembers that it ran; clearing restores it
/// if it ran before.
pub fn begin_active_server_change(
    settings: &mut RemoteSettings,
    server_id: Option<&str>,
    sharing_enabled: bool,
) -> (r: Result<ActiveServerChange, String>)
    ensures
        match server_id {
            Some(id) => match old(settings).lookup(id@) {
                None => r matches Err(m) && m@ == server_not_found(id@) && *final(settings) == *old(settings),
                Some(c) => if c.status == ConnectionStatus::SelfConnection {
                    r matches Err(m) && m@ == SELF_SELECTION_MESSAGE@ && *final(settings) == *old(settings)
                } else {
                    &&& r == Ok::<ActiveServerChange, String>(
                        ActiveServerChange { stop_sharing: sharing_enabled, restore_sharing: false },
                    )
                    &&& final(settings).active_connection_id matches Some(a) && a@ == id@
                    &&& final(settings).sharing_was_active == (old(settings).sharing_was_active
                        || sharing_enabled)
                    &&& final(settings).active() == Some(c)
                },
            },
            None => {
                &&& r == Ok::<ActiveServerChange, String>(
                    ActiveServerChange {
                        stop_sharing: false,
                        restore_sharing: old(settings).sharing_was_active,
                    },
                )
                &&& final(settings).active_connection_id.is_none()
                &&& final(settings).sharing_was_active == old(settings).sharing_was_active
            },
        },
        final(settings).saved_connections@ == old(settings).saved_connections@,
        final(settings).server_config == old(settings).server_config,
        old(settings).well_formed() ==> final(settings).well_formed(),
{
    match server_id {
        Some(id) => {
            ensure_remote_selection_is_allowed(settings, id)?;
            proof {
                crate::remote::settings::lemma_position_present(settings.saved_connections@, id@);
            }
            if sharing_enabled {
                settings.sharing_was_active = true;
            }
            let _ = settings.set_active_connection(Some(id.to_owned()));
            Ok(ActiveServerChange { stop_sharing: sharing_enabled, restore_sharing: false })
        },
        None => {
            let restore = settings.sharing_was_active;
            let _ = settings.set_active_connection(None);
            Ok(ActiveServerChange { stop_sharing: false, restore_sharing: restore })
        },
    }
}

/// The model to share: the stored one, or the first downloaded model when
/// none is stored.
pub fn choose_sharing_model(stored_model: String, first_downloaded: Option<String>) -> (r: Option<
    String,
>)
    ensures
        stored_model@.len() > 0 ==> r == Some(stored_model),
        stored_model@.len() == 0 ==> r == first_downloaded,
{
    if stored_model.as_str().is_empty() {
        first_downloaded
    } else {
        Some(stored_model)
    }
}

/// The name the sharing server announces: the given one, else the host name,
/// else `VoiceTypr Server`.
pub fn server_name_or_default(name: Option<String>, host_name: Option<String>) -> (r: String)
    ensures
        r@ == (match (name, host_name) {
            (Some(n), _) => n@,
            (None, Some(h)) => h@,
            (None, None) => DEFAULT_SERVER_NAME@,
        }),
{
    match name {
        Some(n) => n,
        None => match host_name {
            Some(h) => h,
            None => DEFAULT_SERVER_NAME.to_owned(),
        },
    }
}

/// Calls `hostname::get` and keeps the name when it is valid Unicode. The
/// result depends on the machine, so nothing is stated of it.
#[verifier::external_body]
fn system_host_name() -> (r: Option<String>) {
    hostname::get().ok().and_then(|h| h.into_string().ok())
}

/// The name the sharing server announces, asking the system for its host
/// name when none is given.
pub fn sharing_server_name(name: Option<String>) -> (r: String)
    ensures
        name matches Some(n) ==> r == n,
{
    match name {
        Some(n) => n,
        None => server_name_or_default(None, system_host_name()),
    }
}

/// The local address entries shown for sharing, from the interfaces as
/// `(interface name, address text, is IPv4)`: IPv4 addresses that are neither
/// loopback (`127.*`) nor link-local (`169.254.*`), as `address (name)`; when
/// there is none, the single entry `No network connection`.
pub open spec fn local_ip_entries(interfaces: Seq<(Seq<char>, Seq<char>, bool)>) -> Seq<Seq<char>> {
    let shown = shown_addresses(interfaces);
    if shown.len() == 0 {
        seq![NO_NETWORK_TEXT@]
    } else {
        shown
    }
}

/// Whether an interface address is listed.
pub open spec fn address_listed(address: Seq<char>, is_ipv4: bool) -> bool {
    is_ipv4 && !has_prefix(address, "127."@) && !has_prefix(address, "169.254."@)
}

/// The listed addresses, as `address (name)`, in interface order.
pub open spec fn shown_addresses(interfaces: Seq<(Seq<char>, Seq<char>, bool)>) -> Seq<Seq<char>>
    decreases interfaces.len(),
{
    if interfaces.len() == 0 {
        Seq::empty()
    } else {
        let rest = shown_addresses(interfaces.drop_last());
        let (name, address, v4) = interfaces.last();
        if address_listed(address, v4) {
            rest.push(address + " ("@ + name + ")"@)
        } else {
            rest
        }
    }
}

/// The local address entries for a list of interfaces.
pub fn format_local_ips(interfaces: &Vec<(String, String, bool)>) -> (r: Vec<String>)
    ensures
        r@.map_values(|s: String| s@) == local_ip_entries(
            interfaces@.map_values(|i: (String, String, bool)| (i.0@, i.1@, i.2)),
        ),
{
    let ghost views = interfaces@.map_values(|i: (String, String, bool)| (i.0@, i.1@, i.2));
    let mut shown: Vec<String> = Vec::new();
    let mut k: usize = 0;
    while k < interfaces.len()
        invariant
            k <= interfaces@.len(),
            views == interfaces@.map_values(|i: (String, String, bool)| (i.0@, i.1@, i.2)),
            shown@.map_values(|s: String| s@) == shown_addresses(views.take(k as int)),
        decreases interfaces@.len() - k,
    {
        assert(views.take(k + 1).drop_last() == views.take(k as int));
        let (name, address, v4) = &interfaces[k];
        let listed = *v4 && !str_starts_with(address.as_str(), "127.") && !str_starts_with(
            address.as_str(),
            "169.254.",
        );
        if listed {
            let mut e = address.clone();
            push_str(&mut e, " (");
            push_str(&mut e, name.as_str());
            push_str(&mut e, ")");
            shown.push(e);
        }
        assert(shown@.map_values(|s: String| s@) =~= shown_addresses(views.take(k + 1)));
        k = k + 1;
    }
    assert(views.take(interfaces@.len() as int) == views);
    if shown.len() == 0 {
        let mut r: Vec<String> = Vec::new();
        r.push(NO_NETWORK_TEXT.to_owned());
        assert(r@.map_values(|s: String| s@) =~= seq![NO_NETWORK_TEXT@]);
        r
    } else {
        shown
    }
}

/// Calls `local_ip_address::list_afinet_netifas` and hands each interface on
/// as `(name, address text, is IPv4)`; an error becomes its message. The
/// interfaces depend on the machine, so nothing is stated of them.
#[verifier::external_body]
fn list_interfaces() -> (r: Result<Vec<(String, String, bool)>, String>) {
    local_ip_address::list_afinet_netifas().map(
        |found| found.into_iter().map(|(name, ip)| (name, ip.to_string(), ip.is_ipv4())).collect(),
    ).map_err(|e| e.to_string())
}

/// The local addresses to show for sharing.
pub fn get_local_ips() -> (r: Result<Vec<String>, String>)
    ensures
        r matches Ok(v) ==> v@.len() >= 1 && exists|ifs: Seq<(Seq<char>, Seq<char>, bool)>|
            v@.map_values(|s: String| s@) == #[trigger] local_ip_entries(ifs),
        r matches Err(m) ==> exists|e: Seq<char>| m@ == "Failed to get network interfaces: "@ + e,
{
    match list_interfaces() {
        Ok(interfaces) => {
            let r = format_local_ips(&interfaces);
            proof {
                let views = interfaces@.map_values(|i: (String, String, bool)| (i.0@, i.1@, i.2));
                assert(r@.map_values(|s: String| s@).len() == r@.len());
                assert(r@.map_values(|s: String| s@) == local_ip_entries(views));
            }
            Ok(r)
        },
        Err(e) => {
            let mut m = "Failed to get network interfaces: ".to_owned();
            push_str(&mut m, e.as_str());
            assert(m@ == "Failed to get network interfaces: "@ + e@);
            Err(m)
        },
    }
}

/// Whether the firewall is on, from the output of
/// `socketfilterfw --getglobalstate`.
pub open spec fn firewall_enabled_in(output: Seq<char>) -> bool {
    contains(output, "enabled"@) || contains(output, "State = 1"@)
}

/// Whether line `i` of an application listing names VoiceTypr and allows
/// incoming connections on the same or the next line (case ignored).
pub open spec fn allowed_at(ls: Seq<Seq<char>>, i: int) -> bool {
    &&& contains(unicode_lowercase(ls[i]), "voicetypr"@)
    &&& ((i + 1 < ls.len() && contains(unicode_lowercase(ls[i + 1]), "allow incoming connections"@))
        || contains(unicode_lowercase(ls[i]), "allow incoming connections"@))
}

/// Whether the listing of `socketfilterfw --listapps` allows VoiceTypr.
pub open spec fn app_allowed_in(listing: Seq<char>) -> bool {
    exists|i: int| 0 <= i < lines(listing).len() && allowed_at(lines(listing), i)
}

/// The firewall state for sharing.
#[derive(Debug, Clone, Copy, PartialEq, Eq, Structural)]
pub struct FirewallStatus {
    /// Whether the system firewall is enabled
    pub firewall_enabled: bool,
    /// Whether VoiceTypr is allowed through the firewall
    pub app_allowed: bool,
    /// Whether incoming connections may be blocked
    pub may_be_blocked: bool,
}

/// Whether VoiceTypr is allowed in an application listing.
pub fn app_allowed_in_listing(listing: &str) -> (b: bool)
    ensures
        b == app_allowed_in(listing@),
{
    let ls = lines_of(listing);
    let ghost sl = lines(listing@);
    let mut i: usize = 0;
    while i < ls.len()
        invariant
            sl == lines(listing@),
            ls@.len() == sl.len(),
            forall|j: int| 0 <= j < ls@.len() ==> (#[trigger] ls@[j])@ == sl[j],
            i <= ls@.len(),
            forall|j: int| 0 <= j < i ==> !allowed_at(sl, j),
        decreases ls@.len() - i,
    {
        let line = to_lowercase(ls[i].as_str());
        if str_contains(line.as_str(), "voicetypr") {
            if i + 1 < ls.len() {
                let next = to_lowercase(ls[i + 1].as_str());
                if str_contains(next.as_str(), "allow incoming connections") {
                    assert(allowed_at(sl, i as int));
                    return true;
                }
            }
            if str_contains(line.as_str(), "allow incoming connections") {
                assert(allowed_at(sl, i as int));
                return true;
            }
        }
        i = i + 1;
    }
    false
}

/// The firewall state on macOS, from the outputs of `socketfilterfw
/// --getglobalstate` and `--listapps` (`None` where the command failed): a
/// disabled firewall blocks nothing; an enabled one may block unless the
/// listing allows VoiceTypr.
pub fn macos_firewall_status(global_state: Option<&str>, app_listing: Option<&str>) -> (r:
    FirewallStatus)
    ensures
        ({
            let enabled = global_state matches Some(g) && firewall_enabled_in(g@);
            let allowed = app_listing matches Some(l) && app_allowed_in(l@);
            if enabled {
                r == FirewallStatus {
                    firewall_enabled: true,
                    app_allowed: allowed,
                    may_be_blocked: !allowed,
                }
            } else {
                r == FirewallStatus {
                    firewall_enabled: false,
                    app_allowed: true,
                    may_be_blocked: false,
                }
            }
        }),
{
    let enabled = match global_state {
        Some(g) => str_contains(g, "enabled") || str_contains(g, "State = 1"),
        None => false,
    };
    if !enabled {
        return FirewallStatus { firewall_enabled: false, app_allowed: true, may_be_blocked: false };
    }
    let allowed = match app_listing {
        Some(l) => app_allowed_in_listing(l),
        None => false,
    };
    FirewallStatus { firewall_enabled: true, app_allowed: allowed, may_be_blocked: !allowed }
}

// ---------------------------------------------------------------------------
// Replies of a remote server
// ---------------------------------------------------------------------------

/// Whether a remote server's HTTP reply may be read: 401 is a refused
/// password, any other status outside 200-299 a server error carrying the
/// status as displayed (`status_text`, such as `500 Internal Server Error`).
pub fn remote_reply_check(status_code: u16, status_text: &str) -> (r: Result<(), String>)
    ensures
        status_code == 401 ==> (r matches Err(m) && m@ == AUTH_FAILED_TEXT@),
        status_code != 401 && 200 <= status_code <= 299 ==> r is Ok,
        status_code != 401 && !(200 <= status_code <= 299) ==> (r matches Err(m) && m@
            == "Server error: "@ + status_text@),
{
    if status_code == 401 {
        return Err(AUTH_FAILED_TEXT.to_owned());
    }
    if 200 <= status_code && status_code <= 299 {
        return Ok(());
    }
    let mut m = "Server error: ".to_owned();
    push_str(&mut m, status_text);
    Err(m)
}

/// The transcript in a remote server's reply: its `text` field.
pub fn remote_transcript(text_field: Option<String>) -> (r: Result<String, String>)
    ensures
        match text_field {
            Some(t) => r == Ok::<String, String>(t),
            None => r matches Err(m) && m@ == "Invalid response: missing 'text' field"@,
        },
{
    match text_field {
        Some(t) => Ok(t),
        None => Err("Invalid response: missing 'text' field".to_owned()),
    }
}

} // verus!
