use vstd::prelude::*;

use crate::error::OsError;

verus! {

/// Owner read/write only: the default socket mode.
pub const MODE_OWNER_ONLY: u16 = 0o600;

/// Read/write for owner, group and others: the "everyone may connect" mode.
pub const MODE_EVERYONE: u16 = 0o666;

/// Socket permissions on Unix: the permission bits to place on the bound
/// socket file, or `None` to leave the file with whatever the OS gave it.
pub struct SecurityAttributes {
    /// Read/write permissions for owner, group and others, in octal.
    pub mode: Option<u16>,
}

/// What `SecurityAttributes::empty` builds.
pub open spec fn spec_empty_attributes() -> SecurityAttributes {
    SecurityAttributes { mode: Some(MODE_OWNER_ONLY) }
}

/// What `SecurityAttributes::allow_everyone_connect` builds.
pub open spec fn spec_everyone_attributes() -> SecurityAttributes {
    SecurityAttributes { mode: Some(MODE_EVERYONE) }
}

/// What `SecurityAttributes::set_mode` builds from a custom value.
pub open spec fn spec_custom_attributes(mode: u16) -> SecurityAttributes {
    SecurityAttributes { mode: Some(mode) }
}

impl SecurityAttributes {
    /// New default security attributes: only the process' own user (and the
    /// system administrator) may access the socket.
    pub fn empty() -> (r: Self)
        ensures
            r == spec_empty_attributes(),
    {
        SecurityAttributes { mode: Some(MODE_OWNER_ONLY) }
    }

    /// New security attributes that allow everyone to connect.
    pub fn allow_everyone_connect(self) -> (r: Result<Self, OsError>)
        ensures
            r == Ok::<SecurityAttributes, OsError>(spec_everyone_attributes()),
    {
        Ok(SecurityAttributes { mode: Some(MODE_EVERYONE) })
    }

    /// Set a custom permission on the socket: exactly the bits given.
    pub fn set_mode(self, mode: u16) -> (r: Result<Self, OsError>)
        ensures
            r == Ok::<SecurityAttributes, OsError>(spec_custom_attributes(mode)),
    {
        Ok(SecurityAttributes { mode: Some(mode) })
    }

    /// New security attributes that allow everyone to create.
    ///
    /// Unix cannot distinguish "create" from "connect" rights on a socket
    /// file, so this applies no explicit permissions at all.
    pub fn allow_everyone_create() -> (r: Result<Self, OsError>)
        ensures
            (r matches Ok(s) && s.mode is None),
    {
        Ok(SecurityAttributes { mode: None })
    }

    /// The permission bits the host must `chmod` onto the freshly bound
    /// socket file, or `None` when no explicit permissions are to be applied.
    pub fn mode_to_apply(&self) -> (r: Option<u16>)
        ensures
            r == self.mode,
    {
        self.mode
    }
}

/// Endpoint for Unix systems: a resolved socket path plus the permissions to
/// place on it once bound.
pub struct Endpoint {
    /// The filesystem path the listener binds.
    pub path: String,
    /// Permissions applied to the socket file after binding.
    pub security_attributes: SecurityAttributes,
}

/// The mode bits that starting to listen on `e` will place on the bound
/// path: exactly what the endpoint's descriptor holds.
pub open spec fn spec_planned_mode(e: Endpoint) -> Option<u16> {
    e.security_attributes.mode
}

impl Endpoint {
    /// New IPC endpoint at the given resolved path, with default
    /// (owner-only) security attributes.
    pub fn new(path: String) -> (r: Self)
        ensures
            r.path == path,
            r.security_attributes == spec_empty_attributes(),
    {
        Endpoint { path, security_attributes: SecurityAttributes::empty() }
    }

    /// Replace the security attributes; effective only if called before
    /// `incoming` consumes the endpoint.
    pub fn set_security_attributes(&mut self, security_attributes: SecurityAttributes)
        ensures
            final(self).security_attributes == security_attributes,
            final(self).path == old(self).path,
    {
        self.security_attributes = security_attributes;
    }

    /// The path of the endpoint.
    pub fn path(&self) -> (r: &String)
        ensures
            r@ == self.path@,
    {
        &self.path
    }

    /// The plan for the incoming-connection sequence.
    ///
    /// The host must first bind the listener at `path` — the bind creates the
    /// socket file — and only then apply `mode` to that file: permissions
    /// cannot be set on a file that does not yet exist. The returned value
    /// records, in that order, the mode to apply and the path to delete when
    /// the sequence is torn down.
    pub fn incoming(self) -> (r: Result<Incoming, OsError>)
        ensures
            (r matches Ok(inc) && {
                &&& inc.mode == spec_planned_mode(self)
                &&& inc.cleanup_path == Some(self.path)
            }),
    {
        let Endpoint { path, security_attributes } = self;
        let mode = security_attributes.mode_to_apply();
        Ok(Incoming { mode, cleanup_path: Some(path) })
    }
}

/// The incoming-connection sequence on Unix: one long-lived listener,
/// accepted sockets yielded one by one.
///
/// Owns the bound path for cleanup: the socket file is removed exactly once,
/// best-effort, when the sequence is discarded.
pub struct Incoming {
    /// The permission bits to apply to the bound socket file, applied once,
    /// right after the bind.
    pub mode: Option<u16>,
    /// The bound socket path, present until the one-time cleanup claims it.
    pub cleanup_path: Option<String>,
}

/// What one claim of the cleanup path yields, and the sequence state it
/// leaves behind.
pub open spec fn spec_take_cleanup(inc: Incoming) -> (Option<String>, Incoming) {
    (inc.cleanup_path, Incoming { mode: inc.mode, cleanup_path: None })
}

impl Incoming {
    /// A sequence adopted from a pre-existing listener: no path is known, so
    /// nothing is ever cleaned up and no permissions are applied.
    pub fn adopted() -> (r: Self)
        ensures
            r.cleanup_path is None,
            r.mode is None,
    {
        Incoming { mode: None, cleanup_path: None }
    }

    /// One accepted client.
    ///
    /// The single long-lived listener keeps accepting as it is — unlike a
    /// pipe instance, nothing is consumed and nothing needs replacing
    /// between two accepts — so the sequence state does not change; the
    /// accepted socket becomes the yielded server-side connection.
    pub fn next_connection(&self) -> (r: Connection)
        ensures
            !r.client_role,
    {
        Connection::wrap_accepted()
    }

    /// Claims the bound path for deletion.
    ///
    /// The host deletes the file for a `Some` result only, so however often
    /// teardown logic runs, the deletion is attempted at most once.
    pub fn take_cleanup_path(&mut self) -> (r: Option<String>)
        ensures
            (r, *final(self)) == spec_take_cleanup(*old(self)),
    {
        self.cleanup_path.take()
    }
}

/// A connection on Unix: wraps exactly one stream socket for its whole life.
pub struct Connection {
    /// Whether the wrapped socket came from this process' own connect call
    /// (client) rather than from an accept on the listener (server).
    pub client_role: bool,
}

impl Connection {
    /// Wraps an accepted (server-side) stream.
    pub fn wrap_accepted() -> (r: Self)
        ensures
            !r.client_role,
    {
        Connection { client_role: false }
    }

    /// Wraps a stream obtained by connecting as a client.
    pub fn wrap_connected() -> (r: Self)
        ensures
            r.client_role,
    {
        Connection { client_role: true }
    }
}

/// An endpoint whose descriptor is the default (`empty`) one plans exactly
/// mode `0o600` — owner-only — for the bound socket path.
pub proof fn lemma_empty_descriptor_owner_only(e: Endpoint)
    requires
        e.security_attributes == spec_empty_attributes(),
    ensures
        spec_planned_mode(e) == Some(0o600u16),
{
}

/// An endpoint whose descriptor allows everyone to connect plans exactly
/// mode `0o666` for the bound socket path.
pub proof fn lemma_everyone_connect_mode(e: Endpoint)
    requires
        e.security_attributes == spec_everyone_attributes(),
    ensures
        spec_planned_mode(e) == Some(0o666u16),
{
}

/// A custom mode survives unchanged: an endpoint whose descriptor was set
/// with `set_mode(custom)` plans exactly `custom` for the bound socket path.
pub proof fn lemma_custom_mode_applied_exactly(e: Endpoint, custom: u16)
    requires
        e.security_attributes == spec_custom_attributes(custom),
    ensures
        spec_planned_mode(e) == Some(custom),
{
}

/// The cleanup path is handed out exactly once: after one claim, every
/// further claim yields nothing to delete, so the socket file is removed at
/// most once however many times teardown logic runs.
pub proof fn lemma_cleanup_path_taken_exactly_once(inc: Incoming)
    ensures
        ({
            let (first, rest) = spec_take_cleanup(inc);
            let (second, _) = spec_take_cleanup(rest);
            &&& first == inc.cleanup_path
            &&& second is None
        }),
{
}

} // verus!
