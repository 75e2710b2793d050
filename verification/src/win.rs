use vstd::prelude::*;

use crate::error::OsError;

verus! {

/// Generic read access right.
pub const GENERIC_READ: u32 = 0x8000_0000;

/// Generic write access right.
pub const GENERIC_WRITE: u32 = 0x4000_0000;

/// Right to write data to a file or pipe.
pub const FILE_WRITE_DATA: u32 = 0x0000_0001;

/// The identifier authority of the world ("Everyone") SID.
pub const SECURITY_WORLD_SID_AUTHORITY: u64 = 1;

/// The relative identifier of the world ("Everyone") SID.
pub const SECURITY_WORLD_RID: u32 = 0;

/// Trustee form: the trustee is given as a SID.
pub const TRUSTEE_IS_SID: u32 = 0;

/// Trustee type: a well-known group such as "Everyone".
pub const TRUSTEE_IS_WELL_KNOWN_GROUP: u32 = 5;

/// Access mode that replaces any existing rights of the trustee.
pub const SET_ACCESS: u32 = 2;

/// The security-descriptor revision this library initializes.
pub const SECURITY_DESCRIPTOR_REVISION: u32 = 1;

/// The OS error code for "all pipe instances are busy".
pub const ERROR_PIPE_BUSY: u32 = 231;

/// Total wall-clock budget for retrying a busy pipe, in milliseconds.
pub const PIPE_AVAILABILITY_TIMEOUT_MS: u64 = 5000;

/// Pause between two attempts against a busy pipe, in milliseconds.
pub const PIPE_RETRY_INTERVAL_MS: u64 = 50;

/// Byte size of each pipe instance's in and out buffers.
pub const PIPE_BUFFER_SIZE: u32 = 65536;

/// A security identifier naming one principal: an identifier authority plus
/// one relative identifier, the only SID shape this library builds.
#[derive(Clone, Copy, PartialEq, Eq, Structural, Debug)]
pub struct Sid {
    /// The 48-bit identifier authority value.
    pub authority: u64,
    /// The single sub-authority (relative identifier).
    pub sub_authority: u32,
}

/// The well-known SID of the "Everyone" principal.
pub open spec fn spec_everyone_sid() -> Sid {
    Sid { authority: SECURITY_WORLD_SID_AUTHORITY, sub_authority: SECURITY_WORLD_RID }
}

impl Sid {
    /// The SID of the well-known "Everyone" principal: world authority with
    /// the world relative identifier.
    pub fn everyone_sid() -> (r: Result<Sid, OsError>)
        ensures
            r == Ok::<Sid, OsError>(spec_everyone_sid()),
    {
        Ok(Sid { authority: SECURITY_WORLD_SID_AUTHORITY, sub_authority: SECURITY_WORLD_RID })
    }
}

/// One access-control entry: a permission mask granted (or denied) to the
/// principal named by the SID.
#[derive(Clone, Copy, PartialEq, Eq, Structural, Debug)]
pub struct AceWithSid {
    /// The principal the entry speaks about.
    pub sid: Sid,
    /// How the trustee is identified; always by SID here.
    pub trustee_form: u32,
    /// The kind of principal, such as a well-known group.
    pub trustee_type: u32,
    /// How the entry combines with existing rights; zero until set.
    pub access_mode: u32,
    /// The permission mask; zero until set.
    pub access_permissions: u32,
    /// Inheritance flags; zero means no inheritance.
    pub inheritance: u32,
}

/// The single entry this library ever grants: the given mask to "Everyone",
/// replacing existing rights, with no inheritance.
pub open spec fn spec_everyone_ace(permissions: u32) -> AceWithSid {
    AceWithSid {
        sid: spec_everyone_sid(),
        trustee_form: TRUSTEE_IS_SID,
        trustee_type: TRUSTEE_IS_WELL_KNOWN_GROUP,
        access_mode: SET_ACCESS,
        access_permissions: permissions,
        inheritance: 0,
    }
}

impl AceWithSid {
    /// A blank entry for the given principal: every choice still zeroed.
    pub fn new(sid: Sid, trustee_type: u32) -> (r: AceWithSid)
        ensures
            r.sid == sid,
            r.trustee_form == TRUSTEE_IS_SID,
            r.trustee_type == trustee_type,
            r.access_mode == 0,
            r.access_permissions == 0,
            r.inheritance == 0,
    {
        AceWithSid {
            sid,
            trustee_form: TRUSTEE_IS_SID,
            trustee_type,
            access_mode: 0,
            access_permissions: 0,
            inheritance: 0,
        }
    }

    /// Choose how the entry combines with existing rights.
    pub fn set_access_mode(&mut self, access_mode: u32)
        ensures
            *final(self) == (AceWithSid { access_mode, ..*old(self) }),
    {
        self.access_mode = access_mode;
    }

    /// Choose the permission mask the entry grants.
    pub fn set_access_permissions(&mut self, access_permissions: u32)
        ensures
            *final(self) == (AceWithSid { access_permissions, ..*old(self) }),
    {
        self.access_permissions = access_permissions;
    }

    /// Choose the inheritance flags of the entry.
    pub fn allow_inheritance(&mut self, inheritance_flags: u32)
        ensures
            *final(self) == (AceWithSid { inheritance: inheritance_flags, ..*old(self) }),
    {
        self.inheritance = inheritance_flags;
    }
}

/// An access-control list: the ordered entries of a DACL.
pub struct Acl {
    /// The explicit entries, in order.
    pub entries: Vec<AceWithSid>,
}

impl Acl {
    /// An ACL with no explicit entries.
    pub fn empty() -> (r: Result<Acl, OsError>)
        ensures
            (r matches Ok(a) && a.entries@ == Seq::<AceWithSid>::empty()),
    {
        Ok(Acl { entries: Vec::new() })
    }

    /// An ACL holding exactly the given entries, in their order.
    pub fn new(entries: Vec<AceWithSid>) -> (r: Result<Acl, OsError>)
        ensures
            (r matches Ok(a) && a.entries@ == entries@),
    {
        Ok(Acl { entries })
    }
}

/// A security descriptor: revision plus an optional discretionary ACL.
pub struct SecurityDescriptor {
    /// The structure revision the descriptor was initialized with.
    pub revision: u32,
    /// The discretionary ACL, once attached. Absent means the object gets
    /// the OS default protection, not "everyone".
    pub dacl: Option<Acl>,
}

impl SecurityDescriptor {
    /// A freshly initialized descriptor: current revision, no DACL yet.
    pub fn new() -> (r: Result<SecurityDescriptor, OsError>)
        ensures
            (r matches Ok(d) && d.revision == SECURITY_DESCRIPTOR_REVISION && d.dacl is None),
    {
        Ok(SecurityDescriptor { revision: SECURITY_DESCRIPTOR_REVISION, dacl: None })
    }

    /// Attach the ACL as the descriptor's discretionary ACL. The descriptor
    /// takes ownership, so the list lives exactly as long as the descriptor
    /// that points at it.
    pub fn set_dacl(&mut self, acl: Acl) -> (r: Result<(), OsError>)
        ensures
            r is Ok,
            final(self).revision == old(self).revision,
            (final(self).dacl matches Some(a) && a.entries@ == acl.entries@),
    {
        self.dacl = Some(acl);
        Ok(())
    }
}

/// The full chain behind an explicit security choice: the descriptor (which
/// owns its DACL, which names its SIDs) plus the handle-inheritance flag of
/// the attributes envelope around it.
///
/// Ownership runs in dependency order — attributes refer to the descriptor,
/// the descriptor to the ACL, the ACL to its SIDs — so dropping the chain
/// releases each layer before the layer it depends on, and a half-built
/// chain abandoned on an error path is released the same way.
pub struct InnerAttributes {
    /// The security descriptor, owning everything below it.
    pub descriptor: SecurityDescriptor,
    /// Whether handles created with these attributes are inheritable;
    /// always disabled here.
    pub inherit_handle: bool,
}

impl InnerAttributes {
    /// A chain whose descriptor carries no DACL: the OS default protection.
    pub fn empty() -> (r: Result<InnerAttributes, OsError>)
        ensures
            (r matches Ok(a) && {
                &&& a.descriptor.revision == SECURITY_DESCRIPTOR_REVISION
                &&& a.descriptor.dacl is None
                &&& !a.inherit_handle
            }),
    {
        let descriptor = SecurityDescriptor::new()?;
        Ok(InnerAttributes { descriptor, inherit_handle: false })
    }

    /// A chain granting exactly the given permission mask to "Everyone":
    /// one entry, replace-not-merge, no inheritance, nothing else.
    pub fn allow_everyone(permissions: u32) -> (r: Result<InnerAttributes, OsError>)
        ensures
            (r matches Ok(a) && {
                &&& a.descriptor.revision == SECURITY_DESCRIPTOR_REVISION
                &&& a.descriptor.dacl matches Some(acl) && acl.entries@
                    == seq![spec_everyone_ace(permissions)]
                &&& !a.inherit_handle
            }),
    {
        let mut attributes = Self::empty()?;
        let sid = Sid::everyone_sid()?;

        let mut everyone_ace = AceWithSid::new(sid, TRUSTEE_IS_WELL_KNOWN_GROUP);
        everyone_ace.set_access_mode(SET_ACCESS);
        everyone_ace.set_access_permissions(permissions);
        everyone_ace.allow_inheritance(0);

        let mut entries: Vec<AceWithSid> = Vec::new();
        entries.push(everyone_ace);
        let acl = Acl::new(entries)?;
        attributes.descriptor.set_dacl(acl)?;

        proof {
            assert(attributes.descriptor.dacl matches Some(a)
                && a.entries@ =~= seq![spec_everyone_ace(permissions)]);
        }
        Ok(attributes)
    }
}

/// Security attributes for a named pipe: either an explicit descriptor
/// chain or the OS default protection.
pub struct SecurityAttributes {
    /// The explicit chain; absent means the OS default (creator-only).
    pub attributes: Option<InnerAttributes>,
}

impl SecurityAttributes {
    /// Whether these attributes leave protection to the OS default.
    pub open spec fn spec_is_os_default(&self) -> bool {
        self.attributes is None
    }

    /// The one permission mask these attributes grant to "Everyone", if the
    /// explicit DACL consists of exactly that single grant; `None` for the
    /// OS default, a missing DACL, or any other entry shape.
    pub open spec fn spec_everyone_mask(&self) -> Option<u32> {
        match self.attributes {
            None => None,
            Some(inner) => match inner.descriptor.dacl {
                None => None,
                Some(acl) => if acl.entries@.len() == 1 && acl.entries@[0]
                    == spec_everyone_ace(acl.entries@[0].access_permissions) {
                    Some(acl.entries@[0].access_permissions)
                } else {
                    None
                },
            },
        }
    }

    /// New default security attributes: no explicit descriptor, so the
    /// created pipe gets the OS default (creator-only) protection.
    pub fn empty() -> (r: SecurityAttributes)
        ensures
            r.spec_is_os_default(),
            r.spec_everyone_mask() is None,
    {
        SecurityAttributes { attributes: None }
    }

    /// New security attributes that allow everyone to connect: read plus
    /// file-write-data rights for the "Everyone" principal, and no other
    /// explicit entry.
    pub fn allow_everyone_connect(&self) -> (r: Result<SecurityAttributes, OsError>)
        ensures
            (r matches Ok(s) && {
                &&& s.spec_everyone_mask() == Some(GENERIC_READ | FILE_WRITE_DATA)
                &&& !s.spec_is_os_default()
            }),
    {
        let inner = InnerAttributes::allow_everyone(GENERIC_READ | FILE_WRITE_DATA)?;
        let s = SecurityAttributes { attributes: Some(inner) };
        proof {
            assert(s.spec_everyone_mask() == Some(GENERIC_READ | FILE_WRITE_DATA));
        }
        Ok(s)
    }

    /// Set a custom permission on the socket.
    ///
    /// Pipe protection is ACL-based, not mode-bit-based, so this has no
    /// effect at all: the attributes come back unchanged. The asymmetry
    /// with the Unix endpoint is deliberate and preserved.
    pub fn set_mode(self, _mode: u32) -> (r: Result<SecurityAttributes, OsError>)
        ensures
            r == Ok::<SecurityAttributes, OsError>(self),
    {
        Ok(self)
    }

    /// New security attributes that allow everyone to create: generic read
    /// plus generic write rights for the "Everyone" principal, and no other
    /// explicit entry.
    pub fn allow_everyone_create() -> (r: Result<SecurityAttributes, OsError>)
        ensures
            (r matches Ok(s) && {
                &&& s.spec_everyone_mask() == Some(GENERIC_READ | GENERIC_WRITE)
                &&& !s.spec_is_os_default()
            }),
    {
        let inner = InnerAttributes::allow_everyone(GENERIC_READ | GENERIC_WRITE)?;
        let s = SecurityAttributes { attributes: Some(inner) };
        proof {
            assert(s.spec_everyone_mask() == Some(GENERIC_READ | GENERIC_WRITE));
        }
        Ok(s)
    }

    /// Whether these attributes leave protection to the OS default.
    pub fn is_os_default(&self) -> (r: bool)
        ensures
            r == self.spec_is_os_default(),
    {
        self.attributes.is_none()
    }

    /// Whether the pipe-creation call receives an explicit descriptor
    /// pointer (rather than a null one, which means the OS default).
    pub fn has_explicit_descriptor(&self) -> (r: bool)
        ensures
            r == !self.spec_is_os_default(),
    {
        self.attributes.is_some()
    }

    /// The single "Everyone" grant these attributes carry, if that is
    /// exactly what the explicit DACL holds.
    pub fn everyone_mask(&self) -> (r: Option<u32>)
        ensures
            r == self.spec_everyone_mask(),
    {
        match &self.attributes {
            None => None,
            Some(inner) => match &inner.descriptor.dacl {
                None => None,
                Some(acl) => {
                    if acl.entries.len() == 1 {
                        let e = &acl.entries[0];
                        if e.sid.authority == SECURITY_WORLD_SID_AUTHORITY
                            && e.sid.sub_authority == SECURITY_WORLD_RID
                            && e.trustee_form == TRUSTEE_IS_SID
                            && e.trustee_type == TRUSTEE_IS_WELL_KNOWN_GROUP
                            && e.access_mode == SET_ACCESS
                            && e.inheritance == 0 {
                            Some(e.access_permissions)
                        } else {
                            None
                        }
                    } else {
                        None
                    }
                },
            },
        }
    }
}

/// Everything one pipe-instance creation call is asked for. The host
/// translates this one-to-one into the native creation call, handing it the
/// endpoint's descriptor pointer; the descriptor chain must stay alive until
/// that call returns.
#[derive(Clone, Copy, PartialEq, Eq, Structural, Debug)]
pub struct PipeServerConfig {
    /// Claim exclusive ownership of a new pipe namespace. Only the very
    /// first instance at a name may do so; every replacement must not.
    pub first_pipe_instance: bool,
    /// Refuse clients from other hosts; always on.
    pub reject_remote_clients: bool,
    /// The server may read from the pipe; always on.
    pub access_inbound: bool,
    /// The server may write to the pipe; always on.
    pub access_outbound: bool,
    /// Byte size of the inbound buffer.
    pub in_buffer_size: u32,
    /// Byte size of the outbound buffer.
    pub out_buffer_size: u32,
    /// Whether the creation call receives an explicit security descriptor.
    pub explicit_descriptor: bool,
    /// The single "Everyone" grant of that descriptor, if that is exactly
    /// what its DACL holds.
    pub everyone_mask: Option<u32>,
}

/// Endpoint for Windows: a pipe name, the security attributes every
/// instance is created with, and whether a first instance exists yet.
pub struct Endpoint {
    /// The pipe name instances are created under.
    pub path: String,
    /// The attributes embedded into each instance-creation call.
    pub security_attributes: SecurityAttributes,
    /// Whether this endpoint has already created an instance; the first one
    /// (and only the first) claims the namespace exclusively.
    pub created_listener: bool,
}

/// The creation request `e` issues for its next pipe instance: fixed
/// transport options, the endpoint's current descriptor, and first-instance
/// rights exactly when no instance has been created yet.
pub open spec fn spec_listener_config(e: Endpoint) -> PipeServerConfig {
    PipeServerConfig {
        first_pipe_instance: !e.created_listener,
        reject_remote_clients: true,
        access_inbound: true,
        access_outbound: true,
        in_buffer_size: PIPE_BUFFER_SIZE,
        out_buffer_size: PIPE_BUFFER_SIZE,
        explicit_descriptor: !e.security_attributes.spec_is_os_default(),
        everyone_mask: e.security_attributes.spec_everyone_mask(),
    }
}

impl Endpoint {
    /// New IPC endpoint at the given pipe name, with default (OS-default)
    /// security attributes and no instance created yet.
    pub fn new(path: String) -> (r: Endpoint)
        ensures
            r.path == path,
            r.security_attributes.spec_is_os_default(),
            !r.created_listener,
    {
        Endpoint {
            path,
            security_attributes: SecurityAttributes::empty(),
            created_listener: false,
        }
    }

    /// Replace the security attributes; effective only for instances not
    /// yet created.
    pub fn set_security_attributes(&mut self, security_attributes: SecurityAttributes)
        ensures
            final(self).security_attributes == security_attributes,
            final(self).path == old(self).path,
            final(self).created_listener == old(self).created_listener,
    {
        self.security_attributes = security_attributes;
    }

    /// The path (pipe name) of the endpoint.
    pub fn path(&self) -> (r: &String)
        ensures
            r@ == self.path@,
    {
        &self.path
    }

    /// The creation request for the next pipe instance.
    ///
    /// The very first instance claims exclusive first-instance rights;
    /// every later one must not, and the endpoint records that a first
    /// instance now exists. The request always embeds the endpoint's
    /// current descriptor: pipe security cannot be retrofitted, so it must
    /// ride along on the creation call itself.
    pub fn create_listener(&mut self) -> (c: PipeServerConfig)
        ensures
            c == spec_listener_config(*old(self)),
            final(self).created_listener,
            final(self).path == old(self).path,
            final(self).security_attributes == old(self).security_attributes,
    {
        let explicit_descriptor = self.security_attributes.has_explicit_descriptor();
        let everyone_mask = self.security_attributes.everyone_mask();
        let c = PipeServerConfig {
            first_pipe_instance: !self.created_listener,
            reject_remote_clients: true,
            access_inbound: true,
            access_outbound: true,
            in_buffer_size: PIPE_BUFFER_SIZE,
            out_buffer_size: PIPE_BUFFER_SIZE,
            explicit_descriptor,
            everyone_mask,
        };
        self.created_listener = true;
        c
    }

    /// Begin accepting: create the first pipe instance and hand over the
    /// sequence that replaces it after every accepted client.
    pub fn incoming(self) -> (r: Result<Incoming, OsError>)
        ensures
            (r matches Ok(inc) && {
                &&& inc.listening == spec_listener_config(self)
                &&& inc.listening.first_pipe_instance == !self.created_listener
                &&& inc.endpoint.path == self.path
                &&& inc.endpoint.security_attributes == self.security_attributes
                &&& inc.well_formed()
            }),
    {
        let mut endpoint = self;
        let listening = endpoint.create_listener();
        Ok(Incoming { endpoint, listening })
    }
}

/// The incoming-connection sequence on Windows.
///
/// A pipe instance serves exactly one client, so the sequence is an unfold:
/// wait for the current instance to receive its client, create the next
/// instance, and only then yield the now-connected one. The pair below is
/// the loop state: the endpoint (for further creation requests) and the
/// instance currently waiting for a client.
pub struct Incoming {
    /// The endpoint, consulted for each replacement instance.
    pub endpoint: Endpoint,
    /// The creation request of the instance currently awaiting a client.
    pub listening: PipeServerConfig,
}

/// The sequence state after one production step: the endpoint unchanged,
/// a fresh replacement instance listening.
pub open spec fn spec_next_incoming(inc: Incoming) -> Incoming {
    Incoming { endpoint: inc.endpoint, listening: spec_listener_config(inc.endpoint) }
}

/// The sequence state after `n` sequential clients have been served.
pub open spec fn spec_after_clients(inc: Incoming, n: nat) -> Incoming
    decreases n,
{
    if n == 0 {
        inc
    } else {
        spec_next_incoming(spec_after_clients(inc, (n - 1) as nat))
    }
}

impl Incoming {
    /// An instance is created and listening, and the endpoint knows that a
    /// first instance exists.
    pub open spec fn well_formed(&self) -> bool {
        self.endpoint.created_listener
    }

    /// One production step, taken when a client has attached to the
    /// currently listening instance.
    ///
    /// The replacement instance's creation request is issued before the
    /// connected instance is yielded — both sit in the returned pair — so
    /// the pipe name never goes unavailable between two accepts. The
    /// replacement never claims first-instance rights. If the host's
    /// creation call for the replacement fails, the sequence terminates
    /// with that error instead of yielding.
    pub fn next_connection(self) -> (r: (Connection, Incoming))
        requires
            self.well_formed(),
        ensures
            ({
                let (conn, rest) = r;
                &&& conn.pipe matches NamedPipe::Server(served) && served == self.listening
                &&& rest == spec_next_incoming(self)
                &&& !rest.listening.first_pipe_instance
                &&& rest.well_formed()
            }),
    {
        let Incoming { mut endpoint, listening } = self;
        let replacement = endpoint.create_listener();
        let conn = Connection::wrap(NamedPipe::Server(listening));
        (conn, Incoming { endpoint, listening: replacement })
    }
}

/// Which native pipe end a connection wraps.
#[derive(Clone, Copy, PartialEq, Eq, Structural, Debug)]
pub enum NamedPipe {
    /// A server instance, described by the request it was created from.
    Server(PipeServerConfig),
    /// A client end opened against an existing pipe name.
    Client,
}

/// A connection on Windows: wraps exactly one pipe end for its whole life.
/// Reads, writes, flushes and shutdown all forward to that end, whichever
/// role it has.
pub struct Connection {
    /// The wrapped pipe end.
    pub pipe: NamedPipe,
}

impl Connection {
    /// Wraps an existing named pipe end.
    pub fn wrap(pipe: NamedPipe) -> (r: Connection)
        ensures
            r.pipe == pipe,
    {
        Connection { pipe }
    }
}

/// Sequential clients never find the name unavailable: starting from a
/// live sequence, after any number of served clients an instance is again
/// created and listening, so the next client's open attempt finds an
/// unconnected instance rather than "pipe busy".
pub proof fn lemma_sequential_clients_always_find_instance(inc: Incoming, n: nat)
    requires
        inc.well_formed(),
    ensures
        spec_after_clients(inc, n).well_formed(),
        n > 0 ==> !spec_after_clients(inc, n).listening.first_pipe_instance,
    decreases n,
{
    if n > 0 {
        lemma_sequential_clients_always_find_instance(inc, (n - 1) as nat);
    }
}

/// A pipe created from an endpoint left with its default (`empty`)
/// attributes gets no explicit descriptor: every creation request it
/// issues hands the OS a null descriptor, so the pipe's effective security
/// is the OS default rather than an explicitly broadened DACL.
pub proof fn lemma_default_endpoint_creates_os_default_pipe(e: Endpoint)
    requires
        e.security_attributes.spec_is_os_default(),
    ensures
        !spec_listener_config(e).explicit_descriptor,
        spec_listener_config(e).everyone_mask is None,
{
}

/// A pipe created from an endpoint whose attributes grant "Everyone" a
/// mask carries exactly that grant: every creation request it issues
/// embeds an explicit descriptor whose one grant is that mask.
pub proof fn lemma_everyone_endpoint_creates_granting_pipe(e: Endpoint, mask: u32)
    requires
        e.security_attributes.spec_everyone_mask() == Some(mask),
    ensures
        spec_listener_config(e).explicit_descriptor,
        spec_listener_config(e).everyone_mask == Some(mask),
{
}

/// What one client connect attempt reported.
#[derive(Clone, Copy, PartialEq, Eq, Structural, Debug)]
pub enum AttemptOutcome {
    /// The open succeeded.
    Connected,
    /// The open failed with this raw OS error code.
    Error(u32),
}

/// What the client does after one attempt.
#[derive(Clone, Copy, PartialEq, Eq, Structural, Debug)]
pub enum ConnectAction {
    /// Keep the opened pipe end: the connection is established.
    Accept,
    /// Sleep this many milliseconds, then try opening again.
    RetryAfter(u64),
    /// Give up and surface this raw OS error code.
    Fail(u32),
}

/// The retry policy of a client connect: only "pipe busy" is ever retried,
/// and only while the attempt began within the overall budget; every other
/// error surfaces at once, unchanged.
pub open spec fn spec_connect_step(outcome: AttemptOutcome, elapsed_ms: u64) -> ConnectAction {
    match outcome {
        AttemptOutcome::Connected => ConnectAction::Accept,
        AttemptOutcome::Error(code) => if code == ERROR_PIPE_BUSY
            && elapsed_ms < PIPE_AVAILABILITY_TIMEOUT_MS {
            ConnectAction::RetryAfter(PIPE_RETRY_INTERVAL_MS)
        } else {
            ConnectAction::Fail(code)
        },
    }
}

/// Decide what a client connect does after one open attempt, given how much
/// wall-clock time has elapsed since the first attempt.
///
/// There is no native way to wait asynchronously for a pipe instance to
/// become available, so a busy pipe is polled: sleep a short fixed interval
/// and try again, up to a total budget. The host performs the open and the
/// sleep and feeds the outcomes through here.
pub fn connect_step(outcome: AttemptOutcome, elapsed_ms: u64) -> (a: ConnectAction)
    ensures
        a == spec_connect_step(outcome, elapsed_ms),
        outcome is Connected ==> a is Accept,
        outcome matches AttemptOutcome::Error(code) ==> {
            &&& code != ERROR_PIPE_BUSY ==> a == ConnectAction::Fail(code)
            &&& code == ERROR_PIPE_BUSY && elapsed_ms < PIPE_AVAILABILITY_TIMEOUT_MS
                ==> a == ConnectAction::RetryAfter(PIPE_RETRY_INTERVAL_MS)
            &&& code == ERROR_PIPE_BUSY && elapsed_ms >= PIPE_AVAILABILITY_TIMEOUT_MS
                ==> a == ConnectAction::Fail(ERROR_PIPE_BUSY)
        },
{
    match outcome {
        AttemptOutcome::Connected => ConnectAction::Accept,
        AttemptOutcome::Error(code) => {
            if code == ERROR_PIPE_BUSY && elapsed_ms < PIPE_AVAILABILITY_TIMEOUT_MS {
                ConnectAction::RetryAfter(PIPE_RETRY_INTERVAL_MS)
            } else {
                ConnectAction::Fail(code)
            }
        },
    }
}

/// How a whole client connect resolves, given the trace of open attempts:
/// each element is the elapsed time at which the attempt was decided and
/// what it reported. `Some(Ok(i))` means the connect succeeds at attempt
/// `i`; `Some(Err(code))` means it fails with that code; `None` means the
/// trace ended while the policy still wanted to retry.
pub open spec fn spec_connect_result(trace: Seq<(u64, AttemptOutcome)>) -> Option<Result<int, u32>>
    decreases trace.len(),
{
    if trace.len() == 0 {
        None
    } else {
        match spec_connect_step(trace[0].1, trace[0].0) {
            ConnectAction::Accept => Some(Ok(0)),
            ConnectAction::Fail(code) => Some(Err(code)),
            ConnectAction::RetryAfter(_) => match spec_connect_result(trace.drop_first()) {
                None => None,
                Some(Ok(i)) => Some(Ok(i + 1)),
                Some(Err(code)) => Some(Err(code)),
            },
        }
    }
}

/// The same resolution with every attempt index moved up by `by`: how a
/// connect looks from before `by` retries already taken.
pub open spec fn spec_shift_attempts(r: Option<Result<int, u32>>, by: int) -> Option<
    Result<int, u32>,
> {
    match r {
        None => None,
        Some(Ok(i)) => Some(Ok(i + by)),
        Some(Err(code)) => Some(Err(code)),
    }
}

/// Resolves a whole client connect from the recorded outcomes of its open
/// attempts: the very loop the host runs, on a trace instead of live
/// opens. `Some(Ok(i))` connects at attempt `i`, `Some(Err(code))` gives
/// up with that code, `None` means the trace ended while the policy still
/// wanted to retry.
pub fn resolve_connect(attempts: &Vec<(u64, AttemptOutcome)>) -> (r: Option<Result<usize, u32>>)
    ensures
        ({
            let s = spec_connect_result(attempts@);
            match r {
                None => s is None,
                Some(rr) => match rr {
                    Ok(i) => s == Some(Ok::<int, u32>(i as int)),
                    Err(code) => s == Some(Err::<int, u32>(code)),
                },
            }
        }),
{
    let n = attempts.len();
    let mut idx: usize = 0;
    proof {
        assert(attempts@.skip(0) =~= attempts@);
    }
    while idx < n
        invariant
            n == attempts@.len(),
            idx <= n,
            spec_connect_result(attempts@) == spec_shift_attempts(
                spec_connect_result(attempts@.skip(idx as int)),
                idx as int,
            ),
        decreases n - idx,
    {
        let (elapsed, outcome) = attempts[idx];
        let step = connect_step(outcome, elapsed);
        proof {
            assert(attempts@.skip(idx as int)[0] == attempts@[idx as int]);
            assert(attempts@.skip(idx as int).drop_first() =~= attempts@.skip(idx as int + 1));
        }
        match step {
            ConnectAction::Accept => {
                return Some(Ok(idx));
            },
            ConnectAction::Fail(code) => {
                return Some(Err(code));
            },
            ConnectAction::RetryAfter(_) => {
                idx = idx + 1;
            },
        }
    }
    None
}

/// A connect against a name with no live endpoint fails at once: the very
/// first attempt reports a non-busy error (such as "file not found"), that
/// error surfaces verbatim, and no retry is ever entered.
pub proof fn lemma_absent_endpoint_fails_immediately(
    trace: Seq<(u64, AttemptOutcome)>,
    code: u32,
)
    requires
        trace.len() >= 1,
        trace[0].1 == AttemptOutcome::Error(code),
        code != ERROR_PIPE_BUSY,
    ensures
        spec_connect_result(trace) == Some(Err::<int, u32>(code)),
{
}

/// A busy pipe that frees an instance within the retry budget is connected
/// to: if every attempt before `k` found the pipe busy while still inside
/// the budget, and attempt `k` succeeds, the whole connect succeeds, at
/// attempt `k`.
pub proof fn lemma_busy_pipe_freed_within_budget_connects(
    trace: Seq<(u64, AttemptOutcome)>,
    k: int,
)
    requires
        0 <= k < trace.len(),
        forall|j: int| 0 <= j < k ==> (#[trigger] trace[j]).1 == AttemptOutcome::Error(
            ERROR_PIPE_BUSY,
        ) && trace[j].0 < PIPE_AVAILABILITY_TIMEOUT_MS,
        trace[k].1 == AttemptOutcome::Connected,
    ensures
        spec_connect_result(trace) == Some(Ok::<int, u32>(k)),
    decreases k,
{
    if k > 0 {
        let rest = trace.drop_first();
        assert forall|j: int| 0 <= j < k - 1 implies (#[trigger] rest[j]).1
            == AttemptOutcome::Error(ERROR_PIPE_BUSY) && rest[j].0
            < PIPE_AVAILABILITY_TIMEOUT_MS by {
            assert(rest[j] == trace[j + 1]);
        }
        lemma_busy_pipe_freed_within_budget_connects(rest, k - 1);
    }
}

/// A pipe that never frees an instance makes the connect fail with the busy
/// error once the budget is exhausted: if every attempt found the pipe
/// busy, the ones before the last began within the budget and the last one
/// at or past it, the whole connect fails with the busy code — after an
/// elapsed time that has just crossed the five-second budget.
pub proof fn lemma_busy_pipe_never_freed_fails_after_budget(trace: Seq<(u64, AttemptOutcome)>)
    requires
        trace.len() >= 1,
        forall|j: int| 0 <= j < trace.len() ==> (#[trigger] trace[j]).1 == AttemptOutcome::Error(
            ERROR_PIPE_BUSY,
        ),
        forall|j: int| 0 <= j < trace.len() - 1 ==> (#[trigger] trace[j]).0
            < PIPE_AVAILABILITY_TIMEOUT_MS,
        trace[trace.len() - 1].0 >= PIPE_AVAILABILITY_TIMEOUT_MS,
    ensures
        spec_connect_result(trace) == Some(Err::<int, u32>(ERROR_PIPE_BUSY)),
    decreases trace.len(),
{
    if trace.len() > 1 {
        let rest = trace.drop_first();
        assert forall|j: int| 0 <= j < rest.len() implies (#[trigger] rest[j]).1
            == AttemptOutcome::Error(ERROR_PIPE_BUSY) by {
            assert(rest[j] == trace[j + 1]);
        }
        assert forall|j: int| 0 <= j < rest.len() - 1 implies (#[trigger] rest[j]).0
            < PIPE_AVAILABILITY_TIMEOUT_MS by {
            assert(rest[j] == trace[j + 1]);
        }
        assert(rest[rest.len() - 1] == trace[trace.len() - 1]);
        lemma_busy_pipe_never_freed_fails_after_budget(rest);
    }
}

} // verus!

