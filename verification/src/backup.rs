//! The backup orchestrator: a per-device session that decides, step by
//! step, which fetch or write to perform next, and the batch report that
//! aggregates per-device outcomes.
//!
//! The caller performs the returned [`Action`] (an HTTP GET or a file
//! write) and feeds the result back as an [`Event`]; every decision in
//! between — status checks, identity resolution, file naming, failure
//! handling — is made here.

use vstd::prelude::*;
use crate::discovery::DeviceRecord;
use crate::identity::{
    IdentityError,
    IdentityPolicy,
    identity_of_query,
    json_nested_lookup,
    stem_or_default,
};
use crate::text::dec_digits;

verus! {

/// True exactly for the HTTP status codes that count as a successful fetch.
pub open spec fn is_success_status(status: u16) -> bool {
    200 <= status < 300
}

/// Decides whether a fetch with the given HTTP status code succeeded.
pub fn status_is_success(status: u16) -> (r: bool)
    ensures
        r == is_success_status(status),
{
    200 <= status && status < 300
}

/// Why one device's backup failed.
pub enum BackupError {
    /// A fetch failed in the transport, with the transport's message.
    Transport(String),
    /// A fetch answered with this non-success HTTP status.
    HttpStatus(u16),
    /// The configuration document did not yield an identity.
    Identity(IdentityError),
    /// A file write failed, with the filesystem's message.
    WriteFailed(String),
}

impl BackupError {
    /// The user-visible diagnostic for this failure.
    pub open spec fn message_spec(&self) -> Seq<char> {
        match self {
            BackupError::Transport(m) => "fetch failed: "@ + m@,
            BackupError::HttpStatus(s) => "HTTP status "@ + dec_digits(*s as nat),
            BackupError::Identity(e) => e.message_spec(),
            BackupError::WriteFailed(m) => "write failed: "@ + m@,
        }
    }

    /// Renders the diagnostic.
    pub fn message(&self) -> (r: String)
        ensures
            r@ == self.message_spec(),
    {
        match self {
            BackupError::Transport(m) => {
                let mut s = String::from_str("fetch failed: ");
                s.append(m.as_str());
                s
            },
            BackupError::HttpStatus(st) => {
                let mut s = String::from_str("HTTP status ");
                crate::text::push_dec(*st as u64, &mut s);
                s
            },
            BackupError::Identity(e) => e.message(),
            BackupError::WriteFailed(m) => {
                let mut s = String::from_str("write failed: ");
                s.append(m.as_str());
                s
            },
        }
    }
}

/// What the caller reports back after performing an action.
pub enum Event {
    /// The requested fetch answered with this HTTP status and body.
    Response { status: u16, body: Vec<u8> },
    /// The requested fetch failed in the transport, with its message.
    TransportFailed { message: String },
    /// The requested write completed.
    WriteDone,
    /// The requested write failed, with the filesystem's message.
    WriteFailed { message: String },
}

/// What the caller is asked to do next.
pub enum Action {
    /// Issue a blocking HTTP GET against `url` and report the outcome.
    Fetch { url: String },
    /// Create or truncate `file_name` under the output directory, write
    /// `content` to it verbatim, and report the outcome.
    Write { file_name: String, content: Vec<u8> },
    /// This device's backup is over with this result; the session takes
    /// no further events.
    Done { result: Result<(), BackupError> },
}

/// Where a session stands: which action is outstanding.
pub enum Phase {
    /// A fetch of the configuration document is outstanding.
    CfgRequested,
    /// A write of the configuration file is outstanding.
    CfgWriteRequested { stem: String },
    /// A fetch of the presets document is outstanding.
    PresetsRequested { stem: String },
    /// A write of the presets file is outstanding.
    PresetsWriteRequested,
    /// A `Done` action was returned.
    Finished,
}

/// `http://<address>:<port><path>`.
pub open spec fn url_spec(address: Seq<char>, port: u16, path: Seq<char>) -> Seq<char> {
    "http://"@ + address + ":"@ + dec_digits(port as nat) + path
}

/// Builds `http://<address>:<port><path>`.
pub fn build_url(address: &str, port: u16, path: &str) -> (r: String)
    ensures
        r@ == url_spec(address@, port, path@),
{
    let mut s = String::from_str("http://");
    s.append(address);
    s.append(":");
    crate::text::push_dec(port as u64, &mut s);
    s.append(path);
    proof {
        assert(s@ =~= url_spec(address@, port, path@));
    }
    s
}

/// The configuration file for a stem: `<stem>_cfg.json`.
pub fn file_name_cfg(stem: &str) -> (r: String)
    ensures
        r@ == stem@ + "_cfg.json"@,
{
    let mut s = stem.to_owned();
    s.append("_cfg.json");
    s
}

/// The presets file suffix under each policy: the config-derived layout
/// writes `<stem>_presets.json` beside `<stem>_cfg.json`, the
/// hostname-derived layout writes the single file `<stem>.json`.
pub open spec fn presets_suffix(policy: IdentityPolicy) -> Seq<char> {
    if policy == IdentityPolicy::ConfigDerived {
        "_presets.json"@
    } else {
        ".json"@
    }
}

/// The presets file for a stem under `policy`.
pub fn file_name_presets(stem: &str, policy: IdentityPolicy) -> (r: String)
    ensures
        r@ == stem@ + presets_suffix(policy),
{
    let mut s = stem.to_owned();
    match policy {
        IdentityPolicy::ConfigDerived => s.append("_presets.json"),
        IdentityPolicy::HostnameDerived => s.append(".json"),
    }
    s
}

/// One device's backup, driven as a state machine: the caller performs
/// each returned action and feeds the outcome back through [`Self::step`].
pub struct DeviceSession {
    pub policy: IdentityPolicy,
    pub address: String,
    pub port: u16,
    pub phase: Phase,
}

impl DeviceSession {
    /// Which events this session can take next: the outcome of the
    /// outstanding action, nothing once it is finished.
    pub open spec fn expects(&self, event: Event) -> bool {
        match self.phase {
            Phase::CfgRequested => (event matches Event::Response { .. }) || (
            event matches Event::TransportFailed { .. }),
            Phase::PresetsRequested { .. } => (event matches Event::Response { .. }) || (
            event matches Event::TransportFailed { .. }),
            Phase::CfgWriteRequested { .. } => (event matches Event::WriteDone) || (
            event matches Event::WriteFailed { .. }),
            Phase::PresetsWriteRequested => (event matches Event::WriteDone) || (
            event matches Event::WriteFailed { .. }),
            Phase::Finished => false,
        }
    }

    /// Starts a session for the device at `address`:`port`. Under the
    /// config-derived policy the first action fetches the configuration
    /// document; under the hostname-derived policy the stem is derived
    /// from `hostname` at once and the first action fetches the presets
    /// document.
    pub fn start(policy: IdentityPolicy, hostname: &str, address: &str, port: u16) -> (r: (
        DeviceSession,
        Action,
    ))
        ensures
            r.0.policy == policy,
            r.0.address@ == address@,
            r.0.port == port,
            policy == IdentityPolicy::ConfigDerived ==> {
                &&& r.0.phase matches Phase::CfgRequested
                &&& r.1 matches Action::Fetch { url } && url@ == url_spec(
                    address@,
                    port,
                    "/cfg.json"@,
                )
            },
            policy == IdentityPolicy::HostnameDerived ==> {
                &&& r.0.phase matches Phase::PresetsRequested { stem } && stem@ == stem_or_default(
                    hostname@,
                )
                &&& r.1 matches Action::Fetch { url } && url@ == url_spec(
                    address@,
                    port,
                    "/presets.json"@,
                )
            },
    {
        match policy {
            IdentityPolicy::ConfigDerived => {
                let url = build_url(address, port, "/cfg.json");
                let session = DeviceSession {
                    policy,
                    address: address.to_owned(),
                    port,
                    phase: Phase::CfgRequested,
                };
                (session, Action::Fetch { url })
            },
            IdentityPolicy::HostnameDerived => {
                let stem = crate::identity::hostname_stem(hostname);
                let url = build_url(address, port, "/presets.json");
                let session = DeviceSession {
                    policy,
                    address: address.to_owned(),
                    port,
                    phase: Phase::PresetsRequested { stem },
                };
                (session, Action::Fetch { url })
            },
        }
    }

    /// The session's full transition relation: how one step turns the
    /// session `s` taking `event` into the session `s2` with the decided
    /// action `a`. [`Self::step`] ensures exactly this.
    pub open spec fn step_rel(s: DeviceSession, event: Event, s2: DeviceSession, a: Action) -> bool {
        &&& s2.policy == s.policy
        &&& s2.address@ == s.address@
        &&& s2.port == s.port
        &&& (a matches Action::Done { .. }) == (s2.phase matches Phase::Finished)
        &&& match s.phase {
                Phase::CfgRequested => match event {
                    Event::Response { status, body } => if !is_success_status(status) {
                        a == (Action::Done {
                            result: Err::<(), BackupError>(BackupError::HttpStatus(status)),
                        })
                    } else {
                        match identity_of_query(json_nested_lookup(body@, "id"@, "name"@)) {
                            Ok(ident) => {
                                &&& a matches Action::Write { file_name, content } && file_name@
                                    == ident + "_cfg.json"@ && content == body
                                &&& s2.phase matches Phase::CfgWriteRequested { stem } && stem@
                                    == ident
                            },
                            Err(e) => a == (Action::Done {
                                result: Err::<(), BackupError>(BackupError::Identity(e)),
                            }),
                        }
                    },
                    Event::TransportFailed { message } => a == (Action::Done {
                        result: Err::<(), BackupError>(BackupError::Transport(message)),
                    }),
                    _ => false,
                },
                Phase::CfgWriteRequested { stem } => match event {
                    Event::WriteDone => {
                        &&& a matches Action::Fetch { url } && url@ == url_spec(
                            s.address@,
                            s.port,
                            "/presets.json"@,
                        )
                        &&& s2.phase matches Phase::PresetsRequested { stem: kept } && kept@
                            == stem@
                    },
                    Event::WriteFailed { message } => a == (Action::Done {
                        result: Err::<(), BackupError>(BackupError::WriteFailed(message)),
                    }),
                    _ => false,
                },
                Phase::PresetsRequested { stem } => match event {
                    Event::Response { status, body } => if !is_success_status(status) {
                        a == (Action::Done {
                            result: Err::<(), BackupError>(BackupError::HttpStatus(status)),
                        })
                    } else {
                        &&& a matches Action::Write { file_name, content } && file_name@ == stem@
                            + presets_suffix(s.policy) && content == body
                        &&& s2.phase matches Phase::PresetsWriteRequested
                    },
                    Event::TransportFailed { message } => a == (Action::Done {
                        result: Err::<(), BackupError>(BackupError::Transport(message)),
                    }),
                    _ => false,
                },
                Phase::PresetsWriteRequested => match event {
                    Event::WriteDone => a == (Action::Done { result: Ok::<(), BackupError>(()) }),
                    Event::WriteFailed { message } => a == (Action::Done {
                        result: Err::<(), BackupError>(BackupError::WriteFailed(message)),
                    }),
                    _ => false,
                },
                Phase::Finished => false,
            }
    }

    /// Takes the outcome of the outstanding action and decides the next
    /// one, exactly as [`Self::step_rel`] relates them: a non-success
    /// status, a transport failure, a failed identity resolution or a
    /// failed write finishes the device with that failure; fetched bodies
    /// are handed on to be written verbatim.
    pub fn step(self, event: Event) -> (r: (DeviceSession, Action))
        requires
            self.expects(event),
        ensures
            Self::step_rel(self, event, r.0, r.1),
    {
        let DeviceSession { policy, address, port, phase } = self;
        match phase {
            Phase::CfgRequested => match event {
                Event::Response { status, body } => {
                    if !status_is_success(status) {
                        (
                            DeviceSession { policy, address, port, phase: Phase::Finished },
                            Action::Done { result: Err(BackupError::HttpStatus(status)) },
                        )
                    } else {
                        match crate::identity::get_hostname_from_cfg(&body) {
                            Err(e) => (
                                DeviceSession { policy, address, port, phase: Phase::Finished },
                                Action::Done { result: Err(BackupError::Identity(e)) },
                            ),
                            Ok(stem) => {
                                let file_name = file_name_cfg(stem.as_str());
                                (
                                    DeviceSession {
                                        policy,
                                        address,
                                        port,
                                        phase: Phase::CfgWriteRequested { stem },
                                    },
                                    Action::Write { file_name, content: body },
                                )
                            },
                        }
                    }
                },
                Event::TransportFailed { message } => (
                    DeviceSession { policy, address, port, phase: Phase::Finished },
                    Action::Done { result: Err(BackupError::Transport(message)) },
                ),
                // not reachable: the requires clause allows only the
                // outstanding action's outcome
                _ => (
                    DeviceSession { policy, address, port, phase: Phase::Finished },
                    Action::Done { result: Ok(()) },
                ),
            },
            Phase::CfgWriteRequested { stem } => match event {
                Event::WriteDone => {
                    let url = build_url(address.as_str(), port, "/presets.json");
                    (
                        DeviceSession {
                            policy,
                            address,
                            port,
                            phase: Phase::PresetsRequested { stem },
                        },
                        Action::Fetch { url },
                    )
                },
                Event::WriteFailed { message } => (
                    DeviceSession { policy, address, port, phase: Phase::Finished },
                    Action::Done { result: Err(BackupError::WriteFailed(message)) },
                ),
                // not reachable: the requires clause allows only the
                // outstanding action's outcome
                _ => (
                    DeviceSession { policy, address, port, phase: Phase::Finished },
                    Action::Done { result: Ok(()) },
                ),
            },
            Phase::PresetsRequested { stem } => match event {
                Event::Response { status, body } => {
                    if !status_is_success(status) {
                        (
                            DeviceSession { policy, address, port, phase: Phase::Finished },
                            Action::Done { result: Err(BackupError::HttpStatus(status)) },
                        )
                    } else {
                        let file_name = file_name_presets(stem.as_str(), policy);
                        (
                            DeviceSession {
                                policy,
                                address,
                                port,
                                phase: Phase::PresetsWriteRequested,
                            },
                            Action::Write { file_name, content: body },
                        )
                    }
                },
                Event::TransportFailed { message } => (
                    DeviceSession { policy, address, port, phase: Phase::Finished },
                    Action::Done { result: Err(BackupError::Transport(message)) },
                ),
                // not reachable: the requires clause allows only the
                // outstanding action's outcome
                _ => (
                    DeviceSession { policy, address, port, phase: Phase::Finished },
                    Action::Done { result: Ok(()) },
                ),
            },
            Phase::PresetsWriteRequested => match event {
                Event::WriteDone => (
                    DeviceSession { policy, address, port, phase: Phase::Finished },
                    Action::Done { result: Ok(()) },
                ),
                Event::WriteFailed { message } => (
                    DeviceSession { policy, address, port, phase: Phase::Finished },
                    Action::Done { result: Err(BackupError::WriteFailed(message)) },
                ),
                // not reachable: the requires clause allows only the
                // outstanding action's outcome
                _ => (
                    DeviceSession { policy, address, port, phase: Phase::Finished },
                    Action::Done { result: Ok(()) },
                ),
            },
            // not reachable: a finished session expects no event
            Phase::Finished => (
                DeviceSession { policy, address, port, phase: Phase::Finished },
                Action::Done { result: Ok(()) },
            ),
        }
    }
}

/// Begins a session for a discovered record with the first advertised
/// address; a record that advertises no address is skipped silently
/// (`None`), not an error.
pub fn start_for_record(rec: &DeviceRecord, policy: IdentityPolicy) -> (r: Option<
    (DeviceSession, Action),
>)
    ensures
        r is None <==> rec.addresses@.len() == 0,
        r matches Some(p) ==> {
            &&& p.0.policy == policy
            &&& p.0.address@ == rec.addresses@[0]@
            &&& p.0.port == rec.port
            &&& policy == IdentityPolicy::ConfigDerived ==> {
                &&& p.0.phase matches Phase::CfgRequested
                &&& p.1 matches Action::Fetch { url } && url@ == url_spec(
                    rec.addresses@[0]@,
                    rec.port,
                    "/cfg.json"@,
                )
            }
            &&& policy == IdentityPolicy::HostnameDerived ==> {
                &&& p.0.phase matches Phase::PresetsRequested { stem } && stem@ == stem_or_default(
                    rec.hostname@,
                )
                &&& p.1 matches Action::Fetch { url } && url@ == url_spec(
                    rec.addresses@[0]@,
                    rec.port,
                    "/presets.json"@,
                )
            }
        },
{
    if rec.addresses.len() == 0 {
        None
    } else {
        Some(
            DeviceSession::start(
                policy,
                rec.hostname.as_str(),
                rec.addresses[0].as_str(),
                rec.port,
            ),
        )
    }
}

/// The recorded outcome of one device's backup.
pub struct BackupOutcome {
    /// The advertised hostname of the device.
    pub hostname: String,
    /// Success, or the first failure the device's backup hit.
    pub result: Result<(), BackupError>,
}

/// True when the outcome reports success.
pub open spec fn outcome_ok(o: BackupOutcome) -> bool {
    o.result is Ok
}

/// True when every outcome in the batch reports success.
pub open spec fn all_ok(outcomes: Seq<BackupOutcome>) -> bool {
    forall|i: int| 0 <= i < outcomes.len() ==> outcome_ok(outcomes[i])
}

/// The batch result: per-device outcomes in the order they were recorded.
pub struct BackupReport {
    pub outcomes: Vec<BackupOutcome>,
}

impl BackupReport {
    /// An empty report.
    pub fn new() -> (r: BackupReport)
        ensures
            r.outcomes@ =~= Seq::<BackupOutcome>::empty(),
    {
        BackupReport { outcomes: Vec::new() }
    }

    /// Records one device's outcome; earlier outcomes are untouched, so
    /// no device's failure disturbs another's record.
    pub fn record(&mut self, o: BackupOutcome)
        ensures
            final (self).outcomes@ =~= old(self).outcomes@.push(o),
    {
        self.outcomes.push(o);
    }

    /// The overall status: success exactly when every device succeeded.
    pub fn success(&self) -> (r: bool)
        ensures
            r == all_ok(self.outcomes@),
    {
        let n = self.outcomes.len();
        let mut i: usize = 0;
        while i < n
            invariant
                0 <= i <= n,
                n == self.outcomes@.len(),
                forall|j: int| 0 <= j < i ==> outcome_ok(self.outcomes@[j]),
            decreases n - i,
        {
            if self.outcomes[i].result.is_err() {
                assert(!outcome_ok(self.outcomes@[i as int]));
                return false;
            }
            i = i + 1;
        }
        true
    }

    /// The process exit status the batch maps to: 0 on full success, 1
    /// when any device failed.
    pub fn exit_code(&self) -> (r: i32)
        ensures
            all_ok(self.outcomes@) ==> r == 0,
            !all_ok(self.outcomes@) ==> r == 1,
    {
        if self.success() {
            0
        } else {
            1
        }
    }
}

/// Fetch-before-write atomicity: a device whose configuration response
/// does not resolve to an identity — invalid JSON, a missing or
/// non-string `id`.`name`, a blank name, or a non-success status —
/// finishes at the very first decision. The answer is `Done` with the
/// failure, never a `Write`, and the finished session takes no further
/// events, so no file of that device is ever requested.
pub proof fn lemma_bad_cfg_writes_nothing(
    s: DeviceSession,
    status: u16,
    body: Vec<u8>,
    s2: DeviceSession,
    a: Action,
)
    requires
        s.phase matches Phase::CfgRequested,
        DeviceSession::step_rel(s, Event::Response { status, body }, s2, a),
        identity_of_query(json_nested_lookup(body@, "id"@, "name"@)) is Err || !is_success_status(
            status,
        ),
    ensures
        a matches Action::Done { result } && result is Err,
        s2.phase matches Phase::Finished,
        forall|e: Event| !s2.expects(e),
{
}

/// Round-trip: every write the orchestrator requests carries the fetched
/// body verbatim — byte for byte what the endpoint served, with no
/// transcoding.
pub proof fn lemma_write_is_verbatim(s: DeviceSession, event: Event, s2: DeviceSession, a: Action)
    requires
        DeviceSession::step_rel(s, event, s2, a),
    ensures
        a matches Action::Write { file_name, content } ==> (event matches Event::Response {
            status,
            body,
        } && content == body),
{
}

/// One failed device fails the whole batch, whatever every other device
/// did — and only then: a batch with no failed device succeeds.
pub proof fn lemma_one_failure_fails_batch(outcomes: Seq<BackupOutcome>, k: int)
    requires
        0 <= k < outcomes.len(),
        !outcome_ok(outcomes[k]),
    ensures
        !all_ok(outcomes),
{
}

} // verus!
