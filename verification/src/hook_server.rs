//! Hook events reported by agent sessions: which PTYs have reported lately
//! and in what state, how a hook request is answered, and on which port the
//! hook server listens.

use std::collections::HashMap;
use std::time::Instant;

use vstd::prelude::*;

use crate::text::{decimal, push_decimal, str_eq};

verus! {

broadcast use vstd::std_specs::hash::group_hash_axioms;

#[verifier::external_type_specification]
#[verifier::external_body]
pub struct ExInstant(Instant);

/// First port the hook server tries.
pub const DEFAULT_PORT: u16 = 23456;

/// How many consecutive ports the hook server tries.
pub const MAX_PORT_ATTEMPTS: u16 = 5;

/// How many whole seconds after its last hook event a PTY counts as reported
/// by hooks.
pub const HOOK_ACTIVE_TIMEOUT_SECS: u64 = 30;

/// Nanoseconds in a second.
pub const NANOS_PER_SEC: u128 = 1000000000;

/// The largest nanosecond count a `Duration` can hold.
pub const MAX_CLOCK_NS: u128 = 18446744073709551615999999999;

/// A point of the monotonic clock.
///
/// Calls `std::time::Instant::now`. Nothing is stated of the instant.
#[verifier::external_body]
fn instant_now() -> Instant {
    Instant::now()
}

/// Nanoseconds elapsed since `origin` by the monotonic clock.
///
/// Calls `Instant::elapsed` on `origin` and reads the `Duration` in
/// nanoseconds. Nothing is stated of the value but that, being a `Duration`
/// in nanoseconds, it is at most `MAX_CLOCK_NS`.
#[verifier::external_body]
fn nanos_since(origin: &Instant) -> (ns: u128)
    ensures
        ns <= MAX_CLOCK_NS,
{
    origin.elapsed().as_nanos()
}

/// A hook event as reported by an agent session.
#[derive(Clone, Debug)]
pub struct HookPayload {
    pub pty_id: Option<u32>,
    pub event: Option<String>,
    pub agent: Option<String>,
    pub session_id: Option<String>,
    pub cwd: Option<String>,
    pub tool_name: Option<String>,
}

/// Whether the hook server runs, and on which port.
#[derive(Clone, Copy, Debug, PartialEq, Eq, Structural)]
pub struct HookStatusInfo {
    pub port: u16,
    pub running: bool,
}

/// A PTY's state as set by a hook event, to be announced.
#[derive(Clone, Debug)]
pub struct PtyStatusChange {
    pub pty_id: u32,
    pub status: String,
}

/// Events during which the agent works.
pub open spec fn is_working_event(e: Seq<char>) -> bool {
    ||| e == "UserPromptSubmit"@
    ||| e == "PreToolUse"@
    ||| e == "PostToolUse"@
    ||| e == "SubagentStart"@
    ||| e == "PreCompact"@
    ||| e == "PostCompact"@
}

/// Events after which the agent waits for the user.
pub open spec fn is_idle_event(e: Seq<char>) -> bool {
    ||| e == "SessionStart"@
    ||| e == "SessionEnd"@
    ||| e == "Stop"@
    ||| e == "PermissionRequest"@
    ||| e == "Notification"@
    ||| e == "Elicitation"@
    ||| e == "SubagentStop"@
}

/// The PTY state an event sets, if any.
pub open spec fn event_status(e: Seq<char>) -> Option<Seq<char>> {
    if is_working_event(e) {
        Some("ai-working"@)
    } else if is_idle_event(e) {
        Some("ai-idle"@)
    } else {
        None
    }
}

/// Maps a hook event name to the PTY state it sets: `ai-working` while the
/// agent works, `ai-idle` while it waits for the user, none for other events.
pub fn map_event_to_status(event: &str) -> (r: Option<&'static str>)
    ensures
        match r {
            Some(s) => event_status(event@) == Some(s@),
            None => event_status(event@) is None,
        },
{
    if str_eq(event, "UserPromptSubmit") || str_eq(event, "PreToolUse") || str_eq(
        event,
        "PostToolUse",
    ) || str_eq(event, "SubagentStart") || str_eq(event, "PreCompact") || str_eq(
        event,
        "PostCompact",
    ) {
        Some("ai-working")
    } else if str_eq(event, "SessionStart") || str_eq(event, "SessionEnd") || str_eq(event, "Stop")
        || str_eq(event, "PermissionRequest") || str_eq(event, "Notification") || str_eq(
        event,
        "Elicitation",
    ) || str_eq(event, "SubagentStop") {
        Some("ai-idle")
    } else {
        None
    }
}

/// Nanoseconds from `then` to `now`; none when `now` is earlier.
pub open spec fn elapsed_ns(then: u128, now: u128) -> int {
    if now >= then {
        now - then
    } else {
        0
    }
}

/// PTY `pty_id` reported a hook event fewer whole seconds than the timeout
/// before `now`.
pub open spec fn hook_active(times: Map<u32, u128>, pty_id: u32, now: u128) -> bool {
    times.contains_key(pty_id) && elapsed_ns(times[pty_id], now) / (NANOS_PER_SEC as int)
        < HOOK_ACTIVE_TIMEOUT_SECS
}

/// The last hook event time and state of each PTY, and the hook server's port.
pub struct HookState {
    clock_origin: Instant,
    last_hook_time: HashMap<u32, u128>,
    last_hook_status: HashMap<u32, String>,
    port: u16,
    clock_floor_ns: u128,
}

impl HookState {
    /// When each PTY last reported, in nanoseconds of the state's clock.
    pub closed spec fn hook_times(&self) -> Map<u32, u128> {
        self.last_hook_time@
    }

    /// The state each PTY last reported.
    pub closed spec fn statuses(&self) -> Map<u32, Seq<char>> {
        self.last_hook_status@.map_values(|s: String| s@)
    }

    /// The hook server's port; 0 until it is bound.
    pub closed spec fn port(&self) -> u16 {
        self.port
    }

    /// The latest time recorded for any report, in nanoseconds of the
    /// state's clock; no clock reading taken later is earlier.
    pub closed spec fn clock_floor(&self) -> u128 {
        self.clock_floor_ns
    }

    /// Every recorded time is at most the floor, which a `Duration` can hold.
    pub open spec fn clock_consistent(&self) -> bool {
        &&& self.clock_floor() <= MAX_CLOCK_NS
        &&& forall|q: u32| #[trigger]
            self.hook_times().contains_key(q) ==> self.hook_times()[q] <= self.clock_floor()
    }

    /// No PTY has reported; port 0.
    pub fn new() -> (r: Self)
        ensures
            r.hook_times() == Map::<u32, u128>::empty(),
            r.statuses() == Map::<u32, Seq<char>>::empty(),
            r.port() == 0,
            r.clock_floor() == 0,
            r.clock_consistent(),
    {
        let r = HookState {
            clock_origin: instant_now(),
            last_hook_time: HashMap::new(),
            last_hook_status: HashMap::new(),
            port: 0,
            clock_floor_ns: 0,
        };
        assert(r.statuses() =~= Map::<u32, Seq<char>>::empty());
        r
    }

    /// Whether PTY `pty_id` reported a hook event fewer than 30 whole seconds
    /// before `now` (nanoseconds of the state's clock).
    pub fn is_hook_active_at(&self, pty_id: u32, now: u128) -> (r: bool)
        ensures
            r == hook_active(self.hook_times(), pty_id, now),
    {
        match self.last_hook_time.get(&pty_id) {
            Some(t) => {
                let elapsed = if now >= *t {
                    now - *t
                } else {
                    0
                };
                elapsed / NANOS_PER_SEC < HOOK_ACTIVE_TIMEOUT_SECS as u128
            },
            None => false,
        }
    }

    /// Whether PTY `pty_id` reported a hook event in the last 30 s: the
    /// answer of `is_hook_active_at` at the clock's present reading, which
    /// is no earlier than any time recorded for a report.
    pub fn is_hook_active(&self, pty_id: u32) -> (r: bool)
        ensures
            r ==> self.hook_times().contains_key(pty_id),
            exists|now: u128|
                now <= MAX_CLOCK_NS && r == #[trigger] hook_active(self.hook_times(), pty_id, now),
            self.clock_consistent() ==> exists|now: u128|
                {
                    &&& now <= MAX_CLOCK_NS
                    &&& now >= self.clock_floor()
                    &&& forall|q: u32|
                        self.hook_times().contains_key(q) ==> #[trigger] self.hook_times()[q] <= now
                    &&& r == #[trigger] hook_active(self.hook_times(), pty_id, now)
                },
    {
        let reading = nanos_since(&self.clock_origin);
        let now = if self.clock_floor_ns <= MAX_CLOCK_NS && self.clock_floor_ns > reading {
            self.clock_floor_ns
        } else {
            reading
        };
        let r = self.is_hook_active_at(pty_id, now);
        assert(now <= MAX_CLOCK_NS && r == hook_active(self.hook_times(), pty_id, now));
        proof {
            if self.clock_consistent() {
                assert(now >= self.clock_floor());
                assert forall|q: u32|
                    self.hook_times().contains_key(q) implies #[trigger] self.hook_times()[q]
                    <= now by {
                    assert(self.hook_times()[q] <= self.clock_floor());
                }
            }
        }
        r
    }

    /// The state PTY `pty_id` last reported.
    pub fn get_status(&self, pty_id: u32) -> (r: Option<String>)
        ensures
            match r {
                Some(s) => self.statuses().contains_key(pty_id) && s@ == self.statuses()[pty_id],
                None => !self.statuses().contains_key(pty_id),
            },
    {
        match self.last_hook_status.get(&pty_id) {
            Some(s) => Some(s.clone()),
            None => None,
        }
    }

    /// Records that PTY `pty_id` reported state `status` at time `now`.
    pub fn update_at(&mut self, pty_id: u32, status: String, now: u128)
        ensures
            final(self).hook_times() == old(self).hook_times().insert(pty_id, now),
            final(self).statuses() == old(self).statuses().insert(pty_id, status@),
            final(self).port() == old(self).port(),
            final(self).clock_floor() == if now > old(self).clock_floor() {
                now
            } else {
                old(self).clock_floor()
            },
            old(self).clock_consistent() && now <= MAX_CLOCK_NS ==> final(self).clock_consistent(),
    {
        let ghost s = status@;
        self.last_hook_time.insert(pty_id, now);
        self.last_hook_status.insert(pty_id, status);
        if now > self.clock_floor_ns {
            self.clock_floor_ns = now;
        }
        assert(self.statuses() =~= old(self).statuses().insert(pty_id, s));
    }

    /// Records that PTY `pty_id` reported state `status` now.
    pub fn update(&mut self, pty_id: u32, status: String)
        ensures
            final(self).statuses() == old(self).statuses().insert(pty_id, status@),
            final(self).hook_times().dom() == old(self).hook_times().dom().insert(pty_id),
            final(self).hook_times()[pty_id] <= MAX_CLOCK_NS,
            forall|p: u32|
                p != pty_id && #[trigger] old(self).hook_times().contains_key(p) ==> final(self).hook_times()[p] == old(self).hook_times()[p],
            final(self).port() == old(self).port(),
            final(self).clock_floor() >= old(self).clock_floor(),
            old(self).clock_consistent() ==> final(self).clock_consistent(),
    {
        let now = nanos_since(&self.clock_origin);
        self.update_at(pty_id, status, now);
    }

    /// Forgets PTY `pty_id`, which was closed.
    pub fn remove(&mut self, pty_id: u32)
        ensures
            final(self).hook_times() == old(self).hook_times().remove(pty_id),
            final(self).statuses() == old(self).statuses().remove(pty_id),
            final(self).port() == old(self).port(),
            final(self).clock_floor() == old(self).clock_floor(),
            old(self).clock_consistent() ==> final(self).clock_consistent(),
    {
        self.last_hook_time.remove(&pty_id);
        self.last_hook_status.remove(&pty_id);
        assert(self.statuses() =~= old(self).statuses().remove(pty_id));
    }

    /// The hook server's port.
    pub fn get_port(&self) -> (r: u16)
        ensures
            r == self.port(),
    {
        self.port
    }

    /// Records the port the hook server listens on.
    pub fn set_port(&mut self, port: u16)
        ensures
            final(self).port() == port,
            final(self).hook_times() == old(self).hook_times(),
            final(self).statuses() == old(self).statuses(),
            final(self).clock_floor() == old(self).clock_floor(),
    {
        self.port = port;
    }
}

/// The answer to a hook request.
#[derive(Clone, Copy, Debug, PartialEq, Eq, Structural)]
pub enum HookResponse {
    MethodNotAllowed,
    NotFound,
    BadRequest,
    Accepted,
}

impl HookResponse {
    /// The HTTP status code of the answer.
    pub fn status_code(&self) -> (r: u16)
        ensures
            r == match *self {
                HookResponse::MethodNotAllowed => 405u16,
                HookResponse::NotFound => 404u16,
                HookResponse::BadRequest => 400u16,
                HookResponse::Accepted => 200u16,
            },
    {
        match self {
            HookResponse::MethodNotAllowed => 405,
            HookResponse::NotFound => 404,
            HookResponse::BadRequest => 400,
            HookResponse::Accepted => 200,
        }
    }

    /// The body of the answer.
    pub fn body(&self) -> (r: &'static str)
        ensures
            r@ == match *self {
                HookResponse::MethodNotAllowed => "Method Not Allowed"@,
                HookResponse::NotFound => "Not Found"@,
                HookResponse::BadRequest => "Bad Request"@,
                HookResponse::Accepted => "OK"@,
            },
    {
        match self {
            HookResponse::MethodNotAllowed => "Method Not Allowed",
            HookResponse::NotFound => "Not Found",
            HookResponse::BadRequest => "Bad Request",
            HookResponse::Accepted => "OK",
        }
    }
}

/// Path hook events are posted to.
pub open spec fn hook_path() -> Seq<char> {
    "/hook"@
}

/// Answers a request before its body is read: 405 for a method other than
/// POST, 404 for a path other than `/hook`; none when the body is to be read.
pub fn screen_hook_request(is_post: bool, url: &str) -> (r: Option<HookResponse>)
    ensures
        r == if !is_post {
            Some(HookResponse::MethodNotAllowed)
        } else if url@ != hook_path() {
            Some(HookResponse::NotFound)
        } else {
            None
        },
{
    if !is_post {
        return Some(HookResponse::MethodNotAllowed);
    }
    if !str_eq(url, "/hook") {
        return Some(HookResponse::NotFound);
    }
    None
}

/// The body of a hook request as read and parsed.
#[derive(Clone, Debug)]
pub enum HookBody {
    /// The body could not be read.
    Unreadable,
    /// The body is not a hook payload.
    Malformed,
    /// The body is this payload.
    Payload(HookPayload),
}

/// The PTY and state a payload sets: when it names a PTY and an event, and the
/// event sets a state.
pub open spec fn payload_effect(p: HookPayload) -> Option<(u32, Seq<char>)> {
    match (p.pty_id, p.event) {
        (Some(id), Some(e)) => match event_status(e@) {
            Some(s) => Some((id, s)),
            None => None,
        },
        _ => None,
    }
}

pub open spec fn body_effect(body: HookBody) -> Option<(u32, Seq<char>)> {
    match body {
        HookBody::Payload(p) => payload_effect(p),
        _ => None,
    }
}

/// The answer to a hook request whose body was read: 400 when it cannot be
/// read or is not a hook payload, 200 otherwise.
pub fn hook_body_reply(body: &HookBody) -> (r: HookResponse)
    ensures
        r == match *body {
            HookBody::Payload(_) => HookResponse::Accepted,
            _ => HookResponse::BadRequest,
        },
{
    match body {
        HookBody::Payload(_) => HookResponse::Accepted,
        _ => HookResponse::BadRequest,
    }
}

impl HookState {
    /// Applies the body of an answered hook request: when it is a payload
    /// naming a PTY and an event that sets a state, the PTY's state is
    /// recorded now and returned to be announced.
    pub fn apply_hook_body(&mut self, body: HookBody) -> (r: Option<PtyStatusChange>)
        ensures
            match body_effect(body) {
                Some((id, s)) => {
                    &&& r matches Some(c) && c.pty_id == id && c.status@ == s
                    &&& final(self).statuses() == old(self).statuses().insert(id, s)
                    &&& final(self).hook_times().dom() == old(self).hook_times().dom().insert(id)
                    &&& final(self).hook_times()[id] <= MAX_CLOCK_NS
                    &&& forall|p: u32|
                        p != id && #[trigger] old(self).hook_times().contains_key(p) ==> final(self).hook_times()[p] == old(self).hook_times()[p]
                },
                None => {
                    &&& r is None
                    &&& final(self).statuses() == old(self).statuses()
                    &&& final(self).hook_times() == old(self).hook_times()
                },
            },
            final(self).port() == old(self).port(),
            final(self).clock_floor() >= old(self).clock_floor(),
            old(self).clock_consistent() ==> final(self).clock_consistent(),
    {
        match body {
            HookBody::Payload(payload) => {
                match (payload.pty_id, payload.event) {
                    (Some(pty_id), Some(event)) => {
                        match map_event_to_status(event.as_str()) {
                            Some(status) => {
                                self.update(pty_id, String::from_str(status));
                                Some(PtyStatusChange { pty_id, status: String::from_str(status) })
                            },
                            None => None,
                        }
                    },
                    _ => None,
                }
            },
            _ => None,
        }
    }
}

/// A step of binding the hook server to a port.
#[derive(Clone, Copy, Debug, PartialEq, Eq, Structural)]
pub enum BindStep {
    /// Try to bind this port.
    Try(u16),
    /// The port last tried is bound: listen on it.
    Listen(u16),
    /// Every port was tried in vain.
    GiveUp,
}

/// The next step of binding, after `tried` ports were tried in order from
/// `DEFAULT_PORT`, all in vain but for the last, which was bound when
/// `last_bound`: listen on the first port that binds, else try the next
/// port, up to `MAX_PORT_ATTEMPTS` ports.
pub fn bind_step(tried: u16, last_bound: bool) -> (r: BindStep)
    ensures
        r == if tried > 0 && last_bound && tried <= MAX_PORT_ATTEMPTS {
            BindStep::Listen((DEFAULT_PORT + tried - 1) as u16)
        } else if tried < MAX_PORT_ATTEMPTS {
            BindStep::Try((DEFAULT_PORT + tried) as u16)
        } else {
            BindStep::GiveUp
        },
{
    if tried > 0 && last_bound && tried <= MAX_PORT_ATTEMPTS {
        BindStep::Listen(DEFAULT_PORT + tried - 1)
    } else if tried < MAX_PORT_ATTEMPTS {
        BindStep::Try(DEFAULT_PORT + tried)
    } else {
        BindStep::GiveUp
    }
}

/// The ports the hook server tries, in order.
pub fn hook_server_ports() -> (r: Vec<u16>)
    ensures
        r@.len() == MAX_PORT_ATTEMPTS,
        forall|i: int| 0 <= i < r@.len() ==> #[trigger] r@[i] == DEFAULT_PORT + i,
{
    let mut r: Vec<u16> = Vec::new();
    let mut offset: u16 = 0;
    while offset < MAX_PORT_ATTEMPTS
        invariant
            offset <= MAX_PORT_ATTEMPTS,
            r@.len() == offset,
            forall|i: int| 0 <= i < r@.len() ==> #[trigger] r@[i] == DEFAULT_PORT + i,
        decreases MAX_PORT_ATTEMPTS - offset,
    {
        r.push(DEFAULT_PORT + offset);
        offset = offset + 1;
    }
    r
}

/// The contents of the port file: `{"port":N}`.
pub open spec fn port_file_spec(port: u16) -> Seq<char> {
    "{\"port\":"@ + decimal(port as nat) + "}"@
}

/// Renders the port file announcing `port`.
pub fn port_file_content(port: u16) -> (r: String)
    ensures
        r@ == port_file_spec(port),
{
    let mut s = String::from_str("{\"port\":");
    push_decimal(&mut s, port as usize);
    s.append("}");
    s
}

/// A PTY that reported at `t` counts as hook-active at `now` exactly when
/// less than the timeout has passed since `t` (or the clock reads earlier).
pub proof fn lemma_report_active_window(times: Map<u32, u128>, pty_id: u32, t: u128, now: u128)
    ensures
        hook_active(times.insert(pty_id, t), pty_id, now) == (elapsed_ns(t, now) / (
        NANOS_PER_SEC as int) < HOOK_ACTIVE_TIMEOUT_SECS),
        t <= now < t + 30 * NANOS_PER_SEC ==> hook_active(times.insert(pty_id, t), pty_id, now),
        now >= t + 30 * NANOS_PER_SEC ==> !hook_active(times.insert(pty_id, t), pty_id, now),
        now < t ==> hook_active(times.insert(pty_id, t), pty_id, now),
{
}

/// The state a PTY last reported is the state read back for it.
pub proof fn lemma_report_then_read(statuses: Map<u32, Seq<char>>, pty_id: u32, status: Seq<char>)
    ensures
        statuses.insert(pty_id, status).contains_key(pty_id),
        statuses.insert(pty_id, status)[pty_id] == status,
{
}

/// At a reading no earlier than a PTY's report, the PTY is hook-active
/// exactly when fewer than 30 s have passed since the report.
pub proof fn lemma_active_at_reading(times: Map<u32, u128>, pty_id: u32, now: u128)
    requires
        times.contains_key(pty_id),
        times[pty_id] <= now,
    ensures
        hook_active(times, pty_id, now) == (now - times[pty_id] < 30 * NANOS_PER_SEC),
{
}

/// A removed PTY is never hook-active and has no state.
pub proof fn lemma_removed_forgotten(
    times: Map<u32, u128>,
    statuses: Map<u32, Seq<char>>,
    pty_id: u32,
    now: u128,
)
    ensures
        !hook_active(times.remove(pty_id), pty_id, now),
        !statuses.remove(pty_id).contains_key(pty_id),
{
}

/// Recording or removing one PTY leaves every other PTY as it was.
pub proof fn lemma_other_ptys_unaffected(
    times: Map<u32, u128>,
    statuses: Map<u32, Seq<char>>,
    pty_id: u32,
    other: u32,
    t: u128,
    status: Seq<char>,
    now: u128,
)
    requires
        other != pty_id,
    ensures
        hook_active(times.insert(pty_id, t), other, now) == hook_active(times, other, now),
        hook_active(times.remove(pty_id), other, now) == hook_active(times, other, now),
        statuses.insert(pty_id, status).contains_key(other) == statuses.contains_key(other),
        statuses.contains_key(other) ==> statuses.insert(pty_id, status)[other] == statuses[other],
        statuses.remove(pty_id).contains_key(other) == statuses.contains_key(other),
{
}

/// No event both sets a PTY working and idle, and every state set is one of
/// the two.
pub proof fn lemma_event_status_partition(e: Seq<char>)
    ensures
        !(is_working_event(e) && is_idle_event(e)),
        event_status(e) is Some ==> event_status(e) == Some("ai-working"@) || event_status(e)
            == Some("ai-idle"@),
        "ai-working"@ != "ai-idle"@,
{
    reveal_strlit("ai-working");
    reveal_strlit("ai-idle");
    reveal_strlit("UserPromptSubmit");
    reveal_strlit("PreToolUse");
    reveal_strlit("PostToolUse");
    reveal_strlit("SubagentStart");
    reveal_strlit("PreCompact");
    reveal_strlit("PostCompact");
    reveal_strlit("SessionStart");
    reveal_strlit("SessionEnd");
    reveal_strlit("Stop");
    reveal_strlit("PermissionRequest");
    reveal_strlit("Notification");
    reveal_strlit("Elicitation");
    reveal_strlit("SubagentStop");
    assert("ai-working"@[3] != "ai-idle"@[3]);
    assert("UserPromptSubmit"@.len() == 16 && "UserPromptSubmit"@[0] == 'U');
    assert("PreToolUse"@.len() == 10 && "PreToolUse"@[0] == 'P');
    assert("PostToolUse"@.len() == 11 && "PostToolUse"@[0] == 'P');
    assert("SubagentStart"@.len() == 13 && "SubagentStart"@[0] == 'S');
    assert("PreCompact"@.len() == 10 && "PreCompact"@[0] == 'P');
    assert("PostCompact"@.len() == 11 && "PostCompact"@[0] == 'P');
    assert("SessionStart"@.len() == 12 && "SessionStart"@[0] == 'S');
    assert("SessionEnd"@.len() == 10 && "SessionEnd"@[0] == 'S');
    assert("Stop"@.len() == 4 && "Stop"@[0] == 'S');
    assert("PermissionRequest"@.len() == 17 && "PermissionRequest"@[0] == 'P');
    assert("Notification"@.len() == 12 && "Notification"@[0] == 'N');
    assert("Elicitation"@.len() == 11 && "Elicitation"@[0] == 'E');
    assert("SubagentStop"@.len() == 12 && "SubagentStop"@[0] == 'S');
}

} // verus!
