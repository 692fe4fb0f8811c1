//! The health of the gateway, as `GET /` reports it.
//!
//! The gateway is as healthy as its worker keeps up: what counts is how much
//! room the worker's task queue has left.

use crate::trusted;
use vstd::prelude::*;

verus! {

/// With this many tasks in the worker's queue the gateway still counts as
/// healthy; with more it is degraded.
pub const SVC_DEGRADED_THRESHOLD: usize = 128;

#[derive(Clone, Copy, Debug, PartialEq, Eq, Structural)]
pub enum GatewayStatus {
    Healthy,
    Degraded,
    Unhealthy,
}

impl GatewayStatus {
    /// The word that stands for the status in JSON.
    pub open spec fn word(self) -> Seq<char> {
        match self {
            GatewayStatus::Healthy => "healthy"@,
            GatewayStatus::Degraded => "degraded"@,
            GatewayStatus::Unhealthy => "unhealthy"@,
        }
    }

    /// The HTTP status code that goes with the status.
    pub open spec fn code(self) -> u16 {
        match self {
            GatewayStatus::Healthy => 200,
            GatewayStatus::Degraded => 200,
            GatewayStatus::Unhealthy => 500,
        }
    }

    /// The JSON text that reports the status.
    pub open spec fn report(self) -> Seq<char> {
        match self {
            GatewayStatus::Healthy => "{\"status\":\"healthy\"}"@,
            GatewayStatus::Degraded => "{\"status\":\"degraded\"}"@,
            GatewayStatus::Unhealthy => "{\"status\":\"unhealthy\"}"@,
        }
    }

    /// 0 for the best status, and more the worse it is.
    pub open spec fn severity(self) -> nat {
        match self {
            GatewayStatus::Healthy => 0,
            GatewayStatus::Degraded => 1,
            GatewayStatus::Unhealthy => 2,
        }
    }

    /// The lower-case word for the status.
    pub fn as_str(self) -> (word: &'static str)
        ensures
            word@ == self.word(),
    {
        match self {
            GatewayStatus::Healthy => "healthy",
            GatewayStatus::Degraded => "degraded",
            GatewayStatus::Unhealthy => "unhealthy",
        }
    }
}

/// What `GET /` answers.
#[derive(Clone, Copy, Debug, PartialEq, Eq, Structural)]
pub struct StatusResponse {
    status: GatewayStatus,
}

impl View for StatusResponse {
    type V = GatewayStatus;

    closed spec fn view(&self) -> GatewayStatus {
        self.status
    }
}

impl StatusResponse {
    pub fn healthy() -> (response: Self)
        ensures
            response@ == GatewayStatus::Healthy,
    {
        Self { status: GatewayStatus::Healthy }
    }

    pub fn degraded() -> (response: Self)
        ensures
            response@ == GatewayStatus::Degraded,
    {
        Self { status: GatewayStatus::Degraded }
    }

    pub fn unhealthy() -> (response: Self)
        ensures
            response@ == GatewayStatus::Unhealthy,
    {
        Self { status: GatewayStatus::Unhealthy }
    }

    /// The status that the response reports.
    pub fn status(&self) -> (status: GatewayStatus)
        ensures
            status == self@,
    {
        self.status
    }

    /// The response as JSON.
    pub fn to_json(&self) -> (json: Vec<u8>)
        ensures
            json@ == vstd::utf8::encode_utf8(self@.report()),
    {
        let word = self.status.as_str();
        proof {
            lemma_report(self@);
        }
        let object = trusted::string_member("status", word);
        trusted::json_to_vec(&object)
    }
}

/// A status and what it looks like as an HTTP response.
#[derive(Debug, PartialEq, Eq)]
pub struct StatusReply {
    pub code: u16,
    pub body: Vec<u8>,
}

impl StatusReply {
    /// The reply reports `status`.
    pub open spec fn reports(self, status: GatewayStatus) -> bool {
        &&& self.code == status.code()
        &&& self.body@ == vstd::utf8::encode_utf8(status.report())
    }
}

/// The status of a gateway whose worker queue holds up to `queue_size` tasks,
/// was found closed or not, and had room for `capacity` tasks and, when asked
/// again, for `capacity_again`.
pub open spec fn status_of(
    closed: bool,
    capacity: usize,
    capacity_again: usize,
    queue_size: usize,
) -> GatewayStatus {
    if closed || capacity == 0 {
        GatewayStatus::Unhealthy
    } else if capacity_again < queue_size - SVC_DEGRADED_THRESHOLD {
        GatewayStatus::Degraded
    } else {
        GatewayStatus::Healthy
    }
}

/// Reports the status of a gateway that was observed as in [`status_of`].
pub fn report_status(
    closed: bool,
    capacity: usize,
    capacity_again: usize,
    queue_size: usize,
) -> (reply: StatusReply)
    requires
        queue_size >= SVC_DEGRADED_THRESHOLD,
    ensures
        reply.reports(status_of(closed, capacity, capacity_again, queue_size)),
{
    let (code, response): (u16, StatusResponse) = if closed || capacity == 0 {
        (trusted::status_internal_server_error(), StatusResponse::unhealthy())
    } else if capacity_again < queue_size - SVC_DEGRADED_THRESHOLD {
        (trusted::status_ok(), StatusResponse::degraded())
    } else {
        (trusted::status_ok(), StatusResponse::healthy())
    };
    StatusReply { code, body: response.to_json() }
}

/// `closed` is an answer that a look at whether the queue of `sender` is closed
/// can give.
pub closed spec fn saw_closed<T>(sender: &tokio::sync::mpsc::Sender<T>, closed: bool) -> bool {
    call_ensures(trusted::is_closed::<T>, (sender,), closed)
}

/// `capacity` is an answer that a look at the room in the queue of `sender` can
/// give.
pub closed spec fn saw_capacity<T>(
    sender: &tokio::sync::mpsc::Sender<T>,
    capacity: usize,
) -> bool {
    call_ensures(trusted::capacity::<T>, (sender,), capacity)
}

/// The looks at the queue of `sender` gave `closed`, `capacity` and
/// `capacity_again`. There is no look at the room in a closed queue, and no
/// second one at that in a full one.
pub open spec fn saw<T>(
    sender: &tokio::sync::mpsc::Sender<T>,
    closed: bool,
    capacity: usize,
    capacity_again: usize,
) -> bool {
    &&& saw_closed(sender, closed)
    &&& !closed ==> saw_capacity(sender, capacity)
    &&& !closed && capacity != 0 ==> saw_capacity(sender, capacity_again)
}

/// `GET /`: reports the health of a gateway whose worker queue, of
/// `queue_size` tasks, is fed through `sender`.
///
/// The queue may change between two looks at it. Whatever the looks show, the
/// reply is the one that [`report_status`] gives for it.
pub fn get_status<T>(
    sender: &tokio::sync::mpsc::Sender<T>,
    queue_size: usize,
) -> (reply: StatusReply)
    requires
        queue_size >= SVC_DEGRADED_THRESHOLD,
    ensures
        exists|closed: bool, capacity: usize, capacity_again: usize|
            saw(sender, closed, capacity, capacity_again) && reply.reports(
                #[trigger] status_of(closed, capacity, capacity_again, queue_size),
            ),
{
    if trusted::is_closed(sender) {
        return report_status(true, 0, 0, queue_size);
    }
    let capacity: usize = trusted::capacity(sender);
    if capacity == 0 {
        return report_status(false, capacity, 0, queue_size);
    }
    let capacity_again: usize = trusted::capacity(sender);
    report_status(false, capacity, capacity_again, queue_size)
}

proof fn lemma_report(status: GatewayStatus)
    ensures
        status.report() == "{\""@ + "status"@ + "\":\""@ + status.word() + "\"}"@,
        trusted::unescaped("status"@),
        trusted::unescaped(status.word()),
{
    reveal_strlit("{\"");
    reveal_strlit("status");
    reveal_strlit("\":\"");
    reveal_strlit("\"}");
    reveal_strlit("healthy");
    reveal_strlit("degraded");
    reveal_strlit("unhealthy");
    reveal_strlit("{\"status\":\"healthy\"}");
    reveal_strlit("{\"status\":\"degraded\"}");
    reveal_strlit("{\"status\":\"unhealthy\"}");
    let written = "{\""@ + "status"@ + "\":\""@ + status.word() + "\"}"@;
    assert(status.report() =~= written);
}

/// The gateway is reported as failing (500) exactly when its queue is closed
/// or full, and as up (200) otherwise.
pub proof fn only_a_stuck_queue_fails(
    closed: bool,
    capacity: usize,
    capacity_again: usize,
    queue_size: usize,
)
    ensures
        closed || capacity == 0 ==> status_of(closed, capacity, capacity_again, queue_size).code()
            == 500,
        !closed && capacity > 0 ==> status_of(closed, capacity, capacity_again, queue_size).code()
            == 200,
{
}

/// A gateway is reported as up (200) only after its queue was seen open and with
/// room, and as failing (500) only after it was seen closed or full.
pub proof fn replies_follow_the_looks<T>(
    sender: &tokio::sync::mpsc::Sender<T>,
    queue_size: usize,
    reply: StatusReply,
)
    requires
        exists|closed: bool, capacity: usize, capacity_again: usize|
            saw(sender, closed, capacity, capacity_again) && reply.reports(
                #[trigger] status_of(closed, capacity, capacity_again, queue_size),
            ),
    ensures
        reply.code == 200 || reply.code == 500,
        reply.code == 200 ==> saw_closed(sender, false) && exists|capacity: usize|
            capacity != 0 && saw_capacity(sender, capacity),
        reply.code == 500 ==> saw_closed(sender, true) || saw_capacity(sender, 0),
{
}

/// Whoever sees the queue the same way twice replies the same twice.
pub proof fn same_looks_give_the_same_reply(
    one: StatusReply,
    other: StatusReply,
    closed: bool,
    capacity: usize,
    capacity_again: usize,
    queue_size: usize,
)
    requires
        one.reports(status_of(closed, capacity, capacity_again, queue_size)),
        other.reports(status_of(closed, capacity, capacity_again, queue_size)),
    ensures
        one.code == other.code,
        one.body@ == other.body@,
{
}

/// More room in the queue never makes for a worse status.
pub proof fn more_room_is_never_worse(closed: bool, less: usize, more: usize, queue_size: usize)
    requires
        less <= more,
    ensures
        status_of(closed, more, more, queue_size).severity() <= status_of(
            closed,
            less,
            less,
            queue_size,
        ).severity(),
{
}

/// The body of a reply tells the three statuses apart.
pub proof fn bodies_tell_statuses_apart(
    reply: StatusReply,
    one: GatewayStatus,
    other: GatewayStatus,
)
    requires
        reply.reports(one),
        reply.reports(other),
    ensures
        one == other,
{
    reveal_strlit("{\"status\":\"healthy\"}");
    reveal_strlit("{\"status\":\"degraded\"}");
    reveal_strlit("{\"status\":\"unhealthy\"}");
    vstd::utf8::encode_utf8_decode_utf8(one.report());
    vstd::utf8::encode_utf8_decode_utf8(other.report());
    assert(one.report() == other.report());
    assert(one.report()[11] == other.report()[11]);
}

/// What [`report_status`] replies: 500 exactly for a queue that was closed or
/// full, and otherwise 200, as degraded exactly if more than 128 of its places
/// were taken at the second look.
pub proof fn replies_tell_how_full_the_queue_is(
    closed: bool,
    capacity: usize,
    capacity_again: usize,
    queue_size: usize,
    reply: StatusReply,
)
    requires
        queue_size >= SVC_DEGRADED_THRESHOLD,
        call_ensures(report_status, (closed, capacity, capacity_again, queue_size), reply),
    ensures
        reply.code == 500 <==> closed || capacity == 0,
        reply.code == 200 <==> !closed && capacity > 0,
        reply.code == 500 ==> reply.body@ == vstd::utf8::encode_utf8(
            "{\"status\":\"unhealthy\"}"@,
        ),
        reply.code == 200 && queue_size - capacity_again > 128 ==> reply.body@
            == vstd::utf8::encode_utf8("{\"status\":\"degraded\"}"@),
        reply.code == 200 && queue_size - capacity_again <= 128 ==> reply.body@
            == vstd::utf8::encode_utf8("{\"status\":\"healthy\"}"@),
{
}

/// The bytes that the three responses are written as.
pub proof fn responses_name_their_status(response: StatusResponse, json: Vec<u8>)
    requires
        call_ensures(StatusResponse::to_json, (&response,), json),
    ensures
        call_ensures(StatusResponse::healthy, (), response) ==> json@ == vstd::utf8::encode_utf8(
            "{\"status\":\"healthy\"}"@,
        ),
        call_ensures(StatusResponse::degraded, (), response) ==> json@ == vstd::utf8::encode_utf8(
            "{\"status\":\"degraded\"}"@,
        ),
        call_ensures(StatusResponse::unhealthy, (), response) ==> json@ == vstd::utf8::encode_utf8(
            "{\"status\":\"unhealthy\"}"@,
        ),
{
}

/// What [`get_status`] replies is what [`report_status`] replies to answers of
/// the sender itself: the queue is looked at, and not made up.
pub(crate) proof fn the_sender_is_asked<T>(
    sender: &tokio::sync::mpsc::Sender<T>,
    queue_size: usize,
    reply: StatusReply,
)
    requires
        queue_size >= SVC_DEGRADED_THRESHOLD,
        call_ensures(get_status::<T>, (sender, queue_size), reply),
    ensures
        reply.code == 500 ==> call_ensures(trusted::is_closed::<T>, (sender,), true)
            || call_ensures(trusted::capacity::<T>, (sender,), 0usize),
        reply.code == 200 ==> call_ensures(trusted::is_closed::<T>, (sender,), false),
        reply.code == 200 ==> exists|capacity: usize|
            capacity > 0 && call_ensures(trusted::capacity::<T>, (sender,), capacity),
        reply.code == 200 && reply.body@ == vstd::utf8::encode_utf8(
            "{\"status\":\"degraded\"}"@,
        ) ==> exists|capacity: usize|
            queue_size - capacity > 128 && call_ensures(
                trusted::capacity::<T>,
                (sender,),
                capacity,
            ),
        reply.code == 200 && reply.body@ == vstd::utf8::encode_utf8(
            "{\"status\":\"healthy\"}"@,
        ) ==> exists|capacity: usize|
            queue_size - capacity <= 128 && call_ensures(
                trusted::capacity::<T>,
                (sender,),
                capacity,
            ),
        reply.code == 500 || reply.code == 200,
{
    let (closed, capacity, capacity_again) = choose|
        closed: bool,
        capacity: usize,
        capacity_again: usize,
    |
        saw(sender, closed, capacity, capacity_again) && reply.reports(
            #[trigger] status_of(closed, capacity, capacity_again, queue_size),
        );
    let status = status_of(closed, capacity, capacity_again, queue_size);
    if reply.body@ == vstd::utf8::encode_utf8("{\"status\":\"degraded\"}"@) && reply.code == 200 {
        bodies_tell_statuses_apart(reply, status, GatewayStatus::Degraded);
    }
    if reply.body@ == vstd::utf8::encode_utf8("{\"status\":\"healthy\"}"@) && reply.code == 200 {
        bodies_tell_statuses_apart(reply, status, GatewayStatus::Healthy);
    }
}

} // verus!
