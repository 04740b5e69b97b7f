//! The webhook: which requests it acknowledges, how it queues what they
//! carry for a single consumer, and how it shuts down without losing any.

use std::collections::VecDeque;
use vstd::prelude::*;
use vstd::string::StringExecFns;
use crate::text::same_text;

verus! {

/// The status that acknowledges an update.
pub const OK: u16 = 200;

/// The status that answers every request that is turned away.
pub const INTERNAL_SERVER_ERROR: u16 = 500;

/// The path segment that the webhook listens on, made from the secret token.
pub open spec fn path_of(token: Seq<char>) -> Seq<char> {
    "bot"@ + token
}

/// The address that the platform is told to deliver to.
pub open spec fn url_of(host: Seq<char>, token: Seq<char>) -> Seq<char> {
    "https://"@ + host + "/"@ + path_of(token)
}

/// The path of a request to the webhook: a slash, then the segment.
pub open spec fn route_of(segment: Seq<char>) -> Seq<char> {
    "/"@ + segment
}

/// The path segment that the webhook listens on.
pub fn ingress_path(token: &str) -> (out: String)
    ensures
        out@ == path_of(token@),
{
    let mut out = String::from_str("bot");
    out.append(token);
    out
}

/// The address that the platform is told to deliver to.
pub fn webhook_url(host: &str, token: &str) -> (out: String)
    ensures
        out@ == url_of(host@, token@),
{
    let mut out = String::from_str("https://");
    out.append(host);
    out.append("/");
    out.append(ingress_path(token).as_str());
    out
}

/// The method of a request, as far as the webhook cares.
#[derive(Clone, Copy, Debug, PartialEq, Eq, Structural)]
pub enum Method {
    Post,
    Other,
}

/// A request as it reaches the webhook. `update` is what the body decoded
/// to, or `None` where it did not decode.
pub struct Request<T> {
    pub method: Method,
    pub path: String,
    pub update: Option<T>,
}

/// Why a request is turned away.
#[derive(Clone, Copy, Debug, PartialEq, Eq, Structural)]
pub enum Rejection {
    /// The method is not POST.
    MethodNotAllowed,
    /// The path is not the webhook's.
    NotFound,
    /// The body is no update.
    BodyNotDecoded,
}

/// What the webhook makes of a request: the update it carries, or the
/// first reason to turn it away, the method before the path before the body.
pub open spec fn routed<T>(request: Request<T>, segment: Seq<char>) -> Result<T, Rejection> {
    if request.method != Method::Post {
        Err(Rejection::MethodNotAllowed)
    } else if request.path@ != route_of(segment) {
        Err(Rejection::NotFound)
    } else {
        match request.update {
            Some(update) => Ok(update),
            None => Err(Rejection::BodyNotDecoded),
        }
    }
}

/// What the webhook makes of a request.
pub fn route<T>(request: Request<T>, segment: &str) -> (out: Result<T, Rejection>)
    ensures
        out == routed(request, segment@),
{
    let mut wanted = String::from_str("/");
    wanted.append(segment);
    match request.method {
        Method::Post => {},
        Method::Other => {
            return Err(Rejection::MethodNotAllowed);
        },
    }
    if !same_text(request.path.as_str(), wanted.as_str()) {
        return Err(Rejection::NotFound);
    }
    match request.update {
        Some(update) => Ok(update),
        None => Err(Rejection::BodyNotDecoded),
    }
}

/// The status for a request that was turned away: the same for every reason.
pub fn handle_rejection(error: Rejection) -> (out: u16)
    ensures
        out == INTERNAL_SERVER_ERROR,
{
    INTERNAL_SERVER_ERROR
}

/// What the consumer gets when it asks for the next update.
#[derive(Debug, PartialEq, Eq)]
pub enum Next<T> {
    /// The update that has waited longest.
    Update(T),
    /// Nothing waits, and more may come: ask again later.
    Pending,
    /// Nothing waits and nothing will come: the stream has ended.
    Finished,
}

/// The webhook's state: the updates that wait for the consumer, oldest
/// first; whether a stop was asked for; and how many requests were taken on
/// and not yet answered.
pub struct Listener<T> {
    segment: String,
    queue: VecDeque<T>,
    stopped: bool,
    in_flight: usize,
}

/// The webhook's state as contracts speak of it.
pub ghost struct ListenerView<T> {
    pub segment: Seq<char>,
    pub queue: Seq<T>,
    pub stopped: bool,
    pub in_flight: nat,
}

impl<T> View for Listener<T> {
    type V = ListenerView<T>;

    closed spec fn view(&self) -> ListenerView<T> {
        ListenerView {
            segment: self.segment@,
            queue: self.queue@,
            stopped: self.stopped,
            in_flight: self.in_flight as nat,
        }
    }
}

impl<T> ListenerView<T> {
    /// Whether the listening socket has been given up: a stop was asked for
    /// and every request that was taken on has been answered.
    pub open spec fn released(self) -> bool {
        self.stopped && self.in_flight == 0
    }

    /// Whether the stream has ended: the socket has been given up and every
    /// update has been handed on.
    pub open spec fn finished(self) -> bool {
        self.released() && self.queue.len() == 0
    }
}

/// A webhook for the given secret token: nothing waits, no stop was asked
/// for, no request is under way.
pub fn webhook<T>(token: &str) -> (out: Listener<T>)
    ensures
        out@ == (ListenerView {
            segment: path_of(token@),
            queue: Seq::<T>::empty(),
            stopped: false,
            in_flight: 0,
        }),
{
    Listener { segment: ingress_path(token), queue: VecDeque::new(), stopped: false, in_flight: 0 }
}

impl<T> Listener<T> {
    /// The path segment that the webhook listens on.
    pub fn segment(&self) -> (out: &str)
        ensures
            out@ == self@.segment,
    {
        self.segment.as_str()
    }

    /// How many updates wait for the consumer.
    pub fn waiting(&self) -> (out: usize)
        ensures
            out == self@.queue.len(),
    {
        self.queue.len()
    }

    /// How many requests were taken on and not yet answered.
    pub fn in_flight(&self) -> (out: usize)
        ensures
            out == self@.in_flight,
    {
        self.in_flight
    }

    /// Whether a stop was asked for.
    pub fn is_stopped(&self) -> (out: bool)
        ensures
            out == self@.stopped,
    {
        self.stopped
    }

    /// Whether the listening socket has been given up.
    pub fn is_released(&self) -> (out: bool)
        ensures
            out == self@.released(),
    {
        self.stopped && self.in_flight == 0
    }

    /// Asks the webhook to stop. The flag is set once and never cleared;
    /// what waits and what is under way stay as they are.
    pub fn stop(&mut self)
        ensures
            final(self)@ == (ListenerView { stopped: true, ..old(self)@ }),
    {
        self.stopped = true;
    }

    /// A connection arrives. It is taken on unless a stop was asked for;
    /// the result says whether it was.
    pub fn accept(&mut self) -> (out: bool)
        requires
            old(self)@.in_flight < usize::MAX,
        ensures
            out == !old(self)@.stopped,
            final(self)@ == if out {
                ListenerView { in_flight: old(self)@.in_flight + 1, ..old(self)@ }
            } else {
                old(self)@
            },
    {
        if self.stopped {
            false
        } else {
            self.in_flight = self.in_flight + 1;
            true
        }
    }

    /// Answers a request, whether or not a stop was asked for since it was
    /// taken on. A POST to the webhook's path whose body decoded is queued
    /// behind what waits and acknowledged at once; every other request is
    /// answered with a server error and leaves the queue as it is. Either
    /// way one request fewer is under way.
    pub fn serve(&mut self, request: Request<T>) -> (out: u16)
        ensures
            out == status_of(routed(request, old(self)@.segment)),
            final(self)@ == (ListenerView {
                queue: queued(old(self)@.queue, routed(request, old(self)@.segment)),
                in_flight: if old(self)@.in_flight > 0 {
                    (old(self)@.in_flight - 1) as nat
                } else {
                    0
                },
                ..old(self)@
            }),
    {
        if self.in_flight > 0 {
            self.in_flight = self.in_flight - 1;
        }
        match route(request, self.segment.as_str()) {
            Ok(update) => {
                self.queue.push_back(update);
                OK
            },
            Err(error) => handle_rejection(error),
        }
    }

    /// Hands the consumer the update that has waited longest. Where nothing
    /// waits, the stream has ended if the socket has been given up, and is
    /// pending otherwise.
    pub fn poll(&mut self) -> (out: Next<T>)
        ensures
            out == next_of(old(self)@),
            final(self)@ == (ListenerView {
                queue: if old(self)@.queue.len() > 0 {
                    old(self)@.queue.drop_first()
                } else {
                    old(self)@.queue
                },
                ..old(self)@
            }),
    {
        match self.queue.pop_front() {
            Some(update) => Next::Update(update),
            None => if self.stopped && self.in_flight == 0 {
                Next::Finished
            } else {
                Next::Pending
            },
        }
    }
}

/// The status that answers a request.
pub open spec fn status_of<T>(routed: Result<T, Rejection>) -> u16 {
    match routed {
        Ok(_) => OK,
        Err(_) => INTERNAL_SERVER_ERROR,
    }
}

/// The queue after a request was answered.
pub open spec fn queued<T>(queue: Seq<T>, routed: Result<T, Rejection>) -> Seq<T> {
    match routed {
        Ok(update) => queue.push(update),
        Err(_) => queue,
    }
}

/// What the consumer gets next in the given state.
pub open spec fn next_of<T>(state: ListenerView<T>) -> Next<T> {
    if state.queue.len() > 0 {
        Next::Update(state.queue[0])
    } else if state.finished() {
        Next::Finished
    } else {
        Next::Pending
    }
}

} // verus!
