//! The transport between a host and a device.
//!
//! A connector is a reliable, ordered pipe of bytes: it carries a request to
//! the device and brings the response back. It knows nothing of frames.

use crate::error::ConnectionError;
use vstd::prelude::*;

verus! {

/// What a connector tells of itself.
#[derive(Debug)]
pub struct Status {
    /// `OK` for a connector that is ready.
    pub message: String,
    /// Serial number of the device, where the connector knows it.
    pub serial: Option<String>,
    /// Version of the connector.
    pub version: String,
}

/// A transport. Nothing is promised of what an implementation returns: a
/// session takes every response for what its bytes say. An implementation
/// may keep an invariant of its own, which every call finds and leaves in
/// place.
pub trait Connector {
    /// What the connector needs to hold of itself between calls: nothing,
    /// unless an implementation says otherwise.
    open spec fn inv(&self) -> bool {
        true
    }

    /// Asks the connector whether it is ready.
    fn status(&mut self) -> (r: Result<Status, ConnectionError>)
        requires
            old(self).inv(),
        ensures
            final(self).inv(),
    ;

    /// Carries a request to the device and brings the response back. The
    /// UUID names the request for the connector's own records.
    fn send_command(&mut self, uuid: &[u8], request: Vec<u8>) -> (r: Result<
        Vec<u8>,
        ConnectionError,
    >)
        requires
            old(self).inv(),
        ensures
            final(self).inv(),
    ;
}

/// A connector together with the record of what it has been handed and of
/// what it has brought back. Sessions send through a link, so that both are
/// on record.
pub struct Link<C: Connector> {
    /// The connector.
    pub connector: C,
    /// The requests that have been handed to the connector, oldest first.
    pub sent: Ghost<Seq<Seq<u8>>>,
    /// The UUIDs under which the requests were handed over, oldest first.
    pub names: Ghost<Seq<Seq<u8>>>,
    /// The answers that the connector has brought back, oldest first.
    pub answers: Ghost<Seq<Seq<u8>>>,
    /// What the connector has told of itself each time it was asked, oldest
    /// first.
    pub statuses: Ghost<Seq<Result<Status, ConnectionError>>>,
}

/// Whether what a connector has told of itself names a connector that is
/// ready: it has answered, and its message is `OK`.
pub open spec fn ready(answer: Result<Status, ConnectionError>) -> bool {
    answer matches Ok(status) && status.message@ == "OK"@
}

impl<C: Connector> Link<C> {
    /// The connector's invariant holds.
    pub open spec fn inv(&self) -> bool {
        self.connector.inv()
    }

    /// A link that has handed nothing to its connector yet.
    pub fn new(connector: C) -> (link: Link<C>)
        ensures
            link.connector == connector,
            link.sent@ == Seq::<Seq<u8>>::empty(),
            link.names@ == Seq::<Seq<u8>>::empty(),
            link.answers@ == Seq::<Seq<u8>>::empty(),
            link.statuses@ == Seq::<Result<Status, ConnectionError>>::empty(),
    {
        Link {
            connector,
            sent: Ghost(Seq::empty()),
            names: Ghost(Seq::empty()),
            answers: Ghost(Seq::empty()),
            statuses: Ghost(Seq::empty()),
        }
    }

    /// Asks the connector whether it is ready, and puts what it tells on
    /// record. Nothing is handed to the device.
    pub fn status(&mut self) -> (r: Result<Status, ConnectionError>)
        requires
            old(self).inv(),
        ensures
            final(self).inv(),
            final(self).sent@ == old(self).sent@,
            final(self).names@ == old(self).names@,
            final(self).answers@ == old(self).answers@,
            final(self).statuses@ == old(self).statuses@.push(r),
    {
        let r = self.connector.status();
        self.statuses = Ghost(self.statuses@.push(r));
        r
    }

    /// Hands a request to the connector, under the given UUID, and brings the
    /// response back. Request, UUID and response are put on record.
    pub fn send_command(&mut self, uuid: &[u8], request: Vec<u8>) -> (r: Result<
        Vec<u8>,
        ConnectionError,
    >)
        requires
            old(self).inv(),
        ensures
            final(self).inv(),
            final(self).sent@ == old(self).sent@.push(request@),
            final(self).names@ == old(self).names@.push(uuid@),
            final(self).statuses@ == old(self).statuses@,
            match r {
                Ok(answer) => final(self).answers@ == old(self).answers@.push(answer@),
                Err(_) => final(self).answers@ == old(self).answers@,
            },
    {
        self.sent = Ghost(self.sent@.push(request@));
        self.names = Ghost(self.names@.push(uuid@));
        let r = self.connector.send_command(uuid, request);
        match &r {
            Ok(answer) => {
                self.answers = Ghost(self.answers@.push(answer@));
            },
            Err(_) => {},
        }
        r
    }
}

/// Whether a status names a connector that is ready: its message is `OK`.
pub fn status_is_ok(status: &Status) -> (r: bool)
    ensures
        r == (status.message@ == "OK"@),
{
    let expected = "OK".to_owned();
    status.message == expected
}

} // verus!
