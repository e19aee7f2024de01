//! Building messages field by field.

use vstd::prelude::*;

use crate::login_state_data::LoginStateData;
use crate::message::{Message, MessageView};
use crate::message_data::{MessageData, MessageDataView};
use crate::source_or_destination::SourceOrDestination;
use crate::varuint::VarUInt;

verus! {

/// `std::time::SystemTime`, a reading of the system clock.
#[verifier::external_type_specification]
#[verifier::external_body]
pub struct ExSystemTime(std::time::SystemTime);

/// `std::time::SystemTimeError`: a clock reading fell before the instant it
/// was measured from.
#[verifier::external_type_specification]
#[verifier::external_body]
pub struct ExSystemTimeError(std::time::SystemTimeError);

/// Calls `SystemTime::now`. The reading depends on the clock, so nothing is
/// stated about it.
#[verifier::external_body]
fn system_time_now() -> std::time::SystemTime {
    std::time::SystemTime::now()
}

/// Calls `SystemTime::duration_since` with `UNIX_EPOCH`: the time elapsed
/// since the epoch, or an error when the reading lies before it. Nothing is
/// stated about the clock-dependent outcome.
#[verifier::external_body]
fn duration_since_unix_epoch(
    time: &std::time::SystemTime,
) -> Result<core::time::Duration, std::time::SystemTimeError> {
    time.duration_since(std::time::UNIX_EPOCH)
}

/// Calls `Duration::as_secs`: the whole seconds of `duration`. A `Duration`
/// is opaque here, so nothing is stated about the result.
#[verifier::external_body]
fn duration_as_secs(duration: &core::time::Duration) -> u64 {
    duration.as_secs()
}

/// `secs` is what the clock gives: for some reading of the system clock,
/// either the whole seconds (by `Duration::as_secs`) of the time elapsed
/// from the Unix epoch to the reading, or zero when the reading lies before
/// the epoch.
pub closed spec fn clock_seconds(secs: u64) -> bool {
    exists|time: std::time::SystemTime|
        #![trigger call_ensures(system_time_now, (), time)]
        call_ensures(system_time_now, (), time) && ((exists|duration: core::time::Duration|
            #![trigger call_ensures(duration_as_secs, (&duration,), secs)]
            call_ensures(
                duration_since_unix_epoch,
                (&time,),
                Ok::<core::time::Duration, std::time::SystemTimeError>(duration),
            ) && call_ensures(duration_as_secs, (&duration,), secs)) || (exists|
            error: std::time::SystemTimeError,
        |
            #![trigger call_ensures(duration_since_unix_epoch, (&time,), Err::<core::time::Duration, std::time::SystemTimeError>(error))]
            call_ensures(
                duration_since_unix_epoch,
                (&time,),
                Err::<core::time::Duration, std::time::SystemTimeError>(error),
            ) && secs == 0))
}

/// Builds a `Message` from its fields.
#[derive(Debug)]
pub struct MessageBuilder {
    body: MessageData,
    timestamp: VarUInt,
    source: SourceOrDestination,
    destination: SourceOrDestination,
}

impl View for MessageBuilder {
    type V = MessageView;

    /// The message that `build` returns.
    closed spec fn view(&self) -> MessageView {
        MessageView {
            data: self.body@,
            timestamp: self.timestamp.0,
            source: self.source@,
            destination: self.destination@,
        }
    }
}

impl Clone for MessageBuilder {
    fn clone(&self) -> (builder: Self)
        ensures
            builder@ == self@,
    {
        MessageBuilder {
            body: self.body.clone(),
            timestamp: self.timestamp,
            source: self.source.clone(),
            destination: self.destination.clone(),
        }
    }
}

impl MessageBuilder {
    /// A builder with empty endpoints, timestamp zero and a connection
    /// request as data.
    pub fn new() -> (builder: Self)
        ensures
            builder@ == (MessageView {
                data: MessageDataView::LoginStateData(LoginStateData::RequestConnect),
                timestamp: 0,
                source: Seq::empty(),
                destination: Seq::empty(),
            }),
    {
        Self {
            source: SourceOrDestination::default(),
            destination: SourceOrDestination::default(),
            timestamp: VarUInt(0),
            body: MessageData::LoginStateData(LoginStateData::RequestConnect),
        }
    }

    /// Sets the source.
    pub fn source(self, src: SourceOrDestination) -> (builder: Self)
        ensures
            builder@ == (MessageView { source: src@, ..self@ }),
    {
        let mut builder = self;
        builder.source = src;
        builder
    }

    /// Sets the destination.
    pub fn destination(self, dest: SourceOrDestination) -> (builder: Self)
        ensures
            builder@ == (MessageView { destination: dest@, ..self@ }),
    {
        let mut builder = self;
        builder.destination = dest;
        builder
    }

    /// Sets the data.
    pub fn body(self, message_body: MessageData) -> (builder: Self)
        ensures
            builder@ == (MessageView { data: message_body@, ..self@ }),
    {
        let mut builder = self;
        builder.body = message_body;
        builder
    }

    /// Sets the data; the same as `body`.
    pub fn data(self, message_data: MessageData) -> (builder: Self)
        ensures
            builder@ == (MessageView { data: message_data@, ..self@ }),
    {
        self.body(message_data)
    }

    /// The seconds elapsed since the Unix epoch by the system clock, or zero
    /// when the clock reads earlier than the epoch.
    pub fn now() -> (secs: u64)
        ensures
            clock_seconds(secs),
    {
        let time = system_time_now();
        let since_epoch = duration_since_unix_epoch(&time);
        let ghost outcome = since_epoch;
        let elapsed = match since_epoch {
            Ok(duration) => {
                let whole = duration_as_secs(&duration);
                assert(call_ensures(duration_as_secs, (&duration,), whole));
                Some(whole)
            },
            Err(_) => None,
        };
        let secs = Self::seconds_since_epoch(elapsed);
        proof {
            assert(call_ensures(system_time_now, (), time));
            assert(call_ensures(duration_since_unix_epoch, (&time,), outcome));
            match outcome {
                Ok(d) => {
                    assert(call_ensures(duration_as_secs, (&d,), secs));
                    assert(exists|duration: core::time::Duration|
                        #![trigger call_ensures(duration_as_secs, (&duration,), secs)]
                        call_ensures(
                            duration_since_unix_epoch,
                            (&time,),
                            Ok::<core::time::Duration, std::time::SystemTimeError>(duration),
                        ) && call_ensures(duration_as_secs, (&duration,), secs));
                },
                Err(e) => {
                    assert(secs == 0);
                },
            }
        }
        secs
    }

    /// The timestamp for a clock reading, given the whole seconds elapsed
    /// from the Unix epoch to the reading, or `None` when the reading lies
    /// before the epoch: those seconds, or zero.
    pub fn seconds_since_epoch(elapsed: Option<u64>) -> (secs: u64)
        ensures
            secs == match elapsed {
                Some(s) => s,
                None => 0,
            },
    {
        match elapsed {
            Some(s) => s,
            None => 0,
        }
    }

    /// Sets the timestamp to the current time, a value that `now` returns;
    /// the other fields stay as they were.
    pub fn timestamp(self) -> (builder: Self)
        ensures
            builder@ == (MessageView { timestamp: builder@.timestamp, ..self@ }),
            call_ensures(MessageBuilder::now, (), builder@.timestamp),
    {
        let mut builder = self;
        let now = Self::now();
        builder.timestamp = VarUInt(now);
        builder
    }

    /// The message with the fields set so far.
    pub fn build(&self) -> (message: Message)
        ensures
            message@ == self@,
    {
        Message {
            source: self.source.clone(),
            destination: self.destination.clone(),
            timestamp: self.timestamp,
            data: self.body.clone(),
        }
    }
}

impl Default for MessageBuilder {
    /// A builder with empty endpoints, the current time as timestamp and a
    /// connection request as data.
    fn default() -> (builder: Self)
        ensures
            builder@.source == Seq::<u8>::empty(),
            builder@.destination == Seq::<u8>::empty(),
            builder@.data == MessageDataView::LoginStateData(LoginStateData::RequestConnect),
            call_ensures(MessageBuilder::now, (), builder@.timestamp),
    {
        Self {
            source: SourceOrDestination::default(),
            destination: SourceOrDestination::default(),
            timestamp: VarUInt(Self::now()),
            body: MessageData::LoginStateData(LoginStateData::RequestConnect),
        }
    }
}

} // verus!

verus! {

/// Every value that `now` can return, and so every timestamp that
/// `timestamp` stamps, is what the clock gives (see `clock_seconds`).
pub proof fn lemma_now_is_clock_seconds(secs: u64)
    requires
        call_ensures(MessageBuilder::now, (), secs),
    ensures
        clock_seconds(secs),
{
}

} // verus!
