//! The receiving side of a subscription that this endpoint made.

use std::collections::HashSet;

use vstd::prelude::*;

use super::subscribe::{
    info_of, DeliveryFilter, InfoView, SubscribeInfo, SubscribeOptions, SubscribeOptionsError,
};
use crate::coding::buffer::{bytes_contents, empty_bytes};
use crate::coding::Location;
use crate::data::datagram::{Datagram, DatagramFields};
use crate::data::{ExtensionHeaders, SubgroupHeader};
use crate::message;
use crate::message::parameters::largest_object_of;
use crate::serve::error::ServeFault;
use crate::serve::track::{DatagramView, FullName, WriterView};
use crate::serve::{
    self, FullTrackName, ServeError, Subgroup, SubgroupWriter, TrackWriter, TrackWriterMode,
};
use crate::text::concat2;
use crate::watch::{Progress, State};

verus! {

/// How far a subscription has come.
#[derive(Debug)]
pub struct SubscribeState {
    pub ok: bool,
    pub track_alias: Option<u64>,
    pub closed: Result<(), ServeError>,
}

impl Default for SubscribeState {
    fn default() -> (state: Self)
        ensures
            !state.ok,
            state.track_alias is None,
            state.closed is Ok,
    {
        SubscribeState { ok: false, track_alias: None, closed: Ok(()) }
    }
}

/// How a subscription ended, if it did.
pub open spec fn closed_view(closed: Result<(), ServeError>) -> Option<ServeFault> {
    match closed {
        Ok(()) => None,
        Err(error) => Some(error@),
    }
}

/// Where a wait for a subscription stands.
pub open spec fn wait_view(progress: Progress<Result<(), ServeError>>) -> Progress<
    Option<ServeFault>,
> {
    match progress {
        Progress::Pending => Progress::Pending,
        Progress::Ready(result) => Progress::Ready(closed_view(result)),
    }
}

/// Where the wait for the end of a subscription stands.
pub open spec fn end_awaited(closed: Option<ServeFault>, live: bool) -> Progress<
    Option<ServeFault>,
> {
    match closed {
        Some(error) => Progress::Ready(Some(error)),
        None => if live {
            Progress::Pending
        } else {
            Progress::Ready(None)
        },
    }
}

/// Where the wait for the acceptance of a subscription stands.
pub open spec fn acceptance_awaited(closed: Option<ServeFault>, ok: bool, live: bool) -> Progress<
    Option<ServeFault>,
> {
    match closed {
        Some(error) => Progress::Ready(Some(error)),
        None => if ok {
            Progress::Ready(None)
        } else if live {
            Progress::Pending
        } else {
            Progress::Ready(Some(ServeFault::Done))
        },
    }
}

impl State<SubscribeState> {
    /// Whether the wait for the end of the subscription is over: it ended, or
    /// nobody is left to end it.
    pub fn poll_closed(&self) -> (progress: Progress<Result<(), ServeError>>)
        ensures
            wait_view(progress) == end_awaited(closed_view(self.value.closed), self.live),
    {
        match &self.value.closed {
            Err(error) => Progress::Ready(Err(error.clone())),
            Ok(()) => if self.live {
                Progress::Pending
            } else {
                Progress::Ready(Ok(()))
            },
        }
    }

    /// Whether the wait for the publisher's acceptance is over: it accepted,
    /// the subscription ended, or nobody is left to accept it.
    pub fn poll_ok(&self) -> (progress: Progress<Result<(), ServeError>>)
        ensures
            wait_view(progress) == acceptance_awaited(
                closed_view(self.value.closed),
                self.value.ok,
                self.live,
            ),
    {
        match &self.value.closed {
            Err(error) => Progress::Ready(Err(error.clone())),
            Ok(()) => if self.value.ok {
                Progress::Ready(Ok(()))
            } else if self.live {
                Progress::Pending
            } else {
                Progress::Ready(Err(ServeError::Done))
            },
        }
    }
}

/// A subscription, as the application holds it.
#[derive(Debug)]
pub struct Subscribe {
    pub info: SubscribeInfo,
}

impl Subscribe {
    /// What a request with these options says of its track.
    pub fn build_info(request_id: u64, track: &TrackWriter, options: &SubscribeOptions) -> (result:
        Result<SubscribeInfo, SubscribeOptionsError>)
        ensures
            match options@.parameters() {
                Ok(params) => match info_of(
                    request_id,
                    FullName { namespace: track.namespace@, name: track.name@ },
                    params,
                ) {
                    Ok(info) => result is Ok && result->Ok_0@ == info,
                    Err(_) => result == Err::<SubscribeInfo, SubscribeOptionsError>(
                        SubscribeOptionsError::InvalidRequestParameters,
                    ),
                },
                Err(error) => result == Err::<SubscribeInfo, SubscribeOptionsError>(error),
            },
    {
        let subscribe_message = message::Subscribe {
            id: request_id,
            track_namespace: track.namespace.clone(),
            track_name: track.name.clone(),
            params: options.to_request_parameters()?,
        };
        match SubscribeInfo::new_from_subscribe(&subscribe_message) {
            Ok(info) => Ok(info),
            Err(_) => Err(SubscribeOptionsError::InvalidRequestParameters),
        }
    }

    /// Makes a subscription, and the side that receives for it. The caller
    /// sends the request on a stream of its own.
    pub fn new_with_options(request_id: u64, track: TrackWriter, options: SubscribeOptions) -> (result:
        Result<(Subscribe, SubscribeRecv), SubscribeOptionsError>)
        ensures
            match options@.parameters() {
                Ok(params) => match info_of(
                    request_id,
                    FullName { namespace: track.namespace@, name: track.name@ },
                    params,
                ) {
                    Ok(info) => {
                        &&& result is Ok
                        &&& result->Ok_0.0.info@ == info
                        &&& result->Ok_0.1@ == RecvView::fresh(info, track.live)
                    },
                    Err(_) => result == Err::<(Subscribe, SubscribeRecv), SubscribeOptionsError>(
                        SubscribeOptionsError::InvalidRequestParameters,
                    ),
                },
                Err(error) => result == Err::<(Subscribe, SubscribeRecv), SubscribeOptionsError>(
                    error,
                ),
            },
    {
        let info = Subscribe::build_info(request_id, &track, &options)?;
        let recv = SubscribeRecv::new(info.clone(), track);
        Ok((Subscribe { info }, recv))
    }

    /// The request as it is sent.
    pub fn wire_message(&self) -> (msg: message::Subscribe)
        ensures
            msg.id == self.info@.id,
            msg.track_namespace@ == self.info@.name.namespace,
            msg.track_name@ == self.info@.name.name,
            msg.params@ == self.info@.params,
    {
        message::Subscribe {
            id: self.info.id,
            track_namespace: self.info.track_namespace.clone(),
            track_name: self.info.track_name.clone(),
            params: self.info.params.clone(),
        }
    }
}

/// The receiving side of a subscription.
#[derive(Debug)]
pub struct SubscribeRecv {
    state: State<SubscribeState>,
    writer: Option<TrackWriterMode>,
    info: SubscribeInfo,
    delivery_filter: Option<DeliveryFilter>,
    /// The objects that were claimed, each as one number.
    seen_objects: HashSet<u128>,
}

/// A location as one number.
pub open spec fn packed(location: Location) -> u128 {
    (location.group_id * 0x1_0000_0000_0000_0000 + location.object_id) as u128
}

/// The model of a [`SubscribeRecv`].
pub struct RecvView {
    pub ok: bool,
    pub track_alias: Option<u64>,
    pub closed: Option<ServeFault>,
    pub live: bool,
    pub writer: Option<WriterView>,
    pub info: InfoView,
    pub delivery_filter: Option<DeliveryFilter>,
    /// The objects that were claimed.
    pub seen: Set<Location>,
}

impl RecvView {
    /// A subscription that was just made.
    pub open spec fn fresh(info: InfoView, live: bool) -> RecvView {
        RecvView {
            ok: false,
            track_alias: None,
            closed: None,
            live: true,
            writer: Some(WriterView::Track { live }),
            info,
            delivery_filter: None,
            seen: Set::empty(),
        }
    }

    /// The filter in force: before the publisher answers, nothing is known of
    /// the track.
    pub open spec fn filter(self) -> DeliveryFilter {
        match self.delivery_filter {
            Some(filter) => filter,
            None => self.info.delivery(None),
        }
    }

    /// The datagrams that the track's readers have not taken yet.
    pub open spec fn untaken(self) -> Seq<DatagramView> {
        match self.writer {
            Some(writer) => writer.untaken(),
            None => Seq::empty(),
        }
    }

    /// The subscription once the track's readers took all datagrams.
    pub open spec fn taken(self) -> RecvView {
        RecvView {
            writer: match self.writer {
                Some(writer) => Some(writer.taken()),
                None => None,
            },
            ..self
        }
    }

    /// The subscription once nobody reads the track any more.
    pub open spec fn unread(self) -> RecvView {
        RecvView {
            writer: match self.writer {
                Some(writer) => Some(writer.unread()),
                None => None,
            },
            ..self
        }
    }

    /// Whether an object can be claimed: it is delivered, and no copy of it
    /// was claimed before.
    pub open spec fn claims(self, location: Location) -> bool {
        self.filter().delivers(location) && !self.seen.contains(location)
    }

    /// The subscription after an object was asked for.
    pub open spec fn after_claim(self, location: Location) -> RecvView {
        if self.filter().delivers(location) {
            RecvView { seen: self.seen.insert(location), ..self }
        } else {
            self
        }
    }
}

/// No object is claimed twice, and claiming one leaves every other as it was.
pub proof fn claimed_once(recv: RecvView, location: Location, other: Location)
    ensures
        !recv.after_claim(location).claims(location),
        other != location ==> recv.after_claim(location).claims(other) == recv.claims(other),
{
}

impl View for SubscribeRecv {
    type V = RecvView;

    closed spec fn view(&self) -> RecvView {
        RecvView {
            ok: self.state.value.ok,
            track_alias: self.state.value.track_alias,
            closed: closed_view(self.state.value.closed),
            live: self.state.live,
            writer: match self.writer {
                Some(writer) => Some(writer@),
                None => None,
            },
            info: self.info@,
            delivery_filter: self.delivery_filter,
            seen: Set::new(|location: Location| self.seen_objects@.contains(packed(location))),
        }
    }
}

/// Two locations have different numbers.
proof fn packed_injective(left: Location, right: Location)
    ensures
        packed(left) == packed(right) ==> left == right,
{
    assert(left.group_id * 0x1_0000_0000_0000_0000 + left.object_id <= u128::MAX) by (nonlinear_arith)
        requires
            left.group_id <= u64::MAX,
            left.object_id <= u64::MAX,
    ;
    assert(right.group_id * 0x1_0000_0000_0000_0000 + right.object_id <= u128::MAX)
        by (nonlinear_arith)
        requires
            right.group_id <= u64::MAX,
            right.object_id <= u64::MAX,
    ;
}

/// The datagram that a track is given for one from the wire.
pub open spec fn track_datagram(datagram: DatagramFields) -> DatagramView {
    DatagramView {
        group_id: datagram.group_id,
        object_id: match datagram.object_id {
            Some(id) => id,
            None => 0,
        },
        priority: datagram.publisher_priority,
        payload: match datagram.payload {
            Some(payload) => payload,
            None => Seq::empty(),
        },
        extension_headers: match datagram.extension_headers {
            Some(headers) => headers,
            None => Seq::empty(),
        },
    }
}

fn into_track_datagram(datagram: Datagram) -> (written: serve::Datagram)
    ensures
        written@ == track_datagram(datagram@),
{
    serve::Datagram {
        group_id: datagram.group_id,
        object_id: match datagram.object_id {
            Some(id) => id,
            None => 0,
        },
        priority: datagram.publisher_priority,
        payload: match datagram.payload {
            Some(payload) => payload,
            None => {
                let empty = empty_bytes();
                assert(bytes_contents(empty) =~= Seq::<u8>::empty());
                empty
            },
        },
        extension_headers: match datagram.extension_headers {
            Some(headers) => headers,
            None => ExtensionHeaders::default(),
        },
    }
}

/// The subgroup that a stream header opens, or why it opens none.
pub open spec fn opened_subgroup(header: SubgroupHeader) -> Result<Subgroup, ServeFault> {
    match header.resolved() {
        Ok(Some(subgroup_id)) => Ok(
            Subgroup {
                group_id: header.group_id,
                subgroup_id,
                priority: header.publisher_priority,
                first_object: header.header_type.starts_group(),
            },
        ),
        Ok(None) => Err(
            ServeFault::InternalWithId(
                0,
                "FIRST_OBJECT subgroup id was not resolved before creating the subgroup"@,
            ),
        ),
        Err(error) => Err(
            ServeFault::InternalWithId(0, "invalid subgroup id: "@ + error.spec_message()),
        ),
    }
}

fn open_subgroup(header: SubgroupHeader) -> (result: Result<Subgroup, ServeError>)
    ensures
        match result {
            Ok(subgroup) => opened_subgroup(header) == Ok::<Subgroup, ServeFault>(subgroup),
            Err(error) => opened_subgroup(header) == Err::<Subgroup, ServeFault>(error@),
        },
{
    match header.resolved_subgroup_id() {
        Ok(Some(subgroup_id)) => Ok(
            Subgroup {
                group_id: header.group_id,
                subgroup_id,
                priority: header.publisher_priority,
                first_object: header.header_type.is_first_object(),
            },
        ),
        Ok(None) => Err(
            ServeError::internal_ctx(
                "FIRST_OBJECT subgroup id was not resolved before creating the subgroup",
            ),
        ),
        Err(error) => {
            let text = concat2("invalid subgroup id: ", &error.message());
            Err(ServeError::internal_ctx(&text))
        },
    }
}

/// What opening a subgroup gives: the subgroup, or the reason against it.
pub open spec fn subgroup_outcome(
    writer: Option<WriterView>,
    header: SubgroupHeader,
) -> Result<Subgroup, ServeFault> {
    match writer {
        None => Err(ServeFault::Done),
        Some(WriterView::Datagrams { .. }) => Err(ServeFault::Mode),
        Some(WriterView::Track { live }) => if !live {
            Err(ServeFault::Cancel)
        } else {
            opened_subgroup(header)
        },
        Some(WriterView::Subgroups { live }) => match opened_subgroup(header) {
            Ok(subgroup) => if !live {
                Err(ServeFault::Cancel)
            } else {
                Ok(subgroup)
            },
            Err(error) => Err(error),
        },
    }
}

/// What writing a datagram gives: the datagrams of the track with one more, or
/// the reason against it and the writer that is left.
pub open spec fn datagram_outcome(
    writer: Option<WriterView>,
    datagram: DatagramFields,
) -> Result<Seq<DatagramView>, (Option<WriterView>, ServeFault)> {
    match writer {
        None => Err((None, ServeFault::Done)),
        Some(WriterView::Subgroups { .. }) => Err((writer, ServeFault::Mode)),
        Some(WriterView::Track { live }) => if live {
            Ok(seq![track_datagram(datagram)])
        } else {
            Err((None, ServeFault::Cancel))
        },
        Some(WriterView::Datagrams { live, written }) => if live {
            Ok(written.push(track_datagram(datagram)))
        } else {
            Err((None, ServeFault::Cancel))
        },
    }
}

/// What came of ending a subscription.
#[derive(Debug)]
pub struct Ending {
    /// Whether it ended now, or why it could not.
    pub result: Result<(), ServeError>,
    /// What the readers of the track are told; nothing where there are none.
    pub told: Option<ServeError>,
    /// What the application waits on.
    pub state: State<SubscribeState>,
}

/// The model of an [`Ending`].
pub struct EndingView {
    pub refused: Option<ServeFault>,
    pub told: Option<ServeFault>,
    pub ok: bool,
    pub track_alias: Option<u64>,
    pub closed: Option<ServeFault>,
    pub live: bool,
}

impl View for Ending {
    type V = EndingView;

    open spec fn view(&self) -> EndingView {
        EndingView {
            refused: closed_view(self.result),
            told: match self.told {
                Some(error) => Some(error@),
                None => None,
            },
            ok: self.state.value.ok,
            track_alias: self.state.value.track_alias,
            closed: closed_view(self.state.value.closed),
            live: self.state.live,
        }
    }
}

impl RecvView {
    /// Ends the subscription for a cause. The track's readers are told first;
    /// if they are gone, that is the error and nothing else happens. What the
    /// subscription ended with before stays.
    pub open spec fn ending(self, cause: ServeFault) -> EndingView {
        let unread = self.writer is Some && !self.writer->0.live();
        let refused = if unread {
            Some(ServeFault::Cancel)
        } else if self.closed is Some {
            self.closed
        } else if !self.live {
            Some(ServeFault::Cancel)
        } else {
            None
        };
        EndingView {
            refused,
            told: if self.writer is Some && !unread {
                Some(cause)
            } else {
                None
            },
            ok: self.ok,
            track_alias: self.track_alias,
            closed: if refused is Some {
                self.closed
            } else {
                Some(cause)
            },
            live: self.live,
        }
    }
}

/// A subscription that is open ends with its cause: the track's readers are
/// told it, and whoever waits for the end or for the acceptance gets it, even
/// if the acceptance had come. One that ended before keeps what it ended with.
pub proof fn cause_reaches_everyone(recv: RecvView, cause: ServeFault)
    requires
        recv.writer matches Some(writer) ==> writer.live(),
    ensures
        ({
            let ending = recv.ending(cause);
            &&& recv.writer is Some ==> ending.told == Some(cause)
            &&& recv.live && recv.closed is None ==> {
                &&& ending.refused is None
                &&& end_awaited(ending.closed, ending.live) == Progress::Ready(Some(cause))
                &&& acceptance_awaited(ending.closed, ending.ok, ending.live) == Progress::Ready(
                    Some(cause),
                )
            }
            &&& recv.closed matches Some(earlier) ==> ending.refused == Some(earlier)
                && ending.closed == Some(earlier)
        }),
{
}

impl SubscribeRecv {
    pub fn new(info: SubscribeInfo, track: TrackWriter) -> (recv: Self)
        ensures
            recv@ == RecvView::fresh(info@, track.live),
    {
        broadcast use vstd::std_specs::hash::group_hash_axioms;

        let recv = SubscribeRecv {
            state: State::new(SubscribeState::default()),
            writer: Some(TrackWriterMode::Track(track)),
            info,
            delivery_filter: None,
            seen_objects: HashSet::new(),
        };
        assert(recv@.seen =~= Set::<Location>::empty());
        recv
    }

    /// What the application waits on.
    pub fn state(&self) -> (state: &State<SubscribeState>)
        ensures
            state.value.ok == self@.ok,
            state.value.track_alias == self@.track_alias,
            closed_view(state.value.closed) == self@.closed,
            state.live == self@.live,
    {
        &self.state
    }

    /// Takes the publisher's acceptance. From then on what is delivered is
    /// decided by the largest object that it names.
    pub fn ok(&mut self, msg: &message::SubscribeOk) -> (result: Result<(), ServeError>)
        ensures
            if old(self)@.ok {
                &&& result matches Err(error) && error@ == ServeFault::Duplicate
                &&& final(self)@ == old(self)@
            } else {
                let accepted = if old(self)@.live {
                    RecvView { ok: true, track_alias: Some(msg.track_alias), ..old(self)@ }
                } else {
                    old(self)@
                };
                match largest_object_of(msg.params@) {
                    Ok(largest) => {
                        &&& result is Ok
                        &&& final(self)@ == (RecvView {
                            delivery_filter: Some(old(self)@.info.delivery(largest)),
                            ..accepted
                        })
                    },
                    Err(error) => {
                        &&& result matches Err(fault) && fault@ == ServeFault::InternalWithId(
                            0,
                            "invalid largest object: "@ + error.spec_message(),
                        )
                        &&& final(self)@ == accepted
                    },
                }
            },
    {
        if self.state.value.ok {
            return Err(ServeError::Duplicate);
        }
        if self.state.live {
            self.state.value.ok = true;
            self.state.value.track_alias = Some(msg.track_alias);
        }
        match msg.params.largest_object() {
            Ok(largest) => {
                self.delivery_filter = Some(self.info.delivery_filter(largest));
                Ok(())
            },
            Err(error) => {
                let text = concat2("invalid largest object: ", &error.message());
                Err(ServeError::internal_ctx(&text))
            },
        }
    }

    pub fn full_name(&self) -> (name: FullTrackName)
        ensures
            name@ == self@.info.name,
    {
        FullTrackName {
            namespace: self.info.track_namespace.clone(),
            name: self.info.track_name.clone(),
        }
    }

    /// Whether an object is delivered.
    pub fn allows(&self, group_id: u64, object_id: u64) -> (result: bool)
        ensures
            result == self@.filter().delivers(Location { group_id, object_id }),
    {
        let filter = match self.delivery_filter {
            Some(filter) => filter,
            None => self.info.delivery_filter(None),
        };
        filter.allows(group_id, object_id)
    }

    /// Claims an object for this subscription: it is delivered, and no copy of
    /// it was claimed before. Shared track aliases bring such copies.
    pub fn claim_object(&mut self, group_id: u64, object_id: u64) -> (claimed: bool)
        ensures
            claimed == old(self)@.claims(Location { group_id, object_id }),
            final(self)@ == old(self)@.after_claim(Location { group_id, object_id }),
    {
        broadcast use vstd::std_specs::hash::group_hash_axioms;

        if !self.allows(group_id, object_id) {
            return false;
        }
        let ghost location = Location { group_id, object_id };
        let ghost before = self@;
        assert(group_id * 0x1_0000_0000_0000_0000 + object_id <= u128::MAX) by (nonlinear_arith)
            requires
                group_id <= u64::MAX,
                object_id <= u64::MAX,
        ;
        let number: u128 = group_id as u128 * 0x1_0000_0000_0000_0000 + object_id as u128;
        let claimed = self.seen_objects.insert(number);
        proof {
            assert forall|other: Location| #[trigger]
                self@.seen.contains(other) == before.seen.insert(location).contains(other) by {
                packed_injective(other, location);
            }
            assert(self@.seen =~= before.seen.insert(location));
        }
        claimed
    }

    pub fn track_alias(&self) -> (alias: Option<u64>)
        ensures
            alias == self@.track_alias,
    {
        self.state.value.track_alias
    }

    /// Ends the subscription with an error, for the track's readers first and
    /// for the application that waits.
    pub fn error(self, error: ServeError) -> (ending: Ending)
        ensures
            ending@ == self@.ending(error@),
    {
        let mut state = self.state;
        let told = match self.writer {
            Some(writer) => match writer.close(error.clone()) {
                Ok(told) => Some(told),
                Err(fault) => {
                    return Ending { result: Err(fault), told: None, state };
                },
            },
            None => None,
        };
        match &state.value.closed {
            Ok(()) => {},
            Err(fault) => {
                let fault = fault.clone();
                return Ending { result: Err(fault), told, state };
            },
        }
        if !state.live {
            return Ending { result: Err(ServeError::Cancel), told, state };
        }
        state.value.closed = Err(error);
        Ending { result: Ok(()), told, state }
    }

    /// Hands the track's readers the datagrams that were written, oldest first.
    pub fn take_datagrams(&mut self) -> (datagrams: Vec<serve::Datagram>)
        ensures
            datagrams@.map_values(|datagram: serve::Datagram| datagram@) == old(self)@.untaken(),
            final(self)@ == old(self)@.taken(),
    {
        let ghost before = self@;
        let datagrams = match self.writer.take() {
            Some(TrackWriterMode::Datagrams(mut writer)) => {
                let datagrams = writer.take();
                self.writer = Some(TrackWriterMode::Datagrams(writer));
                datagrams
            },
            other => {
                self.writer = other;
                Vec::new()
            },
        };
        proof {
            if let Some(WriterView::Datagrams { .. }) = before.writer {
                assert(self@.writer->0->written =~= Seq::<DatagramView>::empty());
            } else {
                assert(datagrams@.map_values(|datagram: serve::Datagram| datagram@)
                    =~= Seq::<DatagramView>::empty());
            }
        }
        datagrams
    }

    /// Nobody reads the track any more.
    pub fn readers_gone(&mut self)
        ensures
            final(self)@ == old(self)@.unread(),
    {
        if let Some(mut writer) = self.writer.take() {
            writer.readers_gone();
            self.writer = Some(writer);
        }
    }

    /// The application does not wait on the subscription any more.
    pub fn hang_up(&mut self)
        ensures
            final(self)@ == (RecvView { live: false, ..old(self)@ }),
    {
        self.state.hang_up();
    }

    /// Opens a subgroup of the track for a stream. The first one decides that
    /// the track is written by subgroups; a failure ends the writing.
    pub fn subgroup(&mut self, header: SubgroupHeader) -> (result: Result<
        SubgroupWriter,
        ServeError,
    >)
        ensures
            match subgroup_outcome(old(self)@.writer, header) {
                Ok(subgroup) => {
                    &&& result is Ok
                    &&& result->Ok_0.info == subgroup
                    &&& final(self)@ == (RecvView {
                        writer: Some(WriterView::Subgroups { live: true }),
                        ..old(self)@
                    })
                },
                Err(fault) => {
                    &&& result matches Err(error) && error@ == fault
                    &&& final(self)@ == (RecvView { writer: None, ..old(self)@ })
                },
            },
    {
        let writer = match self.writer.take() {
            Some(writer) => writer,
            None => {
                return Err(ServeError::Done);
            },
        };
        let subgroups = match writer {
            TrackWriterMode::Track(track) => track.subgroups()?,
            TrackWriterMode::Subgroups(subgroups) => subgroups,
            TrackWriterMode::Datagrams(_) => {
                return Err(ServeError::Mode);
            },
        };
        let subgroup = open_subgroup(header)?;
        let writer = subgroups.create(subgroup)?;
        self.writer = Some(TrackWriterMode::Subgroups(subgroups));
        Ok(writer)
    }

    /// Writes a datagram to the track. The first one decides that the track is
    /// written by datagrams; a track that is written by subgroups stays so.
    pub fn datagram(&mut self, datagram: Datagram) -> (result: Result<(), ServeError>)
        ensures
            match datagram_outcome(old(self)@.writer, datagram@) {
                Ok(written) => {
                    &&& result is Ok
                    &&& final(self)@ == (RecvView {
                        writer: Some(WriterView::Datagrams { live: true, written }),
                        ..old(self)@
                    })
                },
                Err((writer, fault)) => {
                    &&& result matches Err(error) && error@ == fault
                    &&& final(self)@ == (RecvView { writer, ..old(self)@ })
                },
            },
    {
        let writer = match self.writer.take() {
            Some(writer) => writer,
            None => {
                return Err(ServeError::Done);
            },
        };
        let mut datagrams = match writer {
            TrackWriterMode::Track(track) => track.datagrams()?,
            TrackWriterMode::Datagrams(datagrams) => datagrams,
            other => {
                self.writer = Some(other);
                return Err(ServeError::Mode);
            },
        };
        let ghost earlier = datagrams.written@.map_values(|written: serve::Datagram| written@);
        let ghost kind = track_datagram(datagram@);
        datagrams.write(into_track_datagram(datagram))?;
        proof {
            assert(datagrams.written@.map_values(|written: serve::Datagram| written@)
                =~= earlier.push(kind));
            if earlier.len() == 0 {
                assert(earlier.push(kind) =~= seq![kind]);
            }
        }
        self.writer = Some(TrackWriterMode::Datagrams(datagrams));
        Ok(())
    }
}

} // verus!
