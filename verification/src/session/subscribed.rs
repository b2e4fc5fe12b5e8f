//! Subscriptions that the peer made, and tracks that this endpoint offered:
//! how they are served.

use vstd::prelude::*;

use super::error::{SessionError, SessionFault};
use super::subscribe::{info_of, DeliveryFilter, SubscribeInfo};
use super::subscribe_recv::{closed_view, wait_view};
use crate::coding::kvp::{with_value, KeyValuePairs, Pair, ValueView};
use crate::coding::{Location, ReasonPhrase};
use crate::data::{StreamHeaderType, SubgroupHeader, SubgroupIdMode};
use crate::message;
use crate::message::parameter_type::LARGEST_OBJECT;
use crate::message::parameters::forward_of;
use crate::message::{PublishDoneCode, RequestErrorCode};
use crate::serve::error::ServeFault;
use crate::serve::track::FullName;
use crate::serve::{ServeError, Subgroup};
use crate::watch::{Progress, State};

verus! {

/// How far serving a subscription has come.
#[derive(Debug)]
pub struct SubscribedState {
    pub largest_location: Option<Location>,
    pub stream_count: u64,
    pub accepted: bool,
    pub forward: bool,
    pub peer_rejected: bool,
    pub closed: Result<(), ServeError>,
}

/// The model of a [`SubscribedState`].
pub struct ServingView {
    pub largest_location: Option<Location>,
    pub stream_count: u64,
    pub accepted: bool,
    pub forward: bool,
    pub peer_rejected: bool,
    pub closed: Option<ServeFault>,
}

impl View for SubscribedState {
    type V = ServingView;

    open spec fn view(&self) -> ServingView {
        ServingView {
            largest_location: self.largest_location,
            stream_count: self.stream_count,
            accepted: self.accepted,
            forward: self.forward,
            peer_rejected: self.peer_rejected,
            closed: closed_view(self.closed),
        }
    }
}

impl ServingView {
    /// A subscription that was just made.
    pub open spec fn fresh(forward: bool) -> ServingView {
        ServingView {
            largest_location: None,
            stream_count: 0,
            accepted: false,
            forward,
            peer_rejected: false,
            closed: None,
        }
    }

    /// One more stream was opened.
    pub open spec fn with_stream(self) -> ServingView {
        ServingView {
            stream_count: if self.stream_count < u64::MAX {
                (self.stream_count + 1) as u64
            } else {
                u64::MAX
            },
            ..self
        }
    }

    /// An object was sent. The largest location is kept only for a track that
    /// had one.
    pub open spec fn with_object(self, location: Location) -> ServingView {
        match self.largest_location {
            Some(largest) => if largest.before(location) {
                ServingView { largest_location: Some(location), ..self }
            } else {
                self
            },
            None => self,
        }
    }
}

/// The largest location never goes back.
pub proof fn largest_location_grows(serving: ServingView, location: Location)
    requires
        serving.largest_location is Some,
    ensures
        serving.with_object(location).largest_location is Some,
        !serving.with_object(location).largest_location->0.before(serving.largest_location->0),
        !serving.with_object(location).largest_location->0.before(location),
{
}

impl Default for SubscribedState {
    fn default() -> (state: Self)
        ensures
            state@ == ServingView::fresh(true),
    {
        SubscribedState {
            largest_location: None,
            stream_count: 0,
            accepted: false,
            forward: true,
            peer_rejected: false,
            closed: Ok(()),
        }
    }
}

impl SubscribedState {
    pub fn record_stream_opened(&mut self)
        ensures
            final(self)@ == old(self)@.with_stream(),
    {
        self.stream_count = self.stream_count.saturating_add(1);
    }

    pub fn update_largest_location(&mut self, group_id: u64, object_id: u64) -> (result: Result<
        (),
        ServeError,
    >)
        ensures
            result is Ok,
            final(self)@ == old(self)@.with_object(Location { group_id, object_id }),
    {
        if let Some(current) = self.largest_location {
            let update = Location::new(group_id, object_id);
            if current.is_before(&update) {
                self.largest_location = Some(update);
            }
        }
        Ok(())
    }
}

impl Default for State<SubscribedState> {
    fn default() -> (state: Self)
        ensures
            state.live,
            state.value@ == ServingView::fresh(true),
    {
        State::new(SubscribedState::default())
    }
}

impl State<SubscribedState> {
    /// Whether the wait until objects are forwarded is over.
    pub open spec fn forwarding(&self) -> Progress<Option<ServeFault>> {
        match self.value@.closed {
            Some(error) => Progress::Ready(Some(error)),
            None => if self.value@.forward {
                Progress::Ready(None)
            } else if self.live {
                Progress::Pending
            } else {
                Progress::Ready(Some(ServeFault::Done))
            },
        }
    }

    pub fn poll_forward(&self) -> (progress: Progress<Result<(), ServeError>>)
        ensures
            wait_view(progress) == self.forwarding(),
    {
        match &self.value.closed {
            Err(error) => Progress::Ready(Err(error.clone())),
            Ok(()) => if self.value.forward {
                Progress::Ready(Ok(()))
            } else if self.live {
                Progress::Pending
            } else {
                Progress::Ready(Err(ServeError::Done))
            },
        }
    }

    /// Whether the wait for the peer's acceptance is over.
    pub fn poll_publish_ok(&self) -> (progress: Progress<Result<(), ServeError>>)
        ensures
            wait_view(progress) == (match self.value@.closed {
                Some(error) => Progress::Ready(Some(error)),
                None => if self.value@.accepted {
                    Progress::Ready(None)
                } else if self.live {
                    Progress::Pending
                } else {
                    Progress::Ready(Some(ServeFault::Done))
                },
            }),
    {
        match &self.value.closed {
            Err(error) => Progress::Ready(Err(error.clone())),
            Ok(()) => if self.value.accepted {
                Progress::Ready(Ok(()))
            } else if self.live {
                Progress::Pending
            } else {
                Progress::Ready(Err(ServeError::Done))
            },
        }
    }

    /// Whether the wait for the end of the subscription is over.
    pub fn poll_serving_closed(&self) -> (progress: Progress<Result<(), ServeError>>)
        ensures
            wait_view(progress) == (match self.value@.closed {
                Some(error) => Progress::Ready(Some(error)),
                None => if self.live {
                    Progress::Pending
                } else {
                    Progress::Ready(None)
                },
            }),
    {
        match &self.value.closed {
            Err(error) => Progress::Ready(Err(error.clone())),
            Ok(()) => if self.live {
                Progress::Pending
            } else {
                Progress::Ready(Ok(()))
            },
        }
    }
}

/// Who started a subscription.
#[derive(Clone, Copy, Debug, PartialEq, Eq, Structural)]
pub enum SubscriptionInitiator {
    Subscriber,
    Publisher,
}

/// A subscription that is being served.
#[derive(Debug)]
pub struct Subscribed {
    /// The track and what the subscriber asked for.
    pub info: SubscribeInfo,
    /// Whether the subscription was accepted. It decides how it is ended.
    pub ok: bool,
    pub initiator: SubscriptionInitiator,
}

/// How a subscription is ended: a message to the peer, and what is forgotten.
#[derive(Debug)]
pub enum Farewell {
    /// The peer refused the track: nothing is sent.
    DropPublished(u64),
    /// The subscription was served.
    Done(message::PublishDone),
    /// The subscription was never accepted.
    Refused(message::RequestError),
}

/// The status code that ends a subscription.
pub open spec fn done_code(error: ServeFault) -> u64 {
    match error {
        ServeFault::Done => PublishDoneCode::TrackEnded.spec_code(),
        ServeFault::Closed(code) => code,
        _ => PublishDoneCode::InternalError.spec_code(),
    }
}

/// The error code that refuses a subscription.
pub open spec fn refusal_code(error: ServeFault) -> u64 {
    match error {
        ServeFault::Closed(code) => code,
        ServeFault::NotFound | ServeFault::NotFoundWithId(
            _,
            _,
        ) => RequestErrorCode::DoesNotExist.spec_code(),
        ServeFault::Duplicate
        | ServeFault::Cancel
        | ServeFault::Done => RequestErrorCode::Uninterested.spec_code(),
        ServeFault::Mode
        | ServeFault::Size
        | ServeFault::NotImplemented(_)
        | ServeFault::NotImplementedWithId(_, _) => RequestErrorCode::NotSupported.spec_code(),
        ServeFault::Internal(_) | ServeFault::InternalWithId(
            _,
            _,
        ) => RequestErrorCode::InternalError.spec_code(),
    }
}

/// The parameters of an acceptance: the largest object, if there is one.
pub open spec fn acceptance_params(largest: Option<Location>) -> Result<Seq<Pair>, SessionFault> {
    match largest {
        None => Ok(Seq::empty()),
        Some(location) => match location.encoding() {
            Ok(bytes) => Ok(with_value(Seq::empty(), LARGEST_OBJECT, ValueView::Bytes(bytes))),
            Err(_) => Err(SessionFault::Internal),
        },
    }
}

impl Subscribed {
    /// The type of the streams on which a subscription is served.
    pub fn subgroup_header_type(first_object: bool) -> (header_type: StreamHeaderType)
        ensures
            header_type == (StreamHeaderType::Subgroup {
                extension_headers: true,
                subgroup_id: SubgroupIdMode::Explicit,
                end_of_group: false,
                default_priority: false,
                first_object,
            }),
    {
        StreamHeaderType::subgroup(true, SubgroupIdMode::Explicit, false, false, first_object)
    }

    /// A subscription that a SUBSCRIBE of the peer makes.
    pub fn new(msg: &message::Subscribe) -> (result: Result<(Self, SubscribedRecv), SessionError>)
        ensures
            match info_of(
                msg.id,
                FullName { namespace: msg.track_namespace@, name: msg.track_name@ },
                msg.params@,
            ) {
                Ok(info) => {
                    &&& result is Ok
                    &&& result->Ok_0.0.info@ == info
                    &&& !result->Ok_0.0.ok
                    &&& result->Ok_0.0.initiator == SubscriptionInitiator::Subscriber
                    &&& result->Ok_0.1.state.live
                    &&& result->Ok_0.1.state.value@ == ServingView::fresh(info.forward)
                },
                Err(fault) => result matches Err(error) && error@ == fault,
            },
    {
        let info = SubscribeInfo::new_from_subscribe(msg)?;
        let mut initial = SubscribedState::default();
        initial.forward = info.forward;
        Ok(
            (
                Subscribed { info, ok: false, initiator: SubscriptionInitiator::Subscriber },
                SubscribedRecv { state: State::new(initial) },
            ),
        )
    }

    /// The data-plane state for a PUBLISH of this endpoint.
    pub fn new_published(msg: &message::Publish) -> (result: Result<
        (Self, SubscribedRecv),
        SessionError,
    >)
        ensures
            match info_of(
                msg.id,
                FullName { namespace: msg.track_namespace@, name: msg.track_name@ },
                msg.params@,
            ) {
                Ok(info) => {
                    &&& result is Ok
                    &&& result->Ok_0.0.info@ == info
                    &&& !result->Ok_0.0.ok
                    &&& result->Ok_0.0.initiator == SubscriptionInitiator::Publisher
                    &&& result->Ok_0.1.state.live
                    &&& result->Ok_0.1.state.value@ == ServingView::fresh(info.forward)
                },
                Err(fault) => result matches Err(error) && error@ == fault,
            },
    {
        let synthetic = message::Subscribe {
            id: msg.id,
            track_namespace: msg.track_namespace.clone(),
            track_name: msg.track_name.clone(),
            params: msg.params.clone(),
        };
        let info = SubscribeInfo::new_from_subscribe(&synthetic)?;
        let mut initial = SubscribedState::default();
        initial.forward = info.forward;
        Ok(
            (
                Subscribed { info, ok: false, initiator: SubscriptionInitiator::Publisher },
                SubscribedRecv { state: State::new(initial) },
            ),
        )
    }

    /// Accepts a subscription: records the largest object, makes the message
    /// that names it and the filter by which objects are then sent. FORWARD
    /// can change while the subscription is served, so it is not part of the
    /// filter.
    pub fn accept(&mut self, state: &mut State<SubscribedState>, largest_location: Option<Location>) -> (result:
        Result<(message::SubscribeOk, DeliveryFilter), SessionError>)
        ensures
            final(self).info@ == old(self).info@,
            final(self).initiator == old(self).initiator,
            final(state).live == old(state).live,
            final(state).value@ == (if old(state).live {
                ServingView { largest_location, ..old(state).value@ }
            } else {
                old(state).value@
            }),
            if !old(state).live {
                &&& result matches Err(error) && error@ == SessionFault::Serve(ServeFault::Cancel)
                &&& final(self).ok == old(self).ok
            } else {
                match acceptance_params(largest_location) {
                    Ok(params) => {
                        &&& result is Ok
                        &&& final(self).ok
                        &&& result->Ok_0.0.id == old(self).info@.id
                        &&& result->Ok_0.0.track_alias == old(self).info@.id
                        &&& result->Ok_0.0.params@ == params
                        &&& result->Ok_0.0.track_extensions@.len() == 0
                        &&& result->Ok_0.1 == (DeliveryFilter {
                            forward: true,
                            ..old(self).info@.delivery(largest_location)
                        })
                    },
                    Err(fault) => {
                        &&& result matches Err(error) && error@ == fault
                        &&& final(self).ok == old(self).ok
                    },
                }
            },
    {
        if !state.live {
            return Err(SessionError::Serve(ServeError::Cancel));
        }
        state.value.largest_location = largest_location;
        let mut params = KeyValuePairs::default();
        if let Some(largest) = largest_location {
            match params.set_largest_object(largest) {
                Ok(()) => {},
                Err(_) => {
                    return Err(SessionError::Internal);
                },
            }
        }
        self.ok = true;
        let mut filter = self.info.delivery_filter(largest_location);
        filter.forward = true;
        let msg = message::SubscribeOk {
            id: self.info.id,
            track_alias: self.info.id,
            params,
            track_extensions: Default::default(),
        };
        Ok((msg, filter))
    }

    /// Starts serving a track that the peer accepted: everything is sent from
    /// then on.
    pub fn accept_published(
        &mut self,
        state: &mut State<SubscribedState>,
        largest_location: Option<Location>,
    ) -> (result: Result<DeliveryFilter, SessionError>)
        ensures
            final(self).info@ == old(self).info@,
            final(self).initiator == old(self).initiator,
            final(self).ok,
            final(state).live == old(state).live,
            if old(state).live {
                &&& result == Ok::<DeliveryFilter, SessionError>(
                    DeliveryFilter { forward: true, start_location: None, end_group_id: None },
                )
                &&& final(state).value@ == (ServingView {
                    largest_location,
                    ..old(state).value@
                })
            } else {
                &&& result matches Err(error) && error@ == SessionFault::Serve(ServeFault::Cancel)
                &&& final(state).value@ == old(state).value@
            },
    {
        self.ok = true;
        if !state.live {
            return Err(SessionError::Serve(ServeError::Cancel));
        }
        state.value.largest_location = largest_location;
        Ok(DeliveryFilter { forward: true, start_location: None, end_group_id: None })
    }

    /// Ends the subscription with an error, unless it ended before.
    pub fn close_state(state: &mut State<SubscribedState>, error: ServeError) -> (result: Result<
        (),
        ServeError,
    >)
        ensures
            final(state).live == old(state).live,
            match old(state).value@.closed {
                Some(earlier) => {
                    &&& result matches Err(fault) && fault@ == earlier
                    &&& final(state).value@ == old(state).value@
                },
                None => if old(state).live {
                    &&& result is Ok
                    &&& final(state).value@ == (ServingView {
                        closed: Some(error@),
                        ..old(state).value@
                    })
                } else {
                    &&& result matches Err(fault) && fault@ == ServeFault::Done
                    &&& final(state).value@ == old(state).value@
                },
            },
    {
        match &state.value.closed {
            Ok(()) => {},
            Err(earlier) => {
                return Err(earlier.clone());
            },
        }
        if !state.live {
            return Err(ServeError::Done);
        }
        state.value.closed = Err(error);
        Ok(())
    }

    /// Ends the serving of a track. A failure ends the subscription with its
    /// cause, unless that ended before.
    pub fn finish_serving(
        state: &mut State<SubscribedState>,
        result: Result<(), SessionError>,
    ) -> (outcome: Result<(), SessionError>)
        ensures
            final(state).live == old(state).live,
            match result {
                Ok(()) => outcome is Ok && final(state).value@ == old(state).value@,
                Err(cause) => match old(state).value@.closed {
                    Some(earlier) => {
                        &&& outcome matches Err(error) && error@ == SessionFault::Serve(earlier)
                        &&& final(state).value@ == old(state).value@
                    },
                    None => if old(state).live {
                        &&& outcome matches Err(error) && error@ == cause@
                        &&& final(state).value@ == (ServingView {
                            closed: Some(cause@.as_serve()),
                            ..old(state).value@
                        })
                    } else {
                        &&& outcome matches Err(error) && error@ == SessionFault::Serve(
                            ServeFault::Done,
                        )
                        &&& final(state).value@ == old(state).value@
                    },
                },
            },
    {
        match result {
            Ok(()) => Ok(()),
            Err(cause) => match Subscribed::close_state(state, cause.clone().into_serve()) {
                Ok(()) => Err(cause),
                Err(error) => Err(SessionError::Serve(error)),
            },
        }
    }

    /// Cancels the request: the peer is treated as having refused. The caller
    /// resets the request stream.
    pub fn cancel_request_stream(state: &mut State<SubscribedState>)
        ensures
            final(state).live == old(state).live,
            final(state).value@ == (if old(state).live {
                ServingView {
                    peer_rejected: true,
                    closed: Some(ServeFault::Cancel),
                    ..old(state).value@
                }
            } else {
                old(state).value@
            }),
    {
        if state.live {
            state.value.peer_rejected = true;
            state.value.closed = Err(ServeError::Cancel);
        }
    }

    pub fn publish_done_code(error: &ServeError) -> (code: u64)
        ensures
            code == done_code(error@),
    {
        match error {
            ServeError::Done => PublishDoneCode::TrackEnded.code(),
            ServeError::Closed(code) => *code,
            _ => PublishDoneCode::InternalError.code(),
        }
    }

    pub fn request_error_code(error: &ServeError) -> (code: u64)
        ensures
            code == refusal_code(error@),
    {
        match error {
            ServeError::Closed(code) => *code,
            ServeError::NotFound | ServeError::NotFoundWithId(
                _,
                _,
            ) => RequestErrorCode::DoesNotExist.code(),
            // Several subscriptions of one track are allowed; refusing one is
            // the application's own choice.
            ServeError::Duplicate => RequestErrorCode::Uninterested.code(),
            ServeError::Cancel | ServeError::Done => RequestErrorCode::Uninterested.code(),
            ServeError::Mode
            | ServeError::Size
            | ServeError::NotImplemented(_)
            | ServeError::NotImplementedWithId(_, _) => RequestErrorCode::NotSupported.code(),
            ServeError::Internal(_) | ServeError::InternalWithId(
                _,
                _,
            ) => RequestErrorCode::InternalError.code(),
        }
    }

    /// Whether a subgroup stopped being served for no fault of its own.
    pub fn is_expected_serve_shutdown(error: &SessionError) -> (expected: bool)
        ensures
            expected == (error@ == SessionFault::Serve(ServeFault::Cancel) || error@
                == SessionFault::Serve(ServeFault::Done)),
    {
        match error {
            SessionError::Serve(ServeError::Cancel) | SessionError::Serve(ServeError::Done) => true,
            _ => false,
        }
    }

    /// How the subscription is ended once nobody serves it any more: a track
    /// that the peer refused is forgotten in silence, a subscription that was
    /// accepted or that this endpoint started is done, any other is refused.
    pub fn farewell(&self, state: &State<SubscribedState>) -> (farewell: Farewell)
        ensures
            ({
                let cause = match state.value@.closed {
                    Some(error) => error,
                    None => ServeFault::Done,
                };
                if self.initiator == SubscriptionInitiator::Publisher
                    && state.value@.peer_rejected {
                    farewell == Farewell::DropPublished(self.info@.id)
                } else if self.initiator == SubscriptionInitiator::Publisher || self.ok {
                    &&& farewell matches Farewell::Done(msg)
                    &&& msg.id == self.info@.id
                    &&& msg.status_code == done_code(cause)
                    &&& msg.stream_count == state.value@.stream_count
                    &&& msg.reason.0@ == cause.message()
                } else {
                    &&& farewell matches Farewell::Refused(msg)
                    &&& msg.id == self.info@.id
                    &&& msg.error_code == refusal_code(cause)
                    &&& msg.retry_interval == 0
                    &&& msg.reason.0@ == cause.message()
                    &&& msg.redirect is None
                }
            }),
    {
        let cause = match &state.value.closed {
            Ok(()) => ServeError::Done,
            Err(error) => error.clone(),
        };
        if self.initiator == SubscriptionInitiator::Publisher && state.value.peer_rejected {
            return Farewell::DropPublished(self.info.id);
        }
        if self.initiator == SubscriptionInitiator::Publisher || self.ok {
            Farewell::Done(
                message::PublishDone {
                    id: self.info.id,
                    status_code: Subscribed::publish_done_code(&cause),
                    stream_count: state.value.stream_count,
                    reason: ReasonPhrase(cause.message()),
                },
            )
        } else {
            Farewell::Refused(
                message::RequestError {
                    id: self.info.id,
                    error_code: Subscribed::request_error_code(&cause),
                    retry_interval: 0,
                    reason: ReasonPhrase(cause.message()),
                    redirect: None,
                },
            )
        }
    }

    /// The header of the stream on which a subgroup is sent.
    pub fn subgroup_header(&self, subgroup: &Subgroup) -> (header: SubgroupHeader)
        ensures
            header == (SubgroupHeader {
                header_type: StreamHeaderType::Subgroup {
                    extension_headers: true,
                    subgroup_id: SubgroupIdMode::Explicit,
                    end_of_group: false,
                    default_priority: false,
                    first_object: subgroup.first_object,
                },
                track_alias: self.info@.id,
                group_id: subgroup.group_id,
                subgroup_id: Some(subgroup.subgroup_id),
                publisher_priority: subgroup.priority,
            }),
    {
        SubgroupHeader {
            header_type: Subscribed::subgroup_header_type(subgroup.first_object),
            track_alias: self.info.id,
            group_id: subgroup.group_id,
            subgroup_id: Some(subgroup.subgroup_id),
            publisher_priority: subgroup.priority,
        }
    }
}

/// The side of a subscription that takes the peer's messages.
#[derive(Debug)]
pub struct SubscribedRecv {
    pub state: State<SubscribedState>,
}

impl SubscribedRecv {
    /// The peer accepted the track that was offered, perhaps with a FORWARD of
    /// its own.
    pub fn recv_publish_ok(&mut self, msg: &message::RequestOk) -> (result: Result<(), ServeError>)
        ensures
            final(self).state.live == old(self).state.live,
            match forward_of(msg.params@) {
                Ok(forward) => {
                    &&& result is Ok
                    &&& final(self).state.value@ == (if old(self).state.live {
                        ServingView {
                            accepted: true,
                            forward: match forward {
                                Some(forward) => forward,
                                None => old(self).state.value@.forward,
                            },
                            ..old(self).state.value@
                        }
                    } else {
                        old(self).state.value@
                    })
                },
                Err(_) => {
                    &&& result matches Err(error) && error@ == ServeFault::InternalWithId(
                        0,
                        "invalid FORWARD in PUBLISH_OK"@,
                    )
                    &&& final(self).state.value@ == old(self).state.value@
                },
            },
    {
        let forward = match msg.params.forward() {
            Ok(forward) => forward,
            Err(_) => {
                return Err(ServeError::internal_ctx("invalid FORWARD in PUBLISH_OK"));
            },
        };
        if self.state.live {
            self.state.value.accepted = true;
            if let Some(forward) = forward {
                self.state.value.forward = forward;
            }
        }
        Ok(())
    }

    /// The peer refused or cancelled.
    pub fn recv_error(&mut self, error: ServeError) -> (result: Result<(), ServeError>)
        ensures
            result is Ok,
            final(self).state.live == old(self).state.live,
            final(self).state.value@ == (if old(self).state.live {
                ServingView {
                    peer_rejected: true,
                    closed: Some(error@),
                    ..old(self).state.value@
                }
            } else {
                old(self).state.value@
            }),
    {
        if self.state.live {
            self.state.value.peer_rejected = true;
            self.state.value.closed = Err(error);
        }
        Ok(())
    }

    /// An update of the request failed, which ends the subscription.
    pub fn recv_update_failed(&mut self) -> (result: Result<(), ServeError>)
        ensures
            final(self).state.live == old(self).state.live,
            match old(self).state.value@.closed {
                Some(earlier) => {
                    &&& result matches Err(error) && error@ == earlier
                    &&& final(self).state.value@ == old(self).state.value@
                },
                None => {
                    &&& result is Ok
                    &&& final(self).state.value@ == (if old(self).state.live {
                        ServingView {
                            closed: Some(
                                ServeFault::Closed(PublishDoneCode::UpdateFailed.spec_code()),
                            ),
                            ..old(self).state.value@
                        }
                    } else {
                        old(self).state.value@
                    })
                },
            },
    {
        match &self.state.value.closed {
            Ok(()) => {},
            Err(earlier) => {
                return Err(earlier.clone());
            },
        }
        if self.state.live {
            self.state.value.closed = Err(
                ServeError::Closed(PublishDoneCode::UpdateFailed.code()),
            );
        }
        Ok(())
    }

    /// The peer changed FORWARD.
    pub fn recv_forward_update(&mut self, forward: bool) -> (result: Result<(), ServeError>)
        ensures
            final(self).state.live == old(self).state.live,
            if !old(self).state.live {
                &&& result matches Err(error) && error@ == ServeFault::Done
                &&& final(self).state.value@ == old(self).state.value@
            } else {
                match old(self).state.value@.closed {
                    Some(earlier) => {
                        &&& result matches Err(error) && error@ == earlier
                        &&& final(self).state.value@ == old(self).state.value@
                    },
                    None => {
                        &&& result is Ok
                        &&& final(self).state.value@ == (ServingView {
                            forward,
                            ..old(self).state.value@
                        })
                    },
                }
            },
    {
        if !self.state.live {
            return Err(ServeError::Done);
        }
        match &self.state.value.closed {
            Ok(()) => {},
            Err(earlier) => {
                return Err(earlier.clone());
            },
        }
        self.state.value.forward = forward;
        Ok(())
    }
}

} // verus!
