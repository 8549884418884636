//! The device context: the handshake that obtains a graphics device and its
//! command queue.
//!
//! The handshake asks for an adapter, then for a device on that adapter. Both
//! requests are answered by the platform, so the caller makes them and
//! reports each answer to [`Handshake::advance`], which decides what happens
//! next. A request that fails is never made again.

use vstd::prelude::*;

verus! {

/// Which kind of adapter a selection prefers.
#[derive(Clone, Copy, Debug, PartialEq, Eq)]
pub enum PowerProfile {
    /// Whatever the backend prefers when it is not told.
    BackendDefault,
    LowPower,
    HighPerformance,
}

/// A request for a graphics adapter. It is built once, at startup, and not
/// kept.
#[derive(Clone, Copy, Debug, PartialEq, Eq)]
pub struct AdapterSelection {
    pub power: PowerProfile,
    /// The adapter must be able to present to the window's surface.
    pub surface_compatible: bool,
    /// Only an adapter that works on all hardware will do, which mostly
    /// means one that renders in software.
    pub force_fallback: bool,
}

impl AdapterSelection {
    /// The selection that the handshake makes: the backend's default power
    /// profile, compatible with the surface, no forced fallback.
    pub open spec fn standard() -> AdapterSelection {
        AdapterSelection {
            power: PowerProfile::BackendDefault,
            surface_compatible: true,
            force_fallback: false,
        }
    }
}

/// Where the renderer runs.
#[derive(Clone, Copy, Debug, PartialEq, Eq)]
pub enum Runtime {
    Native,
    /// A restricted host such as a browser, whose devices offer less.
    Restricted,
}

/// The resource limits that a device is asked for.
#[derive(Clone, Copy, Debug, PartialEq, Eq)]
pub enum LimitsProfile {
    /// The backend's full default limits.
    Full,
    /// Limits that restricted hosts can meet as well.
    DownlevelSafe,
}

/// A request for a device and its queue.
#[derive(Clone, Copy, Debug, PartialEq, Eq)]
pub struct DeviceRequest {
    /// The features that the device must have beyond the default set, one
    /// bit each.
    pub required_features: u64,
    pub limits: LimitsProfile,
}

impl DeviceRequest {
    /// The request that the handshake makes on `runtime`: no feature beyond
    /// the default set, and limits that the runtime can meet.
    pub open spec fn standard(runtime: Runtime) -> DeviceRequest {
        DeviceRequest {
            required_features: 0,
            limits: match runtime {
                Runtime::Native => LimitsProfile::Full,
                Runtime::Restricted => LimitsProfile::DownlevelSafe,
            },
        }
    }
}

/// Why the handshake failed. Either failure is final.
#[derive(Clone, Copy, Debug, PartialEq, Eq)]
pub enum InitError {
    /// No adapter can present to the surface.
    NoAdapter,
    /// The adapter did not grant a device.
    NoDevice,
}

/// The device and queue of a completed handshake. The two come out of one
/// grant, so they always belong to the same adapter. A value of this type
/// exists only after [`Handshake::advance`] has seen that grant:
/// [`Handshake::into_context`] gives it out.
#[derive(Debug, PartialEq, Eq)]
pub struct DeviceContext {
    granted: DeviceRequest,
}

impl DeviceContext {
    /// The request that the device was granted for.
    pub closed spec fn request(self) -> DeviceRequest {
        self.granted
    }

    pub fn granted(&self) -> (request: DeviceRequest)
        ensures
            request == self.request(),
    {
        self.granted
    }
}

/// How far the handshake has come.
#[derive(Clone, Copy, Debug, PartialEq, Eq)]
pub enum Phase {
    AwaitingAdapter,
    AwaitingDevice,
    Ready,
    Failed(InitError),
}

/// An answer of the platform to a request of the handshake.
#[derive(Clone, Copy, Debug, PartialEq, Eq)]
pub enum Reply {
    AdapterFound,
    AdapterMissing,
    DeviceGranted,
    DeviceRefused,
}

/// What the caller does after it reported a reply.
#[derive(Clone, Copy, Debug, PartialEq, Eq)]
pub enum Step {
    /// Ask the adapter that was found for a device.
    RequestDevice(DeviceRequest),
    /// The handshake is complete: [`Handshake::into_context`] gives out the
    /// device context.
    Ready,
    /// The handshake has failed and the process cannot go on.
    Abort(InitError),
    /// The reply answers no open request. Nothing changes.
    Ignore,
}

/// The mathematical content of a [`Handshake`].
pub struct HandshakeModel {
    pub phase: Phase,
    pub runtime: Runtime,
}

impl HandshakeModel {
    pub open spec fn start(runtime: Runtime) -> HandshakeModel {
        HandshakeModel { phase: Phase::AwaitingAdapter, runtime }
    }

    /// No request is open and none will be made.
    pub open spec fn settled(self) -> bool {
        self.phase is Ready || self.phase is Failed
    }

    /// The handshake after `reply`.
    pub open spec fn next(self, reply: Reply) -> HandshakeModel {
        let phase = match (self.phase, reply) {
            (Phase::AwaitingAdapter, Reply::AdapterFound) => Phase::AwaitingDevice,
            (Phase::AwaitingAdapter, Reply::AdapterMissing) => Phase::Failed(InitError::NoAdapter),
            (Phase::AwaitingDevice, Reply::DeviceGranted) => Phase::Ready,
            (Phase::AwaitingDevice, Reply::DeviceRefused) => Phase::Failed(InitError::NoDevice),
            _ => self.phase,
        };
        HandshakeModel { phase, runtime: self.runtime }
    }

    /// What the caller is told after `reply`.
    pub open spec fn answer(self, reply: Reply) -> Step {
        match (self.phase, reply) {
            (Phase::AwaitingAdapter, Reply::AdapterFound) => Step::RequestDevice(
                DeviceRequest::standard(self.runtime),
            ),
            (Phase::AwaitingAdapter, Reply::AdapterMissing) => Step::Abort(InitError::NoAdapter),
            (Phase::AwaitingDevice, Reply::DeviceGranted) => Step::Ready,
            (Phase::AwaitingDevice, Reply::DeviceRefused) => Step::Abort(InitError::NoDevice),
            _ => Step::Ignore,
        }
    }

    /// The handshake after a run of replies, oldest first.
    pub open spec fn after(self, replies: Seq<Reply>) -> HandshakeModel
        decreases replies.len(),
    {
        if replies.len() == 0 {
            self
        } else {
            self.after(replies.drop_last()).next(replies.last())
        }
    }

    /// How many devices were requested over a run of replies.
    pub open spec fn device_requests(self, replies: Seq<Reply>) -> nat
        decreases replies.len(),
    {
        if replies.len() == 0 {
            0
        } else {
            let before = self.after(replies.drop_last());
            let asked: nat = if before.answer(replies.last()) is RequestDevice {
                1
            } else {
                0
            };
            self.device_requests(replies.drop_last()) + asked
        }
    }
}

/// The handshake for one device.
#[derive(Debug, PartialEq, Eq)]
pub struct Handshake {
    phase: Phase,
    runtime: Runtime,
}

impl View for Handshake {
    type V = HandshakeModel;

    closed spec fn view(&self) -> HandshakeModel {
        HandshakeModel { phase: self.phase, runtime: self.runtime }
    }
}

impl Handshake {
    /// Opens the handshake. The caller asks the platform for an adapter that
    /// meets the returned selection and reports the answer to
    /// [`Handshake::advance`].
    pub fn begin(runtime: Runtime) -> (opened: (Handshake, AdapterSelection))
        ensures
            opened.0@ == HandshakeModel::start(runtime),
            opened.1 == AdapterSelection::standard(),
    {
        let selection = AdapterSelection {
            power: PowerProfile::BackendDefault,
            surface_compatible: true,
            force_fallback: false,
        };
        (Handshake { phase: Phase::AwaitingAdapter, runtime }, selection)
    }

    /// Takes an answer of the platform and says what to do next.
    pub fn advance(&mut self, reply: Reply) -> (step: Step)
        ensures
            final(self)@ == old(self)@.next(reply),
            step == old(self)@.answer(reply),
    {
        match (self.phase, reply) {
            (Phase::AwaitingAdapter, Reply::AdapterFound) => {
                self.phase = Phase::AwaitingDevice;
                Step::RequestDevice(Self::device_request(self.runtime))
            },
            (Phase::AwaitingAdapter, Reply::AdapterMissing) => {
                self.phase = Phase::Failed(InitError::NoAdapter);
                Step::Abort(InitError::NoAdapter)
            },
            (Phase::AwaitingDevice, Reply::DeviceGranted) => {
                self.phase = Phase::Ready;
                Step::Ready
            },
            (Phase::AwaitingDevice, Reply::DeviceRefused) => {
                self.phase = Phase::Failed(InitError::NoDevice);
                Step::Abort(InitError::NoDevice)
            },
            _ => Step::Ignore,
        }
    }

    /// The device request that the handshake makes on `runtime`.
    pub fn device_request(runtime: Runtime) -> (request: DeviceRequest)
        ensures
            request == DeviceRequest::standard(runtime),
    {
        let limits = match runtime {
            Runtime::Native => LimitsProfile::Full,
            Runtime::Restricted => LimitsProfile::DownlevelSafe,
        };
        DeviceRequest { required_features: 0, limits }
    }

    /// Ends the handshake and gives out the device context, where the
    /// handshake is complete and nowhere else.
    pub fn into_context(self) -> (context: Option<DeviceContext>)
        ensures
            context is Some <==> self@.phase is Ready,
            context matches Some(device) ==> device.request() == DeviceRequest::standard(
                self@.runtime,
            ),
    {
        match self.phase {
            Phase::Ready => Some(DeviceContext { granted: Self::device_request(self.runtime) }),
            _ => None,
        }
    }

    pub fn phase(&self) -> (phase: Phase)
        ensures
            phase == self@.phase,
    {
        self.phase
    }
}

/// Once the handshake has completed or failed, every further reply is
/// ignored: a failed request is not made again, and a device is granted
/// once.
pub proof fn lemma_settled_is_final(handshake: HandshakeModel, reply: Reply)
    requires
        handshake.settled(),
    ensures
        handshake.next(reply) == handshake,
        handshake.answer(reply) is Ignore,
{
}

/// A settled handshake stays as it is over any run of replies.
pub proof fn lemma_settled_stays(handshake: HandshakeModel, replies: Seq<Reply>)
    requires
        handshake.settled(),
    ensures
        handshake.after(replies) == handshake,
    decreases replies.len(),
{
    if replies.len() > 0 {
        lemma_settled_stays(handshake, replies.drop_last());
    }
}

/// The handshake completes exactly when an adapter was found and the device
/// was then granted, and it fails with the first request that is denied.
pub proof fn lemma_two_replies_decide(runtime: Runtime, first: Reply, second: Reply)
    ensures
        HandshakeModel::start(runtime).next(first).next(second).phase is Ready <==> first
            == Reply::AdapterFound && second == Reply::DeviceGranted,
        first == Reply::AdapterMissing ==> HandshakeModel::start(runtime).next(first).phase
            == Phase::Failed(InitError::NoAdapter),
        first == Reply::AdapterFound && second == Reply::DeviceRefused ==> HandshakeModel::start(
            runtime,
        ).next(first).next(second).phase == Phase::Failed(InitError::NoDevice),
{
}

/// Over any run of replies a device is requested at most once, and not at
/// all while the adapter is still awaited.
pub proof fn lemma_device_requested_once(runtime: Runtime, replies: Seq<Reply>)
    ensures
        HandshakeModel::start(runtime).device_requests(replies) <= 1,
        HandshakeModel::start(runtime).after(replies).phase is AwaitingAdapter
            ==> HandshakeModel::start(runtime).device_requests(replies) == 0,
    decreases replies.len(),
{
    if replies.len() > 0 {
        lemma_device_requested_once(runtime, replies.drop_last());
    }
}

} // verus!
