//! The error bridge.
//!
//! The host engine reports fatal conditions with an abrupt non-local
//! control transfer that skips the embedding runtime's destructors; the
//! embedding runtime propagates errors by structured unwinding that the
//! host does not understand.  Every boundary crossing therefore performs
//! exactly one translation: an intercepted host signal becomes a
//! structured error, and a structured error about to escape into host
//! code becomes the host's signal again, replaying the captured
//! diagnostic payload bit for bit.

use vstd::prelude::*;

verus! {

/// Code the model host attaches to a failed allocation request.
pub const ERRCODE_OUT_OF_MEMORY: u32 = 53200;

/// Code attached to the signal produced when a structured error that did
/// not originate as a host signal must cross back into host code.
pub const ERRCODE_PROGRAM_LIMIT_EXCEEDED: u32 = 54000;

/// Diagnostic payload captured from the host's abrupt error signal:
/// error code, primary message, optional detail and hint lines, and the
/// source location that raised it.
#[derive(Debug, PartialEq, Eq)]
pub struct SignalPayload {
    pub code: u32,
    pub message: String,
    pub detail: Option<String>,
    pub hint: Option<String>,
    pub location: String,
}

impl View for SignalPayload {
    type V = (u32, Seq<char>, Option<Seq<char>>, Option<Seq<char>>, Seq<char>);

    open spec fn view(&self) -> Self::V {
        (
            self.code,
            self.message@,
            match self.detail {
                Some(d) => Some(d@),
                None => None,
            },
            match self.hint {
                Some(h) => Some(h@),
                None => None,
            },
            self.location@,
        )
    }
}

/// A structured error of the embedding runtime.
///
/// `HostSignaled` and `EncodingOverflow` are recoverable by a catching
/// boundary; `InvariantViolation` marks caller misuse of an interface
/// with a stated obligation and is never recovered, only reported.
#[derive(Debug, PartialEq, Eq)]
pub enum BridgeError {
    /// The host raised its abrupt condition; carries the full payload.
    HostSignaled(SignalPayload),
    /// A value's encoded length exceeds what the host's binary format
    /// can represent.
    EncodingOverflow,
    /// An internal precondition was violated by caller misuse.
    InvariantViolation,
}

/// The state of one boundary crossing.
#[derive(Clone, Copy, Debug, PartialEq, Eq, Structural)]
pub enum BridgeState {
    /// Executing embedding-runtime code with no pending condition.
    Normal,
    /// The host's signal fired and was intercepted, not yet re-raised.
    HostPending,
    /// Re-raised as a structured error, propagating by unwinding.
    Raised,
    /// A structured error is being converted back into the host's signal.
    ReEntering,
}

/// One interception point at a host-call boundary.
pub struct ErrorBridge {
    pub state: BridgeState,
    pub captured: Option<SignalPayload>,
}

impl ErrorBridge {
    /// A payload is held exactly while a signal is pending.
    pub open spec fn wf(self) -> bool {
        self.captured is Some <==> self.state is HostPending
    }

    pub fn new() -> (r: ErrorBridge)
        ensures
            r.state is Normal,
            r.wf(),
    {
        ErrorBridge { state: BridgeState::Normal, captured: None }
    }

    /// Interception point around one call into the host.  A normal
    /// outcome passes through; a fired signal is captured, with its full
    /// payload, before any further unwinding.
    pub fn intercept<T>(&mut self, outcome: Result<T, SignalPayload>) -> (r: Option<T>)
        requires
            old(self).wf(),
            old(self).state is Normal,
        ensures
            final(self).wf(),
            outcome matches Ok(v) ==> {
                &&& r == Some(v)
                &&& final(self).state is Normal
                &&& final(self).captured is None
            },
            outcome matches Err(p) ==> {
                &&& r is None
                &&& final(self).state is HostPending
                &&& final(self).captured == Some(p)
            },
    {
        match outcome {
            Ok(v) => Some(v),
            Err(p) => {
                self.state = BridgeState::HostPending;
                self.captured = Some(p);
                None
            },
        }
    }

    /// Re-raises the captured payload as a structured error, so that the
    /// destructors between here and the catching boundary run normally.
    pub fn raise(&mut self) -> (e: BridgeError)
        requires
            old(self).wf(),
            old(self).state is HostPending,
        ensures
            final(self).wf(),
            final(self).state is Raised,
            e == BridgeError::HostSignaled(old(self).captured->0),
    {
        let p = self.captured.take();
        self.state = BridgeState::Raised;
        match p {
            Some(payload) => BridgeError::HostSignaled(payload),
            None => BridgeError::InvariantViolation,
        }
    }

    /// A catching boundary that turns the propagating error into a
    /// caller-visible result instead of letting it continue.
    pub fn catch(&mut self, e: BridgeError) -> (r: BridgeError)
        requires
            old(self).wf(),
            old(self).state is Raised,
        ensures
            final(self).wf(),
            final(self).state is Normal,
            r == e,
    {
        self.state = BridgeState::Normal;
        e
    }

    /// The outermost boundary: an escaping structured error is converted
    /// back into the host's signal.  A captured host payload is replayed
    /// bit for bit; an encoding overflow is given a fresh payload.  An
    /// invariant violation is never re-entered: it is fatal, not a
    /// recoverable condition.
    pub fn reenter(&mut self, e: BridgeError) -> (p: SignalPayload)
        requires
            old(self).wf(),
            old(self).state is Raised,
            !(e is InvariantViolation),
        ensures
            final(self).wf(),
            final(self).state is ReEntering,
            e matches BridgeError::HostSignaled(q) ==> p == q,
            e is EncodingOverflow ==> p.code == ERRCODE_PROGRAM_LIMIT_EXCEEDED && p.message@
                == "encoded value exceeds the host's representable length"@ && p.detail is None
                && p.hint is None && p.location@ == "bridge"@,
    {
        self.state = BridgeState::ReEntering;
        match e {
            BridgeError::HostSignaled(q) => q,
            _ => SignalPayload {
                code: ERRCODE_PROGRAM_LIMIT_EXCEEDED,
                message: "encoded value exceeds the host's representable length".to_owned(),
                detail: None,
                hint: None,
                location: "bridge".to_owned(),
            },
        }
    }

    /// Wraps one host outcome: a fired signal is intercepted and at once
    /// re-raised as a structured error, so the caller observes a
    /// catchable error and never the abrupt transfer itself.
    pub fn intercept_abrupt_signal<T>(&mut self, outcome: Result<T, SignalPayload>) -> (r: Result<
        T,
        BridgeError,
    >)
        requires
            old(self).wf(),
            old(self).state is Normal,
        ensures
            final(self).wf(),
            outcome matches Ok(v) ==> {
                &&& r == Ok::<T, BridgeError>(v)
                &&& final(self).state is Normal
            },
            outcome matches Err(p) ==> {
                &&& r == Err::<T, BridgeError>(BridgeError::HostSignaled(p))
                &&& final(self).state is Raised
            },
    {
        match self.intercept(outcome) {
            Some(v) => Ok(v),
            None => Err(self.raise()),
        }
    }
}

/// The host's entry point that raises the abrupt signal carrying
/// `payload`.  In this model the signal is the failing outcome itself:
/// whoever receives it must pass it to an interception point rather
/// than let it cross further stack frames.
pub fn raise_abrupt_signal<T>(payload: SignalPayload) -> (r: Result<T, SignalPayload>)
    ensures
        r == Err::<T, SignalPayload>(payload),
{
    Err(payload)
}

/// A host signal intercepted at a boundary, re-raised as a structured
/// error, and converted back into the host's signal with nothing on the
/// way inspecting it, reaches the host with the very payload that was
/// captured: code, message, detail, hint and location all preserved.
pub fn signal_round_trip(p: SignalPayload) -> (r: SignalPayload)
    ensures
        r@ == p@,
{
    let mut boundary = ErrorBridge::new();
    let _passed: Option<()> = boundary.intercept(Err(p));
    let e = boundary.raise();
    boundary.reenter(e)
}

} // verus!
