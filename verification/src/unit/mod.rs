//! A processing unit of the host: the order of its life, and the callback
//! that renders for it.
//!
//! The unit of this module holds no handle of the host. For each thing that
//! is asked of it, it says which call the host has to be given next. The
//! caller makes that call and reports the status that came back, and the unit
//! moves on or stays, as the status says.

pub mod buffer;
pub mod desc;
pub mod flags;

pub use buffer::{AudioBuffer, AudioBufferList};
pub use desc::{ComponentDescription, Description, Found, Version};
pub use flags::ActionFlags;

use vstd::prelude::*;
use vstd::string::StringExecFns;
use crate::error::{AudioUnitError, CAError, OSStatus};
use crate::stream_format::{StreamDescription, StreamFormat};
use crate::timestamp::TimeStamp;
use core::marker::PhantomData;

verus! {

/// The property that holds the stream format of a scope.
pub const STREAM_FORMAT_PROPERTY: u32 = 8;

/// The property that holds the render callback.
pub const RENDER_CALLBACK_PROPERTY: u32 = 23;

/// The sides and parts of a unit that a property can belong to.
#[derive(Copy, Clone, Debug, PartialEq, Eq, Structural)]
pub enum Scope {
    Global,
    Input,
    Output,
    Group,
    Part,
    Note,
    Layer,
    LayerItem,
}

impl Scope {
    /// The number by which the host knows the scope.
    pub open spec fn code(self) -> u32 {
        match self {
            Scope::Global => 0,
            Scope::Input => 1,
            Scope::Output => 2,
            Scope::Group => 3,
            Scope::Part => 4,
            Scope::Note => 5,
            Scope::Layer => 6,
            Scope::LayerItem => 7,
        }
    }

    /// The number by which the host knows the scope.
    #[verifier::when_used_as_spec(code)]
    pub fn as_u32(self) -> (r: u32)
        ensures
            r == self.code(),
    {
        match self {
            Scope::Global => 0,
            Scope::Input => 1,
            Scope::Output => 2,
            Scope::Group => 3,
            Scope::Part => 4,
            Scope::Note => 5,
            Scope::Layer => 6,
            Scope::LayerItem => 7,
        }
    }
}

/// The element of a scope that a property belongs to.
#[derive(Copy, Clone, Debug, PartialEq, Eq, Structural)]
pub enum Element {
    Output,
    Input,
}

impl Element {
    /// The number by which the host knows the element.
    pub open spec fn code(self) -> u32 {
        match self {
            Element::Output => 0,
            Element::Input => 1,
        }
    }

    /// The number by which the host knows the element.
    #[verifier::when_used_as_spec(code)]
    pub fn as_u32(self) -> (r: u32)
        ensures
            r == self.code(),
    {
        match self {
            Element::Output => 0,
            Element::Input => 1,
        }
    }
}

/// Where a property of a unit is found.
#[derive(Copy, Clone, Debug, PartialEq, Eq, Structural)]
pub struct Property {
    pub id: u32,
    pub scope: u32,
    pub element: u32,
}

/// A call that the unit has the host be given.
#[derive(Copy, Clone, Debug, PartialEq, Eq, Structural)]
pub enum HostCall {
    /// Prepare the unit.
    Initialize,
    /// Release what preparing has taken.
    Uninitialize,
    /// Begin to produce or consume audio.
    Start,
    /// Halt.
    Stop,
    /// Make the render callback known to the host.
    SetRenderCallback,
    /// Dispose of the unit.
    Dispose,
}

/// What an application does to render audio for the host.
pub trait RenderCallback<S> {
    /// Whether the callback stands as it does after a call with these
    /// arguments that found the buffers as `before` and left them as
    /// `after`. A callback that keeps no record of its calls says yes to every
    /// question.
    open spec fn rendered(
        &self,
        flags: ActionFlags,
        time: TimeStamp,
        bus: u32,
        frames: usize,
        before: &AudioBufferList<S>,
        after: &AudioBufferList<S>,
    ) -> bool {
        true
    }

    /// Renders `frames` frames for the bus `bus` into `buffers`.
    fn render(
        &mut self,
        flags: ActionFlags,
        time: TimeStamp,
        bus: u32,
        frames: usize,
        buffers: &mut AudioBufferList<S>,
    )
        requires
            old(buffers).wf(),
        ensures
            final(buffers).wf(),
            final(self).rendered(flags, time, bus, frames, old(buffers), final(buffers)),
    ;
}

/// A boxed callback is a callback: it does what the one in the box does. With
/// it a unit can own a callback whose type it does not name.
impl<S> RenderCallback<S> for Box<dyn RenderCallback<S>> {
    open spec fn rendered(
        &self,
        flags: ActionFlags,
        time: TimeStamp,
        bus: u32,
        frames: usize,
        before: &AudioBufferList<S>,
        after: &AudioBufferList<S>,
    ) -> bool {
        (**self).rendered(flags, time, bus, frames, before, after)
    }

    fn render(
        &mut self,
        flags: ActionFlags,
        time: TimeStamp,
        bus: u32,
        frames: usize,
        buffers: &mut AudioBufferList<S>,
    ) {
        (**self).render(flags, time, bus, frames, buffers)
    }
}

/// Where the registration of the render callback stands.
#[derive(Copy, Clone, Debug, PartialEq, Eq, Structural)]
pub enum Registration {
    /// No callback has been handed to the unit.
    Absent,
    /// The unit holds a callback, and the host has yet to say whether it
    /// takes it.
    Pending,
    /// The host has taken the callback.
    Registered,
}

/// Where a unit stands in its life.
#[derive(Copy, Clone, Debug, PartialEq, Eq, Structural)]
pub struct UnitState {
    /// Whether the host has prepared the unit.
    pub initialized: bool,
    /// Whether the unit produces or consumes audio.
    pub started: bool,
    /// Where the registration of the render callback stands.
    pub registration: Registration,
}

impl UnitState {
    /// The state of a unit that the host has just made.
    pub open spec fn created() -> UnitState {
        UnitState { initialized: false, started: false, registration: Registration::Absent }
    }

    /// A started unit is initialized.
    pub open spec fn wf(self) -> bool {
        self.started ==> self.initialized
    }

    /// What initializing asks of the host, in order.
    pub open spec fn plan_initialize(self) -> Seq<HostCall> {
        if self.initialized {
            seq![]
        } else {
            seq![HostCall::Initialize]
        }
    }

    /// What starting asks of the host, in order: a unit that is not
    /// initialized is initialized first.
    pub open spec fn plan_start(self) -> Seq<HostCall> {
        if self.started {
            seq![]
        } else if self.initialized {
            seq![HostCall::Start]
        } else {
            seq![HostCall::Initialize, HostCall::Start]
        }
    }

    /// What stopping asks of the host, in order.
    pub open spec fn plan_stop(self) -> Seq<HostCall> {
        if self.started {
            seq![HostCall::Stop]
        } else {
            seq![]
        }
    }

    /// What uninitializing asks of the host, in order: a unit that is started
    /// is stopped first.
    pub open spec fn plan_uninitialize(self) -> Seq<HostCall> {
        if !self.initialized {
            seq![]
        } else if self.started {
            seq![HostCall::Stop, HostCall::Uninitialize]
        } else {
            seq![HostCall::Uninitialize]
        }
    }

    /// What giving the unit up asks of the host, in order: to stop where the
    /// unit is started, to uninitialize where it is initialized, and to
    /// dispose in any case.
    pub open spec fn plan_teardown(self) -> Seq<HostCall> {
        self.plan_stop() + (if self.initialized {
            seq![HostCall::Uninitialize]
        } else {
            seq![]
        }) + seq![HostCall::Dispose]
    }

    /// Whether the host's answer to `call` can be taken in: the call is one
    /// that a unit in this state may have asked for.
    pub open spec fn expects(self, call: HostCall) -> bool {
        match call {
            HostCall::Initialize => !self.initialized,
            HostCall::Uninitialize => self.initialized && !self.started,
            HostCall::Start => self.initialized && !self.started,
            HostCall::Stop => self.started,
            HostCall::SetRenderCallback => self.registration == Registration::Pending,
            HostCall::Dispose => false,
        }
    }

    /// The state after the host has done `call`.
    pub open spec fn after(self, call: HostCall) -> UnitState {
        match call {
            HostCall::Initialize => UnitState { initialized: true, ..self },
            HostCall::Uninitialize => UnitState { initialized: false, ..self },
            HostCall::Start => UnitState { started: true, ..self },
            HostCall::Stop => UnitState { started: false, ..self },
            HostCall::SetRenderCallback => UnitState {
                registration: Registration::Registered,
                ..self
            },
            HostCall::Dispose => self,
        }
    }

    /// The state after the host has refused `call`: as it was before the
    /// call was asked for. A callback that the host has not taken is let go.
    pub open spec fn refused(self, call: HostCall) -> UnitState {
        match call {
            HostCall::SetRenderCallback => UnitState { registration: Registration::Absent, ..self },
            _ => self,
        }
    }

    /// The state after the host has done every call of `plan`, in order.
    pub open spec fn after_all(self, plan: Seq<HostCall>) -> UnitState
        decreases plan.len(),
    {
        if plan.len() == 0 {
            self
        } else {
            self.after(plan[0]).after_all(plan.drop_first())
        }
    }
}

/// The first call of a plan, if the plan has one.
pub open spec fn first_of(plan: Seq<HostCall>) -> Option<HostCall> {
    if plan.len() > 0 {
        Some(plan[0])
    } else {
        None
    }
}

/// A unit of the host as this crate sees it: where it stands in its life,
/// and the render callback that it owns.
pub struct AudioUnit<S, C: RenderCallback<S>> {
    state: UnitState,
    callback: Option<C>,
    _ph: PhantomData<S>,
}

impl<S, C: RenderCallback<S>> AudioUnit<S, C> {
    /// Where the unit stands in its life.
    pub closed spec fn state(&self) -> UnitState {
        self.state
    }

    /// The render callback that the unit owns, if it owns one.
    pub closed spec fn callback(&self) -> Option<C> {
        self.callback
    }

    /// The state is in order, and the unit owns a callback exactly where one
    /// has been handed to it and the host has not refused it.
    pub open spec fn wf(&self) -> bool {
        &&& self.state().wf()
        &&& self.state().registration == Registration::Absent <==> self.callback() is None
    }

    /// The unit of a component that the host has just made: neither
    /// initialized nor started, and without a callback.
    pub fn new() -> (r: Self)
        ensures
            r.wf(),
            r.state() == UnitState::created(),
            r.callback() is None,
    {
        AudioUnit {
            state: UnitState {
                initialized: false,
                started: false,
                registration: Registration::Absent,
            },
            callback: None,
            _ph: PhantomData,
        }
    }

    /// Whether the host has prepared the unit.
    pub fn is_initialized(&self) -> (r: bool)
        ensures
            r == self.state().initialized,
    {
        self.state.initialized
    }

    /// Whether the unit produces or consumes audio.
    pub fn is_started(&self) -> (r: bool)
        ensures
            r == self.state().started,
    {
        self.state.started
    }

    /// The call that initializing needs next; none where the unit is
    /// initialized.
    pub fn initialize(&self) -> (r: Option<HostCall>)
        ensures
            r == first_of(self.state().plan_initialize()),
    {
        if self.state.initialized {
            None
        } else {
            Some(HostCall::Initialize)
        }
    }

    /// The call that uninitializing needs next: to stop where the unit is
    /// started, else to uninitialize; none where the unit is not initialized.
    pub fn uninitialize(&self) -> (r: Option<HostCall>)
        ensures
            r == first_of(self.state().plan_uninitialize()),
    {
        if !self.state.initialized {
            None
        } else if self.state.started {
            Some(HostCall::Stop)
        } else {
            Some(HostCall::Uninitialize)
        }
    }

    /// The call that starting needs next: to initialize where the unit is
    /// not initialized, else to start; none where the unit is started.
    pub fn start(&self) -> (r: Option<HostCall>)
        ensures
            r == first_of(self.state().plan_start()),
    {
        if self.state.started {
            None
        } else if !self.state.initialized {
            Some(HostCall::Initialize)
        } else {
            Some(HostCall::Start)
        }
    }

    /// The call that stopping needs next; none where the unit is not
    /// started.
    pub fn stop(&self) -> (r: Option<HostCall>)
        ensures
            r == first_of(self.state().plan_stop()),
    {
        if self.state.started {
            Some(HostCall::Stop)
        } else {
            None
        }
    }

    /// Takes in the host's answer to `call`. On success the unit has moved as
    /// the call says. On failure the unit stands as it did before the call
    /// was asked for, and the error is the one that the status stands for.
    pub fn complete(&mut self, call: HostCall, status: OSStatus) -> (r: Result<(), CAError>)
        requires
            old(self).wf(),
            old(self).state().expects(call),
        ensures
            final(self).wf(),
            r is Ok <==> status == 0,
            r matches Err(e) ==> e.stands_for(status as int),
            final(self).state() == if status == 0 {
                old(self).state().after(call)
            } else {
                old(self).state().refused(call)
            },
            final(self).callback() == if status != 0 && call == HostCall::SetRenderCallback {
                None
            } else {
                old(self).callback()
            },
    {
        match CAError::from_os_status(status) {
            Ok(()) => {
                match call {
                    HostCall::Initialize => {
                        self.state.initialized = true;
                    },
                    HostCall::Uninitialize => {
                        self.state.initialized = false;
                    },
                    HostCall::Start => {
                        self.state.started = true;
                    },
                    HostCall::Stop => {
                        self.state.started = false;
                    },
                    HostCall::SetRenderCallback => {
                        self.state.registration = Registration::Registered;
                    },
                    HostCall::Dispose => {},
                }
                Ok(())
            },
            Err(e) => {
                match call {
                    HostCall::SetRenderCallback => {
                        self.state.registration = Registration::Absent;
                        self.callback = None;
                    },
                    _ => {},
                }
                Err(e)
            },
        }
    }

    /// Hands the unit its render callback. The unit takes one callback in its
    /// life, and none while it is started. Where it takes the callback, the
    /// host has to be told of it next, and its answer reported.
    pub fn set_render_callback(&mut self, callback: C) -> (r: Result<HostCall, CAError>)
        requires
            old(self).wf(),
        ensures
            final(self).wf(),
            r is Ok <==> old(self).state().registration == Registration::Absent && !old(
                self,
            ).state().started,
            r matches Ok(call) ==> {
                &&& call == HostCall::SetRenderCallback
                &&& final(self).state() == (UnitState {
                    registration: Registration::Pending,
                    ..old(self).state()
                })
                &&& final(self).callback() == Some(callback)
            },
            r matches Err(e) ==> {
                &&& *final(self) == *old(self)
                &&& old(self).state().registration != Registration::Absent
                    ==> is_already_registered(e)
                &&& old(self).state().registration == Registration::Absent ==> e
                    == CAError::AudioUnitError(AudioUnitError::CannotDoInCurrentContext)
            },
    {
        match self.state.registration {
            Registration::Absent => {},
            _ => {
                return Err(CAError::Other(String::from_str("set render callback only once")));
            },
        }
        if self.state.started {
            return Err(CAError::AudioUnitError(AudioUnitError::CannotDoInCurrentContext));
        }
        self.callback = Some(callback);
        self.state.registration = Registration::Pending;
        Ok(HostCall::SetRenderCallback)
    }

    /// Where the stream format of `scope` is found.
    pub fn stream_format(&self, scope: Scope) -> (r: Property)
        ensures
            r == stream_format_property(scope),
    {
        Property {
            id: STREAM_FORMAT_PROPERTY,
            scope: scope.as_u32(),
            element: Element::Output.as_u32(),
        }
    }

    /// Where the stream format of the output is found.
    pub fn output_stream_format(&self) -> (r: Property)
        ensures
            r == stream_format_property(Scope::Output),
    {
        self.stream_format(Scope::Output)
    }

    /// Where the stream format of the input is found.
    pub fn input_stream_format(&self) -> (r: Property)
        ensures
            r == stream_format_property(Scope::Input),
    {
        self.stream_format(Scope::Input)
    }

    /// What to write to the host to give `scope` the format `format`: the
    /// place of the property, and the record. The format of a started unit
    /// cannot be set.
    pub fn set_stream_format(&self, format: &StreamFormat, scope: Scope) -> (r: Result<
        (Property, StreamDescription),
        CAError,
    >)
        ensures
            r is Ok <==> !self.state().started,
            r matches Ok(write) ==> write.0 == stream_format_property(scope) && write.1
                == format.spec_description(),
            r matches Err(e) ==> e == CAError::AudioUnitError(
                AudioUnitError::CannotDoInCurrentContext,
            ),
    {
        if self.state.started {
            return Err(CAError::AudioUnitError(AudioUnitError::CannotDoInCurrentContext));
        }
        Ok((self.stream_format(scope), format.description()))
    }

    /// Where the render callback is written to.
    pub fn render_callback_property(&self) -> (r: Property)
        ensures
            r == (Property {
                id: RENDER_CALLBACK_PROPERTY,
                scope: Scope::Input.code(),
                element: Element::Output.code(),
            }),
    {
        Property {
            id: RENDER_CALLBACK_PROPERTY,
            scope: Scope::Input.as_u32(),
            element: Element::Output.as_u32(),
        }
    }

    /// The host asks for audio: the callback of the unit renders `frames`
    /// frames for the bus `bus` into `buffers`, with the flags among
    /// `flags`. The status for the host is success. A unit without a
    /// callback leaves the buffers as they are.
    pub fn dispatch(
        &mut self,
        flags: u32,
        time: TimeStamp,
        bus: u32,
        frames: u32,
        buffers: &mut AudioBufferList<S>,
    ) -> (r: OSStatus)
        requires
            old(self).wf(),
            old(buffers).wf(),
        ensures
            r == 0,
            final(self).wf(),
            final(buffers).wf(),
            final(self).state() == old(self).state(),
            match final(self).callback() {
                Some(callback) => old(self).callback() is Some && callback.rendered(
                    ActionFlags::spec_from_bits_truncate(flags),
                    time,
                    bus,
                    frames as usize,
                    old(buffers),
                    final(buffers),
                ),
                None => old(self).callback() is None && *final(buffers) == *old(buffers),
            },
    {
        match &mut self.callback {
            Some(callback) => {
                callback.render(
                    ActionFlags::from_bits_truncate(flags),
                    time,
                    bus,
                    frames as usize,
                    buffers,
                );
            },
            None => {},
        }
        0
    }

    /// What to ask of the host when the unit is given up, in order: to stop
    /// where the unit is started, to uninitialize where it is initialized, and
    /// to dispose. None of the answers matters: each call is made whatever the
    /// one before said. The callback comes back to the caller, who lets go of
    /// it once the host has disposed of the unit and can call it no more.
    pub fn teardown(self) -> (r: (Vec<HostCall>, Option<C>))
        ensures
            r.0@ == self.state().plan_teardown(),
            r.1 == self.callback(),
    {
        let mut calls: Vec<HostCall> = Vec::new();
        if self.state.started {
            calls.push(HostCall::Stop);
        }
        if self.state.initialized {
            calls.push(HostCall::Uninitialize);
        }
        calls.push(HostCall::Dispose);
        (calls, self.callback)
    }
}

/// Whether `e` is the error for a second callback.
pub open spec fn is_already_registered(e: CAError) -> bool {
    e matches CAError::Other(message) && message@ == "set render callback only once"@
}

/// Where the stream format of `scope` is found.
pub open spec fn stream_format_property(scope: Scope) -> Property {
    Property { id: STREAM_FORMAT_PROPERTY, scope: scope.code(), element: Element::Output.code() }
}

/// The answer to a call that was expected leaves the state in order,
/// whether the host has done the call or refused it.
pub proof fn lemma_answer_keeps_order(state: UnitState, call: HostCall)
    requires
        state.wf(),
        state.expects(call),
    ensures
        state.after(call).wf(),
        state.refused(call).wf(),
{
}

/// Each plan asks first for a call that the state expects, and once the
/// host has done that call, what is left to ask is the rest of the plan.
pub proof fn lemma_plans_go_step_by_step(state: UnitState)
    requires
        state.wf(),
    ensures
        first_of(state.plan_initialize()) matches Some(call) ==> state.expects(call)
            && state.after(call).plan_initialize() == state.plan_initialize().drop_first(),
        first_of(state.plan_start()) matches Some(call) ==> state.expects(call) && state.after(
            call,
        ).plan_start() == state.plan_start().drop_first(),
        first_of(state.plan_stop()) matches Some(call) ==> state.expects(call) && state.after(
            call,
        ).plan_stop() == state.plan_stop().drop_first(),
        first_of(state.plan_uninitialize()) matches Some(call) ==> state.expects(call)
            && state.after(call).plan_uninitialize() == state.plan_uninitialize().drop_first(),
{
}

/// Each plan reaches what it is for, and asks for nothing once it is
/// reached: a unit that has been started is started, and starting it again
/// asks nothing of the host. Stopping a unit that is not started asks nothing
/// either.
pub proof fn lemma_plans_reach_their_end(state: UnitState)
    requires
        state.wf(),
    ensures
        state.after_all(state.plan_initialize()).initialized,
        state.after_all(state.plan_initialize()).plan_initialize() == Seq::<HostCall>::empty(),
        state.after_all(state.plan_start()).started,
        state.after_all(state.plan_start()).wf(),
        state.after_all(state.plan_start()).plan_start() == Seq::<HostCall>::empty(),
        !state.after_all(state.plan_stop()).started,
        state.after_all(state.plan_stop()).initialized == state.initialized,
        state.after_all(state.plan_stop()).plan_stop() == Seq::<HostCall>::empty(),
        !state.after_all(state.plan_uninitialize()).initialized,
        !state.after_all(state.plan_uninitialize()).started,
        state.after_all(state.plan_uninitialize()).plan_uninitialize() == Seq::<HostCall>::empty(),
        !state.started ==> state.plan_stop() == Seq::<HostCall>::empty(),
        UnitState::created().plan_stop() == Seq::<HostCall>::empty(),
{
    lemma_after_all_unfolds(state, state.plan_initialize());
    lemma_after_all_unfolds(state, state.plan_start());
    lemma_after_all_unfolds(state, state.plan_stop());
    lemma_after_all_unfolds(state, state.plan_uninitialize());
}

/// The state after a plan of at most two calls, written out.
proof fn lemma_after_all_unfolds(state: UnitState, plan: Seq<HostCall>)
    requires
        plan.len() <= 2,
    ensures
        plan.len() == 0 ==> state.after_all(plan) == state,
        plan.len() == 1 ==> state.after_all(plan) == state.after(plan[0]),
        plan.len() == 2 ==> state.after_all(plan) == state.after(plan[0]).after(plan[1]),
{
    reveal_with_fuel(UnitState::after_all, 3);
    if plan.len() == 2 {
        assert(plan.drop_first()[0] == plan[1]);
    }
}

/// Giving a unit up asks the host to dispose of it exactly once, as the last
/// call, whatever state the unit is in. Where the unit is stopped, that call
/// comes first; where it is uninitialized, that call comes before the
/// disposal. A unit that was started and never stopped is stopped,
/// uninitialized and disposed of, in this order.
pub proof fn lemma_teardown_disposes_once(state: UnitState)
    requires
        state.wf(),
    ensures
        state.plan_teardown().len() >= 1,
        state.plan_teardown().last() == HostCall::Dispose,
        forall|i: int|
            0 <= i < state.plan_teardown().len() - 1 ==> state.plan_teardown()[i]
                != HostCall::Dispose,
        state.started ==> state.plan_teardown() == seq![
            HostCall::Stop,
            HostCall::Uninitialize,
            HostCall::Dispose,
        ],
        !state.started && state.initialized ==> state.plan_teardown() == seq![
            HostCall::Uninitialize,
            HostCall::Dispose,
        ],
        !state.initialized ==> state.plan_teardown() == seq![HostCall::Dispose],
{
}

} // verus!
