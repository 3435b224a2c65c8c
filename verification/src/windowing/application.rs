//! The lifecycle state machine that sits between the host's event loop and
//! the handler.
//!
//! The contract of each step names the calls that the step makes on the
//! handler: the handler goes from the value that the application held before
//! the step to the value that it holds after it through those calls, made
//! on a window state with the stated view and on the step's own arguments.

use crate::ieee::Float64;
use crate::misc::unwrap_unreachable;
use crate::windowing::event::{DeviceEvent, DeviceId, PhysicalSize, WindowEvent, WindowId};
use crate::windowing::handler::EventHandler;
use crate::windowing::window::{LoopAction, WindowState, WindowStateView};
use core::marker::PhantomData;
use vstd::prelude::*;

verus! {

/// Where an [`Application`] stands in its life.
#[derive(Clone, Copy, Debug, PartialEq, Eq, Structural, Hash)]
pub enum Phase {
    /// The handler is there and was not initialised yet.
    Created,
    /// The handler is there and was initialised by the first resume.
    Running,
    /// The handler was handed its last call and is gone.
    Exited,
}

/// A call that an [`Application`] makes on its handler.
pub enum HandlerCall<T> {
    /// `init`
    Init,
    /// `on_resumed`
    Resumed,
    /// `on_suspended`
    Suspended,
    /// `on_window_event`
    WindowEvent(WindowEvent),
    /// `on_user_event`
    UserEvent(T),
    /// `on_device_event`
    DeviceEvent(DeviceId, DeviceEvent),
    /// `update`
    Update,
    /// `should_exit`
    ShouldExit,
    /// `on_exited`
    Exited,
}

/// A signal of the host that suspends or resumes the application.
pub enum LifecycleSignal {
    Resumed,
    Suspended,
}

/// The calls that a resume or a suspend leads to. A resume leads to `init`
/// first if the window was never resumed before, and to `on_resumed` in any
/// case; a suspend leads to `on_suspended`.
pub open spec fn signal_calls<T>(initialized: bool, signal: LifecycleSignal) -> Seq<HandlerCall<T>> {
    match signal {
        LifecycleSignal::Resumed => if initialized {
            seq![HandlerCall::Resumed]
        } else {
            seq![HandlerCall::Init, HandlerCall::Resumed]
        },
        LifecycleSignal::Suspended => seq![HandlerCall::Suspended],
    }
}

/// Whether the window counts as initialised after a resume or a suspend.
pub open spec fn initialized_after(initialized: bool, signal: LifecycleSignal) -> bool {
    initialized || signal is Resumed
}

/// The calls that a run of resumes and suspends leads to, from a window
/// that is `initialized` or not.
pub open spec fn lifecycle_calls<T>(initialized: bool, signals: Seq<LifecycleSignal>) -> Seq<
    HandlerCall<T>,
>
    decreases signals.len(),
{
    if signals.len() == 0 {
        Seq::empty()
    } else {
        signal_calls(initialized, signals.first()) + lifecycle_calls(
            initialized_after(initialized, signals.first()),
            signals.drop_first(),
        )
    }
}

/// How often `item` occurs in `items`.
pub open spec fn occurrences<A>(items: Seq<A>, item: A) -> nat
    decreases items.len(),
{
    if items.len() == 0 {
        0
    } else {
        occurrences(items.drop_last(), item) + if items.last() == item {
            1nat
        } else {
            0nat
        }
    }
}

proof fn lemma_occurrences_concat<A>(front: Seq<A>, back: Seq<A>, item: A)
    ensures
        occurrences(front + back, item) == occurrences(front, item) + occurrences(back, item),
    decreases back.len(),
{
    if back.len() > 0 {
        assert((front + back).drop_last() == front + back.drop_last());
        lemma_occurrences_concat(front, back.drop_last(), item);
    }
}

proof fn lemma_occurrences_first<A>(items: Seq<A>, item: A)
    requires
        items.len() > 0,
    ensures
        occurrences(items, item) == occurrences(items.drop_first(), item) + if items.first()
            == item {
            1nat
        } else {
            0nat
        },
{
    let head = seq![items.first()];
    assert(head + items.drop_first() == items);
    lemma_occurrences_concat(head, items.drop_first(), item);
    assert(occurrences(head.drop_last(), item) == 0);
}

/// Once initialised, no run of resumes and suspends leads to `init` again;
/// each resume leads to one `on_resumed` and each suspend to one
/// `on_suspended`.
proof fn lemma_lifecycle_counts<T>(initialized: bool, signals: Seq<LifecycleSignal>)
    ensures
        occurrences(lifecycle_calls::<T>(initialized, signals), HandlerCall::Init) == if !initialized
            && occurrences(signals, LifecycleSignal::Resumed) > 0 {
            1nat
        } else {
            0nat
        },
        occurrences(lifecycle_calls::<T>(initialized, signals), HandlerCall::Resumed)
            == occurrences(signals, LifecycleSignal::Resumed),
        occurrences(lifecycle_calls::<T>(initialized, signals), HandlerCall::Suspended)
            == occurrences(signals, LifecycleSignal::Suspended),
    decreases signals.len(),
{
    if signals.len() > 0 {
        let rest = signals.drop_first();
        lemma_occurrences_first(signals, LifecycleSignal::Resumed);
        lemma_occurrences_first(signals, LifecycleSignal::Suspended);
        let head = signal_calls::<T>(initialized, signals.first());
        let next = initialized_after(initialized, signals.first());
        lemma_lifecycle_counts::<T>(next, rest);
        lemma_occurrences_concat(head, lifecycle_calls::<T>(next, rest), HandlerCall::Init);
        lemma_occurrences_concat(head, lifecycle_calls::<T>(next, rest), HandlerCall::Resumed);
        lemma_occurrences_concat(head, lifecycle_calls::<T>(next, rest), HandlerCall::Suspended);
        reveal_with_fuel(occurrences, 3);
    }
}

/// Over any run of resumes and suspends of a new application, `init` is
/// called exactly once if the run holds a resume, and never if it holds
/// none; `on_resumed` is called once for each resume and `on_suspended`
/// once for each suspend.
pub proof fn lemma_init_fires_once<T>(signals: Seq<LifecycleSignal>)
    ensures
        occurrences(lifecycle_calls::<T>(false, signals), HandlerCall::Init) == if occurrences(
            signals,
            LifecycleSignal::Resumed,
        ) > 0 {
            1nat
        } else {
            0nat
        },
        occurrences(lifecycle_calls::<T>(false, signals), HandlerCall::Resumed) == occurrences(
            signals,
            LifecycleSignal::Resumed,
        ),
        occurrences(lifecycle_calls::<T>(false, signals), HandlerCall::Suspended) == occurrences(
            signals,
            LifecycleSignal::Suspended,
        ),
{
    lemma_lifecycle_counts::<T>(false, signals);
}

/// Owns the handler and the window state, and turns each signal of the
/// host's event loop into calls of the handler.
///
/// `T` is the type of the payloads that can be injected into the event loop.
pub struct Application<W, H: EventHandler<W, T>, T = ()> {
    handler: Option<H>,
    window_state: WindowState<W>,
    phantom_data: PhantomData<T>,
    calls: Ghost<Seq<HandlerCall<T>>>,
}

impl<W, H: EventHandler<W, T>, T> Application<W, H, T> {
    /// The handler has not been given up yet.
    pub closed spec fn has_handler(&self) -> bool {
        self.handler is Some
    }

    /// The handler that the application holds, while it holds one.
    pub closed spec fn slot(&self) -> Option<H> {
        self.handler
    }

    /// The window state, as mathematical values.
    pub closed spec fn window(&self) -> WindowStateView<W> {
        self.window_state@
    }

    /// The record of the calls on the handler, in their order. Each step
    /// adds an entry for each call that it makes; the step's contract states
    /// the call itself beside the entry.
    pub closed spec fn calls(&self) -> Seq<HandlerCall<T>> {
        self.calls@
    }

    pub open spec fn phase(&self) -> Phase {
        if !self.has_handler() {
            Phase::Exited
        } else if self.window().initialized {
            Phase::Running
        } else {
            Phase::Created
        }
    }

    /// Binds a handler to a window. `window_id`, `scale_factor` and
    /// `window_size` are what the window reports at this moment.
    pub fn new(
        window: W,
        window_id: WindowId,
        scale_factor: Float64,
        window_size: PhysicalSize<u32>,
        handler: H,
    ) -> (r: Self)
        ensures
            r.phase() == Phase::Created,
            r.slot() == Some(handler),
            r.window() == WindowStateView::initial(window, window_id, scale_factor, window_size),
            r.calls() == Seq::<HandlerCall<T>>::empty(),
    {
        Application {
            handler: Some(handler),
            window_state: WindowState::new(window, window_id, scale_factor, window_size),
            phantom_data: PhantomData,
            calls: Ghost(Seq::empty()),
        }
    }

    /// The state of the window that the application owns.
    pub fn window_state(&self) -> (r: &WindowState<W>)
        ensures
            r@ == self.window(),
    {
        &self.window_state
    }

    /// Tells whether the handler is still there, that is, whether the
    /// application has not exited.
    pub fn is_alive(&self) -> (r: bool)
        ensures
            r == self.has_handler(),
    {
        self.handler.is_some()
    }

    /// A new iteration begins: the window state is reset before any event of
    /// the iteration is handled.
    pub fn new_events(&mut self)
        requires
            old(self).has_handler(),
        ensures
            final(self).slot() == old(self).slot(),
            final(self).window() == old(self).window().reset(),
            final(self).calls() == old(self).calls(),
    {
        self.window_state.reset();
    }

    /// The application was resumed: the handler is initialised if this is
    /// the first resume, and is told of the resume in any case.
    pub fn resumed(&mut self)
        requires
            old(self).has_handler(),
        ensures
            final(self).phase() == Phase::Running,
            final(self).window() == old(self).window().resumed(),
            final(self).calls() == old(self).calls() + signal_calls(
                old(self).window().initialized,
                LifecycleSignal::Resumed,
            ),
            exists|handler: &mut H, seen: &WindowState<W>|
                {
                    &&& Some(*final(handler)) == final(self).slot()
                    &&& seen@ == final(self).window()
                    &&& #[trigger] call_ensures(H::on_resumed, (handler, seen), ())
                    &&& if old(self).window().initialized {
                        Some(*handler) == old(self).slot()
                    } else {
                        exists|fresh: &mut H|
                            {
                                &&& Some(*fresh) == old(self).slot()
                                &&& *final(fresh) == *handler
                                &&& #[trigger] call_ensures(H::init, (fresh, seen), ())
                            }
                    }
                },
    {
        let first = self.window_state.mark_resumed();
        let handler = unwrap_unreachable(self.handler.as_mut());
        if first {
            handler.init(&self.window_state);
            proof {
                self.calls@ = self.calls@.push(HandlerCall::Init);
            }
        }
        handler.on_resumed(&self.window_state);
        proof {
            self.calls@ = self.calls@.push(HandlerCall::Resumed);
        }
    }

    /// The application was suspended.
    pub fn suspended(&mut self)
        requires
            old(self).has_handler(),
        ensures
            final(self).has_handler(),
            final(self).window() == old(self).window(),
            final(self).calls() == old(self).calls() + signal_calls(
                old(self).window().initialized,
                LifecycleSignal::Suspended,
            ),
            exists|handler: &mut H, seen: &WindowState<W>|
                {
                    &&& Some(*handler) == old(self).slot()
                    &&& Some(*final(handler)) == final(self).slot()
                    &&& seen@ == old(self).window()
                    &&& #[trigger] call_ensures(H::on_suspended, (handler, seen), ())
                },
    {
        let handler = unwrap_unreachable(self.handler.as_mut());
        handler.on_suspended(&self.window_state);
        proof {
            self.calls@ = self.calls@.push(HandlerCall::Suspended);
        }
    }

    /// An event of a window arrived. It is handled if it belongs to the
    /// window that the application owns, and dropped if it does not.
    pub fn window_event(&mut self, window_id: WindowId, event: WindowEvent) -> (action: LoopAction)
        requires
            old(self).has_handler(),
        ensures
            final(self).has_handler(),
            window_id == old(self).window().window_id ==> {
                &&& final(self).window() == old(self).window().after_event(event)
                &&& final(self).calls() == old(self).calls().push(HandlerCall::WindowEvent(event))
                &&& exists|handler: &mut H, window: &mut WindowState<W>|
                    {
                        &&& Some(*handler) == old(self).slot()
                        &&& Some(*final(handler)) == final(self).slot()
                        &&& window@ == old(self).window()
                        &&& final(window)@ == final(self).window()
                        &&& #[trigger] call_ensures(
                            H::on_window_event,
                            (handler, window, event),
                            action,
                        )
                    }
            },
            window_id != old(self).window().window_id ==> {
                &&& final(self).slot() == old(self).slot()
                &&& final(self).window() == old(self).window()
                &&& final(self).calls() == old(self).calls()
                &&& action == LoopAction::Continue
            },
    {
        if self.window_state.window_id() == window_id {
            let ghost delivered = event;
            let handler = unwrap_unreachable(self.handler.as_mut());
            let action = handler.on_window_event(&mut self.window_state, event);
            proof {
                self.calls@ = self.calls@.push(HandlerCall::WindowEvent(delivered));
            }
            action
        } else {
            LoopAction::Continue
        }
    }

    /// A payload that was injected into the event loop arrived.
    pub fn user_event(&mut self, event: T)
        requires
            old(self).has_handler(),
        ensures
            final(self).has_handler(),
            final(self).window() == old(self).window(),
            final(self).calls() == old(self).calls().push(HandlerCall::UserEvent(event)),
            exists|handler: &mut H, seen: &WindowState<W>|
                {
                    &&& Some(*handler) == old(self).slot()
                    &&& Some(*final(handler)) == final(self).slot()
                    &&& seen@ == old(self).window()
                    &&& #[trigger] call_ensures(H::on_user_event, (handler, seen, event), ())
                },
    {
        let ghost delivered = event;
        let handler = unwrap_unreachable(self.handler.as_mut());
        handler.on_user_event(&self.window_state, event);
        proof {
            self.calls@ = self.calls@.push(HandlerCall::UserEvent(delivered));
        }
    }

    /// A raw device event arrived. It goes to the handler whatever device it
    /// came from.
    pub fn device_event(&mut self, device_id: DeviceId, event: DeviceEvent)
        requires
            old(self).has_handler(),
        ensures
            final(self).has_handler(),
            final(self).window() == old(self).window(),
            final(self).calls() == old(self).calls().push(
                HandlerCall::DeviceEvent(device_id, event),
            ),
            exists|handler: &mut H, seen: &WindowState<W>|
                {
                    &&& Some(*handler) == old(self).slot()
                    &&& Some(*final(handler)) == final(self).slot()
                    &&& seen@ == old(self).window()
                    &&& #[trigger] call_ensures(
                        H::on_device_event,
                        (handler, seen, device_id, event),
                        (),
                    )
                },
    {
        let handler = unwrap_unreachable(self.handler.as_mut());
        handler.on_device_event(&self.window_state, device_id, event);
        proof {
            self.calls@ = self.calls@.push(HandlerCall::DeviceEvent(device_id, event));
        }
    }

    /// The drive phase: the handler updates and is then asked whether it
    /// wants to exit. If it does, the loop is told to exit; if not, the
    /// window is asked to redraw.
    pub fn about_to_wait(&mut self) -> (action: LoopAction)
        requires
            old(self).has_handler(),
        ensures
            final(self).has_handler(),
            final(self).window() == old(self).window(),
            final(self).calls() == old(self).calls().push(HandlerCall::Update).push(
                HandlerCall::ShouldExit,
            ),
            action == LoopAction::Exit || action == LoopAction::RequestRedraw,
            exists|handler: &mut H, seen: &WindowState<W>|
                {
                    &&& Some(*handler) == old(self).slot()
                    &&& Some(*final(handler)) == final(self).slot()
                    &&& seen@ == old(self).window()
                    &&& #[trigger] call_ensures(H::update, (handler, seen), ())
                    &&& call_ensures(
                        H::should_exit,
                        (&*final(handler), seen),
                        action == LoopAction::Exit,
                    )
                },
    {
        let handler = unwrap_unreachable(self.handler.as_mut());
        handler.update(&self.window_state);
        let should_exit = handler.should_exit(&self.window_state);
        proof {
            self.calls@ = self.calls@.push(HandlerCall::Update).push(HandlerCall::ShouldExit);
        }
        LoopAction::after_update(should_exit)
    }

    /// The event loop ends: the handler is taken out of the application and
    /// handed its last call.
    pub fn exiting(&mut self)
        requires
            old(self).has_handler(),
        ensures
            final(self).phase() == Phase::Exited,
            final(self).window() == old(self).window(),
            final(self).calls() == old(self).calls().push(HandlerCall::Exited),
            final(self).slot() is None,
            call_ensures(H::on_exited, (old(self).slot()->0,), ()),
    {
        let handler = unwrap_unreachable(self.handler.take());
        handler.on_exited();
        proof {
            self.calls@ = self.calls@.push(HandlerCall::Exited);
        }
    }
}

} // verus!
