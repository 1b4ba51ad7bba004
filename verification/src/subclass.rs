//! AppBars whose owner window is subclassed.
//!
//! A [`SubclassedAppBar`] sees the messages of its owner window through a
//! window subclass. The native calls that its operations make may enter the
//! window procedure again before they return. While an operation is in
//! progress its AppBar is not at hand, so what such messages ask for is noted
//! and done before the operation ends.
//!
//! As with [`AppBar`], an operation is a sequence of steps, see
//! [`SubclassRegistry::resume`]. Between two steps of an operation any number
//! of steps of other operations may be taken.

use std::collections::HashMap;

use vstd::prelude::*;

use crate::app_bar::AppBar;
use crate::error::AppBarError;
use crate::win32::{is_position_change, notification_code, ABN_POSCHANGED, WM_WINDOWPOSCHANGED};

verus! {

broadcast use vstd::std_specs::hash::group_hash_axioms;

/// Identifies the window subclass of this library among those of a window.
pub const APP_BAR_SUBCLASS_ID: usize = 0x7741_4200;

/// What is known of a subclassed window.
#[derive(Debug)]
pub struct SubclassState {
    /// The AppBar, when no operation has it.
    pub app_bar: Option<AppBar>,
    /// The message by which the Shell notifies the window.
    pub callback_message: u32,
    /// Whether the subclass is installed, or about to be.
    pub attached: bool,
    /// Whether an operation has the AppBar.
    pub operation_in_progress: bool,
    /// Whether the AppBar is to be repositioned when the operation ends.
    pub pending_reposition: bool,
    /// Whether the Shell is to be told of a moved window when the operation ends.
    pub pending_window_position_changed: bool,
}

/// The action that the window procedure takes after inspecting one message.
#[derive(Debug)]
pub enum SubclassMessageDispatch {
    /// Answer the message with zero.
    Consume,
    /// Pass the message on to the next procedure.
    Forward,
    /// Let the AppBar handle the message.
    HandleWithAppBar(AppBar),
}

impl SubclassState {
    /// Whether the AppBar, if it is at hand, is one that the library makes.
    pub open spec fn wf(self) -> bool {
        self.app_bar matches Some(app_bar) ==> app_bar.wf()
    }

    /// Whether the Shell notifies the window of `app_bar` by the message that
    /// the state knows.
    pub open spec fn owns(self, app_bar: AppBar) -> bool {
        app_bar.callback_message == self.callback_message
    }

    /// Whether the AppBar is with the operation that is in progress, or gone
    /// once the window is detached, rather than at hand; the AppBar at hand has
    /// the callback message of the state; and nothing is pending unless an
    /// operation is in progress.
    pub open spec fn consistent(self) -> bool {
        &&& self.operation_in_progress || !self.attached ==> self.app_bar is None
        &&& self.app_bar matches Some(app_bar) ==> self.owns(app_bar)
        &&& !self.operation_in_progress ==> self == self.nothing_pending()
    }

    /// Whether the AppBar is at hand, as long as the window is attached and no
    /// operation is in progress.
    pub open spec fn at_hand(self) -> bool {
        self.attached && !self.operation_in_progress ==> self.app_bar is Some
    }

    /// Whether an operation can take the AppBar.
    pub open spec fn available(self) -> bool {
        &&& self.attached
        &&& !self.operation_in_progress
        &&& self.app_bar is Some
    }

    /// Whether this message asks for a repositioning of the AppBar.
    pub open spec fn asks_reposition(self, message: u32, wparam: usize) -> bool {
        message == self.callback_message && notification_code(wparam) == ABN_POSCHANGED
    }

    /// Whether this message tells of a moved window.
    pub open spec fn tells_position(self, message: u32) -> bool {
        message != self.callback_message && message == WM_WINDOWPOSCHANGED
    }

    /// The state that has noted what a message asks for.
    pub open spec fn noting(self, message: u32, wparam: usize) -> SubclassState {
        SubclassState {
            pending_reposition: self.pending_reposition || self.asks_reposition(message, wparam),
            pending_window_position_changed: self.pending_window_position_changed
                || self.tells_position(message),
            ..self
        }
    }

    /// The state with nothing pending.
    pub open spec fn nothing_pending(self) -> SubclassState {
        SubclassState {
            pending_reposition: false,
            pending_window_position_changed: false,
            ..self
        }
    }

    /// The state whose AppBar an operation has taken.
    pub open spec fn taken(self) -> SubclassState {
        SubclassState { app_bar: None, operation_in_progress: true, ..self }
    }

    /// The state once the operation that had `app_bar` has ended.
    pub open spec fn returned(self, app_bar: AppBar) -> SubclassState {
        SubclassState {
            app_bar: if self.attached {
                Some(app_bar)
            } else {
                self.app_bar
            },
            operation_in_progress: false,
            ..self
        }
    }

    /// The state once the subclass has been removed.
    pub open spec fn detached(self) -> SubclassState {
        SubclassState { app_bar: None, attached: false, operation_in_progress: true, ..self }
    }

    /// The state of a window whose AppBar is being registered.
    pub open spec fn registering_state(callback_message: u32) -> SubclassState {
        SubclassState {
            app_bar: None,
            callback_message,
            attached: true,
            operation_in_progress: true,
            pending_reposition: false,
            pending_window_position_changed: false,
        }
    }

    /// Returns the state of a window whose AppBar is being registered: what
    /// the window is notified of in the meantime is noted.
    pub fn registering(callback_message: u32) -> (state: SubclassState)
        ensures
            state == SubclassState::registering_state(callback_message),
    {
        SubclassState {
            app_bar: None,
            callback_message,
            attached: true,
            operation_in_progress: true,
            pending_reposition: false,
            pending_window_position_changed: false,
        }
    }

    /// Returns whether the subclass is installed, or about to be.
    pub fn is_attached(&self) -> (attached: bool)
        ensures
            attached == self.attached,
    {
        self.attached
    }

    /// Chooses what the window procedure does with a message.
    pub fn dispatch_message(&mut self, message: u32, wparam: usize) -> (dispatch:
        SubclassMessageDispatch)
        ensures
            old(self).operation_in_progress ==> {
                &&& *final(self) == old(self).noting(message, wparam)
                &&& dispatch == if message == old(self).callback_message {
                    SubclassMessageDispatch::Consume
                } else {
                    SubclassMessageDispatch::Forward
                }
            },
            !old(self).operation_in_progress ==> match old(self).app_bar {
                Some(app_bar) => {
                    &&& *final(self) == old(self).taken()
                    &&& dispatch == SubclassMessageDispatch::HandleWithAppBar(app_bar)
                },
                None => {
                    &&& *final(self) == *old(self)
                    &&& dispatch == SubclassMessageDispatch::Forward
                },
            },
    {
        if let Some(consumed) = self.defer_reentrant_message(message, wparam) {
            return if consumed {
                SubclassMessageDispatch::Consume
            } else {
                SubclassMessageDispatch::Forward
            };
        }
        match self.app_bar.take() {
            Some(app_bar) => {
                self.operation_in_progress = true;
                SubclassMessageDispatch::HandleWithAppBar(app_bar)
            },
            None => SubclassMessageDispatch::Forward,
        }
    }

    /// Notes what a message asks for that is received while an operation is in
    /// progress, and returns whether the message is consumed.
    pub fn defer_reentrant_message(&mut self, message: u32, wparam: usize) -> (consumed: Option<
        bool,
    >)
        ensures
            !old(self).operation_in_progress ==> consumed is None && *final(self) == *old(self),
            old(self).operation_in_progress ==> {
                &&& consumed == Some(message == old(self).callback_message)
                &&& *final(self) == old(self).noting(message, wparam)
            },
    {
        if !self.operation_in_progress {
            return None;
        }
        if message == self.callback_message {
            if is_position_change(wparam) {
                self.pending_reposition = true;
            }
            Some(true)
        } else {
            if message == WM_WINDOWPOSCHANGED {
                self.pending_window_position_changed = true;
            }
            Some(false)
        }
    }

    /// Takes the AppBar for an operation.
    pub fn begin_operation(&mut self) -> (app_bar: Option<AppBar>)
        ensures
            old(self).available() ==> app_bar == old(self).app_bar && *final(self)
                == old(self).taken(),
            !old(self).available() ==> app_bar is None && *final(self) == *old(self),
    {
        if !self.attached || self.operation_in_progress {
            return None;
        }
        match self.app_bar.take() {
            Some(app_bar) => {
                self.operation_in_progress = true;
                Some(app_bar)
            },
            None => None,
        }
    }

    /// Takes what is pending: whether the AppBar is to be repositioned, whether
    /// the Shell is to be told of a moved window, and the callback message.
    pub fn take_pending_notifications(&mut self) -> (pending: (bool, bool, u32))
        ensures
            pending == (
                old(self).pending_reposition,
                old(self).pending_window_position_changed,
                old(self).callback_message,
            ),
            *final(self) == old(self).nothing_pending(),
    {
        let reposition = self.pending_reposition;
        let position_changed = self.pending_window_position_changed;
        self.pending_reposition = false;
        self.pending_window_position_changed = false;
        (reposition, position_changed, self.callback_message)
    }

    /// Ends the operation that has `app_bar`. Returns the AppBar if the window
    /// has been detached in the meantime, so that it cannot be put back.
    pub fn finish_operation(&mut self, app_bar: AppBar) -> (left: Option<AppBar>)
        ensures
            *final(self) == old(self).returned(app_bar),
            left == if old(self).attached {
                None
            } else {
                Some(app_bar)
            },
    {
        self.operation_in_progress = false;
        if self.attached {
            self.app_bar = Some(app_bar);
            None
        } else {
            Some(app_bar)
        }
    }

    /// Marks the window as detached and takes the AppBar, if it is at hand.
    pub fn begin_detach(&mut self) -> (app_bar: Option<AppBar>)
        ensures
            app_bar == old(self).app_bar,
            *final(self) == old(self).detached(),
    {
        self.attached = false;
        self.operation_in_progress = true;
        self.app_bar.take()
    }

    /// Gives up a registration whose subclass could not be removed again.
    pub fn abort_registration(&mut self)
        ensures
            *final(self) == (SubclassState {
                operation_in_progress: false,
                ..old(self).nothing_pending()
            }),
    {
        self.operation_in_progress = false;
        self.pending_reposition = false;
        self.pending_window_position_changed = false;
    }
}

/// A window message as the window procedure receives it.
#[derive(Debug, Clone, Copy, PartialEq, Eq, Structural)]
pub struct WindowMessage {
    pub message: u32,
    pub wparam: usize,
    pub lparam: isize,
}

/// An [`AppBar`] which automatically forwards its owner window's messages.
///
/// The window's messages are seen by a subclass, which hands the Shell's
/// notifications to the AppBar and passes all other messages on to the original
/// procedure.
///
/// Call [`Self::unregister`] before the owner window is destroyed. If that is
/// missed, [`Self::drop`] and a `WM_DESTROY` message clean up as far as they
/// can, without reporting errors. `WM_CLOSE` is passed on unchanged.
///
/// This type does not own the window. It stands for a state of the
/// [`SubclassRegistry`] with which it was registered.
#[derive(Debug)]
pub struct SubclassedAppBar {
    /// The owner window.
    pub hwnd: isize,
    /// The state in the registry.
    pub state: usize,
}

/// The states of the windows of a thread that are subclassed.
///
/// A window's slot is reserved before its subclass is installed, so that a
/// window is not subclassed a second time. A state stays in the registry after
/// its window's slot has been released: an operation or a [`SubclassedAppBar`]
/// may still refer to it. The callback message of a window is remembered too, so
/// that a late notification is still told from other messages.
#[derive(Debug)]
pub struct SubclassRegistry {
    slots: HashMap<isize, usize>,
    states: Vec<SubclassState>,
    callback_messages: HashMap<isize, u32>,
}

/// A [`SubclassRegistry`], seen as the state that each window's slot refers to
/// and the callback message that each window last reserved a slot with.
pub struct Registry {
    pub slots: Map<isize, usize>,
    pub states: Seq<SubclassState>,
    pub callback_messages: Map<isize, u32>,
}

impl Registry {
    /// Whether every slot refers to a state.
    pub open spec fn wf(self) -> bool {
        &&& forall|hwnd: isize|
            self.slots.contains_key(hwnd) ==> #[trigger] self.slots[hwnd] < self.states.len()
        &&& forall|state: int|
            0 <= state < self.states.len() ==> (#[trigger] self.states[state]).wf()
    }

    /// Whether every state is consistent, and the callback message of every
    /// window with a slot is that of its state.
    pub open spec fn consistent(self) -> bool {
        &&& forall|state: int|
            0 <= state < self.states.len() ==> (#[trigger] self.states[state]).consistent()
        &&& forall|hwnd: isize|
            self.slots.contains_key(hwnd) ==> {
                &&& self.callback_messages.contains_key(hwnd)
                &&& self.callback_messages[hwnd] == self.states[#[trigger] self.slots[hwnd] as int]
                    .callback_message
            }
    }

    /// Whether `message` is the callback message of the window's state or, if the
    /// window has no slot, the one that it last reserved a slot with.
    pub open spec fn notified_by(self, hwnd: isize, message: u32) -> bool {
        if self.slots.contains_key(hwnd) {
            message == self.states[self.slots[hwnd] as int].callback_message
        } else {
            self.callback_messages.contains_key(hwnd) && message == self.callback_messages[hwnd]
        }
    }

    /// Whether the window's slot is taken by a window that is attached.
    pub open spec fn occupied(self, hwnd: isize) -> bool {
        self.slots.contains_key(hwnd) && self.states[self.slots[hwnd] as int].attached
    }

    /// The registry with another state in place of one of its states.
    pub open spec fn with_state(self, state: usize, value: SubclassState) -> Registry {
        Registry { states: self.states.update(state as int, value), ..self }
    }

    /// The registry with a new state in the window's slot.
    pub open spec fn reserving(self, hwnd: isize, value: SubclassState) -> Registry {
        Registry {
            slots: self.slots.insert(hwnd, self.states.len() as usize),
            states: self.states.push(value),
            callback_messages: self.callback_messages.insert(hwnd, value.callback_message),
        }
    }

    /// The registry without the window's slot, if that refers to `state`.
    pub open spec fn releasing(self, hwnd: isize, state: usize) -> Registry {
        if self.slots.contains_key(hwnd) && self.slots[hwnd] == state {
            Registry { slots: self.slots.remove(hwnd), ..self }
        } else {
            self
        }
    }
}

impl View for SubclassRegistry {
    type V = Registry;

    closed spec fn view(&self) -> Registry {
        Registry {
            slots: self.slots@,
            states: self.states@,
            callback_messages: self.callback_messages@,
        }
    }
}

impl SubclassRegistry {
    /// Returns a registry without states.
    pub fn new() -> (registry: SubclassRegistry)
        ensures
            registry@ == (Registry {
                slots: Map::empty(),
                states: Seq::empty(),
                callback_messages: Map::empty(),
            }),
            registry@.wf(),
            registry@.consistent(),
    {
        SubclassRegistry {
            slots: HashMap::new(),
            states: Vec::new(),
            callback_messages: HashMap::new(),
        }
    }

    /// Reserves the window's slot for a new state, and returns that state's
    /// place in the registry. Fails if the slot is taken by a window that is
    /// attached.
    pub fn reserve(&mut self, hwnd: isize, state: SubclassState) -> (reserved: Result<
        usize,
        AppBarError,
    >)
        requires
            old(self)@.wf(),
            state.wf(),
        ensures
            old(self)@.occupied(hwnd) ==> {
                &&& reserved == Err::<usize, _>(AppBarError::SubclassAlreadyRegistered)
                &&& final(self)@ == old(self)@
            },
            !old(self)@.occupied(hwnd) ==> {
                &&& reserved == Ok::<usize, AppBarError>(old(self)@.states.len() as usize)
                &&& old(self)@.states.len() <= usize::MAX
                &&& final(self)@ == old(self)@.reserving(hwnd, state)
            },
            final(self)@.wf(),
    {
        if let Some(existing) = self.state(hwnd) {
            if self.states[existing].is_attached() {
                return Err(AppBarError::SubclassAlreadyRegistered);
            }
        }
        let index: usize = self.states.len();
        self.slots.insert(hwnd, index);
        self.callback_messages.insert(hwnd, state.callback_message);
        self.states.push(state);
        Ok(index)
    }

    /// Returns the state that the window's slot refers to.
    pub fn state(&self, hwnd: isize) -> (state: Option<usize>)
        ensures
            state == if self@.slots.contains_key(hwnd) {
                Some(self@.slots[hwnd])
            } else {
                None
            },
    {
        match self.slots.get(&hwnd) {
            Some(state) => Some(*state),
            None => None,
        }
    }

    /// Returns the callback message that the window last reserved a slot with.
    pub fn last_callback_message(&self, hwnd: isize) -> (message: Option<u32>)
        ensures
            message == if self@.callback_messages.contains_key(hwnd) {
                Some(self@.callback_messages[hwnd])
            } else {
                None
            },
    {
        match self.callback_messages.get(&hwnd) {
            Some(message) => Some(*message),
            None => None,
        }
    }

    /// Releases the window's slot, if it refers to `state`.
    pub fn release_if_owned(&mut self, hwnd: isize, state: usize)
        requires
            old(self)@.wf(),
        ensures
            final(self)@ == old(self)@.releasing(hwnd, state),
            final(self)@.wf(),
    {
        if let Some(existing) = self.state(hwnd) {
            if existing == state {
                self.slots.remove(&hwnd);
            }
        }
    }

    /// Returns one of the states.
    pub fn borrow(&self, state: usize) -> (value: &SubclassState)
        requires
            state < self@.states.len(),
        ensures
            *value == self@.states[state as int],
    {
        &self.states[state]
    }

    /// Returns one of the states for change.
    pub fn borrow_mut(&mut self, state: usize) -> (value: &mut SubclassState)
        requires
            state < old(self)@.states.len(),
        ensures
            *value == old(self)@.states[state as int],
            final(self)@ == old(self)@.with_state(state, *final(value)),
    {
        &mut self.states[state]
    }
}

} // verus!
