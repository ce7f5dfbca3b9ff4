//! The global lifecycle guard and the main-thread state it owns: the event
//! aggregation queue, the monitor liveness registry, the context tracker,
//! the error slot and the diagnostics log.
//!
//! The native layer allows exactly one live instance, created and destroyed
//! on one designated thread. `EventLoop` is that instance's explicit state:
//! `init` and `terminate` are its only lifecycle transitions, and every
//! other operation requires the instance to be alive. Native calls happen
//! outside this crate; each transition takes the native outcome it depends
//! on as an argument and pins the resulting state exactly.

use vstd::prelude::*;
use vstd::string::*;

use crate::context::spec_destroy;
use crate::context::spec_make_uncurrent;
use crate::context::ContextRegistry;
use crate::context::WindowRecord;
use crate::error::clear_error;
use crate::error::get_error;
use crate::error::ErrorSlot;
use crate::event::Event;
use crate::monitor::MonitorId;
use crate::monitor::MonitorRegistry;
use crate::types::AnglePlatform;
use crate::types::ClientApi;
use crate::types::ContextCreationApi;
use crate::types::ErrorCode;
use crate::types::GlfwError;
use crate::types::Joystick;
use crate::types::Key;
use crate::types::Modifiers;
use crate::types::MouseButton;
use crate::types::Platform;
use crate::window::bool_hint;
use crate::window::int_hint;
use crate::window::push_bool_hint;
use crate::window::push_int_hint;
use crate::window::HintSetting;
use crate::window::WindowId;
use crate::GlfwResult;

verus! {

pub const GLFW_JOYSTICK_HAT_BUTTONS: i32 = 0x00050001;
pub const GLFW_ANGLE_PLATFORM_TYPE: i32 = 0x00050002;
pub const GLFW_PLATFORM: i32 = 0x00050003;
pub const GLFW_COCOA_CHDIR_RESOURCES: i32 = 0x00051001;
pub const GLFW_COCOA_MENUBAR: i32 = 0x00051002;
pub const GLFW_X11_XCB_VULKAN_SURFACE: i32 = 0x00052001;
pub const GLFW_WAYLAND_LIBDECOR: i32 = 0x00053001;
pub const GLFW_WAYLAND_PREFER_LIBDECOR: i32 = 0x00038001;
pub const GLFW_WAYLAND_DISABLE_LIBDECOR: i32 = 0x00038002;

/// Configuration applied before the native layer is initialized. Unset
/// fields leave the native defaults in force; platform-specific fields are
/// ignored on other platforms.
#[derive(Debug, Default)]
pub struct EventLoopConfig {
    /// Force a specific platform; `Platform::Null` is the simulated platform
    /// used for testing.
    pub platform: Option<Platform>,
    /// Expose joystick hats as buttons too, for compatibility.
    pub joystick_hat_buttons: Option<bool>,
    /// The backend the ANGLE layer should use.
    pub angle_platform: Option<AnglePlatform>,
    pub cocoa_chdir_resources: Option<bool>,
    pub cocoa_menubar: Option<bool>,
    pub wayland_libdecor: Option<bool>,
    pub x11_xcb_vk_surface: Option<bool>,
}

impl EventLoopConfig {
    /// The exact ordered sequence of native init-hint settings this
    /// configuration stands for.
    pub open spec fn spec_hints(self) -> Seq<HintSetting> {
        int_hint(GLFW_PLATFORM, match self.platform {
            Some(p) => Some(p.spec_code()),
            None => None,
        }) + int_hint(GLFW_ANGLE_PLATFORM_TYPE, match self.angle_platform {
            Some(p) => Some(p.spec_code()),
            None => None,
        }) + bool_hint(GLFW_JOYSTICK_HAT_BUTTONS, self.joystick_hat_buttons)
            + bool_hint(GLFW_COCOA_CHDIR_RESOURCES, self.cocoa_chdir_resources)
            + bool_hint(GLFW_COCOA_MENUBAR, self.cocoa_menubar)
            + int_hint(GLFW_WAYLAND_LIBDECOR, match self.wayland_libdecor {
            Some(b) => Some(if b {
                GLFW_WAYLAND_PREFER_LIBDECOR
            } else {
                GLFW_WAYLAND_DISABLE_LIBDECOR
            }),
            None => None,
        }) + bool_hint(GLFW_X11_XCB_VULKAN_SURFACE, self.x11_xcb_vk_surface)
    }

    /// Computes the init-hint settings to apply before the native init call.
    /// The caller applies each step in order, checking the error channel
    /// after each; a failed step is logged and initialization proceeds.
    pub fn set_hints(&self) -> (r: Vec<HintSetting>)
        ensures
            r@ == self.spec_hints(),
    {
        let mut out: Vec<HintSetting> = Vec::new();
        let platform_code = match self.platform {
            Some(p) => Some(p.code()),
            None => None,
        };
        push_int_hint(&mut out, GLFW_PLATFORM, platform_code);
        let angle_code = match self.angle_platform {
            Some(p) => Some(p.code()),
            None => None,
        };
        push_int_hint(&mut out, GLFW_ANGLE_PLATFORM_TYPE, angle_code);
        push_bool_hint(&mut out, GLFW_JOYSTICK_HAT_BUTTONS, self.joystick_hat_buttons);
        push_bool_hint(&mut out, GLFW_COCOA_CHDIR_RESOURCES, self.cocoa_chdir_resources);
        push_bool_hint(&mut out, GLFW_COCOA_MENUBAR, self.cocoa_menubar);
        let libdecor_code = match self.wayland_libdecor {
            Some(b) => Some(
                if b {
                    GLFW_WAYLAND_PREFER_LIBDECOR
                } else {
                    GLFW_WAYLAND_DISABLE_LIBDECOR
                },
            ),
            None => None,
        };
        push_int_hint(&mut out, GLFW_WAYLAND_LIBDECOR, libdecor_code);
        push_bool_hint(&mut out, GLFW_X11_XCB_VULKAN_SURFACE, self.x11_xcb_vk_surface);
        proof {
            assert(out@ =~= self.spec_hints());
        }
        out
    }
}

/// `new_d` is `old_d` with exactly `n` records appended.
pub open spec fn diag_extended_by(old_d: Seq<String>, new_d: Seq<String>, n: int) -> bool {
    &&& new_d.len() == old_d.len() + n
    &&& new_d.take(old_d.len() as int) == old_d
}

/// Prefix preservation composes: if `b` extends `a` and `c` extends `b`,
/// then `c` extends `a`.
proof fn lemma_diag_extend_chain(a: Seq<String>, b: Seq<String>, c: Seq<String>)
    requires
        a.len() <= b.len(),
        b.take(a.len() as int) == a,
        b.len() <= c.len(),
        c.take(b.len() as int) == b,
    ensures
        c.take(a.len() as int) == a,
{
    assert forall|i: int| 0 <= i < a.len() implies c.take(a.len() as int)[i] == a[i] by {
        assert(b.take(a.len() as int)[i] == a[i]);
        assert(c.take(b.len() as int)[i] == b[i]);
    }
    assert(c.take(a.len() as int) =~= a);
}

/// Appends one diagnostic record.
fn push_diag(d: &mut Vec<String>, msg: &str)
    ensures
        diag_extended_by(old(d)@, final(d)@, 1),
        final(d)@.last()@ == msg@,
{
    d.push(String::from_str(msg));
    proof {
        assert(d@.take(old(d)@.len() as int) =~= old(d)@);
    }
}

/// The single-instance state: the lifecycle flag, the thread that owns it,
/// and the main-thread-local structures the native callbacks feed.
#[derive(Debug)]
pub struct EventLoop {
    /// Whether the native layer is initialized and not yet terminated.
    pub alive: bool,
    /// The thread that performed initialization; the lifecycle may only end
    /// on this thread.
    pub init_thread: u64,
    /// Queued events, each stamped with the bit pattern of the native clock
    /// sample taken when the callback fired.
    pub events: Vec<(u64, Event)>,
    /// The monitor identities currently believed live.
    pub monitors: MonitorRegistry,
    /// The per-window liveness and context-currency records.
    pub contexts: ContextRegistry,
    /// The calling thread's last-error slot.
    pub error_slot: ErrorSlot,
    /// Diagnostics for conditions that are logged rather than raised.
    pub diagnostics: Vec<String>,
}

impl EventLoop {
    /// The structural invariants of the embedded registries.
    pub open spec fn wf(self) -> bool {
        &&& self.monitors.wf()
        &&& self.contexts.wf()
    }

    /// The uninitialized state: nothing is alive, every structure is empty.
    pub fn new() -> (r: Self)
        ensures
            r.wf(),
            !r.alive,
            r.events@.len() == 0,
            r.monitors@ == Set::<u64>::empty(),
            r.contexts.windows@.len() == 0,
            r.error_slot.last is None,
            r.diagnostics@.len() == 0,
    {
        EventLoop {
            alive: false,
            init_thread: 0,
            events: Vec::new(),
            monitors: MonitorRegistry::new(),
            contexts: ContextRegistry::new(),
            error_slot: ErrorSlot::new(),
            diagnostics: Vec::new(),
        }
    }

    /// Initializes the native layer from `thread`, after the caller has
    /// applied the configuration hints (see `EventLoopConfig::set_hints`)
    /// and made the native init call, whose outcome arrives in `native_ok`
    /// and, if a fault was recorded, `fault`.
    ///
    /// Initializing while an instance is alive is a programmer error the
    /// original treats as fatal; here it is excluded by precondition. On
    /// success the state is fully reset: the event queue and monitor
    /// registry start empty and the calling thread becomes the owner.
    pub fn init(&mut self, thread: u64, native_ok: bool, fault: Option<GlfwError>) -> (r:
        GlfwResult<()>)
        requires
            old(self).wf(),
            !old(self).alive,
        ensures
            final(self).wf(),
            final(self).error_slot.last is None,
            final(self).contexts == old(self).contexts,
            final(self).diagnostics == old(self).diagnostics,
            !native_ok && fault is Some ==> r == Err::<(), GlfwError>(fault->0),
            !native_ok && fault is None ==> r is Err && r->Err_0.code
                == ErrorCode::NotInitialized && r->Err_0.description@
                == init_no_error_description(),
            !native_ok ==> {
                &&& !final(self).alive
                &&& final(self).events == old(self).events
                &&& final(self).monitors == old(self).monitors
            },
            native_ok ==> {
                &&& r == Ok::<(), GlfwError>(())
                &&& final(self).alive
                &&& final(self).init_thread == thread
                &&& final(self).events@.len() == 0
                &&& final(self).monitors@ == Set::<u64>::empty()
            },
    {
        clear_error(&mut self.error_slot);
        if !native_ok {
            return match fault {
                Some(e) => Err(e),
                None => {
                    let mut description = String::from_str("At ");
                    description.append("glfw init reporting no error");
                    description.append(", glfw is dead");
                    Err(GlfwError { code: ErrorCode::NotInitialized, description })
                },
            };
        }
        self.alive = true;
        self.init_thread = thread;
        self.events = Vec::new();
        self.monitors.clear();
        Ok(())
    }

    /// Ends the lifecycle from `thread`: marks the instance dead and clears
    /// the thread-local structures so a later `init` starts fresh. Ending it
    /// from a thread other than the initializing one is logged as a
    /// diagnostic — defensively, since an owner value should not move across
    /// threads — and teardown proceeds.
    pub fn terminate(&mut self, thread: u64)
        requires
            old(self).wf(),
            old(self).alive,
        ensures
            final(self).wf(),
            !final(self).alive,
            final(self).init_thread == old(self).init_thread,
            final(self).events@.len() == 0,
            final(self).monitors@ == Set::<u64>::empty(),
            final(self).contexts == old(self).contexts,
            final(self).error_slot.last is None,
            thread == old(self).init_thread ==> final(self).diagnostics == old(self).diagnostics,
            thread != old(self).init_thread ==> diag_extended_by(
                old(self).diagnostics@,
                final(self).diagnostics@,
                1,
            ),
    {
        self.alive = false;
        self.events = Vec::new();
        self.monitors.clear();
        if thread != self.init_thread {
            push_diag(&mut self.diagnostics, "lifecycle ended on a different thread than the one that began it");
        }
        clear_error(&mut self.error_slot);
    }

    /// Models one native call made under error checking: the error slot is
    /// cleared, the call produces `value` and records `fault` if it failed,
    /// and the slot is read back. A recorded fault becomes the result; the
    /// slot ends empty either way.
    pub fn checked<T>(&mut self, value: T, fault: Option<GlfwError>) -> (r: GlfwResult<T>)
        ensures
            final(self).error_slot.last is None,
            r == match fault {
                Some(e) => Err::<T, GlfwError>(e),
                None => Ok::<T, GlfwError>(value),
            },
            final(self).alive == old(self).alive,
            final(self).init_thread == old(self).init_thread,
            final(self).events == old(self).events,
            final(self).monitors == old(self).monitors,
            final(self).contexts == old(self).contexts,
            final(self).diagnostics == old(self).diagnostics,
    {
        clear_error(&mut self.error_slot);
        match fault {
            Some(e) => {
                self.error_slot.last = Some(e);
                let checked = get_error(&mut self.error_slot);
                match checked {
                    Err(e2) => Err(e2),
                    Ok(()) => Ok(value),  // unreachable: the slot was just filled
                }
            },
            None => {
                let checked = get_error(&mut self.error_slot);
                match checked {
                    Err(e2) => Err(e2),  // unreachable: the slot was just cleared
                    Ok(()) => Ok(value),
                }
            },
        }
    }

    /// Models one native call whose failure is logged rather than raised:
    /// the value always comes back, a recorded fault leaves one diagnostic
    /// record carrying its description, and the slot ends empty.
    pub fn logged<T>(&mut self, value: T, fault: Option<GlfwError>) -> (r: T)
        ensures
            r == value,
            final(self).error_slot.last is None,
            match fault {
                Some(e) => diag_extended_by(old(self).diagnostics@, final(self).diagnostics@, 1)
                    && final(self).diagnostics@.last()@ == e.description@,
                None => final(self).diagnostics == old(self).diagnostics,
            },
            final(self).alive == old(self).alive,
            final(self).init_thread == old(self).init_thread,
            final(self).events == old(self).events,
            final(self).monitors == old(self).monitors,
            final(self).contexts == old(self).contexts,
    {
        clear_error(&mut self.error_slot);
        match fault {
            Some(e) => {
                self.diagnostics.push(e.description);
                proof {
                    assert(self.diagnostics@.take(old(self).diagnostics@.len() as int)
                        =~= old(self).diagnostics@);
                }
            },
            None => {},
        }
        value
    }

    /// Models one native call whose failure is expected and inconsequential:
    /// the value comes back and the slot is left empty so a later `checked`
    /// call sees only its own fault.
    pub fn ignored<T>(&mut self, value: T, fault: Option<GlfwError>) -> (r: T)
        ensures
            r == value,
            final(self).error_slot.last is None,
            final(self).alive == old(self).alive,
            final(self).init_thread == old(self).init_thread,
            final(self).events == old(self).events,
            final(self).monitors == old(self).monitors,
            final(self).contexts == old(self).contexts,
            final(self).diagnostics == old(self).diagnostics,
    {
        match fault {
            Some(e) => {
                self.error_slot.last = Some(e);
            },
            None => {},
        }
        clear_error(&mut self.error_slot);
        value
    }

    /// Appends one event, stamped with the native clock sample `time`, to
    /// the queue. Callbacks only fire while the instance is alive, so the
    /// queue of a live instance grows by exactly this event.
    pub fn push_event(&mut self, time: u64, event: Event)
        requires
            old(self).alive,
        ensures
            final(self).events@ == old(self).events@.push((time, event)),
            final(self).alive == old(self).alive,
            final(self).init_thread == old(self).init_thread,
            final(self).monitors == old(self).monitors,
            final(self).contexts == old(self).contexts,
            final(self).error_slot == old(self).error_slot,
            final(self).diagnostics == old(self).diagnostics,
    {
        self.events.push((time, event));
    }

    /// Drains the queue after the caller has made the native
    /// process-pending-events call (during which the callbacks appended
    /// whatever arrived). Returns every queued event in arrival order and
    /// leaves the queue empty, so no event is ever delivered twice.
    pub fn poll_events(&mut self) -> (r: Vec<(u64, Event)>)
        requires
            old(self).alive,
        ensures
            r == old(self).events,
            final(self).events@.len() == 0,
            final(self).alive == old(self).alive,
            final(self).init_thread == old(self).init_thread,
            final(self).monitors == old(self).monitors,
            final(self).contexts == old(self).contexts,
            final(self).error_slot == old(self).error_slot,
            final(self).diagnostics == old(self).diagnostics,
    {
        let mut drained: Vec<(u64, Event)> = Vec::new();
        core::mem::swap(&mut drained, &mut self.events);
        drained
    }

    /// Drains the queue after the caller has made the native blocking
    /// wait-for-events call. Identical to `poll_events` once the native call
    /// returns.
    pub fn wait_events(&mut self) -> (r: Vec<(u64, Event)>)
        requires
            old(self).alive,
        ensures
            r == old(self).events,
            final(self).events@.len() == 0,
            final(self).alive == old(self).alive,
            final(self).init_thread == old(self).init_thread,
            final(self).monitors == old(self).monitors,
            final(self).contexts == old(self).contexts,
            final(self).error_slot == old(self).error_slot,
            final(self).diagnostics == old(self).diagnostics,
    {
        self.poll_events()
    }

    /// Drains the queue after the caller has made the native bounded wait
    /// call; `timeout_bits` carries the bit pattern of the native timeout
    /// sample handed to that call, which the queue logic never interprets.
    pub fn wait_events_timeout(&mut self, timeout_bits: u64) -> (r: Vec<(u64, Event)>)
        requires
            old(self).alive,
        ensures
            r == old(self).events,
            final(self).events@.len() == 0,
            final(self).alive == old(self).alive,
            final(self).init_thread == old(self).init_thread,
            final(self).monitors == old(self).monitors,
            final(self).contexts == old(self).contexts,
            final(self).error_slot == old(self).error_slot,
            final(self).diagnostics == old(self).diagnostics,
    {
        let _ = timeout_bits;
        self.poll_events()
    }
}

/// The description `init` synthesizes when the native init call fails
/// without recording any fault.
pub open spec fn init_no_error_description() -> Seq<char> {
    "At "@ + "glfw init reporting no error"@ + ", glfw is dead"@
}


pub const GLFW_CONNECTED: i32 = 0x00040001;
pub const GLFW_DISCONNECTED: i32 = 0x00040002;
pub const GLFW_RELEASE: i32 = 0;
pub const GLFW_PRESS: i32 = 1;
pub const GLFW_REPEAT: i32 = 2;
pub const GLFW_KEY_UNKNOWN: i32 = -1;

impl EventLoop {
    /// The bridge from the native monitor-connection callback: validates the
    /// raw identity and event code, keeps the liveness registry in step, and
    /// queues a typed event. A disconnect removes the identity from the live
    /// set before the event can be seen, so a consumer never observes a
    /// disconnected monitor as alive.
    pub fn monitor_callback(&mut self, time: u64, id: u64, event: i32)
        requires
            old(self).wf(),
            old(self).alive,
        ensures
            final(self).wf(),
            final(self).alive == old(self).alive,
            final(self).init_thread == old(self).init_thread,
            final(self).contexts == old(self).contexts,
            final(self).error_slot == old(self).error_slot,
            id != 0 && (event == GLFW_CONNECTED || event == GLFW_DISCONNECTED) ==> {
                &&& final(self).monitors@ == if event == GLFW_CONNECTED {
                    old(self).monitors@.insert(id)
                } else {
                    old(self).monitors@.remove(id)
                }
                &&& final(self).events@ == old(self).events@.push(
                    (time, Event::MonitorConnected {
                        monitor: (MonitorId { inner: id }),
                        connected: event == GLFW_CONNECTED,
                    }),
                )
                &&& final(self).diagnostics == old(self).diagnostics
            },
            id == 0 || (event != GLFW_CONNECTED && event != GLFW_DISCONNECTED) ==> {
                &&& final(self).monitors == old(self).monitors
                &&& final(self).events == old(self).events
                &&& diag_extended_by(old(self).diagnostics@, final(self).diagnostics@, 1)
            },
    {
        let monitor = match MonitorId::new(id) {
            Some(m) => m,
            None => {
                push_diag(&mut self.diagnostics, "monitor callback received a null monitor");
                return;
            },
        };
        let connected = if event == GLFW_CONNECTED {
            true
        } else if event == GLFW_DISCONNECTED {
            false
        } else {
            push_diag(&mut self.diagnostics, "monitor callback received an unknown event code");
            return;
        };
        if connected {
            self.monitors.insert(monitor);
        } else {
            self.monitors.remove(monitor);
        }
        self.push_event(time, Event::MonitorConnected { monitor, connected });
    }

    /// The bridge from the native joystick-connection callback: validates
    /// the raw slot number and event code and queues a typed event.
    pub fn joystick_callback(&mut self, time: u64, id: i32, event: i32)
        requires
            old(self).wf(),
            old(self).alive,
        ensures
            final(self).wf(),
            final(self).alive == old(self).alive,
            final(self).init_thread == old(self).init_thread,
            final(self).contexts == old(self).contexts,
            final(self).monitors == old(self).monitors,
            final(self).error_slot == old(self).error_slot,
            Joystick::spec_from_code(id) is Some && (event == GLFW_CONNECTED || event
                == GLFW_DISCONNECTED) ==> {
                &&& final(self).events@ == old(self).events@.push(
                    (time, Event::JoystickConnected {
                        joystick: Joystick::spec_from_code(id)->0,
                        connected: event == GLFW_CONNECTED,
                    }),
                )
                &&& final(self).diagnostics == old(self).diagnostics
            },
            Joystick::spec_from_code(id) is None || (event != GLFW_CONNECTED && event
                != GLFW_DISCONNECTED) ==> {
                &&& final(self).events == old(self).events
                &&& diag_extended_by(old(self).diagnostics@, final(self).diagnostics@, 1)
            },
    {
        let joystick = match Joystick::try_from(id) {
            Ok(j) => j,
            Err(()) => {
                push_diag(&mut self.diagnostics, "joystick callback received an unknown slot");
                return;
            },
        };
        let connected = if event == GLFW_CONNECTED {
            true
        } else if event == GLFW_DISCONNECTED {
            false
        } else {
            push_diag(&mut self.diagnostics, "joystick callback received an unknown event code");
            return;
        };
        self.push_event(time, Event::JoystickConnected { joystick, connected });
    }

    /// The bridge from the native key callback: validates the token, action
    /// and modifier bits, and queues a typed event. An unknown token value
    /// (other than the designated no-token value), an unknown action, or
    /// modifier bits outside the defined set are logged and produce no
    /// event.
    pub fn key_callback(
        &mut self,
        time: u64,
        window: WindowId,
        key: i32,
        scancode: i32,
        action: i32,
        mods: i32,
    )
        requires
            old(self).wf(),
            old(self).alive,
        ensures
            final(self).wf(),
            final(self).alive == old(self).alive,
            final(self).init_thread == old(self).init_thread,
            final(self).contexts == old(self).contexts,
            final(self).monitors == old(self).monitors,
            final(self).error_slot == old(self).error_slot,
            ({
                let key_valid = key == GLFW_KEY_UNKNOWN || Key::spec_from_code(key) is Some;
                let action_valid = action == GLFW_PRESS || action == GLFW_RELEASE || action
                    == GLFW_REPEAT;
                let mods_valid = 0 <= mods <= 0x3F;
                if key_valid && action_valid && mods_valid {
                    &&& final(self).events@ == old(self).events@.push(
                        (time, Event::Key {
                            window,
                            key: if key == GLFW_KEY_UNKNOWN {
                                None
                            } else {
                                Key::spec_from_code(key)
                            },
                            scancode,
                            pressed: action == GLFW_PRESS,
                            repeat: action == GLFW_REPEAT,
                            mods: (Modifiers { bits: mods }),
                        }),
                    )
                    &&& final(self).diagnostics == old(self).diagnostics
                } else {
                    &&& final(self).events == old(self).events
                    &&& diag_extended_by(old(self).diagnostics@, final(self).diagnostics@, 1)
                }
            }),
    {
        let key_token: Option<Key> = if key == GLFW_KEY_UNKNOWN {
            None
        } else {
            match Key::try_from(key) {
                Ok(k) => Some(k),
                Err(()) => {
                    push_diag(&mut self.diagnostics, "key callback received an unknown key");
                    return;
                },
            }
        };
        if action != GLFW_PRESS && action != GLFW_RELEASE && action != GLFW_REPEAT {
            push_diag(&mut self.diagnostics, "key callback received an unknown action");
            return;
        }
        let mods = match Modifiers::from_bits(mods) {
            Some(m) => m,
            None => {
                push_diag(&mut self.diagnostics, "key callback received unknown modifier bits");
                return;
            },
        };
        self.push_event(
            time,
            Event::Key {
                window,
                key: key_token,
                scancode,
                pressed: action == GLFW_PRESS,
                repeat: action == GLFW_REPEAT,
                mods,
            },
        );
    }

    /// The bridge from the native mouse-button callback: validates the
    /// button, action and modifier bits, and queues a typed event.
    pub fn mouse_button_callback(
        &mut self,
        time: u64,
        window: WindowId,
        button: i32,
        action: i32,
        mods: i32,
    )
        requires
            old(self).wf(),
            old(self).alive,
        ensures
            final(self).wf(),
            final(self).alive == old(self).alive,
            final(self).init_thread == old(self).init_thread,
            final(self).contexts == old(self).contexts,
            final(self).monitors == old(self).monitors,
            final(self).error_slot == old(self).error_slot,
            ({
                let button_valid = MouseButton::spec_from_code(button) is Some;
                let action_valid = action == GLFW_PRESS || action == GLFW_RELEASE;
                let mods_valid = 0 <= mods <= 0x3F;
                if button_valid && action_valid && mods_valid {
                    &&& final(self).events@ == old(self).events@.push(
                        (time, Event::MouseButton {
                            window,
                            button: MouseButton::spec_from_code(button)->0,
                            pressed: action == GLFW_PRESS,
                            mods: (Modifiers { bits: mods }),
                        }),
                    )
                    &&& final(self).diagnostics == old(self).diagnostics
                } else {
                    &&& final(self).events == old(self).events
                    &&& diag_extended_by(old(self).diagnostics@, final(self).diagnostics@, 1)
                }
            }),
    {
        let button = match MouseButton::try_from(button) {
            Ok(b) => b,
            Err(()) => {
                push_diag(&mut self.diagnostics, "mouse button callback received an unknown button");
                return;
            },
        };
        if action != GLFW_PRESS && action != GLFW_RELEASE {
            push_diag(&mut self.diagnostics, "mouse button callback received an unknown action");
            return;
        }
        let mods = match Modifiers::from_bits(mods) {
            Some(m) => m,
            None => {
                push_diag(
                    &mut self.diagnostics,
                    "mouse button callback received unknown modifier bits",
                );
                return;
            },
        };
        self.push_event(
            time,
            Event::MouseButton { window, button, pressed: action == GLFW_PRESS, mods },
        );
    }
}


/// The description of the dead-monitor error raised at `context`.
pub open spec fn dead_monitor_description(context: Seq<char>) -> Seq<char> {
    "At "@ + context + ", the monitor is no longer alive"@
}

impl EventLoop {
    /// Whether the monitor identity is still in the live set. A pure lookup:
    /// no native call is made and no error can arise.
    pub fn is_monitor_alive(&self, monitor: MonitorId) -> (r: bool)
        ensures
            r == self.monitors@.contains(monitor.inner),
    {
        self.monitors.is_monitor_alive(monitor)
    }

    /// Notes the primary monitor the native layer reported (`native`, zero
    /// when there is none): a non-zero identity joins the live set and is
    /// returned. Nothing is ever removed here.
    pub fn get_primary_monitor(&mut self, native: u64) -> (r: Option<MonitorId>)
        requires
            old(self).wf(),
            old(self).alive,
        ensures
            final(self).wf(),
            r == if native == 0 {
                None::<MonitorId>
            } else {
                (Some(MonitorId { inner: native }))
            },
            final(self).monitors@ == if native == 0 {
                old(self).monitors@
            } else {
                old(self).monitors@.insert(native)
            },
            final(self).alive == old(self).alive,
            final(self).init_thread == old(self).init_thread,
            final(self).events == old(self).events,
            final(self).contexts == old(self).contexts,
            final(self).error_slot == old(self).error_slot,
            final(self).diagnostics == old(self).diagnostics,
    {
        let monitor = MonitorId::new(native);
        if let Some(m) = monitor {
            self.monitors.insert(m);
        }
        monitor
    }

    /// Takes the freshly enumerated monitor identities (`native`, as the
    /// native layer reported them, zero entries included), drops the zero
    /// entries with a diagnostic each, rebuilds the live set to exactly what
    /// remains, and returns the identities in enumeration order. Identities
    /// that vanished without a disconnect callback are logged as one
    /// consistency diagnostic, never raised as an error: enumeration is the
    /// source of truth, the disconnect callback only an early hint.
    #[verifier::rlimit(100)]
    pub fn get_monitors(&mut self, native: &Vec<u64>) -> (r: Vec<MonitorId>)
        requires
            old(self).wf(),
            old(self).alive,
        ensures
            final(self).wf(),
            r@ == native@.filter(|m: u64| m != 0).map_values(|m: u64| (MonitorId { inner: m })),
            forall|m: u64| #[trigger] final(self).monitors@.contains(m)
                <==> (native@.contains(m) && m != 0),
            final(self).alive == old(self).alive,
            final(self).init_thread == old(self).init_thread,
            final(self).events == old(self).events,
            final(self).contexts == old(self).contexts,
            final(self).error_slot == old(self).error_slot,
            final(self).diagnostics@.len() >= old(self).diagnostics@.len(),
            final(self).diagnostics@.take(old(self).diagnostics@.len() as int)
                == old(self).diagnostics@,
    {
        let mut found: Vec<MonitorId> = Vec::new();
        proof {
            assert(old(self).diagnostics@.take(old(self).diagnostics@.len() as int)
                =~= old(self).diagnostics@);
        }
        let mut i: usize = 0;
        while i < native.len()
            invariant
                old(self).wf(),
                self.alive == old(self).alive,
                self.init_thread == old(self).init_thread,
                self.events == old(self).events,
                self.monitors == old(self).monitors,
                self.contexts == old(self).contexts,
                self.error_slot == old(self).error_slot,
                i <= native.len(),
                found@ == native@.take(i as int).filter(|m: u64| m != 0).map_values(
                    |m: u64| (MonitorId { inner: m }),
                ),
                forall|j: int| 0 <= j < found@.len() ==> (#[trigger] found@[j]).inner != 0,
                forall|j: int| 0 <= j < found@.len() ==> exists|k: int|
                    0 <= k < i && native@[k] == (#[trigger] found@[j]).inner,
                forall|k: int| 0 <= k < i && (#[trigger] native@[k]) != 0 ==> exists|j: int|
                    0 <= j < found@.len() && (#[trigger] found@[j]).inner == native@[k],
                old(self).diagnostics@.len() <= self.diagnostics@.len(),
                self.diagnostics@.take(old(self).diagnostics@.len() as int)
                    == old(self).diagnostics@,
            decreases native.len() - i,
        {
            let m = native[i];
            proof {
                native@.lemma_take_succ_push(i as int);
                native@.take(i as int).lemma_filter_push(m, |n: u64| n != 0);
                if m != 0 {
                    native@.take(i as int).filter(|n: u64| n != 0).lemma_push_map_commute(
                        |n: u64| (MonitorId { inner: n }),
                        m,
                    );
                }
            }
            if m != 0 {
                let ghost prev_found = found@;
                found.push(MonitorId { inner: m });
                proof {
                    assert(found@.last() == (MonitorId { inner: m }));
                    assert forall|k: int| 0 <= k < i + 1 && (#[trigger] native@[k]) != 0
                        implies exists|j: int| 0 <= j < found@.len()
                            && (#[trigger] found@[j]).inner == native@[k] by {
                        if k < i {
                            let j = choose|j: int|
                                0 <= j < prev_found.len() && (#[trigger] prev_found[j]).inner
                                    == native@[k];
                            assert(found@[j].inner == native@[k]);
                        } else {
                            assert(found@[found@.len() - 1].inner == native@[k]);
                        }
                    }
                    assert forall|j: int| 0 <= j < found@.len() implies exists|k: int|
                        0 <= k < i + 1 && native@[k] == (#[trigger] found@[j]).inner by {
                        if j < found@.len() - 1 {
                            let k = choose|k: int|
                                0 <= k < i && native@[k] == (#[trigger] prev_found[j]).inner;
                            assert(native@[k] == found@[j].inner);
                        } else {
                            assert(native@[i as int] == found@[j].inner);
                        }
                    }
                }
            } else {
                let ghost prev_d = self.diagnostics@;
                push_diag(&mut self.diagnostics, "monitor enumeration reported a null identity");
                proof {
                    lemma_diag_extend_chain(old(self).diagnostics@, prev_d, self.diagnostics@);
                }
            }
            i += 1;
        }
        proof {
            assert(native@.take(native@.len() as int) =~= native@);
        }
        let vanished = self.monitors.replace_all(&found);
        proof {
            assert forall|m: u64| #[trigger] self.monitors@.contains(m) implies (native@.contains(
                m,
            ) && m != 0) by {
                let j = choose|j: int| 0 <= j < found@.len() && (#[trigger] found@[j]).inner == m;
                let k = choose|k: int|
                    0 <= k < native@.len() && native@[k] == (#[trigger] found@[j]).inner;
                assert(native@[k] == m);
            }
            assert forall|m: u64| native@.contains(m) && m != 0 implies #[trigger] self
                .monitors@.contains(m) by {
                let k = choose|k: int| 0 <= k < native@.len() && #[trigger] native@[k] == m;
                assert((native@[k]) != 0);
                assert(exists|j: int| 0 <= j < found@.len() && (#[trigger] found@[j]).inner
                    == native@[k]);
            }
        }
        if vanished > 0 {
            let ghost prev_d = self.diagnostics@;
            push_diag(
                &mut self.diagnostics,
                "monitor enumeration dropped identities with no disconnect callback",
            );
            proof {
                lemma_diag_extend_chain(old(self).diagnostics@, prev_d, self.diagnostics@);
            }
        }
        found
    }

    /// The monitor's position, after the liveness gate. A stale identity
    /// yields the dead-handle error before the native layer is invoked — so
    /// `x`, `y` and `fault`, which describe the native call's outcome, only
    /// matter on the live path, where a recorded fault is raised and
    /// otherwise the reported position comes back.
    pub fn get_monitor_pos(
        &mut self,
        monitor: MonitorId,
        x: i32,
        y: i32,
        fault: Option<GlfwError>,
    ) -> (r: GlfwResult<[i32; 2]>)
        requires
            old(self).wf(),
            old(self).alive,
        ensures
            final(self).wf(),
            !old(self).monitors@.contains(monitor.inner) ==> {
                &&& r is Err
                &&& r->Err_0.code == ErrorCode::PlatformError
                &&& r->Err_0.description@ == dead_monitor_description("get_monitor_pos"@)
                &&& final(self).error_slot == old(self).error_slot
            },
            old(self).monitors@.contains(monitor.inner) ==> {
                &&& r == match fault {
                    Some(e) => Err::<[i32; 2], GlfwError>(e),
                    None => Ok::<[i32; 2], GlfwError>([x, y]),
                }
                &&& final(self).error_slot.last is None
            },
            final(self).alive == old(self).alive,
            final(self).init_thread == old(self).init_thread,
            final(self).events == old(self).events,
            final(self).monitors == old(self).monitors,
            final(self).contexts == old(self).contexts,
            final(self).diagnostics == old(self).diagnostics,
    {
        if !self.is_monitor_alive(monitor) {
            return Err(GlfwError::dead_monitor(monitor, "get_monitor_pos"));
        }
        self.checked([x, y], fault)
    }

    /// The monitor's work area, after the liveness gate; same shape as
    /// `get_monitor_pos`.
    pub fn get_monitor_work_area(
        &mut self,
        monitor: MonitorId,
        x: i32,
        y: i32,
        width: i32,
        height: i32,
        fault: Option<GlfwError>,
    ) -> (r: GlfwResult<[i32; 4]>)
        requires
            old(self).wf(),
            old(self).alive,
        ensures
            final(self).wf(),
            !old(self).monitors@.contains(monitor.inner) ==> {
                &&& r is Err
                &&& r->Err_0.code == ErrorCode::PlatformError
                &&& r->Err_0.description@ == dead_monitor_description("get_monitor_work_area"@)
                &&& final(self).error_slot == old(self).error_slot
            },
            old(self).monitors@.contains(monitor.inner) ==> {
                &&& r == match fault {
                    Some(e) => Err::<[i32; 4], GlfwError>(e),
                    None => Ok::<[i32; 4], GlfwError>([x, y, width, height]),
                }
                &&& final(self).error_slot.last is None
            },
            final(self).alive == old(self).alive,
            final(self).init_thread == old(self).init_thread,
            final(self).events == old(self).events,
            final(self).monitors == old(self).monitors,
            final(self).contexts == old(self).contexts,
            final(self).diagnostics == old(self).diagnostics,
    {
        if !self.is_monitor_alive(monitor) {
            return Err(GlfwError::dead_monitor(monitor, "get_monitor_work_area"));
        }
        self.checked([x, y, width, height], fault)
    }

    /// The monitor's physical size in millimetres, after the liveness gate;
    /// same shape as `get_monitor_pos`.
    pub fn get_monitor_physical_size(
        &mut self,
        monitor: MonitorId,
        width: i32,
        height: i32,
        fault: Option<GlfwError>,
    ) -> (r: GlfwResult<[i32; 2]>)
        requires
            old(self).wf(),
            old(self).alive,
        ensures
            final(self).wf(),
            !old(self).monitors@.contains(monitor.inner) ==> {
                &&& r is Err
                &&& r->Err_0.code == ErrorCode::PlatformError
                &&& r->Err_0.description@ == dead_monitor_description(
                    "get_monitor_physical_size"@,
                )
                &&& final(self).error_slot == old(self).error_slot
            },
            old(self).monitors@.contains(monitor.inner) ==> {
                &&& r == match fault {
                    Some(e) => Err::<[i32; 2], GlfwError>(e),
                    None => Ok::<[i32; 2], GlfwError>([width, height]),
                }
                &&& final(self).error_slot.last is None
            },
            final(self).alive == old(self).alive,
            final(self).init_thread == old(self).init_thread,
            final(self).events == old(self).events,
            final(self).monitors == old(self).monitors,
            final(self).contexts == old(self).contexts,
            final(self).diagnostics == old(self).diagnostics,
    {
        if !self.is_monitor_alive(monitor) {
            return Err(GlfwError::dead_monitor(monitor, "get_monitor_physical_size"));
        }
        self.checked([width, height], fault)
    }

    /// The monitor's human-readable name, after the liveness gate; same
    /// shape as `get_monitor_pos`.
    pub fn get_monitor_name(
        &mut self,
        monitor: MonitorId,
        name: String,
        fault: Option<GlfwError>,
    ) -> (r: GlfwResult<String>)
        requires
            old(self).wf(),
            old(self).alive,
        ensures
            final(self).wf(),
            !old(self).monitors@.contains(monitor.inner) ==> {
                &&& r is Err
                &&& r->Err_0.code == ErrorCode::PlatformError
                &&& r->Err_0.description@ == dead_monitor_description("get_monitor_name"@)
                &&& final(self).error_slot == old(self).error_slot
            },
            old(self).monitors@.contains(monitor.inner) ==> {
                &&& r == match fault {
                    Some(e) => Err::<String, GlfwError>(e),
                    None => Ok::<String, GlfwError>(name),
                }
                &&& final(self).error_slot.last is None
            },
            final(self).alive == old(self).alive,
            final(self).init_thread == old(self).init_thread,
            final(self).events == old(self).events,
            final(self).monitors == old(self).monitors,
            final(self).contexts == old(self).contexts,
            final(self).diagnostics == old(self).diagnostics,
    {
        if !self.is_monitor_alive(monitor) {
            return Err(GlfwError::dead_monitor(monitor, "get_monitor_name"));
        }
        self.checked(name, fault)
    }

    /// The monitor's gamma ramp — the three colour ramps packed red, green,
    /// blue into one vector — after the liveness gate; same shape as
    /// `get_monitor_pos`.
    pub fn get_gamma_ramp(
        &mut self,
        monitor: MonitorId,
        ramp: Vec<u16>,
        fault: Option<GlfwError>,
    ) -> (r: GlfwResult<Vec<u16>>)
        requires
            old(self).wf(),
            old(self).alive,
        ensures
            final(self).wf(),
            !old(self).monitors@.contains(monitor.inner) ==> {
                &&& r is Err
                &&& r->Err_0.code == ErrorCode::PlatformError
                &&& r->Err_0.description@ == dead_monitor_description("get_gamma_ramp"@)
                &&& final(self).error_slot == old(self).error_slot
            },
            old(self).monitors@.contains(monitor.inner) ==> {
                &&& r == match fault {
                    Some(e) => Err::<Vec<u16>, GlfwError>(e),
                    None => Ok::<Vec<u16>, GlfwError>(ramp),
                }
                &&& final(self).error_slot.last is None
            },
            final(self).alive == old(self).alive,
            final(self).init_thread == old(self).init_thread,
            final(self).events == old(self).events,
            final(self).monitors == old(self).monitors,
            final(self).contexts == old(self).contexts,
            final(self).diagnostics == old(self).diagnostics,
    {
        if !self.is_monitor_alive(monitor) {
            return Err(GlfwError::dead_monitor(monitor, "get_gamma_ramp"));
        }
        self.checked(ramp, fault)
    }

    /// Hands a packed gamma ramp to the native layer, after the liveness
    /// gate. The ramp packs the red, green and blue ramps in that order, so
    /// its length must be a multiple of three, and the per-colour size must
    /// equal the size of the monitor's current ramp (`current_size`, which
    /// the caller reads back from the native layer) — both are fatal
    /// assertions in the original and preconditions here.
    pub fn set_gamma_ramp(
        &mut self,
        monitor: MonitorId,
        ramp: &Vec<u16>,
        current_size: usize,
        fault: Option<GlfwError>,
    ) -> (r: GlfwResult<()>)
        requires
            old(self).wf(),
            old(self).alive,
            ramp@.len() % 3 == 0,
            old(self).monitors@.contains(monitor.inner) ==> current_size == ramp@.len() / 3,
        ensures
            final(self).wf(),
            !old(self).monitors@.contains(monitor.inner) ==> {
                &&& r is Err
                &&& r->Err_0.code == ErrorCode::PlatformError
                &&& r->Err_0.description@ == dead_monitor_description("set_gamma_ramp"@)
                &&& final(self).error_slot == old(self).error_slot
            },
            old(self).monitors@.contains(monitor.inner) ==> {
                &&& r == match fault {
                    Some(e) => Err::<(), GlfwError>(e),
                    None => Ok::<(), GlfwError>(()),
                }
                &&& final(self).error_slot.last is None
            },
            final(self).alive == old(self).alive,
            final(self).init_thread == old(self).init_thread,
            final(self).events == old(self).events,
            final(self).monitors == old(self).monitors,
            final(self).contexts == old(self).contexts,
            final(self).diagnostics == old(self).diagnostics,
    {
        let _ = current_size;
        let _ = ramp;
        if !self.is_monitor_alive(monitor) {
            return Err(GlfwError::dead_monitor(monitor, "set_gamma_ramp"));
        }
        self.checked((), fault)
    }

    /// Registers a window the native layer just created. The caller has
    /// applied the configuration hints (`WindowConfig::set_hints`) and made
    /// the native creation call; `id` is the identity it returned,
    /// `client_api` and `context_creation_api` the attributes read back from
    /// it, and `fault` whatever the error channel recorded.
    ///
    /// A full-screen request names a monitor; a stale monitor identity
    /// yields the dead-handle error before the native layer would be
    /// invoked, so on that path the other outcome arguments are irrelevant.
    pub fn create_window(
        &mut self,
        monitor: Option<MonitorId>,
        id: u64,
        client_api: ClientApi,
        context_creation_api: Option<ContextCreationApi>,
        fault: Option<GlfwError>,
    ) -> (r: GlfwResult<WindowId>)
        requires
            old(self).wf(),
            old(self).alive,
            id != 0,
            !old(self).contexts.has_window(id),
        ensures
            final(self).wf(),
            final(self).alive == old(self).alive,
            final(self).init_thread == old(self).init_thread,
            final(self).events == old(self).events,
            final(self).monitors == old(self).monitors,
            final(self).diagnostics == old(self).diagnostics,
            ({
                let dead = match monitor {
                    Some(m) => !old(self).monitors@.contains(m.inner),
                    None => false,
                };
                if dead {
                    &&& r is Err
                    &&& r->Err_0.code == ErrorCode::PlatformError
                    &&& r->Err_0.description@ == dead_monitor_description("window creation"@)
                    &&& final(self).contexts == old(self).contexts
                    &&& final(self).error_slot == old(self).error_slot
                } else {
                    match fault {
                        Some(e) => {
                            &&& r == Err::<WindowId, GlfwError>(e)
                            &&& final(self).contexts == old(self).contexts
                            &&& final(self).error_slot.last is None
                        },
                        None => {
                            &&& r == Ok::<WindowId, GlfwError>(WindowId(id))
                            &&& final(self).contexts.windows@ == old(self).contexts.windows@.push(
                                (WindowRecord {
                                    id,
                                    alive: true,
                                    current_on: None,
                                    client_api,
                                    context_creation_api,
                                    should_close: false,
                                }),
                            )
                            &&& final(self).error_slot.last is None
                        },
                    }
                }
            }),
    {
        if let Some(m) = monitor {
            if !self.is_monitor_alive(m) {
                return Err(GlfwError::dead_monitor(m, "window creation"));
            }
        }
        let created = self.checked(id, fault);
        match created {
            Err(e) => Err(e),
            Ok(id) => {
                self.contexts.register_window(id, client_api, context_creation_api);
                Ok(WindowId(id))
            },
        }
    }

    /// Starts destruction of a window from `thread`: releases its context if
    /// it is current on this very thread, marks the record dead, and — when
    /// the context is still current on a different thread, which the
    /// original treats as detectable misuse of the native layer — leaves one
    /// diagnostic record rather than silently repairing the state.
    pub fn destroy_window(&mut self, thread: u64, window: WindowId)
        requires
            old(self).wf(),
            old(self).alive,
            old(self).contexts.has_window(window.0),
            old(self).contexts.win(window.0).alive,
        ensures
            final(self).wf(),
            final(self).contexts.windows@ == spec_destroy(
                old(self).contexts.windows@,
                thread,
                window.0,
            ),
            !final(self).contexts.win(window.0).alive,
            final(self).alive == old(self).alive,
            final(self).init_thread == old(self).init_thread,
            final(self).events == old(self).events,
            final(self).monitors == old(self).monitors,
            final(self).error_slot.last is None,
            ({
                let misuse = old(self).contexts.win(window.0).current_on is Some && old(
                    self,
                ).contexts.win(window.0).current_on != Some(thread);
                if misuse {
                    diag_extended_by(old(self).diagnostics@, final(self).diagnostics@, 1)
                } else {
                    final(self).diagnostics == old(self).diagnostics
                }
            }),
    {
        clear_error(&mut self.error_slot);
        let misuse = self.contexts.destroy_window(thread, window);
        if misuse {
            push_diag(
                &mut self.diagnostics,
                "window destroyed while its context is current on another thread",
            );
        }
    }

    /// Hands out a proxy for the operations that are safe from any thread.
    pub fn new_proxy(&self) -> (r: EventLoopProxy)
        requires
            self.alive,
    {
        EventLoopProxy {  }
    }
}

/// The thread-mobile face of the event loop. The original shares an atomic
/// alive flag between the loop and its proxies; here the flag lives in the
/// one explicit state value, so a proxy is a unit capability whose methods
/// take that state and check the flag on every use.
#[derive(Debug, Clone)]
pub struct EventLoopProxy {}

impl EventLoopProxy {
    /// Whether the event loop this proxy belongs to is still alive. Every
    /// other proxy method demands it.
    pub fn is_alive(&self, el: &EventLoop) -> (r: bool)
        ensures
            r == el.alive,
    {
        el.alive
    }

    /// Runs `work` after checking that the event loop is alive — using a
    /// proxy after the lifecycle has ended is a programmer error the
    /// original treats as fatal, excluded here by precondition.
    pub fn with_proxy_alive<T, F: FnOnce() -> T>(&self, el: &EventLoop, work: F) -> (r: T)
        requires
            el.alive,
            work.requires(()),
        ensures
            work.ensures((), r),
    {
        work()
    }

    /// The alive check composed with error checking: the slot is cleared,
    /// the caller's native call produces `value` and records `fault` if it
    /// failed, and a recorded fault becomes the result.
    pub fn with_alive_checked<T>(&self, el: &mut EventLoop, value: T, fault: Option<GlfwError>)
        -> (r: GlfwResult<T>)
        requires
            old(el).alive,
        ensures
            final(el).error_slot.last is None,
            r == match fault {
                Some(e) => Err::<T, GlfwError>(e),
                None => Ok::<T, GlfwError>(value),
            },
            final(el).alive == old(el).alive,
            final(el).init_thread == old(el).init_thread,
            final(el).events == old(el).events,
            final(el).monitors == old(el).monitors,
            final(el).contexts == old(el).contexts,
            final(el).diagnostics == old(el).diagnostics,
    {
        el.checked(value, fault)
    }

    /// Releases whatever context is current on the calling thread.
    pub fn make_any_uncurrent(&self, el: &mut EventLoop, thread: u64)
        requires
            old(el).wf(),
            old(el).alive,
        ensures
            final(el).wf(),
            final(el).contexts.windows@ == spec_make_uncurrent(
                old(el).contexts.windows@,
                thread,
                None,
            ),
            final(el).contexts.spec_current_of(thread) is None,
            final(el).alive == old(el).alive,
            final(el).init_thread == old(el).init_thread,
            final(el).events == old(el).events,
            final(el).monitors == old(el).monitors,
            final(el).error_slot == old(el).error_slot,
            final(el).diagnostics == old(el).diagnostics,
    {
        el.contexts.make_uncurrent(thread, None);
    }

    /// The window whose context is current on the calling thread, if any.
    pub fn get_any_current(&self, el: &EventLoop, thread: u64) -> (r: Option<WindowId>)
        requires
            el.wf(),
            el.alive,
        ensures
            r == el.contexts.spec_current_of(thread),
    {
        el.contexts.get_current(thread)
    }
}


/// Every identity a fresh enumeration returns is alive immediately after it:
/// the rebuilt live set contains each returned monitor, so a liveness check
/// straight after enumeration cannot fail.
pub proof fn lemma_enumerated_monitors_alive(
    monitors: Set<u64>,
    native: Seq<u64>,
    r: Seq<MonitorId>,
)
    requires
        r == native.filter(|m: u64| m != 0).map_values(|m: u64| (MonitorId { inner: m })),
        forall|m: u64| #[trigger] monitors.contains(m) <==> (native.contains(m) && m != 0),
    ensures
        forall|j: int| 0 <= j < r.len() ==> monitors.contains((#[trigger] r[j]).inner),
{
    let kept = native.filter(|m: u64| m != 0);
    assert forall|j: int| 0 <= j < r.len() implies monitors.contains((#[trigger] r[j]).inner) by {
        assert(r[j] == (MonitorId { inner: kept[j] }));
        native.lemma_filter_pred(|m: u64| m != 0, j);
        assert(kept.contains(kept[j]));
        native.lemma_filter_contains_rev(|m: u64| m != 0, kept[j]);
    }
}

} // verus!
