//! The context-currency tracker: which window's rendering context is current
//! on which thread.
//!
//! The native layer keeps one "current context" slot per OS thread and makes
//! it undefined behaviour for one context to be current on two threads. The
//! registry below is the shared bookkeeping that makes every transition
//! checkable: each window record carries an alive flag and the thread (if
//! any) on which its context is current, and the well-formedness invariant
//! `wf` pins the single-owner rule. Transitions that the original enforces
//! with runtime assertions (making a dead window current, or one current on
//! another thread) are excluded here by preconditions, so a verified caller
//! can never reach the undefined native behaviour.

use vstd::prelude::*;

use crate::types::ClientApi;
use crate::types::ContextCreationApi;
use crate::window::WindowId;

verus! {

/// The shared per-window state: liveness, currency, and the two context
/// attributes fixed at creation time.
#[derive(Debug, Clone, Copy, PartialEq, Eq, Structural)]
pub struct WindowRecord {
    /// The window's identity; never zero.
    pub id: u64,
    /// False from the moment destruction starts; set false exactly once.
    pub alive: bool,
    /// The thread on which this window's context is current, if any.
    pub current_on: Option<u64>,
    /// The client API the window was created with; `NoAPI` means the window
    /// has no rendering context at all.
    pub client_api: ClientApi,
    /// How the context was created; `None` for windows without a context.
    pub context_creation_api: Option<ContextCreationApi>,
    /// The window's should-close flag.
    pub should_close: bool,
}

/// `r` with its currency replaced.
pub open spec fn with_current(r: WindowRecord, current_on: Option<u64>) -> WindowRecord {
    WindowRecord {
        id: r.id,
        alive: r.alive,
        current_on,
        client_api: r.client_api,
        context_creation_api: r.context_creation_api,
        should_close: r.should_close,
    }
}

/// What one record becomes when `window` is made current on `thread`: the
/// target becomes current there, whatever was current on that thread is
/// released, and every other record is untouched.
pub open spec fn record_after_make_current(r: WindowRecord, thread: u64, window: u64) -> WindowRecord {
    if r.id == window {
        with_current(r, Some(thread))
    } else if r.current_on == Some(thread) {
        with_current(r, None)
    } else {
        r
    }
}

/// What one record becomes when `which` (or, for `None`, whatever is
/// current) is made uncurrent on `thread`. A window that is not current on
/// this very thread is untouched.
pub open spec fn record_after_make_uncurrent(
    r: WindowRecord,
    thread: u64,
    which: Option<u64>,
) -> WindowRecord {
    match which {
        Some(w) => if r.id == w && r.current_on == Some(thread) {
            with_current(r, None)
        } else {
            r
        },
        None => if r.current_on == Some(thread) {
            with_current(r, None)
        } else {
            r
        },
    }
}

/// What one record becomes when `window` is destroyed from `thread`: it is
/// no longer alive, and if it was current on the destroying thread it is
/// released first. Currency held by another thread is left in place — that
/// misuse is detected and reported, not silently repaired.
pub open spec fn record_after_destroy(r: WindowRecord, thread: u64, window: u64) -> WindowRecord {
    if r.id == window {
        WindowRecord {
            id: r.id,
            alive: false,
            current_on: if r.current_on == Some(thread) {
                None
            } else {
                r.current_on
            },
            client_api: r.client_api,
            context_creation_api: r.context_creation_api,
            should_close: r.should_close,
        }
    } else {
        r
    }
}

/// The records after `window` is made current on `thread`.
pub open spec fn spec_make_current(s: Seq<WindowRecord>, thread: u64, window: u64) -> Seq<
    WindowRecord,
> {
    s.map_values(|r: WindowRecord| record_after_make_current(r, thread, window))
}

/// The records after `which` is made uncurrent on `thread`.
pub open spec fn spec_make_uncurrent(
    s: Seq<WindowRecord>,
    thread: u64,
    which: Option<u64>,
) -> Seq<WindowRecord> {
    s.map_values(|r: WindowRecord| record_after_make_uncurrent(r, thread, which))
}

/// The records after `window` is destroyed from `thread`.
pub open spec fn spec_destroy(s: Seq<WindowRecord>, thread: u64, window: u64) -> Seq<
    WindowRecord,
> {
    s.map_values(|r: WindowRecord| record_after_destroy(r, thread, window))
}

/// Whether a record with identity `w` exists.
pub open spec fn seq_has_window(s: Seq<WindowRecord>, w: u64) -> bool {
    exists|i: int| 0 <= i < s.len() && s[i].id == w
}

/// The record with identity `w` (meaningful when identities are unique and
/// the record exists).
pub open spec fn seq_win(s: Seq<WindowRecord>, w: u64) -> WindowRecord {
    s[choose|i: int| 0 <= i < s.len() && s[i].id == w]
}

/// The tracker over every window record the process knows.
#[derive(Debug)]
pub struct ContextRegistry {
    pub windows: Vec<WindowRecord>,
}

impl ContextRegistry {
    /// Well-formedness: identities are unique and non-zero, and — the
    /// single-owner rule — no two records are current on the same thread.
    pub open spec fn wf(self) -> bool {
        &&& forall|i: int, j: int|
            0 <= i < self.windows@.len() && 0 <= j < self.windows@.len() && i != j
                ==> (#[trigger] self.windows@[i]).id != (#[trigger] self.windows@[j]).id
        &&& forall|i: int| 0 <= i < self.windows@.len()
            ==> (#[trigger] self.windows@[i]).id != 0
        &&& forall|i: int, j: int|
            0 <= i < self.windows@.len() && 0 <= j < self.windows@.len() && i != j
                && (#[trigger] self.windows@[i]).current_on is Some
                ==> self.windows@[i].current_on != (#[trigger] self.windows@[j]).current_on
    }

    /// Whether a record with identity `w` exists.
    pub open spec fn has_window(self, w: u64) -> bool {
        seq_has_window(self.windows@, w)
    }

    /// The record with identity `w`.
    pub open spec fn win(self, w: u64) -> WindowRecord {
        seq_win(self.windows@, w)
    }

    /// The window current on `thread`, if any.
    pub open spec fn spec_current_of(self, thread: u64) -> Option<WindowId> {
        if exists|i: int|
            0 <= i < self.windows@.len() && (#[trigger] self.windows@[i]).current_on == Some(
                thread,
            ) {
            Some(
                WindowId(
                    self.windows@[choose|i: int|
                        0 <= i < self.windows@.len() && (#[trigger] self.windows@[i]).current_on
                            == Some(thread)].id,
                ),
            )
        } else {
            None
        }
    }

    /// A tracker with no windows.
    pub fn new() -> (r: Self)
        ensures
            r.wf(),
            r.windows@.len() == 0,
    {
        ContextRegistry { windows: Vec::new() }
    }

    /// The index holding identity `w`, if the record exists.
    fn find(&self, w: u64) -> (r: Option<usize>)
        requires
            self.wf(),
        ensures
            match r {
                Some(i) => i < self.windows@.len() && self.windows@[i as int].id == w
                    && self.win(w) == self.windows@[i as int] && self.has_window(w),
                None => !self.has_window(w),
            },
    {
        let mut i: usize = 0;
        while i < self.windows.len()
            invariant
                self.wf(),
                i <= self.windows.len(),
                forall|j: int| 0 <= j < i ==> (#[trigger] self.windows@[j]).id != w,
            decreases self.windows.len() - i,
        {
            if self.windows[i].id == w {
                proof {
                    assert(seq_has_window(self.windows@, w));
                    let k = choose|k: int| 0 <= k < self.windows@.len() && self.windows@[k].id == w;
                    assert(k == i);
                }
                return Some(i);
            }
            i += 1;
        }
        None
    }

    /// Adds a freshly created window: alive, current nowhere, close flag
    /// clear, with the two context attributes the native layer reported for
    /// it.
    pub fn register_window(
        &mut self,
        id: u64,
        client_api: ClientApi,
        context_creation_api: Option<ContextCreationApi>,
    )
        requires
            old(self).wf(),
            id != 0,
            !old(self).has_window(id),
        ensures
            final(self).wf(),
            final(self).windows@ == old(self).windows@.push(
                (WindowRecord {
                    id,
                    alive: true,
                    current_on: None,
                    client_api,
                    context_creation_api,
                    should_close: false,
                }),
            ),
            final(self).has_window(id),
            final(self).win(id) == (WindowRecord {
                id,
                alive: true,
                current_on: None,
                client_api,
                context_creation_api,
                should_close: false,
            }),
    {
        let rec = WindowRecord {
            id,
            alive: true,
            current_on: None,
            client_api,
            context_creation_api,
            should_close: false,
        };
        self.windows.push(rec);
        proof {
            let s = self.windows@;
            let n = s.len() - 1;
            assert(s[n] == rec);
            assert(forall|j: int| 0 <= j < n ==> s[j] == old(self).windows@[j]);
            assert(seq_has_window(s, id));
            let k = choose|k: int| 0 <= k < s.len() && s[k].id == id;
            assert(!seq_has_window(old(self).windows@, id));
            assert(k == n);
        }
    }

    /// Makes `window` current on `thread`, releasing whatever was current on
    /// that thread before.
    ///
    /// The preconditions are the original's runtime assertions: the window
    /// must be alive, must have a rendering context, and must not be current
    /// on another thread — making it current there anyway would be undefined
    /// behaviour in the native layer, so a caller that cannot rule it out is
    /// rejected at verification time rather than trusted to fail at run
    /// time.
    pub fn make_current(&mut self, thread: u64, window: WindowId)
        requires
            old(self).wf(),
            old(self).has_window(window.0),
            old(self).win(window.0).alive,
            old(self).win(window.0).client_api != ClientApi::NoAPI,
            old(self).win(window.0).current_on is None || old(self).win(window.0).current_on
                == Some(thread),
        ensures
            final(self).wf(),
            final(self).windows@ == spec_make_current(old(self).windows@, thread, window.0),
            final(self).has_window(window.0),
            final(self).win(window.0) == with_current(old(self).win(window.0), Some(thread)),
            final(self).spec_current_of(thread) == Some(window),
    {
        let n = self.windows.len();
        let mut i: usize = 0;
        while i < n
            invariant
                n == self.windows@.len(),
                n == old(self).windows@.len(),
                i <= n,
                forall|j: int| 0 <= j < i ==> self.windows@[j] == record_after_make_current(
                    #[trigger] old(self).windows@[j], thread, window.0),
                forall|j: int| i <= j < n ==> self.windows@[j] == old(self).windows@[j],
            decreases n - i,
        {
            let rec = self.windows[i];
            if rec.id == window.0 {
                self.windows[i] = WindowRecord {
                    id: rec.id,
                    alive: rec.alive,
                    current_on: Some(thread),
                    client_api: rec.client_api,
                    context_creation_api: rec.context_creation_api,
                    should_close: rec.should_close,
                };
            } else if matches_current(rec.current_on, thread) {
                self.windows[i] = WindowRecord {
                    id: rec.id,
                    alive: rec.alive,
                    current_on: None,
                    client_api: rec.client_api,
                    context_creation_api: rec.context_creation_api,
                    should_close: rec.should_close,
                };
            }
            i += 1;
        }
        proof {
            let pre = old(self).windows@;
            let post = self.windows@;
            assert(post =~= spec_make_current(pre, thread, window.0));
            let iw = choose|k: int| 0 <= k < pre.len() && pre[k].id == window.0;
            assert(post[iw] == with_current(pre[iw], Some(thread)));
            assert(seq_has_window(post, window.0));
            let k2 = choose|k: int| 0 <= k < post.len() && post[k].id == window.0;
            assert(pre[k2].id == post[k2].id);
            assert(k2 == iw);
            assert(final(self).win(window.0) == with_current(old(self).win(window.0), Some(thread)));
            // well-formedness: identities are untouched, and the only record
            // now current on `thread` is the target
            assert forall|a: int, b: int|
                0 <= a < post.len() && 0 <= b < post.len() && a != b
                    && (#[trigger] post[a]).current_on is Some
                implies post[a].current_on != (#[trigger] post[b]).current_on by {
                assert(post[a] == record_after_make_current(pre[a], thread, window.0));
                assert(post[b] == record_after_make_current(pre[b], thread, window.0));
            }
            assert(final(self).wf());
            // the thread's current window is now the target
            let kc = choose|k: int|
                0 <= k < post.len() && (#[trigger] post[k]).current_on == Some(thread);
            assert(post[iw].current_on == Some(thread));
            assert(kc == iw);
            assert(final(self).spec_current_of(thread) == Some(window));
        }
    }

    /// Makes `which` uncurrent on `thread`; with `None`, releases whatever
    /// is current there. A window that is not current on this very thread is
    /// left untouched (so releasing is a no-op when nothing matches).
    ///
    /// The precondition is the original's runtime assertion: naming a window
    /// that is current on this thread but already dead is a caller bug.
    pub fn make_uncurrent(&mut self, thread: u64, which: Option<WindowId>)
        requires
            old(self).wf(),
            match which {
                Some(w) => old(self).has_window(w.0) && (old(self).win(w.0).current_on == Some(
                    thread,
                ) ==> old(self).win(w.0).alive),
                None => true,
            },
        ensures
            final(self).wf(),
            final(self).windows@ == spec_make_uncurrent(
                old(self).windows@,
                thread,
                match which {
                    Some(w) => Some(w.0),
                    None => None,
                },
            ),
            final(self).spec_current_of(thread) == match which {
                Some(w) => if old(self).spec_current_of(thread) == Some(w) {
                    None::<WindowId>
                } else {
                    old(self).spec_current_of(thread)
                },
                None => None::<WindowId>,
            },
    {
        let ghost which_id: Option<u64> = match which {
            Some(w) => Some(w.0),
            None => None,
        };
        let n = self.windows.len();
        let mut i: usize = 0;
        while i < n
            invariant
                n == self.windows@.len(),
                n == old(self).windows@.len(),
                i <= n,
                which_id == (match which {
                    Some(w) => Some(w.0),
                    None => None::<u64>,
                }),
                forall|j: int| 0 <= j < i ==> self.windows@[j] == record_after_make_uncurrent(
                    #[trigger] old(self).windows@[j], thread, which_id),
                forall|j: int| i <= j < n ==> self.windows@[j] == old(self).windows@[j],
            decreases n - i,
        {
            let rec = self.windows[i];
            let matches_target = match which {
                Some(w) => rec.id == w.0,
                None => true,
            };
            if matches_target && matches_current(rec.current_on, thread) {
                self.windows[i] = WindowRecord {
                    id: rec.id,
                    alive: rec.alive,
                    current_on: None,
                    client_api: rec.client_api,
                    context_creation_api: rec.context_creation_api,
                    should_close: rec.should_close,
                };
            }
            i += 1;
        }
        proof {
            let pre = old(self).windows@;
            let post = self.windows@;
            assert(post =~= spec_make_uncurrent(pre, thread, which_id));
            assert forall|a: int, b: int|
                0 <= a < post.len() && 0 <= b < post.len() && a != b
                    && (#[trigger] post[a]).current_on is Some
                implies post[a].current_on != (#[trigger] post[b]).current_on by {
                assert(post[a] == record_after_make_uncurrent(pre[a], thread, which_id));
                assert(post[b] == record_after_make_uncurrent(pre[b], thread, which_id));
            }
            assert(final(self).wf());
            lemma_uncurrent_current_of(pre, post, thread, which_id);
            match which {
                Some(w) => {
                    if old(self).spec_current_of(thread) == Some(w) {
                        assert(final(self).spec_current_of(thread) is None);
                    } else {
                        assert(final(self).spec_current_of(thread) == old(self).spec_current_of(
                            thread,
                        ));
                    }
                }
                None => {
                    assert(final(self).spec_current_of(thread) is None);
                }
            }
        }
    }

    /// Starts destruction of `window` from `thread`: releases it if it is
    /// current on this thread, then marks it dead. Returns whether the
    /// window was, at that moment, still current on a different thread —
    /// the detectable misuse the caller must report rather than ignore.
    pub fn destroy_window(&mut self, thread: u64, window: WindowId) -> (misuse: bool)
        requires
            old(self).wf(),
            old(self).has_window(window.0),
            old(self).win(window.0).alive,
        ensures
            final(self).wf(),
            final(self).windows@ == spec_destroy(old(self).windows@, thread, window.0),
            misuse == (old(self).win(window.0).current_on is Some && old(self).win(
                window.0,
            ).current_on != Some(thread)),
            final(self).has_window(window.0),
            !final(self).win(window.0).alive,
    {
        let n = self.windows.len();
        let mut i: usize = 0;
        let mut misuse = false;
        while i < n
            invariant
                n == self.windows@.len(),
                n == old(self).windows@.len(),
                i <= n,
                forall|j: int| 0 <= j < i ==> self.windows@[j] == record_after_destroy(
                    #[trigger] old(self).windows@[j], thread, window.0),
                forall|j: int| i <= j < n ==> self.windows@[j] == old(self).windows@[j],
                misuse == exists|j: int| 0 <= j < i && (#[trigger] old(self).windows@[j]).id
                    == window.0 && old(self).windows@[j].current_on is Some
                    && old(self).windows@[j].current_on != Some(thread),
            decreases n - i,
        {
            let rec = self.windows[i];
            if rec.id == window.0 {
                let released = matches_current(rec.current_on, thread);
                if !released && rec.current_on.is_some() {
                    misuse = true;
                }
                self.windows[i] = WindowRecord {
                    id: rec.id,
                    alive: false,
                    current_on: if released {
                        None
                    } else {
                        rec.current_on
                    },
                    client_api: rec.client_api,
                    context_creation_api: rec.context_creation_api,
                    should_close: rec.should_close,
                };
            }
            i += 1;
        }
        proof {
            let pre = old(self).windows@;
            let post = self.windows@;
            assert(post =~= spec_destroy(pre, thread, window.0));
            let iw = choose|k: int| 0 <= k < pre.len() && pre[k].id == window.0;
            assert(post[iw] == record_after_destroy(pre[iw], thread, window.0));
            assert forall|a: int, b: int|
                0 <= a < post.len() && 0 <= b < post.len() && a != b
                    && (#[trigger] post[a]).current_on is Some
                implies post[a].current_on != (#[trigger] post[b]).current_on by {
                assert(post[a] == record_after_destroy(pre[a], thread, window.0));
                assert(post[b] == record_after_destroy(pre[b], thread, window.0));
            }
            assert(final(self).wf());
            assert(seq_has_window(post, window.0));
            let k2 = choose|k: int| 0 <= k < post.len() && post[k].id == window.0;
            assert(pre[k2].id == post[k2].id);
            assert(k2 == iw);
        }
        misuse
    }

    /// Whether the window's context is current on any thread at all.
    pub fn is_current_somewhere(&self, window: WindowId) -> (r: bool)
        requires
            self.wf(),
            self.has_window(window.0),
        ensures
            r == (self.win(window.0).current_on is Some),
    {
        let i = self.find(window.0).unwrap();
        self.windows[i].current_on.is_some()
    }

    /// Whether the window's context is current on the given thread (the
    /// calling thread, in the original's ambient formulation).
    pub fn is_current_on_current_thread(&self, thread: u64, window: WindowId) -> (r: bool)
        requires
            self.wf(),
            self.has_window(window.0),
        ensures
            r == (self.win(window.0).current_on == Some(thread)),
    {
        let i = self.find(window.0).unwrap();
        match self.windows[i].current_on {
            Some(t) => t == thread,
            None => false,
        }
    }

    /// The window whose context is current on `thread`, if any.
    pub fn get_current(&self, thread: u64) -> (r: Option<WindowId>)
        requires
            self.wf(),
        ensures
            r == self.spec_current_of(thread),
    {
        let n = self.windows.len();
        let mut i: usize = 0;
        while i < n
            invariant
                self.wf(),
                n == self.windows@.len(),
                i <= n,
                forall|j: int| 0 <= j < i ==> (#[trigger] self.windows@[j]).current_on != Some(
                    thread,
                ),
            decreases n - i,
        {
            if matches_current(self.windows[i].current_on, thread) {
                proof {
                    let k = choose|k: int|
                        0 <= k < self.windows@.len() && (#[trigger] self.windows@[k]).current_on
                            == Some(thread);
                    assert(k == i);
                }
                return Some(WindowId(self.windows[i].id));
            }
            i += 1;
        }
        None
    }

    /// Whether any window's context is current on `thread`.
    pub fn is_any_current(&self, thread: u64) -> (r: bool)
        requires
            self.wf(),
        ensures
            r == (self.spec_current_of(thread) is Some),
    {
        self.get_current(thread).is_some()
    }

    /// Whether the window was created with a rendering context.
    pub fn is_gl_window(&self, window: WindowId) -> (r: bool)
        requires
            self.wf(),
            self.has_window(window.0),
        ensures
            r == (self.win(window.0).client_api != ClientApi::NoAPI),
    {
        let i = self.find(window.0).unwrap();
        let api = self.windows[i].client_api;
        !matches!(api, ClientApi::NoAPI)
    }

    /// Sets the window's should-close flag. The window must still be alive.
    pub fn set_should_close(&mut self, window: WindowId, should_close: bool)
        requires
            old(self).wf(),
            old(self).has_window(window.0),
            old(self).win(window.0).alive,
        ensures
            final(self).wf(),
            final(self).windows@.len() == old(self).windows@.len(),
            forall|j: int| 0 <= j < old(self).windows@.len()
                ==> final(self).windows@[j] == if (#[trigger] old(self).windows@[j]).id
                    == window.0 {
                    (WindowRecord { should_close, ..old(self).windows@[j] })
                } else {
                    old(self).windows@[j]
                },
            final(self).win(window.0) == (WindowRecord {
                should_close,
                ..old(self).win(window.0)
            }),
    {
        let i = self.find(window.0).unwrap();
        let rec = self.windows[i];
        self.windows[i] = WindowRecord {
            id: rec.id,
            alive: rec.alive,
            current_on: rec.current_on,
            client_api: rec.client_api,
            context_creation_api: rec.context_creation_api,
            should_close,
        };
        proof {
            let pre = old(self).windows@;
            let post = self.windows@;
            let iw = choose|k: int| 0 <= k < pre.len() && pre[k].id == window.0;
            assert(iw == i as int);
            assert(seq_has_window(post, window.0));
            let k2 = choose|k: int| 0 <= k < post.len() && post[k].id == window.0;
            assert(pre[k2].id == post[k2].id);
            assert(k2 == iw);
        }
    }

    /// Reads the window's should-close flag. The window must still be alive.
    pub fn should_close(&self, window: WindowId) -> (r: bool)
        requires
            self.wf(),
            self.has_window(window.0),
            self.win(window.0).alive,
        ensures
            r == self.win(window.0).should_close,
    {
        let i = self.find(window.0).unwrap();
        self.windows[i].should_close
    }
}

/// Whether `current_on` names exactly `thread`.
fn matches_current(current_on: Option<u64>, thread: u64) -> (r: bool)
    ensures
        r == (current_on == Some(thread)),
{
    match current_on {
        Some(t) => t == thread,
        None => false,
    }
}

/// How releasing affects the thread's current window, stated once for both
/// forms of `make_uncurrent`.
proof fn lemma_uncurrent_current_of(
    pre: Seq<WindowRecord>,
    post: Seq<WindowRecord>,
    thread: u64,
    which_id: Option<u64>,
)
    requires
        post == spec_make_uncurrent(pre, thread, which_id),
    ensures
        forall|k: int| 0 <= k < post.len() ==> ((#[trigger] post[k]).current_on == Some(thread)
            <==> pre[k].current_on == Some(thread) && which_id is Some && pre[k].id
            != which_id->0),
{
    assert forall|k: int| 0 <= k < post.len() implies ((#[trigger] post[k]).current_on == Some(
        thread,
    ) <==> pre[k].current_on == Some(thread) && which_id is Some && pre[k].id != which_id->0) by {
        assert(post[k] == record_after_make_uncurrent(pre[k], thread, which_id));
    }
}

/// After `h1` and then `h2` are made current on the same thread, `h2` is the
/// thread's current window and `h1` is current nowhere.
pub proof fn lemma_make_current_handoff(
    s: Seq<WindowRecord>,
    thread: u64,
    h1: WindowId,
    h2: WindowId,
)
    requires
        seq_has_window(s, h1.0),
        seq_has_window(s, h2.0),
        h1.0 != h2.0,
        forall|i: int, j: int| 0 <= i < s.len() && 0 <= j < s.len() && i != j
            ==> (#[trigger] s[i]).id != (#[trigger] s[j]).id,
    ensures
        ({
            let post = spec_make_current(spec_make_current(s, thread, h1.0), thread, h2.0);
            &&& seq_win(post, h2.0).current_on == Some(thread)
            &&& seq_win(post, h1.0).current_on is None
        }),
{
    let mid = spec_make_current(s, thread, h1.0);
    let post = spec_make_current(mid, thread, h2.0);
    let i1 = choose|i: int| 0 <= i < s.len() && s[i].id == h1.0;
    let i2 = choose|i: int| 0 <= i < s.len() && s[i].id == h2.0;
    assert(mid[i1] == record_after_make_current(s[i1], thread, h1.0));
    assert(post[i1] == record_after_make_current(mid[i1], thread, h2.0));
    assert(post[i1].current_on is None);
    assert(post[i2] == record_after_make_current(mid[i2], thread, h2.0));
    assert(post[i2].current_on == Some(thread));
    assert(forall|k: int| 0 <= k < post.len() ==> (#[trigger] post[k]).id == s[k].id);
    let k1 = choose|k: int| 0 <= k < post.len() && post[k].id == h1.0;
    assert(post[i1].id == h1.0);
    assert(k1 == i1);
    let k2 = choose|k: int| 0 <= k < post.len() && post[k].id == h2.0;
    assert(post[i2].id == h2.0);
    assert(k2 == i2);
}

/// A window is current on at most one thread: two different threads never
/// name the same current window.
pub proof fn lemma_single_thread_currency(reg: ContextRegistry, t1: u64, t2: u64)
    requires
        reg.wf(),
        t1 != t2,
        reg.spec_current_of(t1) is Some,
    ensures
        reg.spec_current_of(t1) != reg.spec_current_of(t2),
{
    let s = reg.windows@;
    let i1 = choose|i: int| 0 <= i < s.len() && (#[trigger] s[i]).current_on == Some(t1);
    if reg.spec_current_of(t2) is Some {
        let i2 = choose|i: int| 0 <= i < s.len() && (#[trigger] s[i]).current_on == Some(t2);
        assert(i1 != i2);
        assert(s[i1].id != s[i2].id);
    }
}

} // verus!
