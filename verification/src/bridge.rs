//! The window handle bridge: associates each window object with the native
//! window handle the platform owns, and routes window-system messages to
//! the right object.
//!
//! The platform delivers messages by raw handle and decides when a window
//! dies; the bridge models the association explicitly as a handle table.
//! Lookups are fallible — a message for an unknown handle is simply
//! forwarded — and the destruction notification clears the stored
//! association exactly once, handing the window object back to the caller,
//! so the held object can never be released twice.

use vstd::prelude::*;

use crate::window::{route_message, Theme, WindowInner, WindowView, WM_NCDESTROY};

verus! {

/// How the bridge disposed of a delivered message.
#[derive(Clone, Copy, Debug, PartialEq, Eq, Structural)]
pub enum DispatchTag {
    /// Forward the message to the default window procedure.
    Forwarded,
    /// The message was fully handled; do not forward it.
    Consumed,
    /// A destruction notification cleared the stored association.
    Destroyed,
}

/// What the bridge did with a delivered message.
pub enum Dispatch {
    /// No window is associated with the handle, or the message was only
    /// intercepted on the way through: forward it to the default window
    /// procedure.
    Forwarded,
    /// The message was fully handled; do not forward it.
    Consumed,
    /// The destruction notification: the association was cleared, and the
    /// window object — its handle nulled — is handed back to the caller,
    /// the single point where the bridge releases its held ownership.
    /// The message is still forwarded to the default window procedure.
    Destroyed(WindowInner),
}

impl Dispatch {
    /// The tag of this disposition.
    pub open spec fn tag(&self) -> DispatchTag {
        match self {
            Dispatch::Forwarded => DispatchTag::Forwarded,
            Dispatch::Consumed => DispatchTag::Consumed,
            Dispatch::Destroyed(_) => DispatchTag::Destroyed,
        }
    }
}

/// The model of one message delivery against an association map: an
/// unknown handle is forwarded untouched; otherwise the message is routed
/// to the associated window as [`route_message`] describes, and a
/// destruction notification (not claimed by the input adapter) removes the
/// association.
pub open spec fn dispatch_model(
    m: Map<int, WindowView>,
    hwnd: int,
    umsg: u32,
    input_claimed: bool,
) -> (Map<int, WindowView>, DispatchTag) {
    if !m.dom().contains(hwnd) {
        (m, DispatchTag::Forwarded)
    } else {
        let routed = route_message(m[hwnd], umsg, input_claimed);
        if umsg == WM_NCDESTROY && !input_claimed {
            (m.remove(hwnd), DispatchTag::Destroyed)
        } else if routed.1 {
            (m.insert(hwnd, routed.0), DispatchTag::Consumed)
        } else {
            (m.insert(hwnd, routed.0), DispatchTag::Forwarded)
        }
    }
}

/// A destruction notification clears the stored association exactly once:
/// the first delivery removes it (handing the held window back), and a
/// repeated delivery for the same handle finds nothing, changes nothing
/// and is simply forwarded — the held object cannot be released twice.
pub proof fn lemma_destroy_exactly_once(m: Map<int, WindowView>, hwnd: int)
    requires
        m.dom().contains(hwnd),
    ensures
        ({
            let first = dispatch_model(m, hwnd, WM_NCDESTROY, false);
            let second = dispatch_model(first.0, hwnd, WM_NCDESTROY, false);
            &&& first.1 == DispatchTag::Destroyed
            &&& !first.0.dom().contains(hwnd)
            &&& second.1 == DispatchTag::Forwarded
            &&& second.0 == first.0
        }),
{
}

/// The window views of a sequence of windows.
spec fn views_of(s: Seq<WindowInner>) -> Seq<WindowView> {
    s.map_values(|w: WindowInner| w@)
}

/// No two windows in the sequence share a native handle.
spec fn handles_unique(s: Seq<WindowView>) -> bool {
    forall|i: int, j: int|
        0 <= i < j < s.len() ==> (#[trigger] s[i]).hwnd != (#[trigger] s[j]).hwnd
}

/// Every window in the sequence still has its native handle.
spec fn handles_nonzero(s: Seq<WindowView>) -> bool {
    forall|i: int| 0 <= i < s.len() ==> (#[trigger] s[i]).hwnd != 0
}

/// The association map of a sequence of windows: each window keyed by its
/// own native handle. Later entries take precedence; the bridge keeps the
/// handles unique, so precedence never actually matters.
spec fn assoc_of(s: Seq<WindowView>) -> Map<int, WindowView>
    decreases s.len(),
{
    if s.len() == 0 {
        Map::empty()
    } else {
        assoc_of(s.drop_last()).insert(s.last().hwnd, s.last())
    }
}

/// A handle belongs to the association map exactly when some window in the
/// sequence carries it.
proof fn lemma_assoc_contains(s: Seq<WindowView>, h: int)
    ensures
        assoc_of(s).dom().contains(h) <==> exists|i: int| 0 <= i < s.len() && (#[trigger] s[i]).hwnd == h,
    decreases s.len(),
{
    if s.len() > 0 {
        lemma_assoc_contains(s.drop_last(), h);
        if s.last().hwnd == h {
            assert(s[s.len() - 1].hwnd == h);
        } else {
            if exists|i: int| 0 <= i < s.len() && (#[trigger] s[i]).hwnd == h {
                let i = choose|i: int| 0 <= i < s.len() && (#[trigger] s[i]).hwnd == h;
                assert(s.drop_last()[i] == s[i]);
            }
            if exists|i: int| 0 <= i < s.drop_last().len() && (#[trigger] s.drop_last()[i]).hwnd == h {
                let i = choose|i: int|
                    0 <= i < s.drop_last().len() && (#[trigger] s.drop_last()[i]).hwnd == h;
                assert(s[i].hwnd == h);
            }
        }
    }
}

/// Dropping the last window keeps the handles unique.
proof fn lemma_unique_drop_last(s: Seq<WindowView>)
    requires
        s.len() > 0,
        handles_unique(s),
    ensures
        handles_unique(s.drop_last()),
{
    assert forall|i: int, j: int| 0 <= i < j < s.drop_last().len() implies (#[trigger] s.drop_last()[i]).hwnd
        != (#[trigger] s.drop_last()[j]).hwnd by {
        assert(s.drop_last()[i] == s[i]);
        assert(s.drop_last()[j] == s[j]);
    }
}

/// With unique handles, the association maps each window's handle to that
/// window.
proof fn lemma_assoc_index(s: Seq<WindowView>, i: int)
    requires
        handles_unique(s),
        0 <= i < s.len(),
    ensures
        assoc_of(s).dom().contains(s[i].hwnd),
        assoc_of(s)[s[i].hwnd] == s[i],
    decreases s.len(),
{
    if i < s.len() - 1 {
        lemma_unique_drop_last(s);
        lemma_assoc_index(s.drop_last(), i);
        assert(s.drop_last()[i] == s[i]);
        assert(s.last().hwnd != s[i].hwnd);
    }
}

/// Appending a window inserts it into the association.
proof fn lemma_assoc_push(s: Seq<WindowView>, w: WindowView)
    ensures
        assoc_of(s.push(w)) == assoc_of(s).insert(w.hwnd, w),
{
    assert(s.push(w).drop_last() =~= s);
    assert(s.push(w).last() == w);
}

/// Replacing a window by another with the same handle updates the
/// association at that handle.
proof fn lemma_assoc_update(s: Seq<WindowView>, i: int, w: WindowView)
    requires
        handles_unique(s),
        0 <= i < s.len(),
        w.hwnd == s[i].hwnd,
    ensures
        assoc_of(s.update(i, w)) == assoc_of(s).insert(w.hwnd, w),
    decreases s.len(),
{
    let t = s.update(i, w);
    if i == s.len() - 1 {
        assert(t.drop_last() =~= s.drop_last());
        assert(t.last() == w);
        assert(assoc_of(s.drop_last()).insert(s.last().hwnd, s.last()).insert(w.hwnd, w)
            =~= assoc_of(s.drop_last()).insert(w.hwnd, w));
    } else {
        assert(t.drop_last() =~= s.drop_last().update(i, w));
        assert(t.last() == s.last());
        lemma_unique_drop_last(s);
        assert(s.drop_last()[i] == s[i]);
        lemma_assoc_update(s.drop_last(), i, w);
        assert(s.last().hwnd != s[i].hwnd);
        assert(assoc_of(s.drop_last()).insert(w.hwnd, w).insert(s.last().hwnd, s.last())
            =~= assoc_of(s.drop_last()).insert(s.last().hwnd, s.last()).insert(w.hwnd, w));
    }
}

/// Removing a window removes its handle from the association.
proof fn lemma_assoc_remove(s: Seq<WindowView>, i: int)
    requires
        handles_unique(s),
        0 <= i < s.len(),
    ensures
        assoc_of(s.remove(i)) == assoc_of(s).remove(s[i].hwnd),
    decreases s.len(),
{
    if i == s.len() - 1 {
        assert(s.remove(i) =~= s.drop_last());
        lemma_assoc_contains(s.drop_last(), s[i].hwnd);
        if assoc_of(s.drop_last()).dom().contains(s[i].hwnd) {
            let j = choose|j: int|
                0 <= j < s.drop_last().len() && (#[trigger] s.drop_last()[j]).hwnd == s[i].hwnd;
            assert(s[j].hwnd == s[i].hwnd);
            assert(false);
        }
        assert(assoc_of(s.drop_last()) =~= assoc_of(s.drop_last()).insert(
            s.last().hwnd,
            s.last(),
        ).remove(s[i].hwnd));
    } else {
        let t = s.remove(i);
        assert(t.drop_last() =~= s.drop_last().remove(i));
        assert(t.last() == s.last());
        lemma_unique_drop_last(s);
        assert(s.drop_last()[i] == s[i]);
        lemma_assoc_remove(s.drop_last(), i);
        assert(s.last().hwnd != s[i].hwnd);
        assert(assoc_of(s.drop_last()).remove(s[i].hwnd).insert(s.last().hwnd, s.last())
            =~= assoc_of(s.drop_last()).insert(s.last().hwnd, s.last()).remove(s[i].hwnd));
    }
}

/// A mutable reference to one element of the vector.
fn window_at_mut(v: &mut Vec<WindowInner>, i: usize) -> (w: &mut WindowInner)
    requires
        i < old(v)@.len(),
    ensures
        *w == old(v)@[i as int],
        final(v)@ == old(v)@.update(i as int, *final(w)),
{
    &mut v[i]
}

/// The bridge: owns the association between window objects and the native
/// window handles the platform delivers messages by.
pub struct WindowHandleBridge {
    /// The held windows, each keyed by its own native handle. Handles are
    /// unique and non-null.
    entries: Vec<WindowInner>,
}

impl View for WindowHandleBridge {
    type V = Map<int, WindowView>;

    closed spec fn view(&self) -> Map<int, WindowView> {
        assoc_of(views_of(self.entries@))
    }
}

impl WindowHandleBridge {
    /// Validity: every held window still has its native handle, and no two
    /// held windows share one.
    pub closed spec fn wf(&self) -> bool {
        &&& handles_unique(views_of(self.entries@))
        &&& handles_nonzero(views_of(self.entries@))
    }

    /// An empty bridge: no associations.
    pub fn new() -> (b: WindowHandleBridge)
        ensures
            b.wf(),
            b@ == Map::<int, WindowView>::empty(),
    {
        let b = WindowHandleBridge { entries: Vec::new() };
        proof {
            assert(views_of(b.entries@) =~= Seq::<WindowView>::empty());
        }
        b
    }

    /// The index of the window holding the handle, if any, together with
    /// what that means for the association map.
    fn find_index(&self, hwnd: isize) -> (r: Option<usize>)
        requires
            self.wf(),
        ensures
            match r {
                Some(i) => {
                    &&& i < self.entries@.len()
                    &&& views_of(self.entries@)[i as int].hwnd == hwnd as int
                    &&& self@.dom().contains(hwnd as int)
                    &&& self@[hwnd as int] == views_of(self.entries@)[i as int]
                },
                None => !self@.dom().contains(hwnd as int),
            },
    {
        let mut i: usize = 0;
        while i < self.entries.len()
            invariant
                self.wf(),
                i <= self.entries@.len(),
                forall|j: int|
                    0 <= j < i ==> (#[trigger] views_of(self.entries@)[j]).hwnd != hwnd as int,
            decreases self.entries@.len() - i,
        {
            assert(views_of(self.entries@)[i as int] == self.entries@[i as int]@);
            assert(views_of(self.entries@)[i as int].hwnd != 0);
            if self.entries[i].hwnd() == hwnd {
                proof {
                    lemma_assoc_index(views_of(self.entries@), i as int);
                }
                return Some(i);
            }
            i = i + 1;
        }
        proof {
            lemma_assoc_contains(views_of(self.entries@), hwnd as int);
            if self@.dom().contains(hwnd as int) {
                let j = choose|j: int|
                    0 <= j < views_of(self.entries@).len() && (#[trigger] views_of(
                        self.entries@,
                    )[j]).hwnd == hwnd as int;
                assert(false);
            }
        }
        None
    }

    /// Whether a window is associated with the handle.
    pub fn contains(&self, hwnd: isize) -> (b: bool)
        requires
            self.wf(),
        ensures
            b == self@.dom().contains(hwnd as int),
    {
        proof {
            lemma_assoc_contains(views_of(self.entries@), hwnd as int);
        }
        match self.find_index(hwnd) {
            Some(_) => true,
            None => false,
        }
    }

    /// Stores the association for a freshly created native window: called
    /// on the window system's first structural creation notification, with
    /// the window object that was handed along with it. The handle must be
    /// attached and not yet associated.
    pub fn register(&mut self, window: WindowInner)
        requires
            old(self).wf(),
            window@.hwnd != 0,
            !old(self)@.dom().contains(window@.hwnd),
        ensures
            final(self).wf(),
            final(self)@ == old(self)@.insert(window@.hwnd, window@),
    {
        proof {
            lemma_assoc_contains(views_of(self.entries@), window@.hwnd);
        }
        let ghost s = views_of(self.entries@);
        self.entries.push(window);
        proof {
            assert(views_of(self.entries@) =~= s.push(window@));
            lemma_assoc_push(s, window@);
            assert forall|i: int| 0 <= i < s.push(window@).len() implies (#[trigger] s.push(
                window@,
            )[i]).hwnd != 0 by {
                if i < s.len() {
                    assert(s.push(window@)[i] == s[i]);
                }
            }
            assert forall|i: int, j: int| 0 <= i < j < s.push(window@).len() implies (#[trigger] s
                .push(window@)[i]).hwnd != (#[trigger] s.push(window@)[j]).hwnd by {
                assert(s.push(window@)[i] == s[i]);
                if j < s.len() {
                    assert(s.push(window@)[j] == s[j]);
                } else {
                    assert(s.push(window@)[j] == window@);
                }
            }
            assert(handles_unique(views_of(self.entries@)));
            assert(handles_nonzero(views_of(self.entries@)));
        }
    }

    /// A read-only look at the window associated with the handle.
    pub fn window(&self, hwnd: isize) -> (w: Option<&WindowInner>)
        requires
            self.wf(),
        ensures
            match w {
                Some(w) => self@.dom().contains(hwnd as int) && w@ == self@[hwnd as int],
                None => !self@.dom().contains(hwnd as int),
            },
    {
        proof {
            lemma_assoc_contains(views_of(self.entries@), hwnd as int);
        }
        match self.find_index(hwnd) {
            Some(i) => {
                proof {
                    lemma_assoc_index(views_of(self.entries@), i as int);
                }
                Some(&self.entries[i])
            },
            None => None,
        }
    }

    /// Routes one delivered message, exactly as [`dispatch_model`]
    /// describes: an unknown handle is forwarded untouched; a destruction
    /// notification clears the association and hands the window object
    /// back; everything else updates the window in place and reports
    /// whether to forward.
    pub fn dispatch(&mut self, hwnd: isize, umsg: u32, input_claimed: bool) -> (d: Dispatch)
        requires
            old(self).wf(),
        ensures
            final(self).wf(),
            (final(self)@, d.tag()) == dispatch_model(old(self)@, hwnd as int, umsg, input_claimed),
            d matches Dispatch::Destroyed(w) ==> w@ == route_message(
                old(self)@[hwnd as int],
                umsg,
                input_claimed,
            ).0,
    {
        proof {
            lemma_assoc_contains(views_of(self.entries@), hwnd as int);
        }
        let idx = match self.find_index(hwnd) {
            None => {
                return Dispatch::Forwarded;
            },
            Some(i) => i,
        };
        proof {
            lemma_assoc_index(views_of(self.entries@), idx as int);
        }
        let ghost s = views_of(self.entries@);
        if umsg == WM_NCDESTROY && !input_claimed {
            let mut window = self.entries.remove(idx);
            proof {
                assert(views_of(self.entries@) =~= s.remove(idx as int));
                lemma_assoc_remove(s, idx as int);
                lemma_unique_views_remove(s, idx as int);
            }
            window.handle_message(umsg, input_claimed);
            Dispatch::Destroyed(window)
        } else {
            let w = window_at_mut(&mut self.entries, idx);
            let consumed = w.handle_message(umsg, input_claimed);
            proof {
                assert(views_of(self.entries@) =~= s.update(idx as int, self.entries@[idx as int]@));
                lemma_assoc_update(s, idx as int, views_of(self.entries@)[idx as int]);
                lemma_unique_views_update(s, idx as int, views_of(self.entries@)[idx as int]);
            }
            if consumed {
                Dispatch::Consumed
            } else {
                Dispatch::Forwarded
            }
        }
    }

    /// Returns whether the window associated with the handle has requested
    /// to close, clearing the request; `None` when no window is associated
    /// with the handle.
    pub fn clear_close_request(&mut self, hwnd: isize) -> (r: Option<bool>)
        requires
            old(self).wf(),
        ensures
            final(self).wf(),
            match r {
                Some(b) => {
                    &&& old(self)@.dom().contains(hwnd as int)
                    &&& b == old(self)@[hwnd as int].close_request
                    &&& final(self)@ == old(self)@.insert(
                        hwnd as int,
                        (WindowView { close_request: false, ..old(self)@[hwnd as int] }),
                    )
                },
                None => !old(self)@.dom().contains(hwnd as int) && final(self)@ == old(self)@,
            },
    {
        proof {
            lemma_assoc_contains(views_of(self.entries@), hwnd as int);
        }
        let idx = match self.find_index(hwnd) {
            None => {
                return None;
            },
            Some(i) => i,
        };
        proof {
            lemma_assoc_index(views_of(self.entries@), idx as int);
        }
        let ghost s = views_of(self.entries@);
        let w = window_at_mut(&mut self.entries, idx);
        let b = w.clear_close_request();
        proof {
            assert(views_of(self.entries@) =~= s.update(idx as int, self.entries@[idx as int]@));
            lemma_assoc_update(s, idx as int, views_of(self.entries@)[idx as int]);
            lemma_unique_views_update(s, idx as int, views_of(self.entries@)[idx as int]);
        }
        Some(b)
    }

    /// Returns whether the window associated with the handle has requested
    /// a redraw, clearing the request; `None` when no window is associated
    /// with the handle.
    pub fn clear_redraw_request(&mut self, hwnd: isize) -> (r: Option<bool>)
        requires
            old(self).wf(),
        ensures
            final(self).wf(),
            match r {
                Some(b) => {
                    &&& old(self)@.dom().contains(hwnd as int)
                    &&& b == old(self)@[hwnd as int].redraw_request
                    &&& final(self)@ == old(self)@.insert(
                        hwnd as int,
                        (WindowView { redraw_request: false, ..old(self)@[hwnd as int] }),
                    )
                },
                None => !old(self)@.dom().contains(hwnd as int) && final(self)@ == old(self)@,
            },
    {
        proof {
            lemma_assoc_contains(views_of(self.entries@), hwnd as int);
        }
        let idx = match self.find_index(hwnd) {
            None => {
                return None;
            },
            Some(i) => i,
        };
        proof {
            lemma_assoc_index(views_of(self.entries@), idx as int);
        }
        let ghost s = views_of(self.entries@);
        let w = window_at_mut(&mut self.entries, idx);
        let b = w.clear_redraw_request();
        proof {
            assert(views_of(self.entries@) =~= s.update(idx as int, self.entries@[idx as int]@));
            lemma_assoc_update(s, idx as int, views_of(self.entries@)[idx as int]);
            lemma_unique_views_update(s, idx as int, views_of(self.entries@)[idx as int]);
        }
        Some(b)
    }
    /// Records the theme for the window associated with the handle.
    /// Returns whether a window was associated; the caller applies the
    /// theme on the platform side.
    pub fn set_theme(&mut self, hwnd: isize, theme: Theme) -> (found: bool)
        requires
            old(self).wf(),
        ensures
            final(self).wf(),
            found == old(self)@.dom().contains(hwnd as int),
            found ==> final(self)@ == old(self)@.insert(
                hwnd as int,
                (WindowView { theme, ..old(self)@[hwnd as int] }),
            ),
            !found ==> final(self)@ == old(self)@,
    {
        let idx = match self.find_index(hwnd) {
            None => {
                return false;
            },
            Some(i) => i,
        };
        let ghost s = views_of(self.entries@);
        let w = window_at_mut(&mut self.entries, idx);
        w.set_theme(theme);
        proof {
            assert(views_of(self.entries@) =~= s.update(idx as int, self.entries@[idx as int]@));
            lemma_assoc_update(s, idx as int, views_of(self.entries@)[idx as int]);
            lemma_unique_views_update(s, idx as int, views_of(self.entries@)[idx as int]);
        }
        true
    }
}

/// Removing an element keeps the handles unique and non-null.
proof fn lemma_unique_views_remove(s: Seq<WindowView>, i: int)
    requires
        handles_unique(s),
        handles_nonzero(s),
        0 <= i < s.len(),
    ensures
        handles_unique(s.remove(i)),
        handles_nonzero(s.remove(i)),
{
    let t = s.remove(i);
    assert forall|a: int, b: int| 0 <= a < b < t.len() implies (#[trigger] t[a]).hwnd != (
    #[trigger] t[b]).hwnd by {
        let a0 = if a < i { a } else { a + 1 };
        let b0 = if b < i { b } else { b + 1 };
        assert(t[a] == s[a0]);
        assert(t[b] == s[b0]);
    }
    assert forall|a: int| 0 <= a < t.len() implies (#[trigger] t[a]).hwnd != 0 by {
        let a0 = if a < i { a } else { a + 1 };
        assert(t[a] == s[a0]);
    }
}

/// Replacing an element by one with the same handle keeps the handles
/// unique and non-null.
proof fn lemma_unique_views_update(s: Seq<WindowView>, i: int, w: WindowView)
    requires
        handles_unique(s),
        handles_nonzero(s),
        0 <= i < s.len(),
        w.hwnd == s[i].hwnd,
    ensures
        handles_unique(s.update(i, w)),
        handles_nonzero(s.update(i, w)),
{
    let t = s.update(i, w);
    assert forall|a: int, b: int| 0 <= a < b < t.len() implies (#[trigger] t[a]).hwnd != (
    #[trigger] t[b]).hwnd by {
        assert(t[a].hwnd == s[a].hwnd);
        assert(t[b].hwnd == s[b].hwnd);
    }
    assert forall|a: int| 0 <= a < t.len() implies (#[trigger] t[a]).hwnd != 0 by {
        assert(t[a].hwnd == s[a].hwnd);
    }
}

} // verus!
