//! What happens when a client commits a surface.
use crate::popup::{chain_index, dismissals, has_chain, has_popup, popup_of, with_popup, Popup};
use crate::seat::{forgetting, Action};
use crate::space::{destroy_result, mapped, ready_result, update_result, SpaceEntry};
use crate::state::elements::WindowElement;
use crate::state::xdg_shell::resize_grab::resize_commit_result;
use crate::state::xdg_shell::{
    commit_states, is_toplevel, owes_configure, state_of, SurfaceState,
};
use crate::state::{xdg_shell, ThingState};
use vstd::prelude::*;

verus! {

/// The windows after the attributes that a commit brought were recorded. A
/// commit of a synchronized subsurface takes effect with its parent only and
/// brings none.
pub open spec fn committed_space(
    s: Seq<SpaceEntry>,
    sync_subsurface: bool,
    window: Option<WindowElement>,
) -> Seq<SpaceEntry> {
    match window {
        Some(window) => if sync_subsurface {
            s
        } else {
            update_result(s, window)
        },
        None => s,
    }
}

/// Whether a commit of `surface` acknowledges the first configure: it does
/// for a mapped toplevel that was sent one before.
pub open spec fn acknowledges(
    s: Seq<SpaceEntry>,
    m: Map<u64, SurfaceState>,
    surface: u64,
) -> bool {
    is_toplevel(s, surface) && state_of(m, surface).configure_sent
}

/// The windows after a commit of `surface` was checked for what it
/// acknowledges: a toplevel whose first configure it acknowledges is ready
/// for input from now on.
pub open spec fn acknowledged_space(
    s: Seq<SpaceEntry>,
    m: Map<u64, SurfaceState>,
    surface: u64,
) -> Seq<SpaceEntry> {
    if acknowledges(s, m, surface) {
        ready_result(s, surface, true)
    } else {
        s
    }
}

/// What a commit of `surface` leaves behind.
///
/// `window`, if given, holds what the window at the root of the surface's
/// tree has committed; the scene records it. A popup is sent its first
/// configure and counts as committed. A toplevel is sent its first
/// configure, unless it was sent before; if it was, the commit acknowledges
/// it and the toplevel is ready for input. A window in a resize by its top
/// or left edge moves to where its committed size puts it, and a resize that
/// waited for this commit is over.
pub open spec fn commit_post(
    pre: ThingState,
    post: ThingState,
    actions: Seq<Action>,
    surface: u64,
    sync_subsurface: bool,
    window: Option<WindowElement>,
) -> bool {
    let v = pre.popup_manager@;
    let recorded = committed_space(pre.space@, sync_subsurface, window);
    let s = acknowledged_space(recorded, pre.surfaces@, surface);
    let m = commit_states(s, pre.surfaces@, surface);
    &&& post.space@ == resize_commit_result(s, state_of(m, surface).resize, surface)
    &&& post.space.screens() == pre.space.screens()
    &&& post.surfaces@ == (if mapped(s, surface) {
        m.insert(
            surface,
            SurfaceState {
                resize: state_of(m, surface).resize.after_commit(),
                ..state_of(m, surface)
            },
        )
    } else {
        m
    })
    &&& post.popup_manager@ == (if has_popup(v, surface) {
        with_popup(
            v,
            surface,
            Popup { committed: true, configure_sent: true, ..popup_of(v, surface) },
        )
    } else {
        v
    })
    &&& actions == (if has_popup(v, surface) && !popup_of(v, surface).configure_sent {
        seq![Action::ConfigurePopup { surface, geometry: popup_of(v, surface).geometry }]
    } else {
        Seq::empty()
    }) + (if owes_configure(s, pre.surfaces@, surface) {
        seq![Action::InitialConfigure { surface }]
    } else {
        Seq::empty()
    })
    &&& post.x11_windows@ == pre.x11_windows@
    &&& post.seat == pre.seat
    &&& post.pressed@ == pre.pressed@
    &&& post.serial == pre.serial
}

/// What the end of a surface leaves behind.
///
/// A window of the scene with that surface counts as destroyed from now on:
/// it takes no input, no operation moves it, and the next refresh drops it.
/// The chain of popups above it is closed at once, its popups dismissed, the
/// topmost first. A popup with that surface counts as destroyed, and the
/// next refresh closes it with everything above it. The shell forgets what
/// it kept for the surface, and no focus names the surface any more: neither
/// the pointer's, nor the keyboard's, nor the one that a grab remembers.
pub open spec fn surface_destroyed_post(
    pre: ThingState,
    post: ThingState,
    actions: Seq<Action>,
    surface: u64,
) -> bool {
    let v = pre.popup_manager@;
    let closed = if has_chain(v, surface) {
        v.remove(chain_index(v, surface))
    } else {
        v
    };
    &&& post.space@ == destroy_result(pre.space@, surface)
    &&& post.space.screens() == pre.space.screens()
    &&& post.popup_manager@ == (if has_popup(closed, surface) {
        with_popup(closed, surface, Popup { alive: false, ..popup_of(closed, surface) })
    } else {
        closed
    })
    &&& !has_chain(post.popup_manager@, surface)
    &&& actions == (if has_chain(v, surface) {
        dismissals(v[chain_index(v, surface)].popups)
    } else {
        Seq::empty()
    })
    &&& post.surfaces@ == pre.surfaces@.remove(surface)
    &&& post.x11_windows@ == pre.x11_windows@
    &&& post.seat == forgetting(pre.seat, surface)
    &&& post.pressed@ == pre.pressed@
    &&& post.serial == pre.serial
}

/// Marking a window as ready for input changes neither which windows are
/// mapped nor of what kind they are.
pub proof fn lemma_ready_keeps_shape(s: Seq<SpaceEntry>, surface: u64)
    requires
        crate::space::stack_wf(s),
    ensures
        forall|id: u64|
            mapped(ready_result(s, surface, true), id) <==> #[trigger] mapped(s, id),
        forall|id: u64|
            is_toplevel(ready_result(s, surface, true), id) <==> #[trigger] is_toplevel(s, id),
{
    let r = ready_result(s, surface, true);
    crate::space::lemma_same_shape_wf(s, r);
    assert forall|id: u64| is_toplevel(r, id) <==> #[trigger] is_toplevel(s, id) by {
        if mapped(s, id) {
            assert(r[crate::space::index_of(s, id)].element.kind == s[crate::space::index_of(
                s,
                id,
            )].element.kind);
        }
    }
}

impl ThingState {
    /// Takes note that a surface is gone; see [`surface_destroyed_post`].
    pub fn surface_destroyed(&mut self, surface: u64) -> (actions: Vec<Action>)
        requires
            old(self).wf(),
        ensures
            final(self).wf(),
            surface_destroyed_post(*old(self), *final(self), actions@, surface),
    {
        self.space.destroy(surface);
        let actions = self.popup_manager.ungrab_all(surface);
        let ghost closed = self.popup_manager@;
        self.popup_manager.destroy(surface);
        self.surfaces.remove(surface);
        self.seat.forget(surface);
        proof {
            crate::popup::lemma_destroy_keeps_roots(closed, surface);
        }
        actions
    }

    /// Handles the commit of a surface; see [`commit_post`].
    pub fn commit(&mut self, surface: u64, sync_subsurface: bool, window: Option<WindowElement>) -> (actions:
        Vec<Action>)
        requires
            old(self).wf(),
        ensures
            final(self).wf(),
            commit_post(*old(self), *final(self), actions@, surface, sync_subsurface, window),
    {
        match window {
            Some(window) => {
                if !sync_subsurface {
                    self.space.update_element(window);
                }
            },
            None => {},
        }
        let mut actions = self.popup_manager.commit(surface);
        if self.surfaces.get(surface).configure_sent {
            let toplevel = match self.space.element(surface) {
                Some(entry) => match entry.element.kind {
                    crate::state::elements::WindowKind::Wayland => true,
                    crate::state::elements::WindowKind::X11 { .. } => false,
                },
                None => false,
            };
            if toplevel {
                self.space.set_mapped(surface, true);
            }
        }
        proof {
            let recorded = committed_space(old(self).space@, sync_subsurface, window);
            assert(self.space@ == acknowledged_space(recorded, old(self).surfaces@, surface));
            lemma_ready_keeps_shape(recorded, surface);
        }
        match xdg_shell::handle_commit(&self.space, &mut self.surfaces, surface) {
            Some(sent) => {
                let mut sent = sent;
                actions.append(&mut sent);
            },
            None => {},
        }
        xdg_shell::resize_grab::handle_commit(&mut self.space, &mut self.surfaces, surface);
        actions
    }
}

} // verus!
