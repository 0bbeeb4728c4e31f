use vstd::prelude::*;
use vstd::seq_lib::*;

verus! {

/// One request the compositor's workspace layout asks the shell to apply
/// to its mapped-window space.
#[derive(Clone, Copy, PartialEq, Eq, Structural, Debug)]
pub enum CompositorRequest {
    /// Unmap the window from the space.
    UnmapWindow { window: u32 },
    /// Suggest the size to the window's toplevel and map it at the
    /// position.
    ConfigureWindow { window: u32, x: i32, y: i32, width: i32, height: i32 },
}

/// The gap kept around and between the compositor's tiled windows, in
/// pixels.
pub const LAYOUT_GAP: i32 = 6;

/// One of the compositor's nine workspaces: an ordered list of toplevel
/// windows and an optional active-window index.
#[derive(Clone, PartialEq, Eq, Debug)]
pub struct Workspace {
    pub windows: Vec<u32>,
    pub active_window: Option<usize>,
}

impl Workspace {
    /// An empty workspace with no active window.
    pub fn new() -> (r: Workspace)
        ensures
            r.windows@.len() == 0,
            r.active_window is None,
    {
        Workspace { windows: Vec::new(), active_window: None }
    }
}

/// The position of `window` in the list, if present.
pub open spec fn spec_window_pos(s: Seq<u32>, window: u32) -> Option<int>
    decreases s.len(),
{
    if s.len() == 0 {
        None
    } else if s[0] == window {
        Some(0int)
    } else {
        match spec_window_pos(s.drop_first(), window) {
            Some(i) => Some(i + 1),
            None => None,
        }
    }
}

/// The tiled geometry `(x, y, width, height)` of the window at position
/// `i` out of `n` on an output of the given size: a single window fills
/// the output inside the gap; with more, the space splits in half for the
/// master, the rest stack to its right in even slices, and every stacked
/// window after the first gets an extra gap above it.
pub open spec fn spec_wayland_rect(out_w: int, out_h: int, n: int, i: int) -> (
    int,
    int,
    int,
    int,
) {
    let g = LAYOUT_GAP as int;
    let w0 = out_w - g * 2;
    let h0 = out_h - g * 2;
    let w = if n > 1 {
        (w0 - g) / 2
    } else {
        w0
    };
    if i == 0 {
        (g, g, w, h0)
    } else {
        let h = h0 / (n - 1);
        let x = g + w + g;
        let y = g + h * (i - 1);
        if i > 1 {
            (x, y + g, w, h - g)
        } else {
            (x, y, w, h)
        }
    }
}

/// The configure requests that lay out the given windows.
pub open spec fn spec_layout_requests(windows: Seq<u32>, out_w: int, out_h: int, k: int) -> Seq<
    CompositorRequest,
>
    decreases k,
{
    if k <= 0 {
        Seq::empty()
    } else {
        let rect = spec_wayland_rect(out_w, out_h, windows.len() as int, k - 1);
        spec_layout_requests(windows, out_w, out_h, k - 1) + seq![
            CompositorRequest::ConfigureWindow {
                window: windows[k - 1],
                x: rect.0 as i32,
                y: rect.1 as i32,
                width: rect.2 as i32,
                height: rect.3 as i32,
            },
        ]
    }
}

/// The unmap requests for every window of a workspace, in order.
pub open spec fn spec_unmap_requests(windows: Seq<u32>) -> Seq<CompositorRequest>
    decreases windows.len(),
{
    if windows.len() == 0 {
        Seq::empty()
    } else {
        spec_unmap_requests(windows.drop_last()) + seq![
            CompositorRequest::UnmapWindow { window: windows.last() },
        ]
    }
}

/// The windows of a list that are still alive.
pub open spec fn spec_alive(s: Seq<u32>, alive: Seq<u32>) -> Seq<u32> {
    s.filter(|w: u32| alive.contains(w))
}

/// The compositor's nine-workspace set: each an ordered window list, plus
/// the indices of the active and previously active workspaces.
pub struct Workspaces {
    pub workspaces: Vec<Workspace>,
    pub active_workspace: usize,
    pub previous_workspace: usize,
}

impl Workspaces {
    /// Nine workspaces, with valid active and previous indices.
    pub open spec fn wf(self) -> bool {
        &&& self.workspaces@.len() == 9
        &&& self.active_workspace < 9
        &&& self.previous_workspace < 9
    }

    /// Nine empty workspaces, the first active.
    pub fn new() -> (r: Workspaces)
        ensures
            r.wf(),
            r.active_workspace == 0,
            r.previous_workspace == 0,
            forall|i: int| 0 <= i < 9 ==> (#[trigger] r.workspaces@[i]).windows@.len() == 0,
    {
        let mut ws: Vec<Workspace> = Vec::new();
        let mut i: usize = 0;
        while i < 9
            invariant
                0 <= i <= 9,
                ws@.len() == i,
                forall|j: int| 0 <= j < i ==> (#[trigger] ws@[j]).windows@.len() == 0,
            decreases 9 - i,
        {
            ws.push(Workspace::new());
            i += 1;
        }
        Workspaces { workspaces: ws, active_workspace: 0, previous_workspace: 0 }
    }

    /// The index of the active workspace.
    pub fn active(&self) -> (r: usize)
        ensures
            r == self.active_workspace,
    {
        self.active_workspace
    }

    /// Whether a workspace holds no windows.
    pub fn is_workspace_empty(&self, workspace: usize) -> (r: bool)
        requires
            self.wf(),
            workspace < 9,
        ensures
            r == (self.workspaces@[workspace as int].windows@.len() == 0),
    {
        self.workspaces[workspace].windows.len() == 0
    }

    /// Makes the window the workspace's active window, by its position in
    /// the list (or clears the marker when the window is not listed).
    pub fn set_active_window(&mut self, workspace: usize, window: u32)
        requires
            old(self).wf(),
            workspace < 9,
        ensures
            final(self).wf(),
            final(self).active_workspace == old(self).active_workspace,
            final(self).previous_workspace == old(self).previous_workspace,
            forall|i: int|
                0 <= i < 9 && i != workspace ==> #[trigger] final(self).workspaces@[i] == old(
                    self,
                ).workspaces@[i],
            final(self).workspaces@[workspace as int].windows == old(
                self,
            ).workspaces@[workspace as int].windows,
            final(self).workspaces@[workspace as int].active_window == (
            match spec_window_pos(old(self).workspaces@[workspace as int].windows@, window) {
                Some(i) => Some(i as usize),
                None => None,
            }),
    {
        let list = &self.workspaces[workspace].windows;
        let ghost gs = list@;
        let mut pos: Option<usize> = None;
        let mut j: usize = 0;
        proof {
            assert(gs.skip(0) =~= gs);
        }
        while j < list.len() && pos.is_none()
            invariant
                0 <= j <= gs.len(),
                list@ == gs,
                match pos {
                    Some(p) => spec_window_pos(gs, window) == Some(p as int) && p < gs.len(),
                    None => spec_window_pos(gs, window) == match spec_window_pos(
                        gs.skip(j as int),
                        window,
                    ) {
                        Some(k) => Some(j + k),
                        None => None::<int>,
                    },
                },
            decreases gs.len() - j + (if pos is Some {
                0int
            } else {
                1int
            }),
        {
            proof {
                assert(gs.skip(j as int)[0] == gs[j as int]);
                assert(gs.skip(j as int).drop_first() =~= gs.skip(j + 1));
            }
            if list[j] == window {
                pos = Some(j);
            } else {
                j += 1;
            }
        }
        proof {
            if pos is None {
                assert(gs.skip(gs.len() as int) =~= Seq::<u32>::empty());
            }
        }
        let entry = &mut self.workspaces[workspace];
        entry.active_window = pos;
    }

    /// Appends the window to the workspace and, if it is the first window
    /// there, makes it active.
    pub fn insert_window(&mut self, workspace: usize, window: u32)
        requires
            old(self).wf(),
            workspace < 9,
        ensures
            final(self).wf(),
            final(self).active_workspace == old(self).active_workspace,
            final(self).previous_workspace == old(self).previous_workspace,
            forall|i: int|
                0 <= i < 9 && i != workspace ==> #[trigger] final(self).workspaces@[i] == old(
                    self,
                ).workspaces@[i],
            final(self).workspaces@[workspace as int].windows@ == old(
                self,
            ).workspaces@[workspace as int].windows@.push(window),
            final(self).workspaces@[workspace as int].active_window == (if old(
                self,
            ).workspaces@[workspace as int].windows@.len() == 0 {
                Some(0usize)
            } else {
                old(self).workspaces@[workspace as int].active_window
            }),
    {
        let entry = &mut self.workspaces[workspace];
        let was_empty = entry.windows.len() == 0;
        entry.windows.push(window);
        if was_empty {
            proof {
                assert(spec_window_pos(self.workspaces@[workspace as int].windows@, window)
                    == Some(0int));
            }
            self.set_active_window(workspace, window);
        }
    }

    /// Remembers the previously active workspace and switches to the given
    /// one; the shell then refreshes the geometry.
    pub fn set_active(&mut self, workspace: usize)
        requires
            old(self).wf(),
            workspace < 9,
        ensures
            final(self).wf(),
            final(self).workspaces == old(self).workspaces,
            final(self).previous_workspace == old(self).active_workspace,
            final(self).active_workspace == workspace,
    {
        self.previous_workspace = self.active_workspace;
        self.active_workspace = workspace;
    }

    /// Drops windows that are no longer alive from every workspace.
    pub fn remove_dead_windows(&mut self, alive: &Vec<u32>)
        requires
            old(self).wf(),
        ensures
            final(self).wf(),
            final(self).active_workspace == old(self).active_workspace,
            final(self).previous_workspace == old(self).previous_workspace,
            forall|i: int|
                0 <= i < 9 ==> (#[trigger] final(self).workspaces@[i]).windows@ == spec_alive(
                    old(self).workspaces@[i].windows@,
                    alive@,
                ) && final(self).workspaces@[i].active_window == old(
                    self,
                ).workspaces@[i].active_window,
    {
        broadcast use Seq::filter_distributes_over_add;

        let mut w: usize = 0;
        while w < 9
            invariant
                0 <= w <= 9,
                self.workspaces@.len() == 9,
                self.active_workspace == old(self).active_workspace,
                self.previous_workspace == old(self).previous_workspace,
                self.active_workspace < 9,
                self.previous_workspace < 9,
                forall|i: int|
                    0 <= i < w ==> (#[trigger] self.workspaces@[i]).windows@ == spec_alive(
                        old(self).workspaces@[i].windows@,
                        alive@,
                    ) && self.workspaces@[i].active_window == old(
                        self,
                    ).workspaces@[i].active_window,
                forall|i: int|
                    w <= i < 9 ==> #[trigger] self.workspaces@[i] == old(self).workspaces@[i],
            decreases 9 - w,
        {
            let ghost gs = self.workspaces@[w as int].windows@;
            let mut kept: Vec<u32> = Vec::new();
            let entry = &self.workspaces[w];
            let mut i: usize = 0;
            while i < entry.windows.len()
                invariant
                    0 <= i <= gs.len(),
                    entry.windows@ == gs,
                    kept@ == spec_alive(gs.take(i as int), alive@),
                decreases gs.len() - i,
            {
                let win = entry.windows[i];
                proof {
                    assert(gs.take(i + 1) =~= gs.take(i as int) + seq![gs[i as int]]);
                    let pred = |w: u32| alive@.contains(w);
                    assert(seq![win].filter(pred) =~= if pred(win) {
                        seq![win]
                    } else {
                        Seq::<u32>::empty()
                    }) by {
                        reveal_with_fuel(Seq::filter, 2);
                        assert(seq![win].drop_last() =~= Seq::<u32>::empty());
                    }
                }
                if contains_window(alive, win) {
                    kept.push(win);
                }
                i += 1;
            }
            proof {
                assert(gs.take(gs.len() as int) =~= gs);
            }
            let entry = &mut self.workspaces[w];
            entry.windows = kept;
            w += 1;
        }
    }

    /// Removes dead windows, unmaps every window of the previously active
    /// workspace, and lays the active workspace's windows out in the
    /// master/stack pattern with a fixed six-pixel gap.
    pub fn refresh_geometry(&mut self, alive: &Vec<u32>, out_w: i32, out_h: i32) -> (reqs: Vec<
        CompositorRequest,
    >)
        requires
            old(self).wf(),
            3 * LAYOUT_GAP <= out_w <= 0xFFFF,
            2 * LAYOUT_GAP <= out_h <= 0xFFFF,
            old(self).workspaces@[old(self).active_workspace as int].windows@.len() <= 0xFFFF,
        ensures
            final(self).wf(),
            final(self).active_workspace == old(self).active_workspace,
            final(self).previous_workspace == old(self).previous_workspace,
            forall|i: int|
                0 <= i < 9 ==> (#[trigger] final(self).workspaces@[i]).windows@ == spec_alive(
                    old(self).workspaces@[i].windows@,
                    alive@,
                ) && final(self).workspaces@[i].active_window == old(
                    self,
                ).workspaces@[i].active_window,
            reqs@ == spec_unmap_requests(
                spec_alive(
                    old(self).workspaces@[old(self).previous_workspace as int].windows@,
                    alive@,
                ),
            ) + spec_layout_requests(
                spec_alive(
                    old(self).workspaces@[old(self).active_workspace as int].windows@,
                    alive@,
                ),
                out_w as int,
                out_h as int,
                spec_alive(
                    old(self).workspaces@[old(self).active_workspace as int].windows@,
                    alive@,
                ).len() as int,
            ),
    {
        self.remove_dead_windows(alive);

        let mut reqs: Vec<CompositorRequest> = Vec::new();

        // Hide the previously active workspace.
        let prev = &self.workspaces[self.previous_workspace];
        let ghost gprev = prev.windows@;
        let mut i: usize = 0;
        while i < prev.windows.len()
            invariant
                0 <= i <= gprev.len(),
                prev.windows@ == gprev,
                reqs@ == spec_unmap_requests(gprev.take(i as int)),
            decreases gprev.len() - i,
        {
            proof {
                assert(gprev.take(i + 1).drop_last() =~= gprev.take(i as int));
                assert(gprev.take(i + 1).last() == gprev[i as int]);
            }
            reqs.push(CompositorRequest::UnmapWindow { window: prev.windows[i] });
            i += 1;
        }
        proof {
            assert(gprev.take(gprev.len() as int) =~= gprev);
        }

        // Lay out the active workspace.
        let current = &self.workspaces[self.active_workspace];
        let ghost gcur = current.windows@;
        let n = current.windows.len();
        proof {
            let pred = |w: u32| alive@.contains(w);
            old(self).workspaces@[old(self).active_workspace as int].windows@.lemma_filter_len(
                pred,
            );
        }
        let mut k: usize = 0;
        while k < n
            invariant
                0 <= k <= n,
                n == gcur.len(),
                n <= 0xFFFF,
                current.windows@ == gcur,
                3 * LAYOUT_GAP <= out_w <= 0xFFFF,
                2 * LAYOUT_GAP <= out_h <= 0xFFFF,
                reqs@ == spec_unmap_requests(gprev) + spec_layout_requests(
                    gcur,
                    out_w as int,
                    out_h as int,
                    k as int,
                ),
            decreases n - k,
        {
            let g: i32 = LAYOUT_GAP;
            let mut x: i32 = g;
            let mut y: i32 = g;
            let mut width: i32 = out_w - g * 2;
            let mut height: i32 = out_h - g * 2;
            let count = n as i32;
            if count > 1 {
                width = (width - g) / 2;
            }
            if k > 0 {
                proof {
                    let h0 = out_h - 2 * LAYOUT_GAP;
                    vstd::arithmetic::div_mod::lemma_fundamental_div_mod(h0 as int, count - 1);
                    vstd::arithmetic::div_mod::lemma_mod_bound(h0 as int, count - 1);
                    vstd::arithmetic::mul::lemma_mul_is_commutative(
                        count - 1,
                        h0 as int / (count - 1),
                    );
                    vstd::arithmetic::mul::lemma_mul_inequality(
                        k - 1,
                        count - 1,
                        h0 as int / (count - 1),
                    );
                    vstd::arithmetic::mul::lemma_mul_is_commutative(
                        k - 1,
                        h0 as int / (count - 1),
                    );
                    vstd::arithmetic::mul::lemma_mul_nonnegative(
                        h0 as int / (count - 1),
                        k - 1,
                    );
                }
                height = height / (count - 1);
                x = x + width + g;
                y = y + height * (k as i32 - 1);
            }
            if k > 1 {
                height = height - g;
                y = y + g;
            }
            let ghost rect = spec_wayland_rect(out_w as int, out_h as int, n as int, k as int);
            proof {
                assert(rect.0 == x);
                assert(rect.2 == width);
                assert(rect.3 == height);
                assert(rect.1 == y);
            }
            reqs.push(
                CompositorRequest::ConfigureWindow {
                    window: current.windows[k],
                    x,
                    y,
                    width,
                    height,
                },
            );
            proof {
                assert(reqs@ =~= spec_unmap_requests(gprev) + spec_layout_requests(
                    gcur,
                    out_w as int,
                    out_h as int,
                    k + 1,
                ));
            }
            k += 1;
        }
        reqs
    }

    /// The windows of workspace `i` after the structural part of a move:
    /// the moved window is dropped from the source list and appended to
    /// the target list.
    pub open spec fn spec_windows_after_move(self, target: int, i: int) -> Seq<u32> {
        let src = self.active_workspace as int;
        let window = self.workspaces@[src].windows@[self.workspaces@[src].active_window->Some_0 as int];
        let base = self.workspaces@[i].windows@;
        let removed = if i == src {
            base.filter(|w: u32| w != window)
        } else {
            base
        };
        if i == target {
            removed.push(window)
        } else {
            removed
        }
    }

    /// Moves the active workspace's active window to the given workspace,
    /// clears the source's active-window marker, and refreshes the
    /// geometry; with no active window, nothing happens.
    pub fn move_window(
        &mut self,
        workspace: usize,
        alive: &Vec<u32>,
        out_w: i32,
        out_h: i32,
    ) -> (reqs: Vec<CompositorRequest>)
        requires
            old(self).wf(),
            workspace < 9,
            3 * LAYOUT_GAP <= out_w <= 0xFFFF,
            2 * LAYOUT_GAP <= out_h <= 0xFFFF,
            old(self).workspaces@[old(self).active_workspace as int].windows@.len() <= 0xFFFF,
            old(self).workspaces@[workspace as int].windows@.len() < 0xFFFF,
            match old(self).workspaces@[old(self).active_workspace as int].active_window {
                Some(i) => i < old(self).workspaces@[old(
                    self,
                ).active_workspace as int].windows@.len(),
                None => true,
            },
        ensures
            final(self).wf(),
            final(self).active_workspace == old(self).active_workspace,
            final(self).previous_workspace == old(self).previous_workspace,
            old(self).workspaces@[old(self).active_workspace as int].active_window is None ==> (
            *final(self) == *old(self) && reqs@ == Seq::<CompositorRequest>::empty()),
            old(self).workspaces@[old(self).active_workspace as int].active_window is Some ==> {
                &&& forall|i: int|
                    0 <= i < 9 ==> (#[trigger] final(self).workspaces@[i]).windows@ == spec_alive(
                        old(self).spec_windows_after_move(workspace as int, i),
                        alive@,
                    )
                &&& final(self).workspaces@[old(self).active_workspace as int].active_window
                    is None
                &&& reqs@ == spec_unmap_requests(
                    spec_alive(
                        old(self).spec_windows_after_move(
                            workspace as int,
                            old(self).previous_workspace as int,
                        ),
                        alive@,
                    ),
                ) + spec_layout_requests(
                    spec_alive(
                        old(self).spec_windows_after_move(
                            workspace as int,
                            old(self).active_workspace as int,
                        ),
                        alive@,
                    ),
                    out_w as int,
                    out_h as int,
                    spec_alive(
                        old(self).spec_windows_after_move(
                            workspace as int,
                            old(self).active_workspace as int,
                        ),
                        alive@,
                    ).len() as int,
                )
            },
    {
        broadcast use Seq::filter_distributes_over_add;

        let src = self.active_workspace;
        let src_active = self.workspaces[src].active_window;
        let idx = match src_active {
            Some(i) => i,
            None => {
                let reqs: Vec<CompositorRequest> = Vec::new();
                return reqs;
            },
        };
        let window = self.workspaces[src].windows[idx];

        // Remove the window from the source workspace.
        let ghost gsrc = self.workspaces@[src as int].windows@;
        let mut kept: Vec<u32> = Vec::new();
        let entry = &self.workspaces[src];
        let mut i: usize = 0;
        while i < entry.windows.len()
            invariant
                0 <= i <= gsrc.len(),
                entry.windows@ == gsrc,
                kept@ == gsrc.take(i as int).filter(|w: u32| w != window),
            decreases gsrc.len() - i,
        {
            let w = entry.windows[i];
            proof {
                assert(gsrc.take(i + 1) =~= gsrc.take(i as int) + seq![gsrc[i as int]]);
                let pred = |w: u32| w != window;
                assert(seq![w].filter(pred) =~= if pred(w) {
                    seq![w]
                } else {
                    Seq::<u32>::empty()
                }) by {
                    reveal_with_fuel(Seq::filter, 2);
                    assert(seq![w].drop_last() =~= Seq::<u32>::empty());
                }
            }
            if w != window {
                kept.push(w);
            }
            i += 1;
        }
        proof {
            assert(gsrc.take(gsrc.len() as int) =~= gsrc);
        }
        let entry = &mut self.workspaces[src];
        entry.windows = kept;

        self.insert_window(workspace, window);

        let entry = &mut self.workspaces[src];
        entry.active_window = None;

        proof {
            let pred = |w: u32| w != window;
            old(self).workspaces@[src as int].windows@.lemma_filter_len(pred);
            assert forall|i: int| 0 <= i < 9 implies (#[trigger] self.workspaces@[i]).windows@
                == old(self).spec_windows_after_move(workspace as int, i) by {}
        }
        self.refresh_geometry(alive, out_w, out_h)
    }
}

/// Whether the list contains the window.
fn contains_window(list: &Vec<u32>, window: u32) -> (r: bool)
    ensures
        r == list@.contains(window),
{
    let mut i: usize = 0;
    while i < list.len()
        invariant
            0 <= i <= list@.len(),
            forall|j: int| 0 <= j < i ==> list@[j] != window,
        decreases list@.len() - i,
    {
        if list[i] == window {
            return true;
        }
        i += 1;
    }
    false
}

} // verus!
