use crate::client::client::Client;
use crate::client::clients::{Clients, ClientsView};
use crate::command::Request;
use crate::config::Config;
use crate::screen::Screen;
use vstd::prelude::*;
use vstd::seq_lib::*;

verus! {

/// How many clients are assigned to workspace `w`.
pub open spec fn workspace_count(s: Seq<Client>, w: u8) -> nat {
    s.filter(|c: Client| c.workspace == Some(w)).len()
}

/// The decimal digits of `n`, most significant first.
pub open spec fn spec_decimal(n: nat) -> Seq<nat>
    decreases n,
{
    if n < 10 {
        seq![n]
    } else {
        spec_decimal(n / 10).push(n % 10)
    }
}

/// The Unicode superscript form of a single decimal digit.
pub open spec fn superscript_digit(d: nat) -> char {
    if d == 0 {
        '\u{2070}'
    } else if d == 1 {
        '\u{00b9}'
    } else if d == 2 {
        '\u{00b2}'
    } else if d == 3 {
        '\u{00b3}'
    } else if d == 4 {
        '\u{2074}'
    } else if d == 5 {
        '\u{2075}'
    } else if d == 6 {
        '\u{2076}'
    } else if d == 7 {
        '\u{2077}'
    } else if d == 8 {
        '\u{2078}'
    } else {
        '\u{2079}'
    }
}

/// `n` written with superscript digits.
pub open spec fn spec_superscript(n: nat) -> Seq<char> {
    spec_decimal(n).map_values(|d: nat| superscript_digit(d))
}

/// The plain character of a single decimal digit.
pub open spec fn digit_char(d: nat) -> char {
    if d == 0 {
        '0'
    } else if d == 1 {
        '1'
    } else if d == 2 {
        '2'
    } else if d == 3 {
        '3'
    } else if d == 4 {
        '4'
    } else if d == 5 {
        '5'
    } else if d == 6 {
        '6'
    } else if d == 7 {
        '7'
    } else if d == 8 {
        '8'
    } else {
        '9'
    }
}

/// The label published for workspace `w` when it has `count` assigned
/// clients: the workspace number alone when the count is zero, and the
/// number followed by the count in superscript digits otherwise.
pub open spec fn spec_workspace_label(w: u8, count: nat) -> Seq<char> {
    if count == 0 {
        seq![digit_char(w as nat)]
    } else {
        seq![digit_char(w as nat)] + spec_superscript(count)
    }
}

/// A workspace label never carries a suffix for an empty workspace, and
/// for any single-digit count it carries exactly the matching superscript
/// digit.
pub proof fn lemma_workspace_label_suffix(w: u8, count: nat)
    requires
        1 <= w <= 9,
    ensures
        count == 0 ==> spec_workspace_label(w, count) == seq![digit_char(w as nat)],
        1 <= count <= 9 ==> spec_workspace_label(w, count) == seq![
            digit_char(w as nat),
            superscript_digit(count),
        ],
{
    if 1 <= count <= 9 {
        assert(spec_decimal(count) == seq![count]);
        assert(spec_superscript(count) =~= seq![superscript_digit(count)]);
        assert(spec_workspace_label(w, count) =~= seq![
            digit_char(w as nat),
            superscript_digit(count),
        ]);
    }
}

/// The superscript form of one digit, as string content.
fn superscript_digit_str(d: usize) -> (r: &'static str)
    requires
        d < 10,
    ensures
        r@ == seq![superscript_digit(d as nat)],
{
    proof {
        reveal_strlit("\u{2070}");
        reveal_strlit("\u{00b9}");
        reveal_strlit("\u{00b2}");
        reveal_strlit("\u{00b3}");
        reveal_strlit("\u{2074}");
        reveal_strlit("\u{2075}");
        reveal_strlit("\u{2076}");
        reveal_strlit("\u{2077}");
        reveal_strlit("\u{2078}");
        reveal_strlit("\u{2079}");
    }
    let r = if d == 0 {
        "\u{2070}"
    } else if d == 1 {
        "\u{00b9}"
    } else if d == 2 {
        "\u{00b2}"
    } else if d == 3 {
        "\u{00b3}"
    } else if d == 4 {
        "\u{2074}"
    } else if d == 5 {
        "\u{2075}"
    } else if d == 6 {
        "\u{2076}"
    } else if d == 7 {
        "\u{2077}"
    } else if d == 8 {
        "\u{2078}"
    } else {
        "\u{2079}"
    };
    proof {
        assert(r@ =~= seq![superscript_digit(d as nat)]);
    }
    r
}

/// The plain character of one digit, as string content.
fn digit_str(d: usize) -> (r: &'static str)
    requires
        d < 10,
    ensures
        r@ == seq![digit_char(d as nat)],
{
    proof {
        reveal_strlit("0");
        reveal_strlit("1");
        reveal_strlit("2");
        reveal_strlit("3");
        reveal_strlit("4");
        reveal_strlit("5");
        reveal_strlit("6");
        reveal_strlit("7");
        reveal_strlit("8");
        reveal_strlit("9");
    }
    let r = if d == 0 {
        "0"
    } else if d == 1 {
        "1"
    } else if d == 2 {
        "2"
    } else if d == 3 {
        "3"
    } else if d == 4 {
        "4"
    } else if d == 5 {
        "5"
    } else if d == 6 {
        "6"
    } else if d == 7 {
        "7"
    } else if d == 8 {
        "8"
    } else {
        "9"
    };
    proof {
        assert(r@ =~= seq![digit_char(d as nat)]);
    }
    r
}

/// `n` rendered with superscript digits.
pub fn superscript_string(n: usize) -> (r: String)
    ensures
        r@ == spec_superscript(n as nat),
{
    let mut digits: Vec<usize> = Vec::new();
    let mut rest: usize = n;
    while rest >= 10
        invariant
            spec_decimal(n as nat) == spec_decimal(rest as nat) + digits@.map_values(
                |d: usize| d as nat,
            ),
            forall|i: int| 0 <= i < digits@.len() ==> #[trigger] digits@[i] < 10,
        decreases rest,
    {
        let d = rest % 10;
        proof {
            let pre = digits@.map_values(|x: usize| x as nat);
            assert(seq![(rest % 10) as nat] + pre =~= digits@.insert(0, d).map_values(
                |x: usize| x as nat,
            ));
            assert(spec_decimal(rest as nat) == spec_decimal((rest / 10) as nat) + seq![
                (rest % 10) as nat,
            ]) by {
                assert(spec_decimal(rest as nat) == spec_decimal((rest as nat) / 10).push(
                    (rest as nat) % 10,
                ));
                assert(spec_decimal((rest as nat) / 10).push((rest as nat) % 10)
                    =~= spec_decimal((rest as nat) / 10) + seq![(rest as nat) % 10]);
            }
        }
        digits.insert(0, d);
        rest = rest / 10;
    }
    let mut r = String::new();
    r.append(superscript_digit_str(rest));
    let ghost all_digits = seq![rest as nat] + digits@.map_values(|d: usize| d as nat);
    proof {
        assert(spec_decimal(n as nat) =~= all_digits);
        assert(r@ =~= all_digits.take(1).map_values(|d: nat| superscript_digit(d)));
    }
    let mut i: usize = 0;
    while i < digits.len()
        invariant
            0 <= i <= digits@.len(),
            forall|j: int| 0 <= j < digits@.len() ==> #[trigger] digits@[j] < 10,
            all_digits == seq![rest as nat] + digits@.map_values(|d: usize| d as nat),
            rest < 10,
            r@ == all_digits.take(i + 1).map_values(|d: nat| superscript_digit(d)),
        decreases digits@.len() - i,
    {
        r.append(superscript_digit_str(digits[i]));
        proof {
            assert(all_digits.take(i + 2).map_values(|d: nat| superscript_digit(d)) =~= all_digits
                .take(i + 1).map_values(|d: nat| superscript_digit(d)) + seq![
                superscript_digit(digits@[i as int] as nat),
            ]);
        }
        i += 1;
    }
    proof {
        assert(all_digits.take(all_digits.len() as int) =~= all_digits);
    }
    r
}

/// The published label of workspace `w` holding `count` clients.
///
/// A count of zero never produces a suffix, and any positive count appends
/// exactly its decimal digits in superscript form.
pub fn workspace_label(w: u8, count: usize) -> (r: String)
    requires
        1 <= w <= 9,
    ensures
        r@ == spec_workspace_label(w, count as nat),
{
    let mut r = String::new();
    r.append(digit_str(w as usize));
    if count > 0 {
        let suffix = superscript_string(count);
        r.append(suffix.as_str());
        proof {
            assert(r@ =~= spec_workspace_label(w, count as nat));
        }
    } else {
        proof {
            assert(r@ =~= spec_workspace_label(w, count as nat));
        }
    }
    r
}

impl ClientsView {
    /// The client records with every controlled client's visibility set to
    /// whether it belongs to workspace `ws`; uncontrolled clients are
    /// unaffected by workspace switches.
    pub open spec fn spec_workspace_visibility(s: Seq<Client>, ws: u8) -> Seq<Client> {
        s.map_values(
            |c: Client|
                if c.controlled {
                    c.with_visible(c.workspace == Some(ws))
                } else {
                    c
                },
        )
    }

    /// The map and unmap requests of a workspace switch, in registry order:
    /// a controlled client of the new workspace is mapped if it was hidden,
    /// and every other controlled client is unmapped if it was visible.
    pub open spec fn spec_workspace_map_requests(s: Seq<Client>, ws: u8) -> Seq<Request>
        decreases s.len(),
    {
        if s.len() == 0 {
            Seq::empty()
        } else {
            Self::spec_workspace_map_requests(s.drop_last(), ws) + {
                let c = s.last();
                if c.controlled {
                    if c.workspace == Some(ws) {
                        if !c.visible {
                            seq![Request::MapWindow { window: c.window }]
                        } else {
                            Seq::empty()
                        }
                    } else {
                        if c.visible {
                            seq![Request::UnmapWindow { window: c.window }]
                        } else {
                            Seq::empty()
                        }
                    }
                } else {
                    Seq::empty()
                }
            }
        }
    }

    /// The intermediate state of a workspace switch, before the focus is
    /// cleared.
    pub open spec fn spec_switch_mid(self, ws: u8) -> ClientsView {
        ClientsView {
            clients: Self::spec_workspace_visibility(self.clients, ws),
            active_workspace: ws,
            active_window: self.active_window,
            dock_window: self.dock_window,
            front_window_ratio: self.front_window_ratio,
        }
    }

    /// The state after switching the active workspace to `ws`.
    pub open spec fn spec_set_active_workspace(self, ws: u8) -> ClientsView {
        self.spec_switch_mid(ws).spec_set_active_window(None)
    }

    /// The requests of a workspace switch: visibility changes in registry
    /// order, the current-desktop property, the focus cleared, and a full
    /// relayout.
    pub open spec fn spec_set_active_workspace_requests(
        self,
        cfg: Config,
        screen: Screen,
        ws: u8,
    ) -> Seq<Request> {
        let mid = self.spec_switch_mid(ws);
        Self::spec_workspace_map_requests(self.clients, ws) + seq![
            Request::PublishCurrentDesktop { desktop: ws as u32 },
        ] + mid.spec_set_active_window_requests(cfg, None)
            + self.spec_set_active_workspace(ws).spec_resize_requests(cfg, screen)
    }

    /// Whether a workspace reassignment is ignored: the target workspace is
    /// the one already shown.
    pub open spec fn reassign_noop(self, workspace: Option<u8>) -> bool {
        workspace == Some(self.active_workspace)
    }

    /// The state after moving `window` to `workspace`: the client record is
    /// reassigned and the window hidden, since by construction it is not on
    /// the shown workspace.
    pub open spec fn spec_set_window_workspace(
        self,
        window: u32,
        workspace: Option<u8>,
    ) -> ClientsView {
        if self.reassign_noop(workspace) {
            self
        } else {
            self.with_clients(
                self.clients.map_values(
                    |c: Client|
                        if c.window == window {
                            c.with_workspace(workspace)
                        } else {
                            c
                        },
                ),
            ).spec_hide(window)
        }
    }

    /// The requests of moving `window` to `workspace`: those of hiding it,
    /// then the client list and workspace names re-published; nothing when
    /// the target workspace is already shown.
    pub open spec fn spec_set_window_workspace_requests(
        self,
        cfg: Config,
        screen: Screen,
        window: u32,
        workspace: Option<u8>,
    ) -> Seq<Request> {
        if self.reassign_noop(workspace) {
            Seq::empty()
        } else {
            self.with_clients(
                self.clients.map_values(
                    |c: Client|
                        if c.window == window {
                            c.with_workspace(workspace)
                        } else {
                            c
                        },
                ),
            ).spec_hide_requests(cfg, screen, window) + seq![
                Request::PublishClientList,
                Request::PublishWorkspaceNames,
            ]
        }
    }
}

impl Clients {
    /// Shows every controlled client of workspace `ws` and hides every
    /// other controlled client, publishes the current desktop, clears the
    /// focus, and triggers a relayout.
    pub fn set_active_workspace(&mut self, cfg: &Config, screen: Screen, ws: u8) -> (reqs: Vec<
        Request,
    >)
        requires
            old(self).wf(),
            1 <= ws <= 9,
            old(self)@.spec_set_active_workspace(ws).resize_pre(*cfg, screen),
        ensures
            final(self)@ == old(self)@.spec_set_active_workspace(ws),
            final(self).wf(),
            reqs@ == old(self)@.spec_set_active_workspace_requests(*cfg, screen, ws),
    {
        self.active_workspace = ws;
        let mut reqs: Vec<Request> = Vec::new();
        let mut i: usize = 0;
        while i < self.clients.len()
            invariant
                0 <= i <= self.clients@.len(),
                self.clients@.len() == old(self)@.clients.len(),
                self.active_workspace == ws,
                self.active_window == old(self)@.active_window,
                self.dock_window == old(self)@.dock_window,
                self.front_window_ratio@ == old(self)@.front_window_ratio,
                self.clients@ == ClientsView::spec_workspace_visibility(
                    old(self)@.clients.take(i as int),
                    ws,
                ) + old(self)@.clients.skip(i as int),
                reqs@ == ClientsView::spec_workspace_map_requests(
                    old(self)@.clients.take(i as int),
                    ws,
                ),
            decreases self.clients@.len() - i,
        {
            proof {
                assert(self.clients@[i as int] == old(self)@.clients[i as int]);
                assert(old(self)@.clients.take(i + 1).drop_last() =~= old(self)@.clients.take(
                    i as int,
                ));
                assert(old(self)@.clients.take(i + 1).last() == old(self)@.clients[i as int]);
            }
            let c = self.clients[i];
            if c.controlled {
                let on_target = match c.workspace {
                    Some(w) => w == ws,
                    None => false,
                };
                if on_target {
                    if !c.visible {
                        reqs.push(Request::MapWindow { window: c.window });
                    }
                } else {
                    if c.visible {
                        reqs.push(Request::UnmapWindow { window: c.window });
                    }
                }
                let updated = Client {
                    visible: on_target,
                    window: c.window,
                    workspace: c.workspace,
                    controlled: c.controlled,
                    full_screen: c.full_screen,
                    padding_top: c.padding_top,
                };
                self.clients[i] = updated;
            }
            proof {
                assert(self.clients@ =~= ClientsView::spec_workspace_visibility(
                    old(self)@.clients.take(i + 1),
                    ws,
                ) + old(self)@.clients.skip(i + 1));
            }
            i += 1;
        }
        proof {
            assert(old(self)@.clients.take(old(self)@.clients.len() as int) =~= old(
                self,
            )@.clients);
            assert(old(self)@.clients.skip(old(self)@.clients.len() as int) =~= Seq::<
                Client,
            >::empty());
            assert(self.clients@ =~= ClientsView::spec_workspace_visibility(
                old(self)@.clients,
                ws,
            ));
            assert(self@ == old(self)@.spec_switch_mid(ws));
        }
        reqs.push(Request::PublishCurrentDesktop { desktop: ws as u32 });
        let mut focus = self.set_active_window(cfg, None);
        reqs.append(&mut focus);
        let mut tail = self.resize(cfg, screen);
        reqs.append(&mut tail);
        proof {
            assert(reqs@ =~= old(self)@.spec_set_active_workspace_requests(*cfg, screen, ws));
        }
        reqs
    }

    /// Reassigns `window` to `workspace` and hides it, unless the target
    /// workspace is the one already shown, which is a no-op.
    pub fn set_window_workspace(
        &mut self,
        cfg: &Config,
        screen: Screen,
        window: u32,
        workspace: Option<u8>,
    ) -> (reqs: Vec<Request>)
        requires
            old(self).wf(),
            match workspace {
                Some(w) => 1 <= w <= 9,
                None => true,
            },
            !old(self)@.reassign_noop(workspace) ==> old(self)@.spec_set_window_workspace(
                window,
                workspace,
            ).resize_pre(*cfg, screen),
        ensures
            final(self)@ == old(self)@.spec_set_window_workspace(window, workspace),
            final(self).wf(),
            reqs@ == old(self)@.spec_set_window_workspace_requests(*cfg, screen, window, workspace),
    {
        let noop = match workspace {
            Some(w) => w == self.active_workspace,
            None => false,
        };
        if noop {
            let reqs: Vec<Request> = Vec::new();
            proof {
                assert(reqs@ =~= old(self)@.spec_set_window_workspace_requests(
                    *cfg,
                    screen,
                    window,
                    workspace,
                ));
            }
            return reqs;
        }
        if let Some(i) = self.find_client(window) {
            let c = self.clients[i];
            let updated = Client {
                workspace,
                window: c.window,
                visible: c.visible,
                controlled: c.controlled,
                full_screen: c.full_screen,
                padding_top: c.padding_top,
            };
            self.clients[i] = updated;
        }
        proof {
            assert(self.clients@ =~= old(self)@.clients.map_values(
                |c: Client|
                    if c.window == window {
                        c.with_workspace(workspace)
                    } else {
                        c
                    },
            ));
        }
        let mut reqs = self.hide_window(cfg, screen, window);
        let mut tail = self.refresh_clients();
        reqs.append(&mut tail);
        proof {
            assert(reqs@ =~= old(self)@.spec_set_window_workspace_requests(
                *cfg,
                screen,
                window,
                workspace,
            ));
        }
        reqs
    }

    /// How many clients are assigned to workspace `w`.
    pub fn count_on_workspace(&self, w: u8) -> (r: usize)
        ensures
            r == workspace_count(self.clients@, w),
    {
        broadcast use Seq::filter_distributes_over_add;

        let mut r: usize = 0;
        let mut i: usize = 0;
        while i < self.clients.len()
            invariant
                0 <= i <= self.clients@.len(),
                r == workspace_count(self.clients@.take(i as int), w),
                r <= i,
            decreases self.clients@.len() - i,
        {
            let c = &self.clients[i];
            let matches = match c.workspace {
                Some(cw) => cw == w,
                None => false,
            };
            proof {
                assert(self.clients@.take(i + 1) =~= self.clients@.take(i as int) + seq![
                    self.clients@[i as int],
                ]);
                let pred = |c: Client| c.workspace == Some(w);
                assert(seq![self.clients@[i as int]].filter(pred).len() == (if pred(
                    self.clients@[i as int],
                ) {
                    1int
                } else {
                    0int
                })) by {
                    reveal_with_fuel(Seq::filter, 2);
                    assert(seq![self.clients@[i as int]].drop_last() =~= Seq::<Client>::empty());
                }
            }
            if matches {
                r += 1;
            }
            i += 1;
        }
        proof {
            assert(self.clients@.take(self.clients@.len() as int) =~= self.clients@);
        }
        r
    }

    /// The nine desktop-name strings, in workspace order: each workspace's
    /// number, with its client count as a superscript suffix when the count
    /// is positive.
    pub fn workspace_names(&self) -> (names: Vec<String>)
        ensures
            names@.len() == 9,
            forall|i: int|
                0 <= i < 9 ==> (#[trigger] names@[i])@ == spec_workspace_label(
                    (i + 1) as u8,
                    workspace_count(self.clients@, (i + 1) as u8),
                ),
    {
        let mut names: Vec<String> = Vec::new();
        let mut w: u8 = 1;
        while w <= 9
            invariant
                1 <= w <= 10,
                names@.len() == w - 1,
                forall|i: int|
                    0 <= i < w - 1 ==> (#[trigger] names@[i])@ == spec_workspace_label(
                        (i + 1) as u8,
                        workspace_count(self.clients@, (i + 1) as u8),
                    ),
            decreases 10 - w,
        {
            let count = self.count_on_workspace(w);
            names.push(workspace_label(w, count));
            w += 1;
        }
        names
    }
}

} // verus!
