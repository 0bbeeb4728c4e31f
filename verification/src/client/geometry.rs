use crate::client::client::{is_tiled_candidate, Client};
use crate::client::clients::{ratio_wf, Clients, ClientsView};
use crate::command::Request;
use crate::config::Config;
use crate::screen::Screen;
use vstd::arithmetic::div_mod::{
    lemma_div_is_ordered, lemma_div_multiples_vanish, lemma_fundamental_div_mod,
    lemma_mod_bound,
};
use vstd::arithmetic::mul::{lemma_mul_inequality, lemma_mul_is_commutative};
use vstd::prelude::*;
use vstd::seq_lib::*;

verus! {

/// The summed top-of-screen reservation of all visible clients, in pixels.
pub open spec fn spec_padding_top(s: Seq<Client>) -> int
    decreases s.len(),
{
    if s.len() == 0 {
        0
    } else {
        spec_padding_top(s.drop_last()) + if s.last().visible {
            s.last().padding_top as int
        } else {
            0int
        }
    }
}

pub proof fn lemma_padding_top_nonneg(s: Seq<Client>)
    ensures
        spec_padding_top(s) >= 0,
    decreases s.len(),
{
    if s.len() > 0 {
        lemma_padding_top_nonneg(s.drop_last());
    }
}

pub proof fn lemma_padding_top_prefix(s: Seq<Client>, i: int)
    requires
        0 <= i <= s.len(),
    ensures
        spec_padding_top(s.take(i)) <= spec_padding_top(s),
    decreases s.len(),
{
    if i == s.len() {
        assert(s.take(i) =~= s);
    } else {
        assert(s.drop_last().take(i) =~= s.take(i));
        lemma_padding_top_prefix(s.drop_last(), i);
    }
}

/// The subset of clients the tiling pass works on, in registry order.
pub open spec fn visible_controlled(s: Seq<Client>) -> Seq<Client> {
    s.filter(|c: Client| is_tiled_candidate(c))
}

/// The first `m` elements of `s`, or all of `s` when it is shorter.
pub open spec fn spec_cap(s: Seq<Client>, m: int) -> Seq<Client> {
    if m < s.len() {
        s.take(m)
    } else {
        s
    }
}

/// The capacity bound on how many visible, controlled clients are given
/// tiled geometry; clients beyond it keep whatever geometry they last had.
pub open spec fn spec_max_clients(h: int, p: int, b: int, g: int) -> int {
    (h - p) / (2 * b + 2 * g) - 1
}

/// The clients that actually receive tiled geometry.
pub open spec fn spec_tiled(s: Seq<Client>, h: int, p: int, b: int, g: int) -> Seq<Client> {
    spec_cap(visible_controlled(s), spec_max_clients(h, p, b, g))
}

/// The tiled geometry `(x, y, width, height)` of the client at position `i`
/// out of `n`, on a `w` by `h` screen with border thickness `b`, border gap
/// `g`, reserved top padding `p` and master-pane ratio `r` (hundredths).
///
/// With a single client, it fills the usable area inside the gap.  With
/// more, the master (position 0) takes `r` hundredths of an adjusted base
/// width and the rest stack to its right in even slices.  The adjusted base
/// width subtracts `(2b - 2g)` from the usable width, a term that is
/// negative whenever the gap exceeds the border and thus widens the base
/// beyond the raw usable width; this is long-standing observed behaviour and
/// is preserved, not corrected.
/// The usable width inside the gap: the screen width less the doubled
/// border and doubled gap.
pub open spec fn spec_raw_base_width(w: int, b: int, g: int) -> int {
    w - 2 * b - 2 * g
}

/// The base width the master-pane ratio is applied to when more than one
/// client is tiled: the usable width less `(2b - 2g)`.
pub open spec fn spec_adjusted_base_width(w: int, b: int, g: int) -> int {
    spec_raw_base_width(w, b, g) - (2 * b - 2 * g)
}

/// Whenever the configured gap exceeds the configured border thickness,
/// the adjusted base width is strictly greater than the raw usable width:
/// the subtracted term is negative and so widens the base.
pub proof fn lemma_gap_inflates_base_width(w: int, b: int, g: int)
    requires
        g > b,
    ensures
        spec_adjusted_base_width(w, b, g) > spec_raw_base_width(w, b, g),
{
}

pub open spec fn spec_tile_rect(
    w: int,
    h: int,
    b: int,
    g: int,
    p: int,
    r: int,
    n: int,
    i: int,
) -> (int, int, int, int) {
    let b2 = 2 * b;
    let g2 = 2 * g;
    let avail = h - p;
    if n <= 1 {
        (g, g + p, w - b2 - g2, avail - b2 - g2)
    } else {
        let wadj = spec_adjusted_base_width(w, b, g);
        let fw = (wadj * r) / 100;
        let wh = avail / (n - 1);
        if i == 0 {
            (g, g + p, fw, avail - b2 - g2)
        } else {
            (g + fw + b2 + g2, g + p + wh * (i - 1), wadj - fw, wh - b2 - g2)
        }
    }
}

/// The requests of the tiling pass for the first `k` tiled clients: each
/// client's event mask is disabled, its geometry applied, and the mask
/// re-enabled.
pub open spec fn spec_tile_requests(
    tiled: Seq<Client>,
    w: int,
    h: int,
    b: int,
    g: int,
    p: int,
    r: int,
    k: int,
) -> Seq<Request>
    decreases k,
{
    if k <= 0 {
        Seq::empty()
    } else {
        let c = tiled[k - 1];
        let rect = spec_tile_rect(w, h, b, g, p, r, tiled.len() as int, k - 1);
        spec_tile_requests(tiled, w, h, b, g, p, r, k - 1) + seq![
            Request::DisableEventMask { window: c.window },
            Request::SetGeometry {
                window: c.window,
                x: rect.0 as u32,
                y: rect.1 as u32,
                width: rect.2 as u32,
                height: rect.3 as u32,
                border: b as u32,
            },
            Request::EnableEventMask { window: c.window },
        ]
    }
}

/// After the tiling pass, every tiled client flagged full screen is
/// reconfigured to cover the whole output with no border.
pub open spec fn spec_full_screen_requests(tiled: Seq<Client>, w: int, h: int) -> Seq<Request>
    decreases tiled.len(),
{
    if tiled.len() == 0 {
        Seq::empty()
    } else {
        spec_full_screen_requests(tiled.drop_last(), w, h) + if tiled.last().full_screen {
            seq![
                Request::SetGeometry {
                    window: tiled.last().window,
                    x: 0,
                    y: 0,
                    width: w as u32,
                    height: h as u32,
                    border: 0,
                },
            ]
        } else {
            Seq::empty()
        }
    }
}

impl ClientsView {
    /// What `resize` needs of the screen and configuration so that none of
    /// its arithmetic falls outside its types: some spacing between windows,
    /// border and gap within the display protocol's 16-bit range, and a
    /// screen tall and wide enough for at least one tiled window after the
    /// reserved padding.
    pub open spec fn resize_pre(self, cfg: Config, screen: Screen) -> bool {
        let b = cfg.border_thickness as int;
        let g = cfg.border_gap as int;
        let s = 2 * b + 2 * g;
        let p = spec_padding_top(self.clients);
        &&& s > 0
        &&& b <= 0xFFFF
        &&& g <= 0xFFFF
        &&& p + s <= screen.height as int
        &&& screen.width as int >= s
        &&& (spec_tiled(self.clients, screen.height as int, p, b, g).len() > 1
            ==> screen.width as int >= 4 * b)
    }

    /// The full request sequence of a relayout.
    pub open spec fn spec_resize_requests(self, cfg: Config, screen: Screen) -> Seq<Request> {
        let b = cfg.border_thickness as int;
        let g = cfg.border_gap as int;
        let w = screen.width as int;
        let h = screen.height as int;
        let p = spec_padding_top(self.clients);
        let r = self.active_ratio() as int;
        let tiled = spec_tiled(self.clients, h, p, b, g);
        spec_tile_requests(tiled, w, h, b, g, p, r, tiled.len() as int)
            + spec_full_screen_requests(tiled, w, h)
    }
}

impl Clients {
    /// The summed top reservation of all visible clients.
    pub fn get_padding_top(&self) -> (r: usize)
        requires
            spec_padding_top(self.clients@) <= usize::MAX,
        ensures
            r == spec_padding_top(self.clients@),
    {
        let mut r: usize = 0;
        let mut i: usize = 0;
        while i < self.clients.len()
            invariant
                0 <= i <= self.clients@.len(),
                spec_padding_top(self.clients@) <= usize::MAX,
                r == spec_padding_top(self.clients@.take(i as int)),
            decreases self.clients@.len() - i,
        {
            let c = &self.clients[i];
            proof {
                assert(self.clients@.take(i + 1).drop_last() =~= self.clients@.take(i as int));
                assert(self.clients@.take(i + 1).last() == self.clients@[i as int]);
                lemma_padding_top_prefix(self.clients@, i + 1);
                lemma_padding_top_nonneg(self.clients@.take(i as int));
            }
            if c.visible {
                r += c.padding_top as usize;
            }
            i += 1;
        }
        proof {
            assert(self.clients@.take(self.clients@.len() as int) =~= self.clients@);
        }
        r
    }

    /// Recomputes the tiled geometry of every visible, controlled client, up
    /// to the capacity bound, and returns the requests that apply it: a
    /// disable-mask/geometry/enable-mask triple per tiled client, followed
    /// by a whole-output override for each tiled client flagged full screen.
    pub fn resize(&self, cfg: &Config, screen: Screen) -> (reqs: Vec<Request>)
        requires
            self.wf(),
            self@.resize_pre(*cfg, screen),
        ensures
            reqs@ == self@.spec_resize_requests(*cfg, screen),
    {
        broadcast use Seq::filter_distributes_over_add;

        let b: usize = cfg.border_thickness as usize;
        let g: usize = cfg.border_gap as usize;
        let b2: usize = b * 2;
        let g2: usize = g * 2;
        let spacing: usize = b2 + g2;
        let sw: usize = screen.width as usize;
        let sh: usize = screen.height as usize;
        proof {
            lemma_padding_top_nonneg(self.clients@);
        }
        let p: usize = self.get_padding_top();
        let avail: usize = sh - p;
        proof {
            lemma_div_is_ordered(spacing as int, avail as int, spacing as int);
            lemma_div_multiples_vanish(1, spacing as int);
            assert(avail as int / spacing as int >= 1);
        }
        let maxc: usize = avail / spacing - 1;

        let ghost gb = b as int;
        let ghost gg = g as int;
        let ghost gp = p as int;
        let ghost gw = sw as int;
        let ghost gh = sh as int;

        // Collect the tiled subset: visible and controlled, capped.
        let mut tiled: Vec<Client> = Vec::new();
        let mut i: usize = 0;
        while i < self.clients.len()
            invariant
                0 <= i <= self.clients@.len(),
                maxc == spec_max_clients(gh, gp, gb, gg),
                gp == spec_padding_top(self.clients@),
                tiled@ == spec_cap(visible_controlled(self.clients@.take(i as int)), maxc as int),
                tiled@.len() <= maxc,
                tiled@.len() < maxc ==> tiled@ == visible_controlled(
                    self.clients@.take(i as int),
                ),
            decreases self.clients@.len() - i,
        {
            let c = self.clients[i];
            proof {
                assert(self.clients@.take(i + 1) =~= self.clients@.take(i as int) + seq![
                    self.clients@[i as int],
                ]);
                let pred = |c: Client| is_tiled_candidate(c);
                assert(seq![c].filter(pred) =~= if pred(c) {
                    seq![c]
                } else {
                    Seq::<Client>::empty()
                }) by {
                    reveal_with_fuel(Seq::filter, 2);
                    assert(seq![c].drop_last() =~= Seq::<Client>::empty());
                }
                let f = visible_controlled(self.clients@.take(i as int));
                let f2 = visible_controlled(self.clients@.take(i + 1));
                if pred(c) {
                    assert(f2 =~= f.push(c));
                } else {
                    assert(f2 =~= f);
                }
                if tiled@.len() >= maxc && pred(c) {
                    assert(spec_cap(f2, maxc as int) =~= spec_cap(f, maxc as int)) by {
                        assert(f.push(c).take(maxc as int) =~= spec_cap(f, maxc as int));
                    }
                }
                if tiled@.len() < maxc && pred(c) {
                    assert(spec_cap(f2, maxc as int) =~= f.push(c));
                }
            }
            if c.visible && c.controlled && tiled.len() < maxc {
                tiled.push(c);
            }
            i += 1;
        }
        proof {
            assert(self.clients@.take(self.clients@.len() as int) =~= self.clients@);
        }

        let n: usize = tiled.len();
        let ghost gtiled = tiled@;
        let ghost gn = n as int;
        let ghost gr = self@.active_ratio() as int;
        let ratio: u32 = self.front_window_ratio[(self.active_workspace - 1) as usize];
        let ghost gspacing = 2 * gb + 2 * gg;

        proof {
            assert(ratio_wf(self.front_window_ratio@[self.active_workspace - 1]));
            // The capacity bound keeps every stack slice at least one
            // spacing tall.
            if gn > 1 {
                lemma_stack_slice_bounds(gh - gp, gspacing, gn);
            }
        }

        let mut reqs: Vec<Request> = Vec::new();
        let mut k: usize = 0;
        while k < n
            invariant
                0 <= k <= gn,
                gn == gtiled.len(),
                n == gn,
                tiled@ == gtiled,
                b == gb && g == gg && p == gp && sw == gw && sh == gh,
                b2 == 2 * gb && g2 == 2 * gg && spacing == gspacing,
                gspacing == 2 * gb + 2 * gg,
                avail == gh - gp,
                ratio == gr,
                ratio_bounds(gr),
                gb <= 0xFFFF && gg <= 0xFFFF,
                0 <= gp,
                gw <= 0xFFFF && gh <= 0xFFFF,
                gspacing > 0,
                gp + gspacing <= gh,
                gw >= gspacing,
                gn > 1 ==> gw >= 4 * gb,
                gn > 1 ==> (gh - gp) / (gn - 1) >= gspacing,
                gn > 1 ==> gn - 1 <= gh - gp,
                reqs@ == spec_tile_requests(gtiled, gw, gh, gb, gg, gp, gr, k as int),
            decreases gn - k,
        {
            let c = tiled[k];
            let ghost rect = spec_tile_rect(gw, gh, gb, gg, gp, gr, gn, k as int);
            let mut x: usize = g;
            let mut y: usize = g + p;
            let mut wd: usize = sw - b2 - g2;
            let mut ht: usize = avail - b2 - g2;
            if n > 1 {
                // The adjusted base width subtracts (b2 - g2); computed as
                // signed arithmetic it equals the usable width minus twice
                // the doubled border.
                let wadj: usize = sw - b2 - b2;
                proof {
                    assert(wadj as int * (ratio as int) <= 0xFFFF * 90) by (nonlinear_arith)
                        requires
                            wadj <= 0xFFFF,
                            0 <= ratio <= 90,
                    ;
                }
                let fw: usize = wadj * (ratio as usize) / 100;
                let wh: usize = avail / (n - 1);
                proof {
                    lemma_mul_inequality(gr, 100, wadj as int);
                    lemma_mul_is_commutative(gr, wadj as int);
                    lemma_mul_is_commutative(100, wadj as int);
                    lemma_div_is_ordered(wadj as int * gr, wadj as int * 100, 100);
                    lemma_div_multiples_vanish(wadj as int, 100);
                    assert(fw <= wadj);
                }
                if k > 0 {
                    proof {
                        lemma_fundamental_div_mod(avail as int, gn - 1);
                        lemma_mod_bound(avail as int, gn - 1);
                        lemma_mul_is_commutative(gn - 1, wh as int);
                        assert(wh as int * (gn - 1) <= avail);
                        lemma_mul_inequality(k - 1, gn - 1, wh as int);
                        lemma_mul_is_commutative(k - 1, wh as int);
                        assert(wh * (k - 1) <= avail);
                    }
                    x = g + fw + b2 + g2;
                    y = g + p + wh * (k - 1);
                    wd = wadj - fw;
                    ht = wh - b2 - g2;
                } else {
                    wd = fw;
                }
            }
            proof {
                assert(rect.0 == x && rect.1 == y && rect.2 == wd && rect.3 == ht);
                assert(x <= u32::MAX && y <= u32::MAX && wd <= u32::MAX && ht <= u32::MAX);
            }
            reqs.push(Request::DisableEventMask { window: c.window });
            reqs.push(
                Request::SetGeometry {
                    window: c.window,
                    x: x as u32,
                    y: y as u32,
                    width: wd as u32,
                    height: ht as u32,
                    border: b as u32,
                },
            );
            reqs.push(Request::EnableEventMask { window: c.window });
            proof {
                assert(reqs@ =~= spec_tile_requests(gtiled, gw, gh, gb, gg, gp, gr, k + 1));
            }
            k += 1;
        }

        // Full-screen overrides.
        let mut j: usize = 0;
        while j < n
            invariant
                0 <= j <= gn,
                gn == gtiled.len(),
                n == gn,
                tiled@ == gtiled,
                gw == screen.width as int,
                gh == screen.height as int,
                reqs@ == spec_tile_requests(gtiled, gw, gh, gb, gg, gp, gr, gn)
                    + spec_full_screen_requests(gtiled.take(j as int), gw, gh),
            decreases gn - j,
        {
            let c = tiled[j];
            proof {
                assert(gtiled.take(j + 1).drop_last() =~= gtiled.take(j as int));
                assert(gtiled.take(j + 1).last() == gtiled[j as int]);
            }
            if c.full_screen {
                reqs.push(
                    Request::SetGeometry {
                        window: c.window,
                        x: 0,
                        y: 0,
                        width: screen.width as u32,
                        height: screen.height as u32,
                        border: 0,
                    },
                );
            }
            proof {
                assert(reqs@ =~= spec_tile_requests(gtiled, gw, gh, gb, gg, gp, gr, gn)
                    + spec_full_screen_requests(gtiled.take(j + 1), gw, gh));
            }
            j += 1;
        }
        proof {
            assert(gtiled.take(gn) =~= gtiled);
        }
        reqs
    }
}

/// A valid master-pane ratio in hundredths.
pub open spec fn ratio_bounds(r: int) -> bool {
    10 <= r <= 90
}

/// Under the capacity bound, each stack slice of the available height is at
/// least one spacing tall.
proof fn lemma_stack_slice_bounds(avail: int, s: int, n: int)
    requires
        s > 0,
        avail >= s,
        1 < n,
        n <= avail / s - 1,
    ensures
        avail / (n - 1) >= s,
        n - 1 <= avail,
{
    let q = avail / s;
    lemma_fundamental_div_mod(avail, s);
    lemma_mod_bound(avail, s);
    assert(s * q <= avail);
    lemma_mul_inequality(n - 1, q - 2, s);
    assert((n - 1) * s <= (q - 2) * s) by {
        lemma_mul_inequality(n - 1, q - 2, s);
    }
    assert((q - 2) * s == s * q - 2 * s) by (nonlinear_arith);
    assert((n - 1) * s <= avail);
    lemma_div_is_ordered((n - 1) * s, avail, n - 1);
    lemma_div_multiples_vanish(s, n - 1);
    assert(((n - 1) * s) / (n - 1) == s);
    assert(n - 1 <= (n - 1) * s) by (nonlinear_arith)
        requires s >= 1, n > 1;
}

} // verus!
