pub mod config;

use crate::client::workspace::{digit_char, spec_decimal};
use crate::statusbar::config::Config;
use vstd::prelude::*;

verus! {

/// `n` written in decimal.
pub open spec fn spec_decimal_chars(n: nat) -> Seq<char> {
    spec_decimal(n).map_values(|d: nat| digit_char(d))
}

/// The plain character of one digit, as string content.
fn digit_str(d: u64) -> (r: &'static str)
    requires
        d < 10,
    ensures
        r@ == seq![digit_char(d as nat)],
{
    proof {
        reveal_strlit("0");
        reveal_strlit("1");
        reveal_strlit("2");
        reveal_strlit("3");
        reveal_strlit("4");
        reveal_strlit("5");
        reveal_strlit("6");
        reveal_strlit("7");
        reveal_strlit("8");
        reveal_strlit("9");
    }
    let r = if d == 0 {
        "0"
    } else if d == 1 {
        "1"
    } else if d == 2 {
        "2"
    } else if d == 3 {
        "3"
    } else if d == 4 {
        "4"
    } else if d == 5 {
        "5"
    } else if d == 6 {
        "6"
    } else if d == 7 {
        "7"
    } else if d == 8 {
        "8"
    } else {
        "9"
    };
    proof {
        assert(r@ =~= seq![digit_char(d as nat)]);
    }
    r
}

/// `n` rendered in decimal.
pub fn decimal_string(n: u64) -> (r: String)
    ensures
        r@ == spec_decimal_chars(n as nat),
{
    let mut digits: Vec<u64> = Vec::new();
    let mut rest: u64 = n;
    while rest >= 10
        invariant
            spec_decimal(n as nat) == spec_decimal(rest as nat) + digits@.map_values(
                |d: u64| d as nat,
            ),
            forall|i: int| 0 <= i < digits@.len() ==> #[trigger] digits@[i] < 10,
        decreases rest,
    {
        let d = rest % 10;
        proof {
            let pre = digits@.map_values(|x: u64| x as nat);
            assert(seq![(rest % 10) as nat] + pre =~= digits@.insert(0, d).map_values(
                |x: u64| x as nat,
            ));
            assert(spec_decimal(rest as nat) == spec_decimal((rest / 10) as nat) + seq![
                (rest % 10) as nat,
            ]) by {
                assert(spec_decimal(rest as nat) == spec_decimal((rest as nat) / 10).push(
                    (rest as nat) % 10,
                ));
                assert(spec_decimal((rest as nat) / 10).push((rest as nat) % 10)
                    =~= spec_decimal((rest as nat) / 10) + seq![(rest as nat) % 10]);
            }
        }
        digits.insert(0, d);
        rest = rest / 10;
    }
    let mut r = String::new();
    r.append(digit_str(rest));
    let ghost all_digits = seq![rest as nat] + digits@.map_values(|d: u64| d as nat);
    proof {
        assert(spec_decimal(n as nat) =~= all_digits);
        assert(r@ =~= all_digits.take(1).map_values(|d: nat| digit_char(d)));
    }
    let mut i: usize = 0;
    while i < digits.len()
        invariant
            0 <= i <= digits@.len(),
            forall|j: int| 0 <= j < digits@.len() ==> #[trigger] digits@[j] < 10,
            all_digits == seq![rest as nat] + digits@.map_values(|d: u64| d as nat),
            rest < 10,
            r@ == all_digits.take(i + 1).map_values(|d: nat| digit_char(d)),
        decreases digits@.len() - i,
    {
        r.append(digit_str(digits[i]));
        proof {
            assert(all_digits.take(i + 2).map_values(|d: nat| digit_char(d)) =~= all_digits.take(
                i + 1,
            ).map_values(|d: nat| digit_char(d)) + seq![digit_char(digits@[i as int] as nat)]);
        }
        i += 1;
    }
    proof {
        assert(all_digits.take(all_digits.len() as int) =~= all_digits);
        assert(r@ =~= spec_decimal_chars(n as nat));
    }
    r
}

/// The title band's text: the focused window's name in brackets before the
/// `user@host` tag, or the tag alone when no window name is available.
pub open spec fn spec_bar_title(
    name: Option<Seq<char>>,
    user: Seq<char>,
    host: Seq<char>,
) -> Seq<char> {
    match name {
        Some(n) => "["@ + n + "] "@ + user + "@"@ + host,
        None => user + "@"@ + host,
    }
}

/// Renders the title band's text.
pub fn bar_title(name: Option<&String>, user: &str, host: &str) -> (r: String)
    ensures
        r@ == spec_bar_title(
            match name {
                Some(n) => Some(n@),
                None => None,
            },
            user@,
            host@,
        ),
{
    let mut r = String::new();
    match name {
        Some(n) => {
            r.append("[");
            r.append(n.as_str());
            r.append("] ");
            r.append(user);
            r.append("@");
            r.append(host);
        },
        None => {
            r.append(user);
            r.append("@");
            r.append(host);
        },
    }
    r
}

/// The amount of memory in use: the total less the free amount, never
/// below zero.
pub open spec fn spec_used_memory(total: u64, free: u64) -> u64 {
    if total >= free {
        (total - free) as u64
    } else {
        0u64
    }
}

/// The used share of memory as a whole percentage, rounded to nearest
/// (halves away from zero).
pub open spec fn spec_used_percent(used: u64, total: u64) -> int {
    (used * 200 + total) / (total * 2)
}

/// The power of one thousand a byte count is displayed in: bytes below one
/// thousand stand alone, and each thousandfold step moves one unit up.
pub open spec fn spec_unit_exp(b: u64) -> nat {
    if b < 1000 {
        0
    } else if b < 1000000 {
        1
    } else if b < 1000000000 {
        2
    } else if b < 1000000000000 {
        3
    } else if b < 1000000000000000 {
        4
    } else if b < 1000000000000000000 {
        5
    } else {
        6
    }
}

/// One thousand to the `e`-th power, for the exponents a 64-bit byte count
/// can reach.
pub open spec fn spec_unit_div(e: nat) -> u64 {
    if e == 1 {
        1000
    } else if e == 2 {
        1000000
    } else if e == 3 {
        1000000000
    } else if e == 4 {
        1000000000000
    } else if e == 5 {
        1000000000000000
    } else {
        1000000000000000000
    }
}

/// The unit letter of each thousandfold step.
pub open spec fn spec_unit_letter(e: nat) -> Seq<char> {
    if e == 1 {
        "K"@
    } else if e == 2 {
        "M"@
    } else if e == 3 {
        "G"@
    } else if e == 4 {
        "T"@
    } else if e == 5 {
        "P"@
    } else {
        "E"@
    }
}

/// A byte count in human-readable form: plain bytes below one thousand,
/// and otherwise one decimal place in the largest unit it reaches, the
/// fraction truncated.
pub open spec fn spec_human_bytes(b: u64) -> Seq<char> {
    let e = spec_unit_exp(b);
    if e == 0 {
        spec_decimal_chars(b as nat) + " B"@
    } else {
        let scaled = (b as int) * 10 / (spec_unit_div(e) as int);
        spec_decimal_chars((scaled / 10) as nat) + "."@ + seq![digit_char((scaled % 10) as nat)]
            + " "@ + spec_unit_letter(e) + "B"@
    }
}

/// Renders a byte count in human-readable form.
pub fn human_bytes(b: u64) -> (r: String)
    ensures
        r@ == spec_human_bytes(b),
{
    let mut r = String::new();
    if b < 1000 {
        let d = decimal_string(b);
        r.append(d.as_str());
        r.append(" B");
        proof {
            assert(r@ =~= spec_human_bytes(b));
        }
        return r;
    }
    let (div, letter): (u64, &'static str) = if b < 1000000 {
        (1000, "K")
    } else if b < 1000000000 {
        (1000000, "M")
    } else if b < 1000000000000 {
        (1000000000, "G")
    } else if b < 1000000000000000 {
        (1000000000000, "T")
    } else if b < 1000000000000000000 {
        (1000000000000000, "P")
    } else {
        (1000000000000000000, "E")
    };
    let scaled = ((b as u128) * 10 / (div as u128)) as u64;
    proof {
        assert(((b as u128) * 10) as int / ((div as u128) as int) == (b as int) * 10 / (
        div as int)) by {
            assert(((b as u128) * 10) as int == (b as int) * 10) by (nonlinear_arith);
        }
        assert((b as int) * 10 / (div as int) <= u64::MAX) by {
            vstd::arithmetic::mul::lemma_mul_nonnegative(b as int, 10);
            vstd::arithmetic::div_mod::lemma_div_is_ordered_by_denominator(
                (b as int) * 10,
                10,
                div as int,
            );
            vstd::arithmetic::div_mod::lemma_div_multiples_vanish(b as int, 10);
            assert((b as int) * 10 == 10 * (b as int)) by (nonlinear_arith);
        }
        assert(letter@ == spec_unit_letter(spec_unit_exp(b)));
        assert(div == spec_unit_div(spec_unit_exp(b)));
    }
    let whole = decimal_string(scaled / 10);
    r.append(whole.as_str());
    r.append(".");
    r.append(digit_str(scaled % 10));
    r.append(" ");
    r.append(letter);
    r.append("B");
    proof {
        assert(r@ =~= spec_human_bytes(b));
    }
    r
}

/// The system-information band's memory text.
pub open spec fn spec_memory_text(total: u64, free: u64) -> Seq<char> {
    let used = spec_used_memory(total, free);
    "Mem: "@ + spec_human_bytes(used) + " ("@ + spec_decimal_chars(
        spec_used_percent(used, total) as nat,
    ) + "% used)"@
}

/// Renders the memory block: the human-readable used amount and the used
/// share as a whole percentage.
pub fn memory_text(total: u64, free: u64) -> (r: String)
    requires
        total > 0,
    ensures
        r@ == spec_memory_text(total, free),
{
    let used = if total >= free {
        total - free
    } else {
        0
    };
    let percent = (((used as u128) * 200 + (total as u128)) / ((total as u128) * 2)) as u64;
    proof {
        let gu = used as int;
        let gt = total as int;
        assert((used as u128) * 200 + (total as u128) == gu * 200 + gt);
        assert((total as u128) * 2 == gt * 2);
        assert((gu * 200 + gt) / (gt * 2) <= 101) by (nonlinear_arith)
            requires
                0 < gt <= u64::MAX,
                0 <= gu <= gt,
        ;
        assert((gu * 200 + gt) / (gt * 2) >= 0) by (nonlinear_arith)
            requires
                0 < gt,
                0 <= gu,
        ;
    }
    let mut r = String::new();
    r.append("Mem: ");
    let hr = human_bytes(used);
    r.append(hr.as_str());
    r.append(" (");
    let pc = decimal_string(percent);
    r.append(pc.as_str());
    r.append("% used)");
    proof {
        assert(r@ =~= spec_memory_text(total, free));
    }
    r
}

/// The abbreviated name of month `m` (1 through 12).
pub open spec fn spec_month_abbr(m: u8) -> Seq<char> {
    if m == 1 {
        "Jan"@
    } else if m == 2 {
        "Feb"@
    } else if m == 3 {
        "Mar"@
    } else if m == 4 {
        "Apr"@
    } else if m == 5 {
        "May"@
    } else if m == 6 {
        "Jun"@
    } else if m == 7 {
        "Jul"@
    } else if m == 8 {
        "Aug"@
    } else if m == 9 {
        "Sep"@
    } else if m == 10 {
        "Oct"@
    } else if m == 11 {
        "Nov"@
    } else {
        "Dec"@
    }
}

/// The abbreviated name of weekday `d` (0 = Sunday through 6 = Saturday).
pub open spec fn spec_weekday_abbr(d: u8) -> Seq<char> {
    if d == 0 {
        "Sun"@
    } else if d == 1 {
        "Mon"@
    } else if d == 2 {
        "Tue"@
    } else if d == 3 {
        "Wed"@
    } else if d == 4 {
        "Thu"@
    } else if d == 5 {
        "Fri"@
    } else {
        "Sat"@
    }
}

/// A number below one hundred, zero-padded to two digits.
pub open spec fn spec_two_digit(n: u8) -> Seq<char> {
    seq![digit_char((n / 10) as nat), digit_char((n % 10) as nat)]
}

/// The hour on the 12-hour clock: midnight and noon read as 12.
pub open spec fn spec_hour12(hour: u8) -> u8 {
    if hour % 12 == 0 {
        12
    } else {
        (hour % 12) as u8
    }
}

/// The system-information band's clock text: month, day, weekday,
/// 12-hour time and meridiem.
pub open spec fn spec_time_text(month: u8, day: u8, weekday: u8, hour: u8, minute: u8) -> Seq<
    char,
> {
    "Time: "@ + spec_month_abbr(month) + " "@ + spec_two_digit(day) + " ("@ + spec_weekday_abbr(
        weekday,
    ) + ") "@ + spec_two_digit(spec_hour12(hour)) + ":"@ + spec_two_digit(minute) + (if hour < 12 {
        "AM"@
    } else {
        "PM"@
    })
}

fn month_abbr(m: u8) -> (r: &'static str)
    requires
        1 <= m <= 12,
    ensures
        r@ == spec_month_abbr(m),
{
    if m == 1 {
        "Jan"
    } else if m == 2 {
        "Feb"
    } else if m == 3 {
        "Mar"
    } else if m == 4 {
        "Apr"
    } else if m == 5 {
        "May"
    } else if m == 6 {
        "Jun"
    } else if m == 7 {
        "Jul"
    } else if m == 8 {
        "Aug"
    } else if m == 9 {
        "Sep"
    } else if m == 10 {
        "Oct"
    } else if m == 11 {
        "Nov"
    } else {
        "Dec"
    }
}

fn weekday_abbr(d: u8) -> (r: &'static str)
    requires
        d <= 6,
    ensures
        r@ == spec_weekday_abbr(d),
{
    if d == 0 {
        "Sun"
    } else if d == 1 {
        "Mon"
    } else if d == 2 {
        "Tue"
    } else if d == 3 {
        "Wed"
    } else if d == 4 {
        "Thu"
    } else if d == 5 {
        "Fri"
    } else {
        "Sat"
    }
}

fn two_digit(n: u8) -> (r: String)
    requires
        n < 100,
    ensures
        r@ == spec_two_digit(n),
{
    let mut r = String::new();
    r.append(digit_str((n / 10) as u64));
    r.append(digit_str((n % 10) as u64));
    proof {
        assert(r@ =~= spec_two_digit(n));
    }
    r
}

/// Renders the clock block from broken-down local-time components; the
/// shell reads the local time and hands the components over.
pub fn time_text(month: u8, day: u8, weekday: u8, hour: u8, minute: u8) -> (r: String)
    requires
        1 <= month <= 12,
        day <= 31,
        weekday <= 6,
        hour <= 23,
        minute <= 59,
    ensures
        r@ == spec_time_text(month, day, weekday, hour, minute),
{
    let mut r = String::new();
    r.append("Time: ");
    r.append(month_abbr(month));
    r.append(" ");
    let d = two_digit(day);
    r.append(d.as_str());
    r.append(" (");
    r.append(weekday_abbr(weekday));
    r.append(") ");
    let h12 = if hour % 12 == 0 {
        12
    } else {
        hour % 12
    };
    let h = two_digit(h12);
    r.append(h.as_str());
    r.append(":");
    let mi = two_digit(minute);
    r.append(mi.as_str());
    if hour < 12 {
        r.append("AM");
    } else {
        r.append("PM");
    }
    proof {
        assert(r@ =~= spec_time_text(month, day, weekday, hour, minute));
    }
    r
}

/// The bar window's geometry: inset by the margin on the left, right and
/// top, with the configured height.
pub fn bar_geometry(cfg: &Config, screen_width: u16) -> (g: (u16, u16, u16, u16))
    requires
        cfg.margin * 2 <= screen_width,
    ensures
        g == (cfg.margin, cfg.margin, (screen_width - cfg.margin * 2) as u16, cfg.height),
{
    (cfg.margin, cfg.margin, screen_width - cfg.margin * 2, cfg.height)
}

/// The top-of-screen space the bar reserves: its height plus its margin.
pub fn strut_top(cfg: &Config) -> (t: u32)
    ensures
        t == cfg.height + cfg.margin,
{
    cfg.height as u32 + cfg.margin as u32
}

/// The horizontal offset of workspace cell `i` in the workspace strip.
pub fn workspace_cell_offset(cfg: &Config, i: u32) -> (x: u32)
    requires
        i < 9,
        cfg.workspace_width <= 0xFFFF,
    ensures
        x == i * cfg.workspace_width,
{
    proof {
        assert(i * cfg.workspace_width <= 8 * 0xFFFF) by (nonlinear_arith)
            requires
                i < 9,
                cfg.workspace_width <= 0xFFFF,
        ;
    }
    i * cfg.workspace_width
}

/// Equality of two cached optional strings, by their text.
pub open spec fn spec_opt_text_eq(a: Option<String>, b: Option<String>) -> bool {
    match (a, b) {
        (Some(x), Some(y)) => x@ == y@,
        (None, None) => true,
        _ => false,
    }
}

/// The cached band contents used to decide which horizontal band of the
/// bar changed since the last frame, so only that band is cleared and
/// repainted.
pub struct SurfaceState {
    pub window_name: Option<String>,
    pub workspace_name: Option<String>,
}

impl SurfaceState {
    /// A fresh cache: nothing drawn yet, so every band repaints once.
    pub fn new() -> (r: SurfaceState)
        ensures
            r.window_name is None,
            r.workspace_name is None,
    {
        SurfaceState { window_name: None, workspace_name: None }
    }

    /// Decides whether the title band must repaint for the given window
    /// name and caches it: no repaint only when a name was cached and the
    /// new one reads the same (an empty cache always repaints, even for an
    /// absent name).
    pub fn update_window_name(&mut self, name: Option<String>) -> (redraw: bool)
        ensures
            redraw == !(old(self).window_name is Some && spec_opt_text_eq(
                old(self).window_name,
                name,
            )),
            redraw ==> spec_opt_text_eq(final(self).window_name, name),
            !redraw ==> *final(self) == *old(self),
            final(self).workspace_name == old(self).workspace_name,
    {
        let skip = match (&self.window_name, &name) {
            (Some(cached), Some(new)) => cached.eq(new),
            _ => false,
        };
        if skip {
            false
        } else {
            self.window_name = name;
            true
        }
    }

    /// Decides whether the workspace strip must repaint for the active
    /// cell's label and caches it: it repaints exactly when the label
    /// changed.
    pub fn update_workspace_name(&mut self, name: Option<String>) -> (redraw: bool)
        ensures
            redraw == !spec_opt_text_eq(old(self).workspace_name, name),
            redraw ==> spec_opt_text_eq(final(self).workspace_name, name),
            !redraw ==> *final(self) == *old(self),
            final(self).window_name == old(self).window_name,
    {
        let same = match (&self.workspace_name, &name) {
            (Some(cached), Some(new)) => cached.eq(new),
            (None, None) => true,
            _ => false,
        };
        if same {
            false
        } else {
            self.workspace_name = name;
            true
        }
    }
}

} // verus!
