use vstd::prelude::*;
use vstd::seq_lib::*;

verus! {

/// What the images of an Xcursor file are, as `(width, height, delay)`
/// triples in file order; a function of the file's bytes alone.
pub uninterp spec fn cursor_images_of(data: Seq<u8>) -> Option<Seq<(u32, u32, u32)>>;

/// Relies on the Xcursor parser: the images of a cursor file (here
/// reduced to their width, height and frame delay) depend on the file's
/// bytes alone, and an unparsable file yields nothing.
#[verifier::external_body]
fn parse_cursor_images(data: &Vec<u8>) -> (r: Option<Vec<(u32, u32, u32)>>)
    ensures
        (match r {
            Some(v) => Some(v@),
            None => None,
        }) == cursor_images_of(data@),
{
    xcursor::parser::parse_xcursor(data.as_slice()).map(
        |images| images.into_iter().map(|i| (i.width, i.height, i.delay)).collect(),
    )
}

/// What the cursor looks like right now: hidden, the default themed
/// cursor, or a surface a client supplied (which overrides the theme).
#[derive(Clone, Copy, PartialEq, Eq, Structural, Debug)]
pub enum CursorStatus {
    Hidden,
    Default,
    Surface,
}

/// The images of the requested pixel size.
pub open spec fn spec_size_matches(images: Seq<(u32, u32, u32)>, size: u32) -> Seq<
    (u32, u32, u32),
> {
    images.filter(|t: (u32, u32, u32)| t.0 == size && t.1 == size)
}

/// The total delay of the images' animation.
pub open spec fn spec_total_delay(images: Seq<(u32, u32, u32)>) -> int
    decreases images.len(),
{
    if images.len() == 0 {
        0
    } else {
        spec_total_delay(images.drop_last()) + images.last().2
    }
}

/// The cumulative-delay key of each frame: the running total, frame by
/// frame, of the per-frame display durations (each frame keyed by the
/// total *including* its own delay).
pub open spec fn spec_cumulative_delays(images: Seq<(u32, u32, u32)>) -> Seq<u64>
    decreases images.len(),
{
    if images.len() == 0 {
        Seq::empty()
    } else {
        spec_cumulative_delays(images.drop_last()).push(spec_total_delay(images) as u64)
    }
}

pub proof fn lemma_total_delay_nonneg(images: Seq<(u32, u32, u32)>)
    ensures
        spec_total_delay(images) >= 0,
    decreases images.len(),
{
    if images.len() > 0 {
        lemma_total_delay_nonneg(images.drop_last());
    }
}

/// The total delay of a concatenation is the sum of the totals.
proof fn lemma_total_delay_add(a: Seq<(u32, u32, u32)>, b: Seq<(u32, u32, u32)>)
    ensures
        spec_total_delay(a + b) == spec_total_delay(a) + spec_total_delay(b),
    decreases b.len(),
{
    if b.len() == 0 {
        assert(a + b =~= a);
    } else {
        assert((a + b).drop_last() =~= a + b.drop_last());
        assert((a + b).last() == b.last());
        lemma_total_delay_add(a, b.drop_last());
    }
}

/// The animated pointer element: one texture per cursor frame, keyed by
/// cumulative delay, plus the animation's current position and the cursor
/// status.  The shell owns the textures; the element owns the schedule.
pub struct PointerElement {
    /// The cumulative-delay key of each frame, in file order.
    pub frames: Vec<u64>,
    /// The grand total of all frame delays.
    pub total_delay: u64,
    /// The current position within the animation, in milliseconds.
    pub current_delay: u64,
    /// What the cursor looks like right now.
    pub status: CursorStatus,
}

impl PointerElement {
    /// The frame keys ascend (they are running totals) and the grand
    /// total is the last key.
    pub open spec fn wf(self) -> bool {
        &&& forall|i: int, j: int| 0 <= i < j < self.frames@.len() ==> self.frames@[i]
            <= self.frames@[j]
        &&& self.frames@.len() > 0 ==> self.total_delay == self.frames@.last()
        &&& self.frames@.len() == 0 ==> self.total_delay == 0
    }

    /// Builds the animation schedule from a cursor file's bytes: the
    /// images of the requested pixel size, each keyed by the cumulative
    /// delay of the animation up to and including it.  Nothing for an
    /// unparsable file, nor for the unreachable case of a schedule whose
    /// total delay exceeds 64 bits.
    #[verifier::rlimit(100)]
    pub fn new(data: &Vec<u8>, size: u32) -> (r: Option<PointerElement>)
        ensures
            cursor_images_of(data@) is None ==> r is None,
            cursor_images_of(data@) matches Some(images) && spec_total_delay(
                spec_size_matches(images, size),
            ) <= u64::MAX ==> r is Some,
            r matches Some(p) ==> {
                &&& cursor_images_of(data@) is Some
                &&& p.wf()
                &&& p.frames@ == spec_cumulative_delays(
                    spec_size_matches(cursor_images_of(data@)->Some_0, size),
                )
                &&& p.total_delay == spec_total_delay(
                    spec_size_matches(cursor_images_of(data@)->Some_0, size),
                )
                &&& p.current_delay == 0
                &&& p.status is Default
            },
    {
        broadcast use Seq::filter_distributes_over_add;

        let images = match parse_cursor_images(data) {
            Some(images) => images,
            None => {
                return None;
            },
        };
        proof {
            assert(cursor_images_of(data@) == Some(images@));
        }
        let ghost gall = images@;
        let mut frames: Vec<u64> = Vec::new();
        let mut total: u64 = 0;
        let mut i: usize = 0;
        while i < images.len()
            invariant
                0 <= i <= gall.len(),
                images@ == gall,
                cursor_images_of(data@) == Some(gall),
                frames@ == spec_cumulative_delays(spec_size_matches(gall.take(i as int), size)),
                total == spec_total_delay(spec_size_matches(gall.take(i as int), size)),
                forall|a: int, b: int|
                    0 <= a < b < frames@.len() ==> frames@[a] <= frames@[b],
                frames@.len() > 0 ==> total == frames@.last(),
            decreases gall.len() - i,
        {
            let img = images[i];
            proof {
                assert(gall.take(i + 1) =~= gall.take(i as int) + seq![gall[i as int]]);
                let f = spec_size_matches(gall.take(i as int), size);
                let f2 = spec_size_matches(gall.take(i + 1), size);
                assert(spec_size_matches(seq![img], size) =~= (if img.0 == size && img.1 == size {
                    seq![img]
                } else {
                    Seq::<(u32, u32, u32)>::empty()
                })) by {
                    reveal_with_fuel(Seq::filter, 2);
                    assert(seq![img].drop_last() =~= Seq::<(u32, u32, u32)>::empty());
                }
                assert(f2 =~= f + spec_size_matches(seq![gall[i as int]], size));
                if img.0 == size && img.1 == size {
                    assert(f2 =~= f.push(img));
                    assert(f2.drop_last() =~= f);
                    lemma_total_delay_nonneg(f);
                } else {
                    assert(f2 =~= f);
                }
            }
            if img.0 == size && img.1 == size {
                if img.2 as u64 <= u64::MAX - total {
                    total = total + img.2 as u64;
                    frames.push(total);
                } else {
                    // A schedule this long cannot be reached: the file
                    // carries 32-bit delays and far fewer frames than
                    // would be needed to overflow the running total.
                    proof {
                        let all = spec_size_matches(gall, size);
                        let f = spec_size_matches(gall.take(i as int), size);
                        let f2 = spec_size_matches(gall.take(i + 1), size);
                        assert(f2.len() > 0 && f2.last() == img);
                        assert(spec_total_delay(f2) == spec_total_delay(f2.drop_last())
                            + f2.last().2);
                        assert(spec_total_delay(f2) == spec_total_delay(f) + img.2);
                        assert(gall =~= gall.take(i + 1) + gall.skip(i + 1));
                        assert(all == spec_size_matches(
                            gall.take(i + 1) + gall.skip(i + 1),
                            size,
                        ));
                        assert(all =~= f2 + spec_size_matches(gall.skip(i + 1), size));
                        lemma_total_delay_add(f2, spec_size_matches(gall.skip(i + 1), size));
                        lemma_total_delay_nonneg(spec_size_matches(gall.skip(i + 1), size));
                        assert(spec_total_delay(all) > u64::MAX);
                        assert(cursor_images_of(data@) == Some(gall));
                        assert(spec_total_delay(
                            spec_size_matches(cursor_images_of(data@)->Some_0, size),
                        ) > u64::MAX);
                    }
                    return None;
                }
            }
            i += 1;
        }
        proof {
            assert(gall.take(gall.len() as int) =~= gall);
        }
        Some(
            PointerElement {
                frames,
                total_delay: total,
                current_delay: 0,
                status: CursorStatus::Default,
            },
        )
    }

    /// Updates the animation position from the monotonic clock: the total
    /// delay reduced modulo the elapsed milliseconds since the clock's
    /// epoch.
    pub fn set_current_delay(&mut self, elapsed_millis: u64)
        requires
            elapsed_millis > 0,
        ensures
            final(self).frames == old(self).frames,
            final(self).total_delay == old(self).total_delay,
            final(self).status == old(self).status,
            final(self).current_delay == old(self).total_delay % elapsed_millis,
    {
        self.current_delay = self.total_delay % elapsed_millis;
    }

    /// Replaces the cursor status.
    pub fn set_status(&mut self, status: CursorStatus)
        ensures
            final(self).frames == old(self).frames,
            final(self).total_delay == old(self).total_delay,
            final(self).current_delay == old(self).current_delay,
            final(self).status == status,
    {
        self.status = status;
    }

    /// The frame that should be showing right now: the first frame whose
    /// cumulative-delay key is at least the current position — with the
    /// keys ascending, the one with the smallest such key.  Nothing when
    /// every key lies below the current position.
    pub fn select_frame(&self) -> (r: Option<usize>)
        ensures
            match r {
                Some(i) => i < self.frames@.len() && self.frames@[i as int]
                    >= self.current_delay && (forall|j: int|
                    0 <= j < i ==> self.frames@[j] < self.current_delay),
                None => forall|j: int|
                    0 <= j < self.frames@.len() ==> self.frames@[j] < self.current_delay,
            },
    {
        let mut i: usize = 0;
        while i < self.frames.len()
            invariant
                0 <= i <= self.frames@.len(),
                forall|j: int| 0 <= j < i ==> self.frames@[j] < self.current_delay,
            decreases self.frames@.len() - i,
        {
            if self.frames[i] >= self.current_delay {
                return Some(i);
            }
            i += 1;
        }
        None
    }
}

} // verus!
