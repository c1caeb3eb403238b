//! Bookkeeping of the NEON backend: which lanes of a 4-pixel block are
//! inside the image, and how many primary rays took the accelerated path.

use vstd::prelude::*;

verus! {

/// Number of pixels (lanes) in one block of the NEON backend.
pub const LANES: usize = 4;

/// 1 for a set lane, 0 for a clear one.
pub open spec fn lane_bit(b: bool) -> nat {
    if b {
        1
    } else {
        0
    }
}

/// Number of set lanes of a mask.
pub open spec fn count_lanes(m: Seq<bool>) -> nat {
    lane_bit(m[0]) + lane_bit(m[1]) + lane_bit(m[2]) + lane_bit(m[3])
}

/// Number of lanes set in both masks.
pub open spec fn count_both(a: Seq<bool>, b: Seq<bool>) -> nat {
    lane_bit(a[0] && b[0]) + lane_bit(a[1] && b[1]) + lane_bit(a[2] && b[2]) + lane_bit(
        a[3] && b[3],
    )
}

/// Counters of the NEON backend, to see how much the acceleration is used.
#[derive(Debug, Clone, Copy)]
pub struct NeonStats {
    /// Primary rays processed by this backend.
    pub primary_rays_total: u64,
    /// Of those, the rays whose first hit came from the vectorised test.
    pub primary_rays_accelerated: u64,
    /// Of those, the rays that took the scalar fallback path.
    pub primary_rays_fallback: u64,
}

impl NeonStats {
    /// Every primary ray is counted once as accelerated or once as fallback.
    pub open spec fn balanced(self) -> bool {
        self.primary_rays_total == self.primary_rays_accelerated + self.primary_rays_fallback
    }

    /// The counters after one sample over a block whose lanes inside the
    /// image are `valid` and whose lanes with a vectorised hit are `hit`.
    pub open spec fn after_sample(self, valid: Seq<bool>, hit: Seq<bool>) -> NeonStats {
        NeonStats {
            primary_rays_total: (self.primary_rays_total + count_lanes(valid)) as u64,
            primary_rays_accelerated: (self.primary_rays_accelerated + count_both(valid, hit)) as u64,
            primary_rays_fallback: (self.primary_rays_fallback + (count_lanes(valid) - count_both(
                valid,
                hit,
            ))) as u64,
        }
    }

    /// All counters at zero.
    pub fn zeroed() -> (s: NeonStats)
        ensures
            s.primary_rays_total == 0,
            s.primary_rays_accelerated == 0,
            s.primary_rays_fallback == 0,
    {
        NeonStats { primary_rays_total: 0, primary_rays_accelerated: 0, primary_rays_fallback: 0 }
    }

    /// Counts one sample of a 4-pixel block: every valid lane is a primary
    /// ray, valid lanes with a vectorised hit are accelerated, the other valid
    /// lanes fall back to the scalar path.
    pub fn record_sample(&mut self, valid: [bool; 4], hit: [bool; 4])
        requires
            old(self).primary_rays_total + count_lanes(valid@) <= u64::MAX,
            old(self).primary_rays_accelerated + count_both(valid@, hit@) <= u64::MAX,
            old(self).primary_rays_fallback + (count_lanes(valid@) - count_both(valid@, hit@))
                <= u64::MAX,
        ensures
            *final(self) == old(self).after_sample(valid@, hit@),
            final(self).primary_rays_total == old(self).primary_rays_total + lanes_where(
                |k: int| valid@[k],
            ).len(),
            final(self).primary_rays_accelerated == old(self).primary_rays_accelerated
                + lanes_where(|k: int| valid@[k] && hit@[k]).len(),
            final(self).primary_rays_fallback == old(self).primary_rays_fallback + lanes_where(
                |k: int| valid@[k] && !hit@[k],
            ).len(),
    {
        proof {
            lemma_lanes_where_len(|k: int| valid@[k] && !hit@[k]);
        }
        let (active, accelerated) = lane_counts(valid, hit);
        self.primary_rays_total = self.primary_rays_total + active;
        self.primary_rays_accelerated = self.primary_rays_accelerated + accelerated;
        self.primary_rays_fallback = self.primary_rays_fallback + (active - accelerated);
    }
}

/// The lanes `k` of a 4-lane block that satisfy `p`.
pub open spec fn lanes_where(p: spec_fn(int) -> bool) -> Set<int> {
    Set::new(|k: int| 0 <= k < 4 && p(k))
}

/// The number of lanes of a block that satisfy `p` is the number of `k` in
/// `0..4` with `p(k)`, one per such lane.
pub proof fn lemma_lanes_where_len(p: spec_fn(int) -> bool)
    ensures
        lanes_where(p).finite(),
        lanes_where(p).len() == lane_bit(p(0)) + lane_bit(p(1)) + lane_bit(p(2)) + lane_bit(p(3)),
{
    let s0 = Set::<int>::empty();
    let s1 = if p(0) { s0.insert(0) } else { s0 };
    let s2 = if p(1) { s1.insert(1) } else { s1 };
    let s3 = if p(2) { s2.insert(2) } else { s2 };
    let s4 = if p(3) { s3.insert(3) } else { s3 };
    assert(!s1.contains(1) && !s2.contains(2) && !s3.contains(3));
    assert(s1.finite() && s2.finite() && s3.finite() && s4.finite());
    assert(s1.len() == lane_bit(p(0)));
    assert(s2.len() == lane_bit(p(0)) + lane_bit(p(1)));
    assert(s3.len() == lane_bit(p(0)) + lane_bit(p(1)) + lane_bit(p(2)));
    assert(s4.len() == lane_bit(p(0)) + lane_bit(p(1)) + lane_bit(p(2)) + lane_bit(p(3)));
    assert(lanes_where(p) =~= s4);
}

/// The valid lanes are counted one per lane `k < 4` with `valid[k]`, and
/// the accelerated lanes one per lane with both `valid[k]` and `hit[k]`.
pub proof fn lemma_lane_counts_are_lane_sets(valid: Seq<bool>, hit: Seq<bool>)
    ensures
        count_lanes(valid) == lanes_where(|k: int| valid[k]).len(),
        count_both(valid, hit) == lanes_where(|k: int| valid[k] && hit[k]).len(),
{
    lemma_lanes_where_len(|k: int| valid[k]);
    lemma_lanes_where_len(|k: int| valid[k] && hit[k]);
}

/// How many lanes of a block are valid, and how many of those had a
/// vectorised hit: one for each lane `k < 4` with `valid[k]`, and one for
/// each with both `valid[k]` and `hit[k]`.
pub fn lane_counts(valid: [bool; 4], hit: [bool; 4]) -> (r: (u64, u64))
    ensures
        r.0 == count_lanes(valid@),
        r.1 == count_both(valid@, hit@),
        r.0 == lanes_where(|k: int| valid@[k]).len(),
        r.1 == lanes_where(|k: int| valid@[k] && hit@[k]).len(),
        r.1 <= r.0 <= 4,
{
    proof {
        lemma_lane_counts_are_lane_sets(valid@, hit@);
    }
    let mut active: u64 = 0;
    let mut accelerated: u64 = 0;
    let mut lane: usize = 0;
    while lane < LANES
        invariant
            lane <= LANES,
            active == count_lanes(valid@.take(lane as int) + seq![false, false, false, false]),
            accelerated == count_both(
                valid@.take(lane as int) + seq![false, false, false, false],
                hit@,
            ),
            accelerated <= active <= lane,
        decreases LANES - lane,
    {
        let ghost prev = valid@.take(lane as int) + seq![false, false, false, false];
        let ghost next = valid@.take(lane + 1) + seq![false, false, false, false];
        assert(forall|k: int| 0 <= k < 4 && k != lane ==> prev[k] == next[k]);
        assert(next[lane as int] == valid[lane as int]);
        assert(!prev[lane as int]);
        if valid[lane] {
            active = active + 1;
            if hit[lane] {
                accelerated = accelerated + 1;
            }
        }
        lane = lane + 1;
    }
    assert(valid@.take(4) + seq![false, false, false, false] =~= valid@ + seq![
        false,
        false,
        false,
        false,
    ]);
    (active, accelerated)
}

impl Default for NeonStats {
    /// All counters at zero.
    fn default() -> (s: NeonStats)
        ensures
            s.primary_rays_total == 0,
            s.primary_rays_accelerated == 0,
            s.primary_rays_fallback == 0,
    {
        NeonStats::zeroed()
    }
}

/// Number of pixels of the block starting at column `i_block` that lie
/// inside an image `width` pixels wide.
pub open spec fn block_valid_lanes(i_block: int, width: int) -> nat {
    lane_bit(i_block < width) + lane_bit(i_block + 1 < width) + lane_bit(i_block + 2 < width)
        + lane_bit(i_block + 3 < width)
}

/// Valid lanes of the first `blocks` blocks of a scanline (blocks start at
/// columns 0, 4, 8, ...).
pub open spec fn row_valid_lanes(width: int, blocks: nat) -> nat
    decreases blocks,
{
    if blocks == 0 {
        0
    } else {
        row_valid_lanes(width, (blocks - 1) as nat) + block_valid_lanes(4 * (blocks - 1), width)
    }
}

/// Which lanes of the block starting at column `i_block` lie inside an
/// image `image_width` pixels wide: lane `k` is pixel `i_block + k`.
pub fn block_lane_mask(i_block: i32, image_width: i32) -> (m: [bool; 4])
    ensures
        forall|k: int| 0 <= k < 4 ==> m@[k] == (i_block + k < image_width),
        count_lanes(m@) == block_valid_lanes(i_block as int, image_width as int),
{
    let base: i64 = i_block as i64;
    let w: i64 = image_width as i64;
    [base < w, base + 1 < w, base + 2 < w, base + 3 < w]
}

/// Counting a sample keeps every primary ray counted once, as accelerated or
/// as fallback; zeroed counters start balanced.
pub proof fn lemma_sample_keeps_balance(s: NeonStats, valid: Seq<bool>, hit: Seq<bool>)
    requires
        s.balanced(),
        valid.len() == 4,
        hit.len() == 4,
        s.primary_rays_total + count_lanes(valid) <= u64::MAX,
        s.primary_rays_accelerated + count_both(valid, hit) <= u64::MAX,
        s.primary_rays_fallback + (count_lanes(valid) - count_both(valid, hit)) <= u64::MAX,
    ensures
        s.after_sample(valid, hit).balanced(),
        s.after_sample(valid, hit).primary_rays_total == s.primary_rays_total + count_lanes(valid),
        count_both(valid, hit) <= count_lanes(valid) <= 4,
{
}

/// The first `blocks` blocks of a scanline hold `min(4 * blocks, width)`
/// valid lanes.
proof fn lemma_row_valid_lanes_prefix(width: int, blocks: nat)
    requires
        width >= 0,
    ensures
        row_valid_lanes(width, blocks) == if 4 * blocks <= width {
            4 * blocks as int
        } else {
            width
        },
    decreases blocks,
{
    if blocks > 0 {
        lemma_row_valid_lanes_prefix(width, (blocks - 1) as nat);
    }
}

/// Walking a scanline in blocks of four pixels (columns 0, 4, 8, ... below
/// the width), the valid lanes of the blocks count every pixel of the
/// scanline exactly once: one sample over a scanline adds `width` primary
/// rays.
pub proof fn lemma_blocks_cover_scanline(width: int)
    requires
        width >= 0,
    ensures
        row_valid_lanes(width, ((width + 3) / 4) as nat) == width,
{
    lemma_row_valid_lanes_prefix(width, ((width + 3) / 4) as nat);
}

/// A whole NEON render walks every scanline `samples` times in blocks of
/// four pixels, so its valid lanes, the primary rays it counts, add up to
/// `width * height * samples`.
pub proof fn lemma_render_counts_every_primary_ray(width: int, height: nat, samples: nat)
    requires
        width >= 0,
    ensures
        height * samples * row_valid_lanes(width, ((width + 3) / 4) as nat) == width * height
            * samples,
{
    lemma_blocks_cover_scanline(width);
    assert(height * samples * width == width * height * samples) by (nonlinear_arith);
}

} // verus!
