//! Layout of the blur stage's progressive downsample/upsample chain.
//!
//! The blur pass softens the captured background by rendering it through a
//! ladder of intermediate targets: each level halves the previous level's
//! resolution (never below one pixel), then the image is blended back up
//! through as many levels to full resolution. The GPU work itself happens
//! outside the library; here live the two decisions that shape it — the size
//! of every intermediate target and the exact sequence of passes — so the
//! renderer only executes a plan whose wiring is proved.

use vstd::prelude::*;

use crate::region::PixelSize;

verus! {

/// A size halved, floored, and kept at least one pixel on each axis.
pub open spec fn half_size(s: PixelSize) -> PixelSize {
    PixelSize {
        width: if s.width / 2 >= 1 {
            (s.width / 2) as u32
        } else {
            1u32
        },
        height: if s.height / 2 >= 1 {
            (s.height / 2) as u32
        } else {
            1u32
        },
    }
}

/// The size of downsample level `n` (level 0 is the input itself).
pub open spec fn level_size(s: PixelSize, n: nat) -> PixelSize
    decreases n,
{
    if n == 0 {
        s
    } else {
        half_size(level_size(s, (n - 1) as nat))
    }
}

/// Sizes of the intermediate blur targets for `levels` downsample steps:
/// element `i` is the input size halved `i + 1` times, floored, and never
/// below one pixel on either axis.
pub fn downsample_chain(size: PixelSize, levels: usize) -> (chain: Vec<PixelSize>)
    ensures
        chain.len() == levels,
        forall|i: int| 0 <= i < levels ==> chain[i] == level_size(size, (i + 1) as nat),
        forall|i: int| 0 <= i < levels ==> chain[i].width >= 1 && chain[i].height >= 1,
{
    let mut chain: Vec<PixelSize> = Vec::new();
    let mut w: u32 = size.width;
    let mut h: u32 = size.height;
    let mut n: usize = 0;
    while n < levels
        invariant
            n <= levels,
            chain.len() == n,
            (PixelSize { width: w, height: h }) == level_size(size, n as nat),
            forall|i: int| 0 <= i < n ==> chain[i] == level_size(size, (i + 1) as nat),
            forall|i: int| 0 <= i < n ==> chain[i].width >= 1 && chain[i].height >= 1,
        decreases levels - n,
    {
        let wn: u32 = if w / 2 >= 1 {
            w / 2
        } else {
            1
        };
        let hn: u32 = if h / 2 >= 1 {
            h / 2
        } else {
            1
        };
        w = wn;
        h = hn;
        chain.push(PixelSize { width: w, height: h });
        n = n + 1;
    }
    chain
}

/// A render target of the blur chain.
#[derive(Clone, Copy, Debug, PartialEq, Eq, Structural)]
pub enum BlurTarget {
    /// The stage's input view (the captured background).
    Input,
    /// Intermediate target of the downward ladder, by level.
    Down(usize),
    /// Intermediate target of the upward ladder, by level.
    Up(usize),
    /// The stage's full-resolution output.
    Output,
}

/// Which of the stage's two pipelines a pass binds.
#[derive(Clone, Copy, Debug, PartialEq, Eq, Structural)]
pub enum BlurKernel {
    Downsample,
    Upsample,
}

/// One render pass of the blur chain: sample `source`, write `dest`.
#[derive(Clone, Copy, Debug, PartialEq, Eq, Structural)]
pub struct BlurPass {
    pub source: BlurTarget,
    pub dest: BlurTarget,
    pub kernel: BlurKernel,
}

/// Pass `k` of the blur chain for `levels` downsample levels.
///
/// The first `levels` passes walk down the ladder; the remaining `levels`
/// walk back up through the second ladder and end on the output.
pub open spec fn blur_pass_at(levels: int, k: int) -> BlurPass {
    if k == 0 {
        BlurPass { source: BlurTarget::Input, dest: BlurTarget::Down(0), kernel: BlurKernel::Downsample }
    } else if k < levels {
        BlurPass {
            source: BlurTarget::Down((k - 1) as usize),
            dest: BlurTarget::Down(k as usize),
            kernel: BlurKernel::Downsample,
        }
    } else {
        let source = if k == levels {
            BlurTarget::Down((levels - 1) as usize)
        } else {
            BlurTarget::Up((2 * levels - 1 - k) as usize)
        };
        let dest = if k == 2 * levels - 1 {
            BlurTarget::Output
        } else {
            BlurTarget::Up((2 * levels - 2 - k) as usize)
        };
        BlurPass { source, dest, kernel: BlurKernel::Upsample }
    }
}

/// The sequence of render passes one blur run issues: down the ladder from
/// the input, back up the second ladder, and a final upsample into the
/// output. Every pass reads the target the previous pass wrote.
#[verifier::rlimit(30)]
pub fn blur_pass_plan(levels: usize) -> (plan: Vec<BlurPass>)
    requires
        1 <= levels <= 1000,
    ensures
        plan.len() == 2 * levels,
        forall|k: int| 0 <= k < plan.len() ==> plan[k] == blur_pass_at(levels as int, k),
        plan[0].source is Input,
        plan[plan.len() - 1].dest is Output,
        forall|k: int| 1 <= k < plan.len() ==> #[trigger] plan[k].source == plan[k - 1].dest,
{
    let mut plan: Vec<BlurPass> = Vec::new();

    // Downward ladder: input into level 0, then each level into the next.
    plan.push(
        BlurPass { source: BlurTarget::Input, dest: BlurTarget::Down(0), kernel: BlurKernel::Downsample },
    );
    let mut k: usize = 1;
    while k < levels
        invariant
            1 <= k <= levels,
            levels <= 1000,
            plan.len() == k,
            forall|i: int| 0 <= i < k ==> plan[i] == blur_pass_at(levels as int, i),
        decreases levels - k,
    {
        plan.push(
            BlurPass {
                source: BlurTarget::Down(k - 1),
                dest: BlurTarget::Down(k),
                kernel: BlurKernel::Downsample,
            },
        );
        k = k + 1;
    }

    // Upward ladder: from the deepest level back through the second ladder.
    while k < 2 * levels - 1
        invariant
            levels <= k <= 2 * levels - 1,
            levels <= 1000,
            plan.len() == k,
            forall|i: int| 0 <= i < k ==> plan[i] == blur_pass_at(levels as int, i),
        decreases 2 * levels - k,
    {
        let source: BlurTarget = if k == levels {
            BlurTarget::Down(levels - 1)
        } else {
            BlurTarget::Up(2 * levels - 1 - k)
        };
        plan.push(BlurPass { source, dest: BlurTarget::Up(2 * levels - 2 - k), kernel: BlurKernel::Upsample });
        k = k + 1;
    }

    // Final pass into the stage's output.
    let source: BlurTarget = if levels == 1 {
        BlurTarget::Down(0)
    } else {
        BlurTarget::Up(0)
    };
    plan.push(BlurPass { source, dest: BlurTarget::Output, kernel: BlurKernel::Upsample });

    proof {
        assert(plan.len() == 2 * levels);
        assert(plan[2 * levels - 1] == blur_pass_at(levels as int, 2 * levels - 1));
        assert forall|j: int| 0 <= j < plan.len() implies plan[j] == blur_pass_at(
            levels as int,
            j,
        ) by {}
        assert(plan[0] == blur_pass_at(levels as int, 0));
        assert(plan[0].source is Input);
        assert forall|j: int| 1 <= j < plan.len() implies #[trigger] plan[j].source == plan[j
            - 1].dest by {
            assert(plan[j] == blur_pass_at(levels as int, j));
            assert(plan[j - 1] == blur_pass_at(levels as int, j - 1));
        }
    }
    plan
}

} // verus!
