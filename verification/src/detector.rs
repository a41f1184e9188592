//! The change detector: a confirmation loop over captured images.
//!
//! One check of a site consists of up to `max_confirms` capture attempts.
//! The caller renders the page, decodes the capture with [`decode_capture`],
//! scores it against the prior reference image, and hands capture and score
//! to a [`ChangeCheck`]. The check stops early as soon as one attempt looks
//! unchanged (its score exceeds the threshold), keeps the best-scoring
//! capture as the next reference image, and reports whether every attempt
//! looked changed.

use vstd::prelude::*;

use crate::SCALE;

verus! {

/// A decoded capture: 8-bit RGB pixels in row-major order.
#[derive(Clone, Debug)]
pub struct PixelBuffer {
    pub width: u32,
    pub height: u32,
    pub data: Vec<u8>,
}

/// What the caller's comparator said about one capture attempt.
#[derive(Clone, Copy, Debug, PartialEq, Eq, Structural)]
pub enum CompareOutcome {
    /// The comparator returned a similarity score, in millionths of one.
    Score(u32),
    /// The comparator failed because the two captures differ in shape.
    /// A dimension change is itself strong evidence of a real change, so
    /// this counts as maximal difference.
    ShapeMismatch,
    /// There was no prior image to compare against. The attempt counts as
    /// maximally similar, so a first observation never looks like a change
    /// by itself.
    NoPriorImage,
}

/// The score that one capture attempt contributes to the check.
pub open spec fn effective_score(outcome: CompareOutcome) -> u32 {
    match outcome {
        CompareOutcome::Score(s) => s,
        CompareOutcome::ShapeMismatch => 0u32,
        CompareOutcome::NoPriorImage => SCALE,
    }
}

/// The largest element of a sequence of scores; `0` for the empty sequence.
pub open spec fn seq_max(s: Seq<u32>) -> u32
    decreases s.len(),
{
    if s.len() == 0 {
        0u32
    } else if s.last() >= seq_max(s.drop_last()) {
        s.last()
    } else {
        seq_max(s.drop_last())
    }
}

/// Appending a score moves the maximum up to it exactly when no earlier
/// score was higher.
proof fn lemma_seq_max_push(s: Seq<u32>, x: u32)
    ensures
        seq_max(s.push(x)) == if x >= seq_max(s) {
            x
        } else {
            seq_max(s)
        },
{
    assert(s.push(x).drop_last() =~= s);
    assert(s.push(x).last() == x);
}

/// The sum of a sequence of scores.
pub open spec fn seq_sum(s: Seq<u32>) -> int
    decreases s.len(),
{
    if s.len() == 0 {
        0
    } else {
        seq_sum(s.drop_last()) + s.last()
    }
}

/// Whether every score in `s` is strictly below `t`.
pub open spec fn all_below(s: Seq<u32>, t: u32) -> bool {
    forall|i: int| 0 <= i < s.len() ==> s[i] < t
}

/// What one executed check reports back to the scheduler.
#[derive(Debug)]
pub struct ChangeResult {
    /// The mean of all attempt scores, in millionths of one.
    pub average_score: u32,
    /// True only if every attempt, the early-stopped one included, scored
    /// strictly below the threshold.
    pub all_scores_below_threshold: bool,
    /// True if there was no reference image when the check began: the very
    /// first check of a site.
    pub first_run: bool,
    /// The best-scoring (most similar) capture of the check, to become the
    /// next reference image.
    pub best_image: PixelBuffer,
}

/// A check of one site in progress.
///
/// Built with [`ChangeCheck::begin`] from the site's threshold, attempt
/// budget and prior reference image. The caller records one capture attempt
/// at a time while [`ChangeCheck::wants_more`] holds, then turns the
/// attempts into a [`ChangeResult`] with [`ChangeCheck::finish`]. The prior
/// image is only borrowed: abandoning the check (for instance when the
/// renderer fails mid-loop) leaves the site's state untouched.
pub struct ChangeCheck<'a> {
    /// Scores strictly above this count as "unchanged".
    threshold: u32,
    /// How many capture attempts the check may use.
    max_confirms: u32,
    /// The reference image from the previous check, if any.
    prior: &'a Option<PixelBuffer>,
    /// The effective score of each attempt so far, in order.
    scores: Vec<u32>,
    /// The largest score seen so far; meaningful once an attempt exists.
    best_score: u32,
    /// The capture that achieved `best_score`.
    best_capture: Option<PixelBuffer>,
    /// Whether an attempt has exceeded the threshold, ending the loop.
    stopped: bool,
    /// Every capture handed in so far, in order.
    captures: Ghost<Seq<PixelBuffer>>,
}

impl<'a> ChangeCheck<'a> {
    /// The internal consistency of a check in progress.
    pub closed spec fn wf(&self) -> bool {
        &&& 0 < self.threshold < SCALE
        &&& 1 <= self.max_confirms
        &&& self.scores@.len() == self.captures@.len()
        &&& self.scores@.len() <= self.max_confirms
        &&& forall|i: int| 0 <= i < self.scores@.len() ==> self.scores@[i] <= SCALE
        &&& (self.best_capture is Some <==> self.scores@.len() > 0)
        &&& self.scores@.len() > 0 ==> {
            &&& self.best_score == seq_max(self.scores@)
            &&& exists|i: int|
                0 <= i < self.scores@.len() && self.scores@[i] == self.best_score
                    && self.best_capture->Some_0 == self.captures@[i]
        }
        &&& self.scores@.len() == 0 ==> !self.stopped
        &&& self.scores@.len() > 0 ==> (self.stopped <==> self.scores@.last() > self.threshold)
        &&& forall|i: int| 0 <= i < self.scores@.len() - 1 ==> self.scores@[i] <= self.threshold
    }

    pub closed spec fn spec_threshold(&self) -> u32 {
        self.threshold
    }

    pub closed spec fn spec_max_confirms(&self) -> u32 {
        self.max_confirms
    }

    pub closed spec fn spec_prior(&self) -> Option<PixelBuffer> {
        *self.prior
    }

    pub closed spec fn spec_scores(&self) -> Seq<u32> {
        self.scores@
    }

    pub closed spec fn spec_captures(&self) -> Seq<PixelBuffer> {
        self.captures@
    }

    /// Whether the check still needs another capture attempt: no attempt
    /// has exceeded the threshold yet and the attempt budget is not spent.
    pub closed spec fn spec_wants_more(&self) -> bool {
        !self.stopped && self.scores@.len() < self.max_confirms
    }

    /// Starts a check against the given prior reference image.
    pub fn begin(threshold: u32, max_confirms: u32, prior: &'a Option<PixelBuffer>) -> (c: Self)
        requires
            0 < threshold < SCALE,
            1 <= max_confirms,
        ensures
            c.wf(),
            c.spec_threshold() == threshold,
            c.spec_max_confirms() == max_confirms,
            c.spec_prior() == *prior,
            c.spec_scores() =~= Seq::<u32>::empty(),
            c.spec_captures() =~= Seq::<PixelBuffer>::empty(),
            c.spec_wants_more(),
    {
        ChangeCheck {
            threshold,
            max_confirms,
            prior,
            scores: Vec::new(),
            best_score: 0,
            best_capture: None,
            stopped: false,
            captures: Ghost(Seq::empty()),
        }
    }

    /// The prior reference image, for the caller's comparator.
    pub fn prior(&self) -> (r: &'a Option<PixelBuffer>)
        ensures
            *r == self.spec_prior(),
    {
        self.prior
    }

    /// Whether the caller should capture and record another attempt.
    pub fn wants_more(&self) -> (r: bool)
        ensures
            r == self.spec_wants_more(),
    {
        !self.stopped && self.scores.len() < self.max_confirms as usize
    }

    /// Records one capture attempt and the comparator's outcome for it.
    /// The attempt's effective score joins the check, and the capture
    /// replaces the running best when no earlier attempt scored higher.
    #[verifier::rlimit(30)]
    pub fn record_attempt(&mut self, capture: PixelBuffer, outcome: CompareOutcome)
        requires
            old(self).wf(),
            old(self).spec_wants_more(),
            outcome matches CompareOutcome::Score(s) ==> s <= SCALE,
        ensures
            final(self).wf(),
            final(self).spec_threshold() == old(self).spec_threshold(),
            final(self).spec_max_confirms() == old(self).spec_max_confirms(),
            final(self).spec_prior() == old(self).spec_prior(),
            final(self).spec_scores() == old(self).spec_scores().push(effective_score(outcome)),
            final(self).spec_captures() == old(self).spec_captures().push(capture),
            final(self).spec_wants_more() <==> (effective_score(outcome) <= old(self).spec_threshold()
                && old(self).spec_scores().len() + 1 < old(self).spec_max_confirms()),
    {
        let ghost old_scores = self.scores@;
        let ghost old_caps = self.captures@;
        let ghost old_best = self.best_score;
        let ghost old_best_cap = self.best_capture;
        let score = match outcome {
            CompareOutcome::Score(s) => s,
            CompareOutcome::ShapeMismatch => 0,
            CompareOutcome::NoPriorImage => SCALE,
        };
        proof {
            self.captures@ = self.captures@.push(capture);
        }
        self.scores.push(score);
        proof {
            assert(self.scores@.drop_last() =~= old_scores);
            assert(self.scores@.last() == score);
            assert forall|i: int| 0 <= i < old_scores.len() implies self.scores@[i]
                == old_scores[i] && self.captures@[i] == old_caps[i] by {}
        }
        if self.best_capture.is_none() || score >= self.best_score {
            self.best_score = score;
            self.best_capture = Some(capture);
            proof {
                lemma_seq_max_push(old_scores, score);
                if old_scores.len() == 0 {
                    assert(seq_max(old_scores) == 0);
                }
                assert(seq_max(self.scores@) == score);
                assert(self.scores@[self.scores@.len() - 1] == score);
                assert(self.captures@[self.captures@.len() - 1] == capture);
            }
        } else {
            proof {
                lemma_seq_max_push(old_scores, score);
                let i = choose|i: int|
                    0 <= i < old_scores.len() && old_scores[i] == old_best && old_best_cap->Some_0
                        == old_caps[i];
                assert(self.scores@[i] == self.best_score);
                assert(self.captures@[i] == self.best_capture->Some_0);
                assert(seq_max(self.scores@) == seq_max(old_scores));
            }
        }
        self.stopped = score > self.threshold;
        proof {
            assert(self.wf());
        }
    }

    /// Ends the check, which must have recorded at least one attempt, and
    /// reports the average score, whether every attempt scored below the
    /// threshold, whether this was the site's first-ever check, and the
    /// best-scoring capture.
    pub fn finish(self) -> (r: ChangeResult)
        requires
            self.wf(),
            self.spec_scores().len() > 0,
        ensures
            r.first_run == (self.spec_prior() is None),
            r.all_scores_below_threshold == all_below(self.spec_scores(), self.spec_threshold()),
            r.average_score == seq_sum(self.spec_scores()) / self.spec_scores().len() as int,
            r.average_score <= SCALE,
            exists|i: int|
                0 <= i < self.spec_captures().len() && r.best_image == self.spec_captures()[i]
                    && self.spec_scores()[i] == seq_max(self.spec_scores()),
    {
        let n: usize = self.scores.len();
        let mut sum: u64 = 0;
        let mut all_are_below = true;
        let mut i: usize = 0;
        while i < n
            invariant
                n == self.scores@.len(),
                n <= u32::MAX,
                i <= n,
                forall|j: int| 0 <= j < n ==> self.scores@[j] <= SCALE,
                sum == seq_sum(self.scores@.take(i as int)),
                sum <= (SCALE as u64) * (i as u64),
                all_are_below <==> (forall|j: int|
                    0 <= j < i ==> self.scores@[j] < self.threshold),
            decreases n - i,
        {
            proof {
                assert(self.scores@.take(i as int + 1).drop_last() =~= self.scores@.take(i as int));
                assert(self.scores@.take(i as int + 1).last() == self.scores@[i as int]);
                assert((SCALE as u64) * (i as u64) + SCALE == (SCALE as u64) * (i as u64 + 1))
                    by (nonlinear_arith);
                assert((SCALE as u64) * (i as u64 + 1) <= u64::MAX) by (nonlinear_arith)
                    requires
                        i < n <= u32::MAX,
                ;
            }
            sum = sum + self.scores[i] as u64;
            if self.scores[i] >= self.threshold {
                all_are_below = false;
            }
            i = i + 1;
        }
        proof {
            assert(self.scores@.take(n as int) =~= self.scores@);
            assert(sum / (n as u64) <= SCALE as u64) by (nonlinear_arith)
                requires
                    n > 0,
                    sum <= (SCALE as u64) * (n as u64),
            ;
        }
        let average = (sum / n as u64) as u32;
        ChangeResult {
            average_score: average,
            all_scores_below_threshold: all_are_below,
            first_run: self.prior.is_none(),
            best_image: self.best_capture.unwrap(),
        }
    }
}

/// What an encoded capture decodes to: `None` where the bytes are no image
/// this crate's decoder accepts, else the width, height and 8-bit RGB
/// pixels. The decoding depends on the bytes alone.
pub uninterp spec fn rgb_decoding(bytes: Seq<u8>) -> Option<(u32, u32, Seq<u8>)>;

/// Relies on `image::load_from_memory` followed by
/// `image::DynamicImage::into_rgb8`: decoding an encoded image, and
/// converting it to 8-bit RGB, succeed or fail, and yield their pixels, as
/// a function of the input bytes alone.
#[verifier::external_body]
fn decode_rgb(bytes: &Vec<u8>) -> (r: Option<PixelBuffer>)
    ensures
        r is Some <==> rgb_decoding(bytes@) is Some,
        r is Some ==> (r->Some_0.width, r->Some_0.height, r->Some_0.data@) == rgb_decoding(
            bytes@,
        )->Some_0,
{
    match image::load_from_memory(bytes.as_slice()) {
        Ok(decoded) => {
            let rgb = decoded.into_rgb8();
            let width = rgb.width();
            let height = rgb.height();
            Some(PixelBuffer { width, height, data: rgb.into_raw() })
        },
        Err(_) => None,
    }
}

/// Decodes one rendered capture into a [`PixelBuffer`], or `None` where
/// the bytes are not a decodable image.
pub fn decode_capture(bytes: &Vec<u8>) -> (r: Option<PixelBuffer>)
    ensures
        r is Some <==> rgb_decoding(bytes@) is Some,
        r is Some ==> (r->Some_0.width, r->Some_0.height, r->Some_0.data@) == rgb_decoding(
            bytes@,
        )->Some_0,
{
    decode_rgb(bytes)
}

} // verus!
