//! Per-site configuration and runtime state.
//!
//! A [`WebsiteDataBuilder`] collects a site's settings and validates them:
//! construction fails exactly when the url is empty, the confirmation
//! budget is zero, or the similarity threshold lies outside the open
//! interval between zero and [`SCALE`]. The resulting [`WebsiteData`] also
//! carries the site's runtime state: the reference image, the keyword
//! latch, and the cooldown/backoff counters that throttle notifications
//! without stopping monitoring.

use vstd::prelude::*;

use crate::SCALE;
use crate::backoff::{backoff_cycles, cooldown_length};
use crate::detector::{ChangeResult, PixelBuffer};

verus! {

/// Threshold used when a site does not set one: 0.99 of one whole.
pub const DEFAULT_THRESHOLD: u32 = 990_000;

/// Capture attempts used when a site does not set a count.
pub const DEFAULT_MAX_CONFIRMS: u32 = 3;

/// A script as the renderer receives it: the raw snippet wrapped into an
/// anonymous function.
pub open spec fn wrapped_script(s: Seq<char>) -> Seq<char> {
    "()=>{"@ + s + "}"@
}

/// The elements of `parts` joined with `sep` between neighbours.
pub open spec fn joined(parts: Seq<Seq<char>>, sep: Seq<char>) -> Seq<char>
    decreases parts.len(),
{
    if parts.len() == 0 {
        Seq::empty()
    } else if parts.len() == 1 {
        parts[0]
    } else {
        joined(parts.drop_last(), sep) + sep + parts.last()
    }
}

/// The snippet that removes every element matching one of the given
/// selectors when the page has loaded.
pub open spec fn remove_elements_script(selectors: Seq<Seq<char>>) -> Seq<char> {
    "document.querySelectorAll('"@ + joined(selectors, ", "@)
        + "')?.forEach(a => a?.remove());"@
}

/// The script list after appending one script: an absent list counts as
/// empty.
pub open spec fn scripts_with(cur: Option<Seq<Seq<char>>>, s: Seq<char>) -> Seq<Seq<char>> {
    match cur {
        Some(v) => v.push(s),
        None => seq![s],
    }
}

/// Why a site's configuration was rejected.
#[derive(Clone, Copy, Debug, PartialEq, Eq, Structural)]
pub enum ConfigError {
    /// The url was empty.
    EmptyUrl,
    /// The confirmation budget was zero.
    ZeroConfirmations,
    /// The similarity threshold was not strictly between zero and one.
    ThresholdOutOfRange,
}

/// The first check of [`WebsiteDataBuilder::build`] that the given builder
/// fails.
pub open spec fn build_error(b: WebsiteDataBuilder) -> ConfigError {
    if b.url@.len() == 0 {
        ConfigError::EmptyUrl
    } else if b.max_confirms == 0 {
        ConfigError::ZeroConfirmations
    } else {
        ConfigError::ThresholdOutOfRange
    }
}

/// Collects one site's settings before validation.
#[derive(Debug)]
pub struct WebsiteDataBuilder {
    /// The address of the page to watch.
    pub url: String,
    /// Scripts to run against the loaded page before capture, in order,
    /// each already wrapped for the renderer.
    pub inner_scripts: Option<Vec<String>>,
    /// If present, capture only the matching element instead of the page.
    pub screenshot_selector: Option<String>,
    /// Milliseconds to wait after the scripts have run, before capture.
    pub wait: u64,
    /// Similarity threshold in millionths: scores strictly below it count
    /// as "changed".
    pub threshold: u32,
    /// How many capture attempts may confirm a suspected change.
    pub max_confirms: u32,
}

impl Default for WebsiteDataBuilder {
    /// An empty builder: no url yet, no scripts, full-page capture, no
    /// wait, and the default threshold and confirmation budget.
    fn default() -> (r: Self)
        ensures
            r.url@.len() == 0,
            r.inner_scripts is None,
            r.screenshot_selector is None,
            r.wait == 0,
            r.threshold == DEFAULT_THRESHOLD,
            r.max_confirms == DEFAULT_MAX_CONFIRMS,
    {
        WebsiteDataBuilder {
            url: String::new(),
            inner_scripts: None,
            screenshot_selector: None,
            wait: 0,
            threshold: DEFAULT_THRESHOLD,
            max_confirms: DEFAULT_MAX_CONFIRMS,
        }
    }
}

/// Shorthand: a fresh builder for the given url.
pub fn wd(url: &str) -> (r: WebsiteDataBuilder)
    ensures
        r.url@ == url@,
        r.inner_scripts is None,
        r.screenshot_selector is None,
        r.wait == 0,
        r.threshold == DEFAULT_THRESHOLD,
        r.max_confirms == DEFAULT_MAX_CONFIRMS,
{
    WebsiteDataBuilder {
        url: url.to_owned(),
        inner_scripts: None,
        screenshot_selector: None,
        wait: 0,
        threshold: DEFAULT_THRESHOLD,
        max_confirms: DEFAULT_MAX_CONFIRMS,
    }
}

/// Wraps a raw script into an anonymous function for the renderer.
fn wrap_script(script: &str) -> (r: String)
    ensures
        r@ == wrapped_script(script@),
{
    let mut r = String::from_str("()=>{");
    r.append(script);
    r.append("}");
    r
}

/// Joins the given strings with a comma and a space between neighbours.
fn join_comma(parts: &Vec<String>) -> (r: String)
    ensures
        r@ == joined(parts.deep_view(), ", "@),
{
    let mut r = String::new();
    let mut i: usize = 0;
    proof {
        assert(parts.deep_view().take(0) =~= Seq::<Seq<char>>::empty());
    }
    while i < parts.len()
        invariant
            i <= parts@.len(),
            parts.deep_view().len() == parts@.len(),
            r@ == joined(parts.deep_view().take(i as int), ", "@),
        decreases parts@.len() - i,
    {
        if i > 0 {
            r.append(", ");
        }
        r.append(parts[i].as_str());
        i = i + 1;
        proof {
            let dv = parts.deep_view();
            assert(dv.take(i as int).drop_last() =~= dv.take(i as int - 1));
            assert(dv.take(i as int).last() == dv[i as int - 1]);
            if i == 1 {
                assert(Seq::<char>::empty() + dv[0] =~= dv[0]);
            }
        }
    }
    proof {
        assert(parts.deep_view().take(parts@.len() as int) =~= parts.deep_view());
    }
    r
}

impl WebsiteDataBuilder {
    /// Sets the url of the site.
    pub fn url(self, url: String) -> (r: Self)
        ensures
            r == (WebsiteDataBuilder { url, ..self }),
    {
        WebsiteDataBuilder { url, ..self }
    }

    /// Appends one wrapped script to the list, starting the list if none
    /// exists yet.
    fn inner_add_script(&mut self, script: String)
        ensures
            *final(self) == (WebsiteDataBuilder {
                inner_scripts: final(self).inner_scripts,
                ..*old(self)
            }),
            final(self).inner_scripts matches Some(v) && v.deep_view() == scripts_with(
                old(self).inner_scripts.deep_view(),
                wrapped_script(script@),
            ),
    {
        let wrapped = wrap_script(script.as_str());
        match self.inner_scripts.take() {
            Some(mut v) => {
                let ghost old_dv = v.deep_view();
                v.push(wrapped);
                proof {
                    assert(v.deep_view() =~= old_dv.push(wrapped@));
                }
                self.inner_scripts = Some(v);
            },
            None => {
                let mut v: Vec<String> = Vec::new();
                v.push(wrapped);
                proof {
                    assert(v.deep_view() =~= seq![wrapped@]);
                }
                self.inner_scripts = Some(v);
            },
        }
    }

    /// Adds a script to run when the site loads.
    pub fn add_script(self, script: String) -> (r: Self)
        ensures
            r == (WebsiteDataBuilder { inner_scripts: r.inner_scripts, ..self }),
            r.inner_scripts matches Some(v) && v.deep_view() == scripts_with(
                self.inner_scripts.deep_view(),
                wrapped_script(script@),
            ),
    {
        let mut b = self;
        b.inner_add_script(script);
        b
    }

    /// Captures a specific element instead of the whole page.
    pub fn selector(self, selector: String) -> (r: Self)
        ensures
            r == (WebsiteDataBuilder { screenshot_selector: Some(selector), ..self }),
    {
        WebsiteDataBuilder { screenshot_selector: Some(selector), ..self }
    }

    /// The snippet that removes every element matching one of the given
    /// selectors.
    fn inner_remove_elements_script(selectors: &Vec<String>) -> (r: String)
        ensures
            r@ == remove_elements_script(selectors.deep_view()),
    {
        let mut r = String::from_str("document.querySelectorAll('");
        let parts = join_comma(selectors);
        r.append(parts.as_str());
        r.append("')?.forEach(a => a?.remove());");
        r
    }

    /// Adds a script that removes the matching elements when the page
    /// loads.
    pub fn remove_elements(self, selectors: Vec<String>) -> (r: Self)
        ensures
            r == (WebsiteDataBuilder { inner_scripts: r.inner_scripts, ..self }),
            r.inner_scripts matches Some(v) && v.deep_view() == scripts_with(
                self.inner_scripts.deep_view(),
                wrapped_script(remove_elements_script(selectors.deep_view())),
            ),
    {
        let script = Self::inner_remove_elements_script(&selectors);
        self.add_script(script)
    }

    /// Waits the given milliseconds before capturing, to let the page
    /// settle.
    pub fn wait(self, wait: u64) -> (r: Self)
        ensures
            r == (WebsiteDataBuilder { wait, ..self }),
    {
        WebsiteDataBuilder { wait, ..self }
    }

    /// Sets the similarity threshold, in millionths: captures scoring
    /// strictly below it count as "changed", strictly above as "the same".
    pub fn threshold(self, threshold: u32) -> (r: Self)
        ensures
            r == (WebsiteDataBuilder { threshold, ..self }),
    {
        WebsiteDataBuilder { threshold, ..self }
    }

    /// Sets how many capture attempts may confirm a suspected change.
    pub fn confirmations(self, confirms: u32) -> (r: Self)
        ensures
            r == (WebsiteDataBuilder { max_confirms: confirms, ..self }),
    {
        WebsiteDataBuilder { max_confirms: confirms, ..self }
    }

    /// Validates the settings and produces the site's data and state.
    /// Construction fails exactly when the url is empty, the confirmation
    /// budget is zero, or the threshold is not strictly between zero and
    /// [`SCALE`].
    pub fn build(self) -> (r: Result<WebsiteData, ConfigError>)
        ensures
            r is Err <==> (self.url@.len() == 0 || self.max_confirms == 0 || self.threshold == 0
                || self.threshold >= SCALE),
            r is Err ==> r->Err_0 == build_error(self),
            r is Ok ==> r->Ok_0 == (WebsiteData {
                url: self.url,
                scripts: self.inner_scripts,
                screenshot_selector: self.screenshot_selector,
                wait: self.wait,
                threshold: self.threshold,
                max_confirms: self.max_confirms,
                last_image: None,
                merch_already_detected: false,
                changes_stacking: 0,
                current_cooldown: 0,
                total_cooldowns: 0,
                total_runs: 0,
            }),
            r is Ok ==> r->Ok_0.wf(),
    {
        if self.url.as_str().is_empty() {
            return Err(ConfigError::EmptyUrl);
        }
        if self.max_confirms == 0 {
            return Err(ConfigError::ZeroConfirmations);
        }
        if self.threshold == 0 || self.threshold >= SCALE {
            return Err(ConfigError::ThresholdOutOfRange);
        }
        Ok(WebsiteData {
            url: self.url,
            scripts: self.inner_scripts,
            screenshot_selector: self.screenshot_selector,
            wait: self.wait,
            threshold: self.threshold,
            max_confirms: self.max_confirms,
            last_image: None,
            merch_already_detected: false,
            changes_stacking: 0,
            current_cooldown: 0,
            total_cooldowns: 0,
            total_runs: 0,
        })
    }
}

/// Whether a report-worthy outcome is allowed to notify, or is swallowed
/// while a backoff starts instead.
#[derive(Clone, Copy, Debug, PartialEq, Eq, Structural)]
pub enum NotifyDecision {
    /// Send the notification, with the given priority: `1` when a trigger
    /// keyword was newly detected, else `0`.
    Allowed { priority: u8 },
    /// Swallow the notification.
    Suppressed,
}

/// One step of the anti-flood guard, on the triple of missed-notification
/// streak, backoff count and remaining cooldown: a report-worthy outcome
/// raises the streak, and the fourth consecutive one imposes a backoff
/// instead of notifying. The last component says whether notifying is
/// allowed.
pub open spec fn notify_step(stacking: u8, imposed: u32, cooldown: u64) -> (u8, u32, u64, bool)
    recommends
        stacking <= 3,
        imposed < u32::MAX,
{
    if stacking + 1 >= 4 {
        (0u8, (imposed + 1) as u32, cooldown_length((imposed + 1) as u32), false)
    } else {
        ((stacking + 1) as u8, imposed, cooldown, true)
    }
}

/// One watched site: its validated settings and its runtime state.
#[derive(Debug)]
pub struct WebsiteData {
    /// The address of the page to watch.
    pub url: String,
    /// Scripts to run against the loaded page before capture, in order.
    pub scripts: Option<Vec<String>>,
    /// If present, capture only the matching element instead of the page.
    pub screenshot_selector: Option<String>,
    /// Milliseconds to wait after the scripts have run, before capture.
    pub wait: u64,
    /// Similarity threshold in millionths: scores strictly below it count
    /// as "changed".
    pub threshold: u32,
    /// How many capture attempts may confirm a suspected change.
    pub max_confirms: u32,
    /// The most recent reference image; absent only before the first
    /// completed check.
    pub last_image: Option<PixelBuffer>,
    /// Latches permanently true once a trigger keyword has been seen, so
    /// repeat sightings are not reported as new.
    pub merch_already_detected: bool,
    /// Consecutive report-worthy outcomes; a backoff starts at four.
    pub changes_stacking: u8,
    /// Upcoming cycles to skip; counted down by the cooldown gate.
    pub current_cooldown: u64,
    /// Backoffs imposed so far; one is forgiven per quiet cycle.
    pub total_cooldowns: u32,
    /// How many checks have actually executed, past the cooldown gate.
    pub total_runs: u64,
}

impl WebsiteData {
    /// A validated site: non-empty url, a threshold strictly inside the
    /// unit interval, at least one confirmation attempt, and a streak that
    /// has not yet reached the backoff trigger.
    pub open spec fn wf(&self) -> bool {
        &&& self.url@.len() > 0
        &&& 0 < self.threshold < SCALE
        &&& 1 <= self.max_confirms
        &&& self.changes_stacking <= 3
    }

    /// The scripts to run before capture.
    pub fn scripts(&self) -> (r: &Option<Vec<String>>)
        ensures
            *r == self.scripts,
    {
        &self.scripts
    }

    /// The address of the page to watch.
    pub fn url(&self) -> (r: &str)
        ensures
            r@ == self.url@,
    {
        self.url.as_str()
    }

    /// The element to capture, if the whole page is not wanted.
    pub fn screenshot_selector(&self) -> (r: &Option<String>)
        ensures
            *r == self.screenshot_selector,
    {
        &self.screenshot_selector
    }

    /// Milliseconds to wait before capturing.
    pub fn wait(&self) -> (r: u64)
        ensures
            r == self.wait,
    {
        self.wait
    }

    /// The similarity threshold, in millionths.
    pub fn threshold(&self) -> (r: u32)
        ensures
            r == self.threshold,
    {
        self.threshold
    }

    /// The confirmation attempt budget.
    pub fn max_confirms(&self) -> (r: u32)
        ensures
            r == self.max_confirms,
    {
        self.max_confirms
    }

    /// How many checks have executed so far.
    pub fn get_runs(&self) -> (r: u64)
        ensures
            r == self.total_runs,
    {
        self.total_runs
    }

    /// Counts one executed check.
    pub fn run(&mut self)
        requires
            old(self).total_runs < u64::MAX,
        ensures
            *final(self) == (WebsiteData {
                total_runs: (old(self).total_runs + 1) as u64,
                ..*old(self)
            }),
    {
        self.total_runs = self.total_runs + 1;
    }

    /// Records a quiet cycle: nothing changed and no keyword was newly
    /// seen. One imposed backoff is forgiven, never below zero, and the
    /// missed-notification streak resets.
    pub fn nothing_changed(&mut self)
        ensures
            *final(self) == (WebsiteData {
                total_cooldowns: if old(self).total_cooldowns > 0 {
                    (old(self).total_cooldowns - 1) as u32
                } else {
                    0u32
                },
                changes_stacking: 0,
                ..*old(self)
            }),
    {
        if self.total_cooldowns != 0 {
            self.total_cooldowns = self.total_cooldowns - 1;
        }
        self.changes_stacking = 0;
    }

    /// The cooldown gate, asked once per cycle: with no cooldown pending
    /// the site runs. Otherwise the cooldown counts down, and the site
    /// runs only on the cycle that brings it to exactly zero.
    pub fn should_website_request(&mut self) -> (r: bool)
        ensures
            old(self).current_cooldown == 0 ==> r && *final(self) == *old(self),
            old(self).current_cooldown > 0 ==> {
                &&& *final(self) == (WebsiteData {
                    current_cooldown: (old(self).current_cooldown - 1) as u64,
                    ..*old(self)
                })
                &&& r == (old(self).current_cooldown == 1)
            },
    {
        if self.current_cooldown == 0 {
            return true;
        }
        self.current_cooldown = self.current_cooldown - 1;
        self.current_cooldown == 0
    }

    /// Asked when a check found something report-worthy: raises the
    /// missed-notification streak and allows the notification unless this
    /// was the fourth consecutive one, in which case one more backoff is
    /// imposed, the cooldown becomes three to the power of the backoff
    /// count, the streak resets, and the notification is swallowed.
    pub fn should_send_notification(&mut self) -> (r: bool)
        requires
            old(self).changes_stacking <= 3,
            old(self).total_cooldowns < u32::MAX,
        ensures
            ({
                let step = notify_step(
                    old(self).changes_stacking,
                    old(self).total_cooldowns,
                    old(self).current_cooldown,
                );
                &&& *final(self) == (WebsiteData {
                    changes_stacking: step.0,
                    total_cooldowns: step.1,
                    current_cooldown: step.2,
                    ..*old(self)
                })
                &&& r == step.3
            }),
    {
        self.changes_stacking = self.changes_stacking + 1;
        let banned = self.changes_stacking >= 4;
        if banned {
            self.total_cooldowns = self.total_cooldowns + 1;
            self.current_cooldown = backoff_cycles(self.total_cooldowns);
            self.changes_stacking = 0;
        }
        !banned
    }

    /// Concludes one executed check from the detector's result and the
    /// keyword scan: stores the best capture as the new reference image,
    /// latches the keyword flag, and decides whether to notify. A cycle
    /// with nothing to report eases the backoff; a first-ever check and
    /// the unstable first few runs never notify; otherwise the anti-flood
    /// guard decides.
    pub fn conclude_check(&mut self, result: ChangeResult, keyword_found: bool) -> (r:
        NotifyDecision)
        requires
            old(self).changes_stacking <= 3,
            old(self).total_cooldowns < u32::MAX,
        ensures
            *final(self) == (WebsiteData {
                last_image: Some(result.best_image),
                merch_already_detected: old(self).merch_already_detected || keyword_found,
                changes_stacking: final(self).changes_stacking,
                current_cooldown: final(self).current_cooldown,
                total_cooldowns: final(self).total_cooldowns,
                ..*old(self)
            }),
            final(self).changes_stacking <= 3,
            ({
                let newly = keyword_found && !old(self).merch_already_detected;
                let confirmed = result.all_scores_below_threshold;
                if !confirmed && !newly {
                    &&& r is Suppressed
                    &&& final(self).changes_stacking == 0
                    &&& final(self).total_cooldowns == (if old(self).total_cooldowns > 0 {
                        (old(self).total_cooldowns - 1) as u32
                    } else {
                        0u32
                    })
                    &&& final(self).current_cooldown == old(self).current_cooldown
                } else if result.first_run || old(self).total_runs <= 3 {
                    &&& r is Suppressed
                    &&& final(self).changes_stacking == old(self).changes_stacking
                    &&& final(self).total_cooldowns == old(self).total_cooldowns
                    &&& final(self).current_cooldown == old(self).current_cooldown
                } else {
                    let step = notify_step(
                        old(self).changes_stacking,
                        old(self).total_cooldowns,
                        old(self).current_cooldown,
                    );
                    &&& final(self).changes_stacking == step.0
                    &&& final(self).total_cooldowns == step.1
                    &&& final(self).current_cooldown == step.2
                    &&& r == (if step.3 {
                        NotifyDecision::Allowed {
                            priority: if newly {
                                1u8
                            } else {
                                0u8
                            },
                        }
                    } else {
                        NotifyDecision::Suppressed
                    })
                }
            }),
    {
        self.last_image = Some(result.best_image);
        let mut newly = keyword_found;
        if self.merch_already_detected {
            newly = false;
        } else {
            self.merch_already_detected = keyword_found;
        }
        if !result.all_scores_below_threshold && !newly {
            self.nothing_changed();
            return NotifyDecision::Suppressed;
        }
        if result.first_run {
            return NotifyDecision::Suppressed;
        }
        if self.total_runs > 3 {
            if self.should_send_notification() {
                let priority: u8 = if newly {
                    1
                } else {
                    0
                };
                return NotifyDecision::Allowed { priority };
            }
            return NotifyDecision::Suppressed;
        }
        NotifyDecision::Suppressed
    }
}

/// Law: with no missed notifications outstanding, three consecutive
/// report-worthy outcomes are each allowed to notify, and the fourth is
/// suppressed: it imposes exactly one more backoff, whose quiet period is
/// three to the power of the new backoff count, and resets the streak.
pub proof fn lemma_fourth_outcome_backs_off(stacking: u8, imposed: u32, cooldown: u64)
    requires
        stacking == 0,
        imposed < u32::MAX,
    ensures
        ({
            let s1 = notify_step(stacking, imposed, cooldown);
            let s2 = notify_step(s1.0, s1.1, s1.2);
            let s3 = notify_step(s2.0, s2.1, s2.2);
            let s4 = notify_step(s3.0, s3.1, s3.2);
            &&& s1.3
            &&& s2.3
            &&& s3.3
            &&& !s4.3
            &&& s4.0 == 0
            &&& s4.1 == imposed + 1
            &&& s4.2 == cooldown_length((imposed + 1) as u32)
        }),
{
}

} // verus!
