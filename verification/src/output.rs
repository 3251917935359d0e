//! What is shown at which level of verbosity, and in what form. Nothing
//! here prints: each function says what there is to show, as plain values.

use vstd::prelude::*;
use vstd::arithmetic::div_mod::{lemma_div_is_ordered, lemma_div_multiples_vanish};
use vstd::utf8::encode_utf8;
use crate::models::DebugLevel;
use crate::text::{clip, clip_spec, trim_spec};

verus! {

/// The width of the plain progress bar, in cells.
pub const BAR_WIDTH: usize = 30;

/// The width of the progress bar that names a task, in cells.
pub const TASK_BAR_WIDTH: usize = 20;

/// The longest name of a task that is shown whole, in bytes.
pub const TASK_NAME_LIMIT: usize = 30;

/// How many bytes of a longer name of a task are shown.
pub const TASK_NAME_KEPT: usize = 27;

/// The longest response that is shown whole, in bytes.
pub const RESPONSE_LIMIT: usize = 300;

/// Output handler that respects a verbosity level.
#[derive(Debug, Clone)]
pub struct RalphOutput {
    level: DebugLevel,
}

/// How the response of a tool is shown.
#[derive(Clone, Copy, Debug, PartialEq, Eq, Structural)]
pub enum ResponseStyle {
    /// Not at all.
    Hidden,
    /// On one line, cut where it is long.
    Compact,
    /// Whole, indented over several lines.
    Pretty,
}

/// The parts of a progress bar.
#[derive(Clone, Copy, Debug, PartialEq, Eq, Structural)]
pub struct ProgressBar {
    /// The share of the work that is done, in percent, rounded down.
    pub percentage: usize,
    /// The number of filled cells.
    pub filled: usize,
    /// The number of empty cells.
    pub empty: usize,
    /// Whether all of the work is done, so that the line of the bar ends.
    pub finished: bool,
}

/// The parts of a bar of `width` cells for `completed` of `total`.
pub open spec fn progress_spec(completed: nat, total: nat, width: nat) -> ProgressBar {
    ProgressBar {
        percentage: ((completed * 100) / total) as usize,
        filled: ((completed * width) / total) as usize,
        empty: (width - (completed * width) / total) as usize,
        finished: completed == total,
    }
}

/// A text as it is shown where space is short: whole if it has at most
/// `limit` bytes, else its first `kept` bytes, cut at a character boundary,
/// and the mark.
pub open spec fn shorten_spec(text: Seq<char>, limit: nat, kept: nat, mark: Seq<char>) -> Seq<char> {
    if encode_utf8(text).len() > limit {
        clip_spec(text, kept) + mark
    } else {
        text
    }
}

/// Shortens a text for display.
pub fn shorten(text: &str, limit: usize, kept: usize, mark: &str) -> (shown: String)
    ensures
        shown@ == shorten_spec(text@, limit as nat, kept as nat, mark@),
{
    if text.as_bytes().len() > limit {
        let mut shown = clip(text, kept).to_owned();
        shown.append(mark);
        shown
    } else {
        text.to_owned()
    }
}

/// Scales `completed` of `total` to `scale`, rounding down.
fn scaled(completed: usize, total: usize, scale: usize) -> (r: usize)
    requires
        completed <= total,
        total > 0,
    ensures
        r == (completed * scale) / (total as int),
        r <= scale,
{
    proof {
        assert(completed * scale <= total * scale) by (nonlinear_arith)
            requires
                completed <= total,
                scale >= 0,
        ;
        assert(completed * scale <= 0xffff_ffff_ffff_ffff * 0xffff_ffff_ffff_ffff)
            by (nonlinear_arith)
            requires
                0 <= completed <= 0xffff_ffff_ffff_ffff,
                0 <= scale <= 0xffff_ffff_ffff_ffff,
        ;
        lemma_div_is_ordered(completed * scale, total * scale, total as int);
        lemma_div_multiples_vanish(scale as int, total as int);
    }
    let product: u128 = completed as u128 * scale as u128;
    (product / total as u128) as usize
}

impl Default for RalphOutput {
    fn default() -> (out: Self)
        ensures
            out.spec_level() == DebugLevel::Normal,
    {
        Self::new(DebugLevel::Normal)
    }
}

impl RalphOutput {
    /// The level this handler was made with.
    pub closed spec fn spec_level(&self) -> DebugLevel {
        self.level
    }

    /// Create an output handler with the given level.
    pub fn new(level: DebugLevel) -> (out: Self)
        ensures
            out.spec_level() == level,
    {
        Self { level }
    }

    /// The current level.
    pub fn level(&self) -> (l: DebugLevel)
        ensures
            l == self.spec_level(),
    {
        self.level
    }

    /// Whether progress is shown: phases, status lines, tasks, iterations,
    /// progress bars, warnings and the banner. At `Normal` and above.
    pub fn shows_progress(&self) -> (b: bool)
        ensures
            b == (self.spec_level().rank() >= 1),
    {
        self.level.is_normal()
    }

    /// Whether the calls of tools and the text of the model are shown. At
    /// `Verbose` and above.
    pub fn shows_tool_calls(&self) -> (b: bool)
        ensures
            b == (self.spec_level().rank() >= 2),
    {
        self.level.is_verbose()
    }

    /// Whether the results of tools are summed up in a line. At `Normal`
    /// only: above it the whole response is shown instead.
    pub fn shows_tool_summaries(&self) -> (b: bool)
        ensures
            b == (self.spec_level().rank() == 1),
    {
        self.level.is_normal() && !self.level.is_verbose()
    }

    /// Whether internal state is shown. At `Debug` only.
    pub fn shows_debug(&self) -> (b: bool)
        ensures
            b == (self.spec_level().rank() == 3),
    {
        self.level.is_debug()
    }

    /// How the response of a tool is shown: on one line at `Verbose` and
    /// above, else not at all. As `Debug` lies above `Verbose`, no level
    /// shows the indented form.
    pub fn response_style(&self) -> (style: ResponseStyle)
        ensures
            style == (if self.spec_level().rank() >= 2 {
                ResponseStyle::Compact
            } else {
                ResponseStyle::Hidden
            }),
            style != ResponseStyle::Pretty,
    {
        if self.level.is_verbose() {
            ResponseStyle::Compact
        } else if self.level.is_debug() {
            ResponseStyle::Pretty
        } else {
            ResponseStyle::Hidden
        }
    }

    /// The text of the model as it is shown: trimmed, at `Verbose` and
    /// above, unless it is blank.
    pub fn llm_text<'a>(&self, text: &'a str) -> (shown: Option<&'a str>)
        ensures
            shown.deep_view() == (if self.spec_level().rank() >= 2 && trim_spec(text@).len() > 0 {
                Some(trim_spec(text@))
            } else {
                None
            }),
    {
        let trimmed = text.trim();
        if self.level.is_verbose() && !trimmed.is_empty() {
            Some(trimmed)
        } else {
            None
        }
    }

    /// The response of a tool as it is shown on one line: its compact text,
    /// cut behind `RESPONSE_LIMIT` bytes and marked with three dots where it
    /// is longer. Nothing below `Verbose`.
    pub fn tool_response(&self, compact: &str) -> (shown: Option<String>)
        ensures
            shown.deep_view() == (if self.spec_level().rank() >= 2 {
                Some(shorten_spec(compact@, RESPONSE_LIMIT as nat, RESPONSE_LIMIT as nat, "..."@))
            } else {
                None
            }),
    {
        if self.level.is_verbose() {
            Some(shorten(compact, RESPONSE_LIMIT, RESPONSE_LIMIT, "..."))
        } else {
            None
        }
    }

    /// The parts of the progress bar for `completed` of `total` tasks.
    /// Nothing below `Normal`, and nothing where there is no task. Where a
    /// bar is shown, no more tasks can be completed than there are.
    pub fn progress_bar(&self, completed: usize, total: usize) -> (bar: Option<ProgressBar>)
        requires
            self.spec_level().rank() >= 1 && total > 0 ==> completed <= total,
        ensures
            bar == (if self.spec_level().rank() >= 1 && total > 0 {
                Some(progress_spec(completed as nat, total as nat, BAR_WIDTH as nat))
            } else {
                None
            }),
            bar matches Some(b) ==> b.percentage <= 100 && b.filled + b.empty == BAR_WIDTH,
    {
        if !self.level.is_normal() || total == 0 {
            return None;
        }
        let filled = scaled(completed, total, BAR_WIDTH);
        Some(
            ProgressBar {
                percentage: scaled(completed, total, 100),
                filled,
                empty: BAR_WIDTH - filled,
                finished: completed == total,
            },
        )
    }

    /// The parts of the progress bar that names the current task, and the
    /// name as it is shown: whole up to `TASK_NAME_LIMIT` bytes, else its
    /// first `TASK_NAME_KEPT` bytes and three dots.
    pub fn progress_bar_with_task(&self, completed: usize, total: usize, current_task: &str) -> (bar:
        Option<(ProgressBar, String)>)
        requires
            self.spec_level().rank() >= 1 && total > 0 ==> completed <= total,
        ensures
            match bar {
                Some((parts, name)) => {
                    &&& self.spec_level().rank() >= 1 && total > 0
                    &&& parts == progress_spec(completed as nat, total as nat, TASK_BAR_WIDTH as nat)
                    &&& parts.percentage <= 100 && parts.filled + parts.empty == TASK_BAR_WIDTH
                    &&& name@ == shorten_spec(
                        current_task@,
                        TASK_NAME_LIMIT as nat,
                        TASK_NAME_KEPT as nat,
                        "..."@,
                    )
                },
                None => !(self.spec_level().rank() >= 1 && total > 0),
            },
    {
        if !self.level.is_normal() || total == 0 {
            return None;
        }
        let filled = scaled(completed, total, TASK_BAR_WIDTH);
        let parts = ProgressBar {
            percentage: scaled(completed, total, 100),
            filled,
            empty: TASK_BAR_WIDTH - filled,
            finished: completed == total,
        };
        Some((parts, shorten(current_task, TASK_NAME_LIMIT, TASK_NAME_KEPT, "...")))
    }
}

} // verus!
