//! When the next cycle fires: the curfew of today or tomorrow, the warning
//! ahead of it, and how long to sleep until each.

use vstd::prelude::*;
use vstd::string::*;
use crate::config::settings::{hour_minute_text, BotConfig, CurfewTime};
use crate::utils::{decimal_string, decimal_text};

verus! {

/// A moment on the local clock: the day, counted from a fixed first day,
/// and the seconds since that day's midnight.
#[derive(Debug, Clone, Copy, PartialEq, Eq, Structural)]
pub struct LocalMoment {
    /// The day, counted from a fixed first day.
    pub day: i32,
    /// Whole seconds since midnight.
    pub second_of_day: u32,
}

impl LocalMoment {
    /// Whether this moment comes strictly after `other`.
    pub open spec fn is_after(self, other: LocalMoment) -> bool {
        self.day > other.day || (self.day == other.day && self.second_of_day
            > other.second_of_day)
    }
}

/// The curfew that follows `now`: today's where the clock has not reached
/// `curfew_second` yet, tomorrow's where it has reached or passed it.
pub open spec fn next_curfew(now: LocalMoment, curfew_second: int) -> (int, int) {
    if now.second_of_day < curfew_second {
        (now.day as int, curfew_second)
    } else {
        (now.day + 1, curfew_second)
    }
}

/// Seconds from `now` to `at`, none where `at` has come or passed.
pub open spec fn seconds_until(now: int, at: int) -> int {
    if at > now {
        at - now
    } else {
        0
    }
}

/// Seconds to sleep from `now` until the instant `at`, both counted in
/// seconds from one origin: the distance where `at` lies ahead, zero where
/// it has come or passed.
pub fn delay_until(now: i64, at: i64) -> (delay: u64)
    ensures
        delay == seconds_until(now as int, at as int),
{
    if at > now {
        (at as i128 - now as i128) as u64
    } else {
        0
    }
}

/// A task with the instant at which it fires and the seconds to sleep
/// until then.
#[derive(Debug, Clone, Copy, PartialEq, Eq, Structural)]
pub struct TimedTask {
    /// The instant, in seconds from the origin of the clock.
    pub at: i64,
    /// Seconds to sleep from now; zero to fire at once.
    pub delay_seconds: u64,
}

/// What to arm for one curfew: the early warning, where there is one, and
/// the enforcement itself.
#[derive(Debug, Clone, Copy, PartialEq, Eq, Structural)]
pub struct MonitoringPlan {
    /// The early warning, where warnings are enabled with a lead time.
    pub warning: Option<TimedTask>,
    /// The enforcement at the curfew.
    pub curfew: TimedTask,
}

/// The instant of the early warning: the curfew less the lead time, or none
/// where warnings are disabled or the lead time is zero.
pub open spec fn warning_instant(config: BotConfig, curfew_at: int) -> Option<int> {
    if config.warning_channel_id is Some && config.warning_delay_seconds > 0 {
        Some(curfew_at - config.warning_delay_seconds)
    } else {
        None
    }
}

/// Whether and how long ahead a warning goes out, in words.
pub open spec fn warning_note(config: BotConfig) -> Seq<char> {
    if config.warning_channel_id is Some {
        "avec avertissement "@ + decimal_text(config.warning_delay_seconds as nat)
            + " secondes avant"@
    } else {
        "sans avertissement"@
    }
}

/// The line that reports what is being watched for.
pub open spec fn monitoring_summary_text(config: BotConfig, curfew: CurfewTime) -> Seq<char> {
    "Surveillance démarrée - Couvre-feu à "@ + hour_minute_text(
        curfew.spec_hour(),
        curfew.spec_minute(),
    ) + " ("@ + warning_note(config) + ")"@
}

/// What is logged when the cycle at the curfew has ended with this many
/// users disconnected.
pub open spec fn curfew_outcome_text(config: BotConfig, disconnected: nat) -> Seq<char> {
    if disconnected > 0 {
        decimal_text(disconnected) + " utilisateur(s) déconnecté(s) pour couvre-feu"@
    } else if config.warning_only {
        "Couvre-feu en mode clément - Aucune déconnexion effectuée"@
    } else {
        "Aucun utilisateur à déconnecter - Salon vocal vide"@
    }
}

/// Arms the cycles of one monitored channel.
#[derive(Debug, Clone)]
pub struct BotHandler {
    config: BotConfig,
}

impl BotHandler {
    /// The settings that this handler schedules by.
    pub closed spec fn spec_config(&self) -> BotConfig {
        self.config
    }

    /// A handler that schedules by `config`.
    pub fn new(config: BotConfig) -> (handler: BotHandler)
        ensures
            handler.spec_config() == config,
    {
        BotHandler { config }
    }

    /// The settings that this handler schedules by.
    pub fn config(&self) -> (config: &BotConfig)
        ensures
            *config == self.spec_config(),
    {
        &self.config
    }

    /// The next curfew after `now` on the local clock: today at the curfew
    /// time where `now` is strictly before it, tomorrow at the curfew time
    /// where `now` is at or after it. The result is always strictly after
    /// `now`.
    pub fn calculate_next_curfew_time(&self, now: LocalMoment, curfew_time: CurfewTime) -> (next:
        LocalMoment)
        requires
            now.day < i32::MAX,
        ensures
            (next.day as int, next.second_of_day as int) == next_curfew(
                now,
                curfew_time.spec_second_of_day(),
            ),
            next.is_after(now),
            next.second_of_day < 86400,
    {
        let curfew_second: u32 = curfew_time.second_of_day();
        if now.second_of_day >= curfew_second {
            LocalMoment { day: now.day + 1, second_of_day: curfew_second }
        } else {
            LocalMoment { day: now.day, second_of_day: curfew_second }
        }
    }

    /// The instant of the early warning for the curfew at `curfew_at`: the
    /// curfew less the lead time. None where warnings are disabled or the
    /// lead time is zero.
    pub fn calculate_initial_warning_time(&self, curfew_at: i64) -> (warning_at: Option<i64>)
        requires
            curfew_at - self.spec_config().warning_delay_seconds >= i64::MIN,
        ensures
            match warning_at {
                Some(at) => warning_instant(self.spec_config(), curfew_at as int) == Some(
                    at as int,
                ),
                None => warning_instant(self.spec_config(), curfew_at as int) is None,
            },
    {
        if !self.config.has_warnings_enabled() || self.config.warning_delay_seconds == 0 {
            return None;
        }
        Some((curfew_at as i128 - self.config.warning_delay_seconds as i128) as i64)
    }

    /// What to arm at `now` for the curfew at `curfew_at`, both in seconds
    /// from one origin. The warning fires the lead time before the curfew;
    /// where that instant has come or passed it fires at once, and it is
    /// never left out. The enforcement fires at the curfew, at once where
    /// the curfew has come or passed.
    pub fn start_curfew_monitoring(&self, now: i64, curfew_at: i64) -> (plan: MonitoringPlan)
        requires
            curfew_at - self.spec_config().warning_delay_seconds >= i64::MIN,
        ensures
            plan.curfew.at == curfew_at,
            plan.curfew.delay_seconds == seconds_until(now as int, curfew_at as int),
            match plan.warning {
                Some(task) => {
                    &&& warning_instant(self.spec_config(), curfew_at as int) == Some(
                        task.at as int,
                    )
                    &&& task.at == curfew_at - self.spec_config().warning_delay_seconds
                    &&& task.delay_seconds == seconds_until(now as int, task.at as int)
                    &&& task.at <= now ==> task.delay_seconds == 0
                    &&& task.delay_seconds <= plan.curfew.delay_seconds
                },
                None => warning_instant(self.spec_config(), curfew_at as int) is None,
            },
    {
        let warning = match self.calculate_initial_warning_time(curfew_at) {
            Some(at) => Some(TimedTask { at, delay_seconds: delay_until(now, at) }),
            None => None,
        };
        MonitoringPlan {
            warning,
            curfew: TimedTask { at: curfew_at, delay_seconds: delay_until(now, curfew_at) },
        }
    }

    /// What is logged when the cycle at the curfew has ended with this
    /// many users disconnected.
    pub fn curfew_outcome_line(&self, disconnected: usize) -> (text: String)
        ensures
            text@ == curfew_outcome_text(self.spec_config(), disconnected as nat),
    {
        if disconnected > 0 {
            decimal_string(disconnected as u64).concat(
                " utilisateur(s) déconnecté(s) pour couvre-feu",
            )
        } else if self.config.is_warning_only_mode() {
            String::from_str("Couvre-feu en mode clément - Aucune déconnexion effectuée")
        } else {
            String::from_str("Aucun utilisateur à déconnecter - Salon vocal vide")
        }
    }

    /// The line that reports what is being watched for; none where no
    /// curfew is configured.
    pub fn monitoring_summary(&self) -> (line: Option<String>)
        ensures
            match line {
                Some(text) => self.spec_config().curfew_time matches Some(curfew) && text@
                    == monitoring_summary_text(self.spec_config(), curfew),
                None => self.spec_config().curfew_time is None,
            },
    {
        let curfew = match self.config.curfew_time {
            Some(curfew) => curfew,
            None => {
                return None;
            },
        };
        let mut text = String::from_str("Surveillance démarrée - Couvre-feu à ");
        text.append(curfew.to_text().as_str());
        text.append(" (");
        let note = if self.config.has_warnings_enabled() {
            String::from_str("avec avertissement ").concat(
                decimal_string(self.config.warning_delay_seconds).as_str(),
            ).concat(" secondes avant")
        } else {
            String::from_str("sans avertissement")
        };
        text.append(note.as_str());
        text.append(")");
        Some(text)
    }
}

} // verus!
