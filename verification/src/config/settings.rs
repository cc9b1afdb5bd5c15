//! Stored settings and how command-line values are merged into them.

use vstd::prelude::*;
use vstd::string::*;
use crate::config::args::Args;
use crate::error::BotError;
use crate::utils::{
    cron_parts_error, decimal_string, decimal_text, digit_char, validate_cron_expression,
    word_count,
};

verus! {

/// What `chrono::NaiveTime::parse_from_str` makes of `text` under the
/// pattern `%H:%M`: the hour and minute of the time it accepts, or `None`
/// where it rejects the text.
pub uninterp spec fn chrono_hour_minute(text: Seq<char>) -> Option<(u32, u32)>;

/// A time of day written with two digits for the hour, a colon and two
/// digits for the minute.
pub open spec fn hour_minute_text(hour: int, minute: int) -> Seq<char> {
    seq![
        digit_char(hour / 10),
        digit_char(hour % 10),
        ':',
        digit_char(minute / 10),
        digit_char(minute % 10),
    ]
}

/// The message of a curfew time that cannot be read.
pub open spec fn invalid_time_text() -> Seq<char> {
    "Format d'heure invalide (utilisez HH:MM)"@
}

/// The message of a configuration without a voice channel.
pub open spec fn missing_channel_text() -> Seq<char> {
    "ID du salon vocal requis (--channel ou configuration existante)"@
}

/// Calls `chrono::NaiveTime::parse_from_str` with the pattern `%H:%M` and
/// hands back the hour and minute of the time read. Trusted: the result is
/// the one chrono gives for this text, and chrono's hours are below 24 and
/// its minutes below 60.
#[verifier::external_body]
fn chrono_parse_hour_minute(text: &str) -> (parsed: Option<(u32, u32)>)
    ensures
        parsed == chrono_hour_minute(text@),
        parsed matches Some(hm) ==> hm.0 < 24 && hm.1 < 60,
{
    match chrono::NaiveTime::parse_from_str(text, "%H:%M") {
        Ok(time) => Some((chrono::Timelike::hour(&time), chrono::Timelike::minute(&time))),
        Err(_) => None,
    }
}

/// Calls `chrono::NaiveTime::format` with the pattern `%H:%M` on the time
/// with the given hour and minute. Trusted: chrono writes the hour and the
/// minute with two decimal digits each, a colon between them.
#[verifier::external_body]
fn chrono_format_hour_minute(hour: u32, minute: u32) -> (text: String)
    requires
        hour < 24,
        minute < 60,
    ensures
        text@ == hour_minute_text(hour as int, minute as int),
{
    match chrono::NaiveTime::from_hms_opt(hour, minute, 0) {
        Some(time) => time.format("%H:%M").to_string(),
        None => String::new(),
    }
}

/// A curfew: a time of day to the minute.
#[derive(Debug, Clone, Copy, PartialEq, Eq, Structural)]
pub struct CurfewTime {
    hour: u32,
    minute: u32,
}

impl CurfewTime {
    #[verifier::type_invariant]
    spec fn in_range(self) -> bool {
        self.hour < 24 && self.minute < 60
    }

    /// The hour of the curfew, from 0 to 23.
    pub closed spec fn spec_hour(self) -> int {
        self.hour as int
    }

    /// The minute of the curfew, from 0 to 59.
    pub closed spec fn spec_minute(self) -> int {
        self.minute as int
    }

    /// Seconds from midnight to the curfew.
    pub open spec fn spec_second_of_day(self) -> int {
        self.spec_hour() * 3600 + self.spec_minute() * 60
    }

    /// The curfew at `hour`:`minute`, or `None` where that is no time of day.
    pub fn new(hour: u32, minute: u32) -> (time: Option<CurfewTime>)
        ensures
            time is Some <==> hour < 24 && minute < 60,
            time matches Some(t) ==> t.spec_hour() == hour && t.spec_minute() == minute,
    {
        if hour < 24 && minute < 60 {
            Some(CurfewTime { hour, minute })
        } else {
            None
        }
    }

    /// The hour of the curfew.
    pub fn hour(&self) -> (h: u32)
        ensures
            h == self.spec_hour(),
            h < 24,
    {
        proof {
            use_type_invariant(self);
        }
        self.hour
    }

    /// The minute of the curfew.
    pub fn minute(&self) -> (m: u32)
        ensures
            m == self.spec_minute(),
            m < 60,
    {
        proof {
            use_type_invariant(self);
        }
        self.minute
    }

    /// Seconds from midnight to the curfew.
    pub fn second_of_day(&self) -> (s: u32)
        ensures
            s == self.spec_second_of_day(),
            s < 86400,
    {
        proof {
            use_type_invariant(self);
        }
        self.hour * 3600 + self.minute * 60
    }

    /// Turns what the time parser handed back into a curfew: the time it
    /// read, or an error where it read none or the values are no time of day.
    pub fn from_parsed(parsed: Option<(u32, u32)>) -> (r: Result<CurfewTime, BotError>)
        ensures
            r is Ok <==> (parsed matches Some(hm) && hm.0 < 24 && hm.1 < 60),
            r matches Ok(t) ==> parsed matches Some(hm) && t.spec_hour() == hm.0
                && t.spec_minute() == hm.1,
            r matches Err(e) ==> e matches BotError::InvalidConfig(msg) && msg@
                == invalid_time_text(),
    {
        match parsed {
            Some((hour, minute)) => {
                match CurfewTime::new(hour, minute) {
                    Some(time) => Ok(time),
                    None => Err(
                        BotError::InvalidConfig(
                            String::from_str("Format d'heure invalide (utilisez HH:MM)"),
                        ),
                    ),
                }
            },
            None => Err(
                BotError::InvalidConfig(
                    String::from_str("Format d'heure invalide (utilisez HH:MM)"),
                ),
            ),
        }
    }

    /// Reads a curfew written as hours and minutes.
    pub fn parse(text: &str) -> (r: Result<CurfewTime, BotError>)
        ensures
            r is Ok <==> chrono_hour_minute(text@) is Some,
            r matches Ok(t) ==> chrono_hour_minute(text@) matches Some(hm) && t.spec_hour()
                == hm.0 && t.spec_minute() == hm.1,
            r matches Err(e) ==> e matches BotError::InvalidConfig(msg) && msg@
                == invalid_time_text(),
    {
        CurfewTime::from_parsed(chrono_parse_hour_minute(text))
    }

    /// Writes the curfew as two digits of hours, a colon and two digits of
    /// minutes.
    pub fn to_text(&self) -> (text: String)
        ensures
            text@ == hour_minute_text(self.spec_hour(), self.spec_minute()),
    {
        chrono_format_hour_minute(self.hour(), self.minute())
    }
}

/// The settings of the bot, as they are stored.
#[derive(Debug, Clone)]
pub struct BotConfig {
    /// Identifier of the voice channel to watch.
    pub voice_channel_id: u64,
    /// Identifier of the channel that receives eviction confirmations.
    pub log_channel_id: Option<u64>,
    /// Identifier of the text channel that receives warnings.
    pub warning_channel_id: Option<u64>,
    /// Time of day of the curfew; without one the recurring schedule rules.
    pub curfew_time: Option<CurfewTime>,
    /// Seconds between a warning and what follows it: how long before the
    /// curfew the first warning goes out, and how long a cycle on the
    /// recurring schedule waits after its warning.
    pub warning_delay_seconds: u64,
    /// Warn only, never evict.
    pub warning_only: bool,
    /// Recurring schedule, six white-space separated parts.
    pub cron_schedule: String,
}

impl BotConfig {
    /// A copy of these settings.
    pub fn duplicate(&self) -> (copy: BotConfig)
        ensures
            copy == *self,
    {
        BotConfig {
            voice_channel_id: self.voice_channel_id,
            log_channel_id: self.log_channel_id,
            warning_channel_id: self.warning_channel_id,
            curfew_time: self.curfew_time,
            warning_delay_seconds: self.warning_delay_seconds,
            warning_only: self.warning_only,
            cron_schedule: self.cron_schedule.clone(),
        }
    }

    /// Seconds between a warning and what follows it.
    pub fn warning_delay(&self) -> (seconds: u64)
        ensures
            seconds == self.warning_delay_seconds,
    {
        self.warning_delay_seconds
    }

    /// Whether a channel for warnings is configured.
    pub fn has_warnings_enabled(&self) -> (enabled: bool)
        ensures
            enabled == self.warning_channel_id.is_some(),
    {
        self.warning_channel_id.is_some()
    }

    /// Whether the bot warns only and never evicts.
    pub fn is_warning_only_mode(&self) -> (lenient: bool)
        ensures
            lenient == self.warning_only,
    {
        self.warning_only
    }
}

/// The curfew that `args` asks for: none where it names none, the time read
/// where chrono accepts the text.
pub open spec fn requested_curfew(args: Args) -> Option<Option<(u32, u32)>> {
    match args.curfew_time {
        Some(text) => Some(chrono_hour_minute(text@)),
        None => None,
    }
}

/// Why the values of `args` cannot be made into settings: the curfew time
/// where it cannot be read, the schedule otherwise.
pub open spec fn rejection_text(args: Args) -> Seq<char> {
    if requested_curfew(args) matches Some(None) {
        invalid_time_text()
    } else {
        cron_parts_error()
    }
}

/// Whether the values of `args` can be made into settings.
pub open spec fn args_acceptable(args: Args) -> bool {
    &&& !(requested_curfew(args) matches Some(None))
    &&& word_count(args.cron_schedule@) == 6
}

/// A channel identifier in words, or the word for none.
pub open spec fn id_or_none(channel_id: Option<u64>) -> Seq<char> {
    match channel_id {
        Some(id) => decimal_text(id as nat),
        None => "Aucun"@,
    }
}

/// The curfew in words, or the word for none.
pub open spec fn curfew_or_none(curfew: Option<CurfewTime>) -> Seq<char> {
    match curfew {
        Some(time) => hour_minute_text(time.spec_hour(), time.spec_minute()),
        None => "Aucune"@,
    }
}

/// The settings in words, one line each.
pub open spec fn summary_text(config: BotConfig) -> Seq<char> {
    "\n📋 Configuration active :\n   • Salon vocal: "@ + decimal_text(
        config.voice_channel_id as nat,
    ) + "\n   • Salon de log: "@ + id_or_none(config.log_channel_id)
        + "\n   • Salon d'avertissement: "@ + id_or_none(config.warning_channel_id)
        + "\n   • Heure de couvre-feu: "@ + curfew_or_none(config.curfew_time)
        + "\n   • Délai d'avertissement: "@ + decimal_text(config.warning_delay_seconds as nat)
        + " secondes\n   • Mode avertissement seul: "@ + (if config.warning_only {
        "Oui"@
    } else {
        "Non"@
    }) + "\n"@
}

/// How to start the bot once settings were imported.
pub open spec fn usage_text() -> Seq<char> {
    "\n🚀 Vous pouvez maintenant lancer le bot avec :\n   ./lekickerfou\n"@
}

/// The exported settings in words, and how to use the file elsewhere.
pub open spec fn exported_text(config: BotConfig, target_file: Seq<char>) -> Seq<char> {
    summary_text(config) + "\n💡 Pour utiliser cette config ailleurs :\n   ./lekickerfou --import "@
        + target_file + "\n"@
}

/// What was found in a file that should hold settings.
#[derive(Debug, Clone)]
pub enum SettingsFile {
    /// There is no such file.
    Missing,
    /// The file holds no settings that can be read.
    Invalid,
    /// The file holds these settings.
    Valid(BotConfig),
}

/// What is reported of settings copied from one file to another: a line
/// for the log and the text shown to the operator.
#[derive(Debug, Clone)]
pub struct TransferReport {
    /// The line for the log.
    pub log_line: String,
    /// The text shown to the operator.
    pub shown: String,
}

/// The message of an import from a file that is not there.
pub open spec fn import_missing_text(source_file: Seq<char>) -> Seq<char> {
    "Fichier de configuration introuvable: "@ + source_file
}

/// The message of an export from a file that is not there.
pub open spec fn export_missing_text(source_file: Seq<char>) -> Seq<char> {
    "Aucune configuration à exporter depuis "@ + source_file
}

/// The message of a file that holds no settings that can be read.
pub open spec fn unreadable_source_text() -> Seq<char> {
    "Configuration invalide dans le fichier source"@
}

/// The log line of an import.
pub open spec fn imported_line(source_file: Seq<char>, target_file: Seq<char>) -> Seq<char> {
    "✅ Configuration importée de "@ + source_file + " vers "@ + target_file
}

/// The log line of an export.
pub open spec fn exported_line(source_file: Seq<char>, target_file: Seq<char>) -> Seq<char> {
    "✅ Configuration exportée de "@ + source_file + " vers "@ + target_file
}

/// Loads, creates and merges settings.
pub struct ConfigManager;

impl ConfigManager {
    /// A manager of settings.
    pub fn new() -> (manager: ConfigManager) {
        ConfigManager
    }

    /// Merges the command line into stored settings where there are any,
    /// and makes new settings from the command line alone where there are none.
    pub fn load_or_create_configuration(&self, args: &Args, stored: Option<BotConfig>) -> (r:
        Result<BotConfig, BotError>)
        ensures
            r is Ok <==> args_acceptable(*args) && (stored is Some
                || args.voice_channel_id is Some),
            r matches Ok(config) ==> merged_settings(*args, stored, config),
            r matches Err(e) ==> match e {
                BotError::MissingConfig(msg) => stored is None && args.voice_channel_id is None
                    && msg@ == missing_channel_text(),
                BotError::InvalidConfig(msg) => !args_acceptable(*args) && (stored is Some
                    || args.voice_channel_id is Some) && msg@ == rejection_text(*args),
                _ => false,
            },
    {
        match stored {
            Some(config) => self.load_existing_configuration(args, config),
            None => self.create_new_configuration(args),
        }
    }

    /// Overrides stored settings with what the command line gives.
    pub fn load_existing_configuration(&self, args: &Args, stored: BotConfig) -> (r: Result<
        BotConfig,
        BotError,
    >)
        ensures
            r is Ok <==> args_acceptable(*args),
            r matches Ok(config) ==> merged_settings(*args, Some(stored), config),
            r matches Err(e) ==> e matches BotError::InvalidConfig(msg) && msg@ == rejection_text(
                *args,
            ),
    {
        let curfew_time = match &args.curfew_time {
            Some(text) => {
                match CurfewTime::parse(text.as_str()) {
                    Ok(time) => Some(time),
                    Err(e) => {
                        return Err(e);
                    },
                }
            },
            None => stored.curfew_time,
        };
        match validate_cron_expression(args.cron_schedule.as_str()) {
            Ok(()) => {},
            Err(msg) => {
                return Err(BotError::InvalidConfig(msg));
            },
        }
        Ok(
            BotConfig {
                voice_channel_id: match args.voice_channel_id {
                    Some(id) => id,
                    None => stored.voice_channel_id,
                },
                log_channel_id: match args.log_channel_id {
                    Some(id) => Some(id),
                    None => stored.log_channel_id,
                },
                warning_channel_id: match args.warning_channel_id {
                    Some(id) => Some(id),
                    None => stored.warning_channel_id,
                },
                curfew_time,
                warning_delay_seconds: args.warning_delay_seconds,
                warning_only: args.warning_only,
                cron_schedule: args.cron_schedule.clone(),
            },
        )
    }

    /// Decides on the import of the settings found in `source_file` into
    /// `target_file`: an error where the file is missing or holds no
    /// settings, so that nothing is copied; otherwise what to report once
    /// the file is copied: the settings in words and how to start the bot.
    pub fn import_configuration(&self, source_file: &str, target_file: &str, found: &SettingsFile) -> (r:
        Result<TransferReport, BotError>)
        ensures
            match *found {
                SettingsFile::Missing => r matches Err(e) && e matches BotError::InvalidConfig(
                    msg,
                ) && msg@ == import_missing_text(source_file@),
                SettingsFile::Invalid => r matches Err(e) && e matches BotError::InvalidConfig(
                    msg,
                ) && msg@ == unreadable_source_text(),
                SettingsFile::Valid(config) => r matches Ok(report) && report.log_line@
                    == imported_line(source_file@, target_file@) && report.shown@ == summary_text(
                    config,
                ) + usage_text(),
            },
    {
        match found {
            SettingsFile::Missing => Err(
                BotError::InvalidConfig(
                    String::from_str("Fichier de configuration introuvable: ").concat(source_file),
                ),
            ),
            SettingsFile::Invalid => Err(
                BotError::InvalidConfig(
                    String::from_str("Configuration invalide dans le fichier source"),
                ),
            ),
            SettingsFile::Valid(config) => {
                let mut log_line = String::from_str("✅ Configuration importée de ");
                log_line.append(source_file);
                log_line.append(" vers ");
                log_line.append(target_file);
                let mut shown = self.display_configuration_summary(config);
                shown.append(self.display_usage_instructions().as_str());
                Ok(TransferReport { log_line, shown })
            },
        }
    }

    /// Decides on the export of the settings found in `source_file` to
    /// `target_file`: an error where the file is missing or holds no
    /// settings; otherwise what to report once the file is copied: the
    /// settings in words and how to use the copy elsewhere.
    pub fn export_configuration(&self, source_file: &str, target_file: &str, found: &SettingsFile) -> (r:
        Result<TransferReport, BotError>)
        ensures
            match *found {
                SettingsFile::Missing => r matches Err(e) && e matches BotError::InvalidConfig(
                    msg,
                ) && msg@ == export_missing_text(source_file@),
                SettingsFile::Invalid => r matches Err(e) && e matches BotError::InvalidConfig(
                    msg,
                ) && msg@ == unreadable_source_text(),
                SettingsFile::Valid(config) => r matches Ok(report) && report.log_line@
                    == exported_line(source_file@, target_file@) && report.shown@ == exported_text(
                    config,
                    target_file@,
                ),
            },
    {
        match found {
            SettingsFile::Missing => Err(
                BotError::InvalidConfig(
                    String::from_str("Aucune configuration à exporter depuis ").concat(
                        source_file,
                    ),
                ),
            ),
            SettingsFile::Invalid => Err(
                BotError::InvalidConfig(
                    String::from_str("Configuration invalide dans le fichier source"),
                ),
            ),
            SettingsFile::Valid(config) => {
                let mut log_line = String::from_str("✅ Configuration exportée de ");
                log_line.append(source_file);
                log_line.append(" vers ");
                log_line.append(target_file);
                Ok(
                    TransferReport {
                        log_line,
                        shown: self.display_exported_configuration(config, target_file),
                    },
                )
            },
        }
    }

    /// The settings in words, one line each.
    pub fn display_configuration_summary(&self, config: &BotConfig) -> (text: String)
        ensures
            text@ == summary_text(*config),
    {
        let mut text = String::from_str("\n📋 Configuration active :\n   • Salon vocal: ");
        text.append(decimal_string(config.voice_channel_id).as_str());
        text.append("\n   • Salon de log: ");
        match config.log_channel_id {
            Some(id) => text.append(decimal_string(id).as_str()),
            None => text.append("Aucun"),
        }
        text.append("\n   • Salon d'avertissement: ");
        match config.warning_channel_id {
            Some(id) => text.append(decimal_string(id).as_str()),
            None => text.append("Aucun"),
        }
        text.append("\n   • Heure de couvre-feu: ");
        match config.curfew_time {
            Some(time) => text.append(time.to_text().as_str()),
            None => text.append("Aucune"),
        }
        text.append("\n   • Délai d'avertissement: ");
        text.append(decimal_string(config.warning_delay_seconds).as_str());
        text.append(" secondes\n   • Mode avertissement seul: ");
        if config.warning_only {
            text.append("Oui");
        } else {
            text.append("Non");
        }
        text.append("\n");
        text
    }

    /// How to start the bot once settings were imported.
    pub fn display_usage_instructions(&self) -> (text: String)
        ensures
            text@ == usage_text(),
    {
        String::from_str("\n🚀 Vous pouvez maintenant lancer le bot avec :\n   ./lekickerfou\n")
    }

    /// The exported settings in words, and how to use the file elsewhere.
    pub fn display_exported_configuration(&self, config: &BotConfig, target_file: &str) -> (text:
        String)
        ensures
            text@ == exported_text(*config, target_file@),
    {
        let mut text = self.display_configuration_summary(config);
        text.append("\n💡 Pour utiliser cette config ailleurs :\n   ./lekickerfou --import ");
        text.append(target_file);
        text.append("\n");
        text
    }

    /// Makes settings from the command line alone.
    pub fn create_new_configuration(&self, args: &Args) -> (r: Result<BotConfig, BotError>)
        ensures
            r is Ok <==> args_acceptable(*args) && args.voice_channel_id is Some,
            r matches Ok(config) ==> merged_settings(*args, None, config),
            r matches Err(e) ==> match e {
                BotError::MissingConfig(msg) => args.voice_channel_id is None && msg@
                    == missing_channel_text(),
                BotError::InvalidConfig(msg) => args.voice_channel_id is Some
                    && !args_acceptable(*args) && msg@ == rejection_text(*args),
                _ => false,
            },
    {
        let voice_channel_id = match args.voice_channel_id {
            Some(id) => id,
            None => {
                return Err(
                    BotError::MissingConfig(
                        String::from_str(
                            "ID du salon vocal requis (--channel ou configuration existante)",
                        ),
                    ),
                );
            },
        };
        let curfew_time = match &args.curfew_time {
            Some(text) => {
                match CurfewTime::parse(text.as_str()) {
                    Ok(time) => Some(time),
                    Err(e) => {
                        return Err(e);
                    },
                }
            },
            None => None,
        };
        match validate_cron_expression(args.cron_schedule.as_str()) {
            Ok(()) => {},
            Err(msg) => {
                return Err(BotError::InvalidConfig(msg));
            },
        }
        Ok(
            BotConfig {
                voice_channel_id,
                log_channel_id: args.log_channel_id,
                warning_channel_id: args.warning_channel_id,
                curfew_time,
                warning_delay_seconds: args.warning_delay_seconds,
                warning_only: args.warning_only,
                cron_schedule: args.cron_schedule.clone(),
            },
        )
    }
}

/// Whether `config` is what the command line `args` makes of the stored
/// settings `stored`: each value of the command line where it gives one,
/// the stored value otherwise; the delay, the lenient mode and the schedule
/// always from the command line.
pub open spec fn merged_settings(args: Args, stored: Option<BotConfig>, config: BotConfig) -> bool {
    &&& match args.voice_channel_id {
        Some(id) => config.voice_channel_id == id,
        None => stored matches Some(s) && config.voice_channel_id == s.voice_channel_id,
    }
    &&& config.log_channel_id == match args.log_channel_id {
        Some(id) => Some(id),
        None => match stored {
            Some(s) => s.log_channel_id,
            None => None,
        },
    }
    &&& config.warning_channel_id == match args.warning_channel_id {
        Some(id) => Some(id),
        None => match stored {
            Some(s) => s.warning_channel_id,
            None => None,
        },
    }
    &&& match requested_curfew(args) {
        Some(Some(hm)) => config.curfew_time matches Some(t) && t.spec_hour() == hm.0
            && t.spec_minute() == hm.1,
        Some(None) => false,
        None => config.curfew_time == match stored {
            Some(s) => s.curfew_time,
            None => None,
        },
    }
    &&& config.warning_delay_seconds == args.warning_delay_seconds
    &&& config.warning_only == args.warning_only
    &&& config.cron_schedule@ == args.cron_schedule@
}

} // verus!
