//! Versions of the stored settings and the migration between them.

use vstd::prelude::*;
use vstd::string::*;
use crate::config::settings::BotConfig;
use crate::error::BotError;
use crate::utils::{format_timestamp, text_equals, timestamp_text};

verus! {

/// The version of the settings format written by this library.
pub const CURRENT_CONFIG_VERSION: &'static str = "1.1.0";

/// The version of the settings format that can be migrated.
pub const PREVIOUS_CONFIG_VERSION: &'static str = "1.0.0";

/// The version of this library, recorded in the settings it creates.
pub const PACKAGE_VERSION: &'static str = "1.1.0";

/// The version recorded as the origin of settings without a version.
pub const LEGACY_VERSION: &'static str = "1.0.0-legacy";

/// One migration that was applied.
#[derive(Debug, Clone)]
pub struct MigrationRecord {
    /// The version migrated from.
    pub from_version: String,
    /// The version migrated to.
    pub to_version: String,
    /// Seconds on the caller's clock at the migration.
    pub migrated_at: i64,
    /// What was done.
    pub description: String,
}

/// Where versioned settings come from.
#[derive(Debug, Clone)]
pub struct VersionMetadata {
    /// The version of the library that created the settings.
    pub created_by_version: String,
    /// Seconds on the caller's clock at the creation.
    pub created_at: i64,
    /// The version of the last migration applied, if any.
    pub last_migration: Option<String>,
    /// Every migration applied, oldest first.
    pub migration_history: Vec<MigrationRecord>,
}

/// Settings with the version of their format.
#[derive(Debug, Clone)]
pub struct VersionedConfig {
    /// The version of the format.
    pub version: String,
    /// The settings.
    pub config: BotConfig,
    /// Where they come from.
    pub version_metadata: VersionMetadata,
}

/// What is recorded of a migration from `from` to the current version.
pub open spec fn migration_description(from: Seq<char>) -> Seq<char> {
    "Migration automatique de "@ + from + " vers "@ + CURRENT_CONFIG_VERSION@
}

/// What is recorded of the conversion of settings without a version.
pub open spec fn legacy_description() -> Seq<char> {
    "Migration depuis format legacy vers format versioned"@
}

/// The message of a version that cannot be migrated.
pub open spec fn unsupported_version_text(version: Seq<char>) -> Seq<char> {
    "Version de configuration non supportée: "@ + version
}

/// The message of content that holds no settings.
pub open spec fn invalid_format_text() -> Seq<char> {
    "Format de configuration invalide"@
}

/// Whether `record` tells of a migration from `from` to the current
/// version at `now` with this description.
pub open spec fn records_migration(
    record: MigrationRecord,
    from: Seq<char>,
    now: i64,
    description: Seq<char>,
) -> bool {
    &&& record.from_version@ == from
    &&& record.to_version@ == CURRENT_CONFIG_VERSION@
    &&& record.migrated_at == now
    &&& record.description@ == description
}

/// Whether `fresh` is `config` newly versioned at `now`, without history.
pub open spec fn newly_versioned(fresh: VersionedConfig, config: BotConfig, now: i64) -> bool {
    &&& fresh.version@ == CURRENT_CONFIG_VERSION@
    &&& fresh.config == config
    &&& fresh.version_metadata.created_by_version@ == PACKAGE_VERSION@
    &&& fresh.version_metadata.created_at == now
    &&& fresh.version_metadata.last_migration is None
    &&& fresh.version_metadata.migration_history@.len() == 0
}

/// Whether `migrated` is `earlier` brought to the current version at
/// `now`: the same settings and origin, the current version, and one more
/// record at the end of the history.
pub open spec fn migrated_from(migrated: VersionedConfig, earlier: VersionedConfig, now: i64) -> bool {
    &&& migrated.version@ == CURRENT_CONFIG_VERSION@
    &&& migrated.config == earlier.config
    &&& migrated.version_metadata.created_by_version
        == earlier.version_metadata.created_by_version
    &&& migrated.version_metadata.created_at == earlier.version_metadata.created_at
    &&& migrated.version_metadata.last_migration matches Some(v) && v@
        == CURRENT_CONFIG_VERSION@
    &&& migrated.version_metadata.migration_history@.len()
        == earlier.version_metadata.migration_history@.len() + 1
    &&& migrated.version_metadata.migration_history@.drop_last()
        == earlier.version_metadata.migration_history@
    &&& records_migration(
        migrated.version_metadata.migration_history@.last(),
        earlier.version@,
        now,
        migration_description(earlier.version@),
    )
}

/// Versions settings and migrates them.
pub struct ConfigVersionManager;

impl ConfigVersionManager {
    /// Wraps `config` as settings of the current version, created at
    /// `now`, seconds on the caller's clock.
    pub fn create_versioned_config(config: BotConfig, now: i64) -> (fresh: VersionedConfig)
        ensures
            newly_versioned(fresh, config, now),
    {
        VersionedConfig {
            version: String::from_str(CURRENT_CONFIG_VERSION),
            config,
            version_metadata: VersionMetadata {
                created_by_version: String::from_str(PACKAGE_VERSION),
                created_at: now,
                last_migration: None,
                migration_history: Vec::new(),
            },
        }
    }

    /// Whether settings of this version must be migrated: every version
    /// but the current one.
    pub fn needs_migration(config_version: &str) -> (needed: bool)
        ensures
            needed == (config_version@ != CURRENT_CONFIG_VERSION@),
    {
        !text_equals(config_version, CURRENT_CONFIG_VERSION)
    }

    /// Brings settings to the current version. Settings of the current
    /// version come back as they are; those of the previous version come
    /// back migrated, with the migration recorded at `now`; any other
    /// version is an error.
    pub fn migrate_to_current(versioned_config: VersionedConfig, now: i64) -> (r: Result<
        VersionedConfig,
        BotError,
    >)
        ensures
            r is Ok <==> versioned_config.version@ == CURRENT_CONFIG_VERSION@
                || versioned_config.version@ == PREVIOUS_CONFIG_VERSION@,
            r matches Ok(migrated) ==> if versioned_config.version@ == CURRENT_CONFIG_VERSION@ {
                migrated == versioned_config
            } else {
                migrated_from(migrated, versioned_config, now)
            },
            r matches Err(e) ==> e matches BotError::InvalidConfig(msg) && msg@
                == unsupported_version_text(versioned_config.version@),
    {
        if !Self::needs_migration(versioned_config.version.as_str()) {
            return Ok(versioned_config);
        }
        let source_version = versioned_config.version.clone();
        let stepped = match Self::migrate_from_version(versioned_config) {
            Ok(stepped) => stepped,
            Err(e) => {
                return Err(e);
            },
        };
        let VersionedConfig { version: _, config, version_metadata } = stepped;
        let VersionMetadata {
            created_by_version,
            created_at,
            last_migration: _,
            migration_history,
        } = version_metadata;
        let mut description = String::from_str("Migration automatique de ");
        description.append(source_version.as_str());
        description.append(" vers ");
        description.append(CURRENT_CONFIG_VERSION);
        let mut migration_history = migration_history;
        let ghost earlier = migration_history@;
        migration_history.push(
            MigrationRecord {
                from_version: source_version,
                to_version: String::from_str(CURRENT_CONFIG_VERSION),
                migrated_at: now,
                description,
            },
        );
        proof {
            assert(migration_history@.drop_last() =~= earlier);
        }
        Ok(
            VersionedConfig {
                version: String::from_str(CURRENT_CONFIG_VERSION),
                config,
                version_metadata: VersionMetadata {
                    created_by_version,
                    created_at,
                    last_migration: Some(String::from_str(CURRENT_CONFIG_VERSION)),
                    migration_history,
                },
            },
        )
    }

    /// Applies the one migration there is: settings of the previous
    /// version get the current version and are otherwise kept; any other
    /// version is an error.
    pub fn migrate_from_version(versioned_config: VersionedConfig) -> (r: Result<
        VersionedConfig,
        BotError,
    >)
        ensures
            r is Ok <==> versioned_config.version@ == PREVIOUS_CONFIG_VERSION@,
            r matches Ok(stepped) ==> {
                &&& stepped.version@ == CURRENT_CONFIG_VERSION@
                &&& stepped.config == versioned_config.config
                &&& stepped.version_metadata == versioned_config.version_metadata
            },
            r matches Err(e) ==> e matches BotError::InvalidConfig(msg) && msg@
                == unsupported_version_text(versioned_config.version@),
    {
        if text_equals(versioned_config.version.as_str(), PREVIOUS_CONFIG_VERSION) {
            Ok(
                VersionedConfig {
                    version: String::from_str(CURRENT_CONFIG_VERSION),
                    config: versioned_config.config,
                    version_metadata: versioned_config.version_metadata,
                },
            )
        } else {
            Err(
                BotError::InvalidConfig(
                    String::from_str("Version de configuration non supportée: ").concat(
                        versioned_config.version.as_str(),
                    ),
                ),
            )
        }
    }

    /// The settings inside versioned settings.
    pub fn extract_config(versioned_config: VersionedConfig) -> (config: BotConfig)
        ensures
            config == versioned_config.config,
    {
        versioned_config.config
    }

    /// Makes versioned settings of what was read from stored content.
    ///
    /// `versioned` is the content read as versioned settings, `legacy` the
    /// content read as bare settings; each is none where the content does
    /// not read so. Versioned settings are migrated to the current
    /// version. Bare settings are versioned at `now`, with the conversion
    /// recorded. Content that reads as neither is an error.
    pub fn from_json_content(
        versioned: Option<VersionedConfig>,
        legacy: Option<BotConfig>,
        now: i64,
    ) -> (r: Result<VersionedConfig, BotError>)
        ensures
            match (versioned, legacy) {
                (Some(stored), _) => {
                    &&& r is Ok <==> stored.version@ == CURRENT_CONFIG_VERSION@
                        || stored.version@ == PREVIOUS_CONFIG_VERSION@
                    &&& r matches Ok(migrated) ==> if stored.version@
                        == CURRENT_CONFIG_VERSION@ {
                        migrated == stored
                    } else {
                        migrated_from(migrated, stored, now)
                    }
                    &&& r matches Err(e) ==> e matches BotError::InvalidConfig(msg) && msg@
                        == unsupported_version_text(stored.version@)
                },
                (None, Some(config)) => {
                    &&& r matches Ok(fresh)
                    &&& fresh.version@ == CURRENT_CONFIG_VERSION@
                    &&& fresh.config == config
                    &&& fresh.version_metadata.created_by_version@ == PACKAGE_VERSION@
                    &&& fresh.version_metadata.created_at == now
                    &&& fresh.version_metadata.last_migration is None
                    &&& fresh.version_metadata.migration_history@.len() == 1
                    &&& records_migration(
                        fresh.version_metadata.migration_history@[0],
                        LEGACY_VERSION@,
                        now,
                        legacy_description(),
                    )
                },
                (None, None) => r matches Err(e) && e matches BotError::InvalidConfig(msg) && msg@
                    == invalid_format_text(),
            },
    {
        match versioned {
            Some(stored) => {
                return Self::migrate_to_current(stored, now);
            },
            None => {},
        }
        let config = match legacy {
            Some(config) => config,
            None => {
                return Err(
                    BotError::InvalidConfig(String::from_str("Format de configuration invalide")),
                );
            },
        };
        let fresh = Self::create_versioned_config(config, now);
        let VersionedConfig { version, config, version_metadata } = fresh;
        let VersionMetadata {
            created_by_version,
            created_at,
            last_migration,
            migration_history,
        } = version_metadata;
        let mut migration_history = migration_history;
        migration_history.push(
            MigrationRecord {
                from_version: String::from_str(LEGACY_VERSION),
                to_version: String::from_str(CURRENT_CONFIG_VERSION),
                migrated_at: now,
                description: String::from_str(
                    "Migration depuis format legacy vers format versioned",
                ),
            },
        );
        Ok(
            VersionedConfig {
                version,
                config,
                version_metadata: VersionMetadata {
                    created_by_version,
                    created_at,
                    last_migration,
                    migration_history,
                },
            },
        )
    }

    /// The version of the settings format written by this library.
    pub fn current_version() -> (version: &'static str)
        ensures
            version@ == CURRENT_CONFIG_VERSION@,
    {
        CURRENT_CONFIG_VERSION
    }
}

/// The two lines that tell of one migration.
pub open spec fn history_line(record: MigrationRecord) -> Seq<char> {
    "     - "@ + record.from_version@ + " → "@ + record.to_version@ + " ("@ + timestamp_text(
        record.migrated_at,
    ) + ")\n       "@ + record.description@ + "\n"@
}

/// The lines that tell of the first `n` migrations of `history`.
pub open spec fn history_lines(history: Seq<MigrationRecord>, n: int) -> Seq<char>
    decreases n,
{
    if n <= 0 {
        Seq::empty()
    } else {
        history_lines(history, n - 1) + history_line(history[n - 1])
    }
}

/// The lines that tell of the version and the origin of settings.
pub open spec fn origin_text(versioned_config: VersionedConfig) -> Seq<char> {
    "📋 Informations de version:\n   • Version config: "@ + versioned_config.version@
        + "\n   • Créé par version: "@ + versioned_config.version_metadata.created_by_version@
        + "\n   • Date création: "@ + timestamp_text(
        versioned_config.version_metadata.created_at,
    ) + "\n"@
}

/// The line that tells of the last migration; nothing where there was none.
pub open spec fn last_migration_text(last_migration: Option<String>) -> Seq<char> {
    match last_migration {
        Some(version) => "   • Dernière migration: "@ + version@ + "\n"@,
        None => Seq::empty(),
    }
}

/// The lines that tell of every migration; nothing where there was none.
pub open spec fn history_text(history: Seq<MigrationRecord>) -> Seq<char> {
    if history.len() > 0 {
        "   • Historique migrations:\n"@ + history_lines(history, history.len() as int)
    } else {
        Seq::empty()
    }
}

/// What is shown of the version of settings.
pub open spec fn version_info_text(versioned_config: VersionedConfig) -> Seq<char> {
    origin_text(versioned_config) + last_migration_text(
        versioned_config.version_metadata.last_migration,
    ) + history_text(versioned_config.version_metadata.migration_history@)
}

/// Writes the two lines that tell of one migration.
pub fn history_entry(record: &MigrationRecord) -> (text: String)
    ensures
        text@ == history_line(*record),
{
    let mut text = String::from_str("     - ");
    text.append(record.from_version.as_str());
    text.append(" → ");
    text.append(record.to_version.as_str());
    text.append(" (");
    text.append(format_timestamp(record.migrated_at).as_str());
    text.append(")\n       ");
    text.append(record.description.as_str());
    text.append("\n");
    text
}

/// Writes the lines that tell of every migration.
pub fn history_section(history: &Vec<MigrationRecord>) -> (text: String)
    ensures
        text@ == history_text(history@),
{
    if history.len() == 0 {
        return String::new();
    }
    let mut lines = String::new();
    let mut i: usize = 0;
    while i < history.len()
        invariant
            i <= history.len(),
            lines@ == history_lines(history@, i as int),
        decreases history.len() - i,
    {
        lines.append(history_entry(&history[i]).as_str());
        i = i + 1;
    }
    String::from_str("   • Historique migrations:\n").concat(lines.as_str())
}

impl ConfigVersionManager {
    /// What is shown of the version of settings: the version, the origin,
    /// the last migration and the history, one line each.
    pub fn display_version_info(versioned_config: &VersionedConfig) -> (text: String)
        ensures
            text@ == version_info_text(*versioned_config),
    {
        let meta = &versioned_config.version_metadata;
        let mut text = String::from_str("📋 Informations de version:\n   • Version config: ");
        text.append(versioned_config.version.as_str());
        text.append("\n   • Créé par version: ");
        text.append(meta.created_by_version.as_str());
        text.append("\n   • Date création: ");
        text.append(format_timestamp(meta.created_at).as_str());
        text.append("\n");
        let last = match &meta.last_migration {
            Some(version) => String::from_str("   • Dernière migration: ").concat(
                version.as_str(),
            ).concat("\n"),
            None => String::new(),
        };
        text.append(last.as_str());
        text.append(history_section(&meta.migration_history).as_str());
        text
    }
}

} // verus!
