//! Configuration model: the raw document as read from the outside, the
//! validated configuration the pipeline runs on, and the validation rule
//! that separates them.
//!
//! A raw document may lack any field; validation demands exactly the
//! required ones (configVersion, info.character, info.task, llm.apiKey,
//! data.userQuery, data.timeRange, and minutes inside a sliding range)
//! and reports the first missing one, in that fixed order.

use vstd::prelude::*;

verus! {

/// A sliding time range as it arrives: both parts may be absent.
pub struct RawSliding {
    pub minutes: Option<u32>,
    pub start_backtest: Option<String>,
}

/// A time range as it arrives: a sliding window, a marker for a fixed
/// window (whose content the core never reads), or neither.
pub struct RawTimeRange {
    pub sliding: Option<RawSliding>,
    pub has_fixed: bool,
}

/// Agent identity as it arrives.
pub struct RawInfo {
    pub name: Option<String>,
    pub description: Option<String>,
    pub version: Option<String>,
    pub character: Option<String>,
    pub task: Option<String>,
}

/// Completion-provider settings as they arrive.
pub struct RawLlm {
    pub provider: Option<String>,
    pub model: Option<String>,
    pub api_key: Option<String>,
    pub framework: Option<String>,
}

/// Data-query settings as they arrive.
pub struct RawData {
    pub enabled_views: Option<Vec<String>>,
    pub user_query: Option<String>,
    pub time_range: Option<RawTimeRange>,
}

/// The whole configuration document as it arrives, before validation.
/// A section that is absent in the document stands here as a section
/// whose fields are all absent.
pub struct RawConfig {
    pub id: Option<String>,
    pub config_version: Option<String>,
    pub is_deployed: Option<bool>,
    pub info: RawInfo,
    pub data: RawData,
    pub llm: RawLlm,
}

/// A validated sliding time range: the duration is always present, the
/// start timestamp may be absent (then no fetch is made).
#[derive(Debug)]
pub struct SlidingRange {
    pub minutes: u32,
    pub start_backtest: Option<String>,
}

/// A validated time range.
#[derive(Debug)]
pub struct TimeRange {
    pub sliding: Option<SlidingRange>,
    pub has_fixed: bool,
}

/// Validated agent identity; character and task seed the prompt.
#[derive(Debug)]
pub struct AgentInfo {
    pub name: Option<String>,
    pub description: Option<String>,
    pub version: Option<String>,
    pub character: String,
    pub task: String,
}

/// Validated completion-provider settings.
#[derive(Debug)]
pub struct LlmSettings {
    pub provider: Option<String>,
    pub model: Option<String>,
    pub api_key: String,
    pub framework: Option<String>,
}

/// Validated data-query settings. The view list is read by outside
/// collaborators only; where absent it stays absent.
#[derive(Debug)]
pub struct DataSettings {
    pub enabled_views: Option<Vec<String>>,
    pub user_query: String,
    pub time_range: TimeRange,
}

/// The configuration the pipeline runs on: parsed once, immutable after.
#[derive(Debug)]
pub struct AgentConfig {
    pub id: Option<String>,
    pub config_version: String,
    pub is_deployed: Option<bool>,
    pub info: AgentInfo,
    pub data: DataSettings,
    pub llm: LlmSettings,
}

/// Why a raw document was rejected: the first required field found absent.
#[derive(Debug, Clone, Copy, PartialEq, Eq, Structural)]
pub enum ConfigError {
    MissingConfigVersion,
    MissingCharacter,
    MissingTask,
    MissingApiKey,
    MissingUserQuery,
    MissingTimeRange,
    MissingSlidingMinutes,
}

/// A raw document is valid when every required field is present; a
/// sliding range, where given, must carry its duration.
pub open spec fn raw_valid(raw: RawConfig) -> bool {
    &&& raw.config_version is Some
    &&& raw.info.character is Some
    &&& raw.info.task is Some
    &&& raw.llm.api_key is Some
    &&& raw.data.user_query is Some
    &&& raw.data.time_range is Some
    &&& match raw.data.time_range {
        Some(tr) => match tr.sliding {
            Some(s) => s.minutes is Some,
            None => true,
        },
        None => true,
    }
}

/// The error an invalid document is rejected with: the first absent
/// required field, checked in a fixed order.
pub open spec fn first_error(raw: RawConfig) -> ConfigError {
    if raw.config_version is None {
        ConfigError::MissingConfigVersion
    } else if raw.info.character is None {
        ConfigError::MissingCharacter
    } else if raw.info.task is None {
        ConfigError::MissingTask
    } else if raw.llm.api_key is None {
        ConfigError::MissingApiKey
    } else if raw.data.user_query is None {
        ConfigError::MissingUserQuery
    } else if raw.data.time_range is None {
        ConfigError::MissingTimeRange
    } else {
        ConfigError::MissingSlidingMinutes
    }
}

/// The validated time range a valid raw range maps to.
pub open spec fn time_range_of(tr: RawTimeRange) -> TimeRange {
    TimeRange {
        sliding: match tr.sliding {
            Some(s) => Some(SlidingRange { minutes: s.minutes->0, start_backtest: s.start_backtest }),
            None => None,
        },
        has_fixed: tr.has_fixed,
    }
}

/// The validated configuration a valid raw document maps to: required
/// fields unwrapped, optional ones carried over as they stand.
pub open spec fn config_of(raw: RawConfig) -> AgentConfig {
    AgentConfig {
        id: raw.id,
        config_version: raw.config_version->0,
        is_deployed: raw.is_deployed,
        info: AgentInfo {
            name: raw.info.name,
            description: raw.info.description,
            version: raw.info.version,
            character: raw.info.character->0,
            task: raw.info.task->0,
        },
        data: DataSettings {
            enabled_views: raw.data.enabled_views,
            user_query: raw.data.user_query->0,
            time_range: time_range_of(raw.data.time_range->0),
        },
        llm: LlmSettings {
            provider: raw.llm.provider,
            model: raw.llm.model,
            api_key: raw.llm.api_key->0,
            framework: raw.llm.framework,
        },
    }
}

/// Validate a raw document: the result is the validated configuration
/// exactly when every required field is present, else the first missing
/// field, in the fixed check order. Malformed input is a hard stop for
/// the whole run; there is no partial parse.
pub fn validate_config(raw: RawConfig) -> (r: Result<AgentConfig, ConfigError>)
    ensures
        r is Ok <==> raw_valid(raw),
        r matches Ok(cfg) ==> cfg == config_of(raw),
        r matches Err(e) ==> e == first_error(raw),
{
    let RawConfig { id, config_version, is_deployed, info, data, llm } = raw;
    let config_version = match config_version {
        Some(v) => v,
        None => { return Err(ConfigError::MissingConfigVersion); },
    };
    let character = match info.character {
        Some(v) => v,
        None => { return Err(ConfigError::MissingCharacter); },
    };
    let task = match info.task {
        Some(v) => v,
        None => { return Err(ConfigError::MissingTask); },
    };
    let api_key = match llm.api_key {
        Some(v) => v,
        None => { return Err(ConfigError::MissingApiKey); },
    };
    let user_query = match data.user_query {
        Some(v) => v,
        None => { return Err(ConfigError::MissingUserQuery); },
    };
    let time_range = match data.time_range {
        Some(v) => v,
        None => { return Err(ConfigError::MissingTimeRange); },
    };
    let sliding = match time_range.sliding {
        Some(s) => {
            let minutes = match s.minutes {
                Some(m) => m,
                None => { return Err(ConfigError::MissingSlidingMinutes); },
            };
            Some(SlidingRange { minutes, start_backtest: s.start_backtest })
        },
        None => None,
    };
    Ok(AgentConfig {
        id,
        config_version,
        is_deployed,
        info: AgentInfo {
            name: info.name,
            description: info.description,
            version: info.version,
            character,
            task,
        },
        data: DataSettings {
            enabled_views: data.enabled_views,
            user_query,
            time_range: TimeRange { sliding, has_fixed: time_range.has_fixed },
        },
        llm: LlmSettings {
            provider: llm.provider,
            model: llm.model,
            api_key,
            framework: llm.framework,
        },
    })
}

} // verus!
