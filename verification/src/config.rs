//! What the agent is told at startup, checked once and for all.

use vstd::prelude::*;
use crate::links::{pattern_compiles, LinkPattern, PatternRejected, SPOTIFY_LINK_PATTERN};
use crate::text::{parse_id, parsed_id};

verus! {

/// The oldest request that counts, where no other is given.
pub const DEFAULT_MINIMUM_REQUEST_ID: u64 = 1417932789315014746;

/// The settings as they were found, before anything is made of them.
#[derive(Debug, PartialEq, Eq)]
pub struct Settings {
    /// The channel in which requests are made. Required.
    pub request_channel: Option<String>,
    /// The channel in which the rotation publishes. Required.
    pub publication_channel: Option<String>,
    /// The oldest request that counts.
    pub minimum_request: Option<String>,
    /// The audio that keeps a lone listener company. Required.
    pub audio_resource: Option<String>,
    /// List every unpublished link, not only their number.
    pub all_links: bool,
    /// Decide what to publish, but publish nothing.
    pub dry_run: bool,
    /// Run even where something was published today.
    pub skip_run_check: bool,
}

/// The mathematical content of [`Settings`].
pub struct SettingsView {
    pub request_channel: Option<Seq<char>>,
    pub publication_channel: Option<Seq<char>>,
    pub minimum_request: Option<Seq<char>>,
    pub audio_resource: Option<Seq<char>>,
    pub all_links: bool,
    pub dry_run: bool,
    pub skip_run_check: bool,
}

impl View for Settings {
    type V = SettingsView;

    open spec fn view(&self) -> SettingsView {
        SettingsView {
            request_channel: self.request_channel.deep_view(),
            publication_channel: self.publication_channel.deep_view(),
            minimum_request: self.minimum_request.deep_view(),
            audio_resource: self.audio_resource.deep_view(),
            all_links: self.all_links,
            dry_run: self.dry_run,
            skip_run_check: self.skip_run_check,
        }
    }
}

/// Why the settings were refused.
#[derive(Clone, Copy, Debug, PartialEq, Eq)]
pub enum ConfigError {
    MissingRequestChannel,
    MalformedRequestChannel,
    MissingPublicationChannel,
    MalformedPublicationChannel,
    MalformedMinimumRequest,
    MissingAudioResource,
    RejectedLinkPattern,
}

/// The configuration that the agent runs with.
#[derive(Debug, PartialEq, Eq)]
pub struct Config {
    pub song_request_channel_id: u64,
    pub song_of_the_day_channel_id: u64,
    pub all_links: bool,
    pub dry_run: bool,
    pub skip_run_check: bool,
    pub min_id: u64,
    pub spotify_regex: LinkPattern,
    pub audio_resource_path: String,
}

/// The mathematical content of a [`Config`].
pub struct ConfigView {
    pub song_request_channel_id: u64,
    pub song_of_the_day_channel_id: u64,
    pub all_links: bool,
    pub dry_run: bool,
    pub skip_run_check: bool,
    pub min_id: u64,
    pub spotify_regex: Seq<char>,
    pub audio_resource_path: Seq<char>,
}

impl View for Config {
    type V = ConfigView;

    open spec fn view(&self) -> ConfigView {
        ConfigView {
            song_request_channel_id: self.song_request_channel_id,
            song_of_the_day_channel_id: self.song_of_the_day_channel_id,
            all_links: self.all_links,
            dry_run: self.dry_run,
            skip_run_check: self.skip_run_check,
            min_id: self.min_id,
            spotify_regex: self.spotify_regex@,
            audio_resource_path: self.audio_resource_path@,
        }
    }
}

/// The channel that a setting names: an identifier other than zero.
pub open spec fn channel_of(text: Seq<char>) -> Option<u64> {
    match parsed_id(text) {
        Some(id) => if id == 0 {
            None
        } else {
            Some(id)
        },
        None => None,
    }
}

/// What is made of the settings and of the link pattern, where it was
/// accepted: the configuration, or the first thing that is wrong, looked for
/// in the order of [`ConfigError`].
pub open spec fn checked_with(settings: SettingsView, pattern: Option<Seq<char>>) -> Result<
    ConfigView,
    ConfigError,
> {
    if settings.request_channel is None {
        Err(ConfigError::MissingRequestChannel)
    } else if channel_of(settings.request_channel->0) is None {
        Err(ConfigError::MalformedRequestChannel)
    } else if settings.publication_channel is None {
        Err(ConfigError::MissingPublicationChannel)
    } else if channel_of(settings.publication_channel->0) is None {
        Err(ConfigError::MalformedPublicationChannel)
    } else if settings.minimum_request is Some && parsed_id(settings.minimum_request->0) is None {
        Err(ConfigError::MalformedMinimumRequest)
    } else if settings.audio_resource is None {
        Err(ConfigError::MissingAudioResource)
    } else if pattern is None {
        Err(ConfigError::RejectedLinkPattern)
    } else {
        Ok(
            ConfigView {
                song_request_channel_id: channel_of(settings.request_channel->0)->0,
                song_of_the_day_channel_id: channel_of(settings.publication_channel->0)->0,
                all_links: settings.all_links,
                dry_run: settings.dry_run,
                skip_run_check: settings.skip_run_check,
                min_id: match settings.minimum_request {
                    Some(text) => parsed_id(text)->0,
                    None => DEFAULT_MINIMUM_REQUEST_ID,
                },
                spotify_regex: pattern->0,
                audio_resource_path: settings.audio_resource->0,
            },
        )
    }
}

/// What is made of the settings, with the pattern of the known link shapes.
pub open spec fn checked(settings: SettingsView) -> Result<ConfigView, ConfigError> {
    checked_with(
        settings,
        if pattern_compiles(SPOTIFY_LINK_PATTERN@) {
            Some(SPOTIFY_LINK_PATTERN@)
        } else {
            None
        },
    )
}

/// The configuration or the error, as the contracts speak of them.
pub open spec fn outcome_view(made: Result<Config, ConfigError>) -> Result<ConfigView, ConfigError> {
    match made {
        Ok(config) => Ok(config@),
        Err(error) => Err(error),
    }
}

/// The pattern, where there is one, as the contracts speak of it.
pub open spec fn pattern_view(compiled: Result<LinkPattern, PatternRejected>) -> Option<Seq<char>> {
    match compiled {
        Ok(pattern) => Some(pattern@),
        Err(_) => None,
    }
}

/// Reads the identifier of a channel: never zero.
fn parse_channel(text: &str) -> (channel: Option<u64>)
    ensures
        channel == channel_of(text@),
{
    match parse_id(text) {
        Some(id) => if id == 0 {
            None
        } else {
            Some(id)
        },
        None => None,
    }
}

impl Config {
    /// Checks the settings and makes the configuration of them, with the
    /// pattern of the known link shapes.
    pub fn new(settings: &Settings) -> (made: Result<Config, ConfigError>)
        ensures
            outcome_view(made) == checked(settings@),
            made matches Ok(config) ==> config.song_request_channel_id != 0
                && config.song_of_the_day_channel_id != 0,
    {
        Config::with_pattern(settings, LinkPattern::spotify())
    }

    /// Checks the settings and makes the configuration of them, with the
    /// link pattern as it came out of compiling.
    pub fn with_pattern(settings: &Settings, compiled: Result<LinkPattern, PatternRejected>) -> (made:
        Result<Config, ConfigError>)
        ensures
            outcome_view(made) == checked_with(settings@, pattern_view(compiled)),
            made matches Ok(config) ==> config.song_request_channel_id != 0
                && config.song_of_the_day_channel_id != 0,
    {
        let song_request_channel_id = match &settings.request_channel {
            None => {
                return Err(ConfigError::MissingRequestChannel);
            },
            Some(text) => match parse_channel(text.as_str()) {
                None => {
                    return Err(ConfigError::MalformedRequestChannel);
                },
                Some(channel) => channel,
            },
        };
        let song_of_the_day_channel_id = match &settings.publication_channel {
            None => {
                return Err(ConfigError::MissingPublicationChannel);
            },
            Some(text) => match parse_channel(text.as_str()) {
                None => {
                    return Err(ConfigError::MalformedPublicationChannel);
                },
                Some(channel) => channel,
            },
        };
        let min_id = match &settings.minimum_request {
            None => DEFAULT_MINIMUM_REQUEST_ID,
            Some(text) => match parse_id(text.as_str()) {
                None => {
                    return Err(ConfigError::MalformedMinimumRequest);
                },
                Some(id) => id,
            },
        };
        let audio_resource_path = match &settings.audio_resource {
            None => {
                return Err(ConfigError::MissingAudioResource);
            },
            Some(path) => path.clone(),
        };
        let spotify_regex = match compiled {
            Err(_) => {
                return Err(ConfigError::RejectedLinkPattern);
            },
            Ok(pattern) => pattern,
        };
        Ok(
            Config {
                song_request_channel_id,
                song_of_the_day_channel_id,
                all_links: settings.all_links,
                dry_run: settings.dry_run,
                skip_run_check: settings.skip_run_check,
                min_id,
                spotify_regex,
                audio_resource_path,
            },
        )
    }
}

} // verus!
