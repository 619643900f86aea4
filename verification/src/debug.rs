//! Classification and wording of the messages that Vulkan's validation
//! layers report to the engine.

use vstd::prelude::*;

use crate::vk::{
    severity_error, severity_error_bit, severity_info, severity_info_bit, severity_verbose,
    severity_verbose_bit, severity_warning, severity_warning_bit,
};

verus! {

/// Level at which a message is logged.
#[derive(Debug, Clone, Copy, PartialEq, Eq, Structural)]
pub enum LogLevel {
    Error,
    Warn,
    Info,
    Debug,
    Trace,
}

/// Severities a validation message is flagged with.
#[derive(Debug, Clone, Copy, PartialEq, Eq, Structural)]
pub struct MessageSeverity {
    pub verbose: bool,
    pub information: bool,
    pub warning: bool,
    pub error: bool,
}

/// Kinds a validation message is flagged with.
#[derive(Debug, Clone, Copy, PartialEq, Eq, Structural)]
pub struct MessageType {
    pub general: bool,
    pub validation: bool,
    pub performance: bool,
}

/// A message of the validation layers.
#[derive(Debug, Clone, PartialEq, Eq)]
pub struct ValidationMessage {
    pub severity: MessageSeverity,
    pub ty: MessageType,
    /// Prefix of the layer that sent the message, if it gave one.
    pub layer_prefix: Option<String>,
    pub description: String,
}

/// A line to log, with its level.
#[derive(Debug, Clone, PartialEq, Eq)]
pub struct LogEntry {
    pub level: LogLevel,
    pub text: String,
}

/// The level of a message: that of its lowest severity flag, trace when it
/// has none.
pub open spec fn severity_level_spec(severity: MessageSeverity) -> LogLevel {
    if severity.verbose {
        LogLevel::Trace
    } else if severity.information {
        LogLevel::Info
    } else if severity.warning {
        LogLevel::Warn
    } else if severity.error {
        LogLevel::Error
    } else {
        LogLevel::Trace
    }
}

/// Decides the level at which a message is logged.
pub fn severity_level(severity: MessageSeverity) -> (level: LogLevel)
    ensures
        level == severity_level_spec(severity),
{
    if severity.verbose {
        LogLevel::Trace
    } else if severity.information {
        LogLevel::Info
    } else if severity.warning {
        LogLevel::Warn
    } else if severity.error {
        LogLevel::Error
    } else {
        LogLevel::Trace
    }
}

/// Name of a message's kind, by its first kind flag; `fallback` names a
/// message with no kind.
pub open spec fn message_type_name_spec(ty: MessageType, fallback: Seq<char>) -> Seq<char> {
    if ty.general {
        "GENERAL"@
    } else if ty.validation {
        "VALIDATION"@
    } else if ty.performance {
        "PERFORMANCE"@
    } else {
        fallback
    }
}

/// Names the kind of a message.
pub fn message_type_name(ty: MessageType, fallback: &'static str) -> (name: &'static str)
    ensures
        name@ == message_type_name_spec(ty, fallback@),
        ty.general ==> name@ == "GENERAL"@,
        !ty.general && ty.validation ==> name@ == "VALIDATION"@,
        !ty.general && !ty.validation && ty.performance ==> name@ == "PERFORMANCE"@,
        !ty.general && !ty.validation && !ty.performance ==> name@ == fallback@,
{
    proof {
        reveal_strlit("GENERAL");
        reveal_strlit("VALIDATION");
        reveal_strlit("PERFORMANCE");
    }
    if ty.general {
        "GENERAL"
    } else if ty.validation {
        "VALIDATION"
    } else if ty.performance {
        "PERFORMANCE"
    } else {
        fallback
    }
}

/// A message is named by its first kind flag, in the order general,
/// validation, performance; the fallback names only a message with no kind
/// flag set.
pub proof fn lemma_message_kind_named_by_flags(ty: MessageType, fallback: Seq<char>)
    ensures
        ty.general ==> message_type_name_spec(ty, fallback) == "GENERAL"@,
        !ty.general && ty.validation ==> message_type_name_spec(ty, fallback) == "VALIDATION"@,
        !ty.general && !ty.validation && ty.performance ==> message_type_name_spec(ty, fallback)
            == "PERFORMANCE"@,
        (ty.general || ty.validation || ty.performance) ==> (message_type_name_spec(ty, fallback)
            == "GENERAL"@ || message_type_name_spec(ty, fallback) == "VALIDATION"@
            || message_type_name_spec(ty, fallback) == "PERFORMANCE"@),
        !ty.general && !ty.validation && !ty.performance ==> message_type_name_spec(ty, fallback)
            == fallback,
{
}

/// The logged line of a message:
/// `KIND [layer "PREFIX"]: "DESCRIPTION"`.
pub open spec fn log_text_spec(kind: Seq<char>, prefix: Seq<char>, description: Seq<char>) -> Seq<
    char,
> {
    kind + " [layer \""@ + prefix + "\"]: \""@ + description + "\""@
}

/// Builds the logged line of a message.
pub fn log_text(kind: &str, prefix: &str, description: &str) -> (text: String)
    ensures
        text@ == log_text_spec(kind@, prefix@, description@),
{
    proof {
        reveal_strlit(" [layer \"");
        reveal_strlit("\"]: \"");
        reveal_strlit("\"");
    }
    let mut text = String::from_str(kind);
    text.append(" [layer \"");
    text.append(prefix);
    text.append("\"]: \"");
    text.append(description);
    text.append("\"");
    text
}

/// The prefix shown for a message, or `fallback` when the layer gave none.
pub open spec fn prefix_or(prefix: Option<String>, fallback: Seq<char>) -> Seq<char> {
    match prefix {
        Some(p) => p@,
        None => fallback,
    }
}

/// The entry that the renderer's debug callback logs for a message: an
/// unnamed kind shows as `UNKNOWN` and a missing layer prefix as `Unknown`.
pub fn validation_log_entry(message: &ValidationMessage) -> (entry: LogEntry)
    ensures
        entry.level == severity_level_spec(message.severity),
        entry.text@ == log_text_spec(
            message_type_name_spec(message.ty, "UNKNOWN"@),
            prefix_or(message.layer_prefix, "Unknown"@),
            message.description@,
        ),
{
    let level = severity_level(message.severity);
    let kind = message_type_name(message.ty, "UNKNOWN");
    let prefix: &str = match &message.layer_prefix {
        Some(p) => p.as_str(),
        None => "Unknown",
    };
    let text = log_text(kind, prefix, message.description.as_str());
    LogEntry { level, text }
}

/// The entry that the engine's debug callback logs for a message: an
/// unnamed kind shows as `NONE` and a missing layer prefix as `None`.
pub fn engine_log_entry(message: &ValidationMessage) -> (entry: LogEntry)
    ensures
        entry.level == severity_level_spec(message.severity),
        entry.text@ == log_text_spec(
            message_type_name_spec(message.ty, "NONE"@),
            prefix_or(message.layer_prefix, "None"@),
            message.description@,
        ),
{
    let level = severity_level(message.severity);
    let kind = message_type_name(message.ty, "NONE");
    let prefix: &str = match &message.layer_prefix {
        Some(p) => p.as_str(),
        None => "None",
    };
    let text = log_text(kind, prefix, message.description.as_str());
    LogEntry { level, text }
}

/// Whether `bits` is exactly one of the four debug-utils severities.
pub open spec fn is_single_severity(bits: u32) -> bool {
    bits == severity_verbose_bit() || bits == severity_info_bit() || bits == severity_warning_bit()
        || bits == severity_error_bit()
}

/// The level of a debug-utils message with exactly one severity bit.
pub open spec fn debug_utils_level_spec(bits: u32) -> LogLevel {
    if bits == severity_verbose_bit() {
        LogLevel::Trace
    } else if bits == severity_info_bit() {
        LogLevel::Info
    } else if bits == severity_warning_bit() {
        LogLevel::Warn
    } else {
        LogLevel::Error
    }
}

/// Decides the level of a debug-utils message by its raw severity, which
/// the messenger reports as exactly one severity bit.
pub fn debug_utils_level(bits: u32) -> (level: LogLevel)
    requires
        is_single_severity(bits),
    ensures
        level == debug_utils_level_spec(bits),
{
    if bits == severity_verbose() {
        LogLevel::Trace
    } else if bits == severity_info() {
        LogLevel::Info
    } else if bits == severity_warning() {
        LogLevel::Warn
    } else {
        let error = severity_error();
        assert(bits == error);
        LogLevel::Error
    }
}

/// Decides the level of a debug-utils message by its raw severity, logging
/// anything that is not verbose, information or a warning as an error.
pub fn debug_report_level(bits: u32) -> (level: LogLevel)
    ensures
        level == debug_utils_level_spec(bits),
{
    if bits == severity_verbose() {
        LogLevel::Trace
    } else if bits == severity_info() {
        LogLevel::Info
    } else if bits == severity_warning() {
        LogLevel::Warn
    } else {
        LogLevel::Error
    }
}

/// A text that the messenger may leave out, shown as `None` when it did.
pub fn text_or_none(text: Option<String>) -> (shown: String)
    ensures
        shown@ == prefix_or(text, "None"@),
{
    match text {
        Some(t) => t,
        None => String::from_str("None"),
    }
}

/// A message is logged at the level of its lowest severity flag: verbose
/// as trace, information as info, warning as warn, error as error; one
/// with no flag as trace.
pub proof fn lemma_level_of_lowest_severity(severity: MessageSeverity)
    ensures
        severity.verbose ==> severity_level_spec(severity) == LogLevel::Trace,
        !severity.verbose && severity.information ==> severity_level_spec(severity)
            == LogLevel::Info,
        !severity.verbose && !severity.information && severity.warning ==> severity_level_spec(
            severity,
        ) == LogLevel::Warn,
        !severity.verbose && !severity.information && !severity.warning && severity.error
            ==> severity_level_spec(severity) == LogLevel::Error,
        !severity.verbose && !severity.information && !severity.warning && !severity.error
            ==> severity_level_spec(severity) == LogLevel::Trace,
        severity_level_spec(severity) != LogLevel::Debug,
{
}

/// Each debug-utils severity bit has its own level: verbose (0x1) trace,
/// info (0x10) info, warning (0x100) warn, error (0x1000) error.
pub proof fn lemma_debug_utils_levels()
    ensures
        debug_utils_level_spec(0x1) == LogLevel::Trace,
        debug_utils_level_spec(0x10) == LogLevel::Info,
        debug_utils_level_spec(0x100) == LogLevel::Warn,
        debug_utils_level_spec(0x1000) == LogLevel::Error,
        is_single_severity(0x1) && is_single_severity(0x10) && is_single_severity(0x100)
            && is_single_severity(0x1000),
{
}

} // verus!
