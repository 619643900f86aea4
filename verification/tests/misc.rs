use titan_core::debug::{
    debug_report_level, debug_utils_level, engine_log_entry, log_text, message_type_name,
    severity_level, text_or_none, validation_log_entry, LogLevel, MessageSeverity, MessageType,
    ValidationMessage,
};
use titan_core::derive::AttributePath::{Key, NotIdent, OtherIdent};
use titan_core::derive::{key_field, ItemShape, KeyFieldError};
use titan_core::instance::{to_vk_version, validation_layer, window_title, SemVer, VulkanVersion};
use titan_core::shader::{shader_code, ShaderCodeError};

fn severity(verbose: bool, information: bool, warning: bool, error: bool) -> MessageSeverity {
    MessageSeverity { verbose, information, warning, error }
}

#[test]
fn severity_levels() {
    assert_eq!(severity_level(severity(true, true, true, true)), LogLevel::Trace);
    assert_eq!(severity_level(severity(false, true, true, false)), LogLevel::Info);
    assert_eq!(severity_level(severity(false, false, true, true)), LogLevel::Warn);
    assert_eq!(severity_level(severity(false, false, false, true)), LogLevel::Error);
    assert_eq!(severity_level(severity(false, false, false, false)), LogLevel::Trace);
}

#[test]
fn message_kinds_are_named() {
    let ty = |g, v, p| MessageType { general: g, validation: v, performance: p };
    assert_eq!(message_type_name(ty(true, true, false), "UNKNOWN"), "GENERAL");
    assert_eq!(message_type_name(ty(false, true, true), "UNKNOWN"), "VALIDATION");
    assert_eq!(message_type_name(ty(false, false, true), "UNKNOWN"), "PERFORMANCE");
    assert_eq!(message_type_name(ty(false, false, false), "NONE"), "NONE");
}

#[test]
fn validation_messages_are_worded() {
    assert_eq!(log_text("GENERAL", "layer", "text"), "GENERAL [layer \"layer\"]: \"text\"");
    let message = ValidationMessage {
        severity: severity(false, false, true, false),
        ty: MessageType { general: false, validation: false, performance: false },
        layer_prefix: None,
        description: String::from("bad call"),
    };
    let entry = validation_log_entry(&message);
    assert_eq!(entry.level, LogLevel::Warn);
    assert_eq!(entry.text, "UNKNOWN [layer \"Unknown\"]: \"bad call\"");
    let entry = engine_log_entry(&message);
    assert_eq!(entry.text, "NONE [layer \"None\"]: \"bad call\"");
    let message = ValidationMessage { layer_prefix: Some(String::from("Validation")), ..message };
    assert_eq!(validation_log_entry(&message).text, "UNKNOWN [layer \"Validation\"]: \"bad call\"");
}

#[test]
fn debug_utils_levels() {
    assert_eq!(debug_utils_level(0x1), LogLevel::Trace);
    assert_eq!(debug_utils_level(0x10), LogLevel::Info);
    assert_eq!(debug_utils_level(0x100), LogLevel::Warn);
    assert_eq!(debug_utils_level(0x1000), LogLevel::Error);
    assert_eq!(debug_report_level(0x1), LogLevel::Trace);
    assert_eq!(debug_report_level(0x11), LogLevel::Error);
    assert_eq!(text_or_none(None), "None");
    assert_eq!(text_or_none(Some(String::from("id"))), "id");
}

#[test]
fn key_field_is_the_single_annotated_one() {
    let fields = vec![vec![OtherIdent], vec![Key], vec![]];
    assert_eq!(key_field(ItemShape::NamedStruct, &fields), Ok(1));
}

#[test]
fn key_field_errors() {
    assert_eq!(key_field(ItemShape::NotStruct, &vec![]), Err(KeyFieldError::NotAStruct));
    assert_eq!(key_field(ItemShape::UnnamedStruct, &vec![vec![Key]]), Err(KeyFieldError::NoNamedFields));
    assert_eq!(
        key_field(ItemShape::NamedStruct, &vec![vec![Key], vec![Key]]),
        Err(KeyFieldError::MultipleKeys)
    );
    assert_eq!(key_field(ItemShape::NamedStruct, &vec![vec![Key, Key]]), Err(KeyFieldError::MultipleKeys));
    assert_eq!(key_field(ItemShape::NamedStruct, &vec![vec![OtherIdent]]), Err(KeyFieldError::NoKey));
    assert_eq!(
        key_field(ItemShape::NamedStruct, &vec![vec![Key], vec![NotIdent]]),
        Err(KeyFieldError::AttributeNotIdent)
    );
    assert_eq!(KeyFieldError::MultipleKeys.message(), "there must be unique `key` attribute");
    assert_eq!(KeyFieldError::NotAStruct.message(), "macro applicable only for struct");
}

#[test]
fn versions_convert_part_by_part() {
    let v = to_vk_version(&SemVer { major: 1, minor: 2, patch: 3 });
    assert_eq!(v, VulkanVersion { major: 1, minor: 2, patch: 3 });
    let v = to_vk_version(&SemVer { major: (1u64 << 32) + 5, minor: 0, patch: u64::MAX });
    assert_eq!(v, VulkanVersion { major: 5, minor: 0, patch: u32::MAX });
}

#[test]
fn instance_layer_and_title() {
    assert_eq!(validation_layer(true), Some("VK_LAYER_KHRONOS_validation"));
    assert_eq!(validation_layer(false), None);
    assert_eq!(window_title("Game", "0.1.0"), "Game version 0.1.0");
}

const HEADER_LE: [u8; 8] = [0x03, 0x02, 0x23, 0x07, 0x00, 0x00, 0x01, 0x00];

#[test]
fn spirv_in_either_byte_order_decodes_to_words() {
    assert_eq!(shader_code(&HEADER_LE), Ok(vec![0x0723_0203, 0x0001_0000]));
    let be = [0x07, 0x23, 0x02, 0x03, 0x00, 0x01, 0x00, 0x00];
    assert_eq!(shader_code(&be), Ok(vec![0x0723_0203, 0x0001_0000]));
}

#[test]
fn invalid_spirv_is_refused() {
    assert_eq!(shader_code(&HEADER_LE[..7]), Err(ShaderCodeError::InvalidSpirv));
    assert_eq!(shader_code(&[]), Err(ShaderCodeError::InvalidSpirv));
    assert_eq!(shader_code(&[1, 2, 3, 4]), Err(ShaderCodeError::InvalidSpirv));
}
