//! Validation layers and the text of the messages that the debug messenger
//! receives.

use vstd::prelude::*;

use super::ash_api::{
    message_type_general, message_type_performance, message_type_validation, message_types_debug_text,
    message_types_text, severity_debug_text, severity_error, severity_text, severity_verbose, severity_warning,
};
use super::{contains_name, names_contain, VulkanGraphics};
use crate::graphics::{GraphicsError, GraphicsResult};

verus! {

/// The Khronos validation layer.
pub open spec fn validation_layer() -> Seq<char> {
    "VK_LAYER_KHRONOS_validation"@
}

/// The layers the instance is created with for the build profile `profile`:
/// none for the `debug` profile, the Khronos validation layer otherwise.
pub open spec fn validation_layers(profile: Seq<char>) -> Seq<Seq<char>> {
    if profile == "debug"@ {
        Seq::empty()
    } else {
        seq![validation_layer()]
    }
}

/// Which messages the debug messenger receives, as raw flags.
#[derive(Clone, Copy, Debug, PartialEq, Eq, Structural)]
pub struct DebugMessengerFilter {
    /// `vk::DebugUtilsMessageSeverityFlagsEXT`
    pub severity: u32,
    /// `vk::DebugUtilsMessageTypeFlagsEXT`
    pub message_types: u32,
}

/// The decimal digits of `n`.
pub open spec fn digits(n: nat) -> Seq<char>
    decreases n,
{
    if n < 10 {
        seq![(48 + n) as char]
    } else {
        digits(n / 10).push((48 + n % 10) as char)
    }
}

/// `n` in decimal, with a leading `-` when it is negative.
pub open spec fn decimal_text(n: int) -> Seq<char> {
    if n < 0 {
        seq!['-'] + digits((-n) as nat)
    } else {
        digits(n as nat)
    }
}

/// `text`, or `default` when there is none.
pub open spec fn text_or(text: Option<String>, default: Seq<char>) -> Seq<char> {
    match text {
        Some(s) => s@,
        None => default,
    }
}

/// The line printed for a debug message:
/// `<severity>:\n<types> [<id name> (<id number>)] : <message>\n`.
pub open spec fn debug_message(
    severity: Seq<char>,
    message_types: Seq<char>,
    message_id_name: Option<String>,
    message_id_number: Seq<char>,
    message: Option<String>,
) -> Seq<char> {
    severity + ":\n"@ + message_types + " ["@ + text_or(message_id_name, "<no message id name>"@) + " ("@
        + message_id_number + ")] : "@ + text_or(message, "<no message>"@) + "\n"@
}

/// `n` formatted with std's `Display` for `i32`: its decimal digits, with a
/// leading `-` when it is negative.
#[verifier::external_body]
fn i32_text(n: i32) -> (s: String)
    ensures
        s@ == decimal_text(n as int),
{
    format!("{}", n)
}

/// Appends `text`, or `default` when there is none, to `out`.
fn push_text_or(out: &mut String, text: &Option<String>, default: &str)
    ensures
        final(out)@ == old(out)@ + text_or(*text, default@),
{
    match text {
        Some(s) => out.append(s.as_str()),
        None => out.append(default),
    }
}

/// The line printed for a debug message whose severity and types print as
/// `severity` and `message_types` and whose id number prints as
/// `message_id_number`; a missing id name or message is shown as
/// `<no message id name>` or `<no message>`.
pub fn compose_debug_message(
    severity: &str,
    message_types: &str,
    message_id_name: &Option<String>,
    message_id_number: &str,
    message: &Option<String>,
) -> (s: String)
    ensures
        s@ == debug_message(severity@, message_types@, *message_id_name, message_id_number@, *message),
        s@ == severity@ + ":\n"@ + message_types@ + " ["@ + (match *message_id_name {
            Some(name) => name@,
            None => "<no message id name>"@,
        }) + " ("@ + message_id_number@ + ")] : "@ + (match *message {
            Some(text) => text@,
            None => "<no message>"@,
        }) + "\n"@,
{
    let mut out = String::from_str(severity);
    out.append(":\n");
    out.append(message_types);
    out.append(" [");
    push_text_or(&mut out, message_id_name, "<no message id name>");
    out.append(" (");
    out.append(message_id_number);
    out.append(")] : ");
    push_text_or(&mut out, message, "<no message>");
    out.append("\n");
    out
}

impl VulkanGraphics {
    /// Whether `layer` is among the layers the Vulkan implementation offers.
    pub fn check_validation_layer_support(available_layers: &Vec<String>, layer: &String) -> (r: bool)
        ensures
            r == names_contain(available_layers@, layer@),
            r <==> exists|j: int| 0 <= j < available_layers@.len() && (#[trigger] available_layers@[j])@ == layer@,
    {
        contains_name(available_layers, layer)
    }

    /// The layers to enable for the build profile `profile`: none for the
    /// `debug` profile, the Khronos validation layer for any other profile,
    /// the empty name included.
    pub fn get_validation_layer_names(profile: &str) -> (r: Vec<String>)
        ensures
            r@.map_values(|s: String| s@) == validation_layers(profile@),
            profile@ == "debug"@ ==> r@.len() == 0,
            profile@ != "debug"@ ==> r@.len() == 1 && r@[0]@ == "VK_LAYER_KHRONOS_validation"@,
    {
        let mut layers = Vec::new();
        if profile.to_owned() == String::from_str("debug") {
            assert(layers@.map_values(|s: String| s@) =~= validation_layers(profile@));
            layers
        } else {
            layers.push(String::from_str("VK_LAYER_KHRONOS_validation"));
            assert(layers@.map_values(|s: String| s@) =~= validation_layers(profile@));
            layers
        }
    }

    /// Checks, before the instance is created, that the Khronos validation
    /// layer is offered.
    pub fn require_validation_layer(available_layers: &Vec<String>) -> (r: GraphicsResult<()>)
        ensures
            r is Ok <==> names_contain(available_layers@, validation_layer()),
            r is Ok <==> exists|j: int|
                0 <= j < available_layers@.len() && (#[trigger] available_layers@[j])@
                    == "VK_LAYER_KHRONOS_validation"@,
            r matches Err(e) ==> e.message() == "Validation layer VK_LAYER_KHRONOS_validation not found"@,
    {
        let layer = String::from_str("VK_LAYER_KHRONOS_validation");
        if !Self::check_validation_layer_support(available_layers, &layer) {
            return Err(GraphicsError::vulkan("Validation layer VK_LAYER_KHRONOS_validation not found"));
        }
        Ok(())
    }

    /// The messages the debug messenger asks for: verbose, warning and error
    /// severities (not info), of the general, validation and performance types.
    pub fn debug_messenger_filter() -> (f: DebugMessengerFilter)
        ensures
            f.severity == 0x1101,
            f.message_types == 0x7,
    {
        let severity = severity_verbose() | severity_warning() | severity_error();
        let message_types = message_type_general() | message_type_validation() | message_type_performance();
        assert(0x1u32 | 0x100u32 | 0x1000u32 == 0x1101u32) by (bit_vector);
        assert(0x1u32 | 0x2u32 | 0x4u32 == 0x7u32) by (bit_vector);
        DebugMessengerFilter { severity, message_types }
    }

    /// The line printed for a message that the debug messenger receives: raw
    /// severity and type flags, the message id name and number, the message.
    pub fn debug_message_text(
        severity: u32,
        message_types: u32,
        message_id_name: &Option<String>,
        message_id_number: i32,
        message: &Option<String>,
    ) -> (s: String)
        ensures
            s@ == debug_message(
                severity_debug_text(severity),
                message_types_debug_text(message_types),
                *message_id_name,
                decimal_text(message_id_number as int),
                *message,
            ),
    {
        let severity = severity_text(severity);
        let types = message_types_text(message_types);
        let number = i32_text(message_id_number);
        compose_debug_message(severity.as_str(), types.as_str(), message_id_name, number.as_str(), message)
    }
}

/// When the Khronos validation layer is offered, every layer that the
/// instance is created with, for any build profile, is offered.
pub proof fn lemma_requested_layers_available(profile: Seq<char>, available_layers: Seq<String>)
    requires
        names_contain(available_layers, validation_layer()),
    ensures
        forall|k: int|
            0 <= k < validation_layers(profile).len() ==> names_contain(
                available_layers,
                #[trigger] validation_layers(profile)[k],
            ),
{
}

} // verus!
