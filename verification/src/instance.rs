use vstd::prelude::*;

use crate::device::{contains_name, contains_str};
use crate::error::RenderError;

verus! {

/// Severity bit `VK_DEBUG_UTILS_MESSAGE_SEVERITY_VERBOSE_BIT_EXT`.
pub const SEVERITY_VERBOSE: u32 = 0x1;

/// Severity bit `VK_DEBUG_UTILS_MESSAGE_SEVERITY_INFO_BIT_EXT`.
pub const SEVERITY_INFO: u32 = 0x10;

/// Severity bit `VK_DEBUG_UTILS_MESSAGE_SEVERITY_WARNING_BIT_EXT`.
pub const SEVERITY_WARNING: u32 = 0x100;

/// Severity bit `VK_DEBUG_UTILS_MESSAGE_SEVERITY_ERROR_BIT_EXT`.
pub const SEVERITY_ERROR: u32 = 0x1000;

/// Instance create flag `VK_INSTANCE_CREATE_ENUMERATE_PORTABILITY_BIT_KHR`.
pub const CREATE_ENUMERATE_PORTABILITY: u32 = 0x1;

/// The diagnostics layer the renderer requests in debug builds.
pub open spec fn spec_validation_layer() -> Seq<char> {
    "VK_LAYER_KHRONOS_validation"@
}

/// The name of the diagnostics layer.
pub fn validation_layer_name() -> (r: String)
    ensures
        r@ == spec_validation_layer(),
{
    "VK_LAYER_KHRONOS_validation".to_owned()
}

/// Check that the diagnostics layer can be enabled: when it is requested, the
/// driver must offer it.  Fails exactly when it is requested and missing — an
/// unrecoverable setup failure.
pub fn check_validation_layer(requested: bool, available_layers: &Vec<String>) -> (r: Result<
    (),
    RenderError,
>)
    ensures
        r is Ok <==> (!requested || contains_str(available_layers@, spec_validation_layer())),
        r matches Err(e) ==> e == RenderError::ValidationLayerUnavailable,
{
    if requested {
        let layer = validation_layer_name();
        if !contains_name(available_layers, &layer) {
            return Err(RenderError::ValidationLayerUnavailable);
        }
    }
    Ok(())
}

/// The instance-level decisions that depend on the build and the platform:
/// whether the debug messenger and its extension are enabled, whether the
/// portability enumeration extensions are enabled, and the resulting create
/// flags.
#[derive(Clone, Copy, Debug, PartialEq, Eq, Structural)]
pub struct InstancePlan {
    /// Enable the diagnostics layer and the debug-utils extension, and create
    /// the debug messenger.
    pub enable_debug_utils: bool,
    /// Enable the portability enumeration extensions.
    pub enable_portability: bool,
    /// The instance create flags.
    pub create_flags: u32,
}

/// Plan the instance: the debug messenger exactly when diagnostics are
/// requested, the portability enumeration extensions and create flag exactly
/// when the platform requires them.
pub fn instance_plan(validation_requested: bool, needs_portability: bool) -> (r: InstancePlan)
    ensures
        r.enable_debug_utils == validation_requested,
        r.enable_portability == needs_portability,
        r.create_flags == if needs_portability {
            CREATE_ENUMERATE_PORTABILITY
        } else {
            0u32
        },
{
    InstancePlan {
        enable_debug_utils: validation_requested,
        enable_portability: needs_portability,
        create_flags: if needs_portability {
            CREATE_ENUMERATE_PORTABILITY
        } else {
            0
        },
    }
}

/// Where a diagnostic message is routed.
#[derive(Clone, Copy, Debug, PartialEq, Eq, Structural)]
pub enum LogLevel {
    Error,
    Warn,
    Debug,
    Trace,
}

/// The routing rule: by descending severity, errors, then warnings, then
/// informational messages, and everything below as trace.
pub open spec fn spec_log_level(severity: u32) -> LogLevel {
    if severity >= SEVERITY_ERROR {
        LogLevel::Error
    } else if severity >= SEVERITY_WARNING {
        LogLevel::Warn
    } else if severity >= SEVERITY_INFO {
        LogLevel::Debug
    } else {
        LogLevel::Trace
    }
}

/// Route one diagnostic message's severity to the logging sink's level.
pub fn classify_debug_severity(severity: u32) -> (r: LogLevel)
    ensures
        r == spec_log_level(severity),
{
    if severity >= SEVERITY_ERROR {
        LogLevel::Error
    } else if severity >= SEVERITY_WARNING {
        LogLevel::Warn
    } else if severity >= SEVERITY_INFO {
        LogLevel::Debug
    } else {
        LogLevel::Trace
    }
}

} // verus!
