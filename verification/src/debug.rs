//! The diagnostics channel: which driver messages are asked for.

use crate::error::{BootstrapError, ConfigIssue, Stage};
use vstd::prelude::*;

verus! {

pub const SEVERITY_VERBOSE: u32 = 0x1;

pub const SEVERITY_INFO: u32 = 0x10;

pub const SEVERITY_WARNING: u32 = 0x100;

pub const SEVERITY_ERROR: u32 = 0x1000;

pub const CATEGORY_GENERAL: u32 = 0x1;

pub const CATEGORY_VALIDATION: u32 = 0x2;

pub const CATEGORY_PERFORMANCE: u32 = 0x4;

/// Every severity there is.
pub const ALL_SEVERITIES: u32 = 0x1111;

/// Every category there is.
pub const ALL_CATEGORIES: u32 = 0x7;

/// The messages a diagnostics channel receives: those whose severity is in
/// `severity` and whose category is in `message_type`.
#[derive(Clone, Copy, Debug, PartialEq, Eq, Structural)]
pub struct Debug {
    pub severity: u32,
    pub message_type: u32,
}

/// `mask` names nothing outside of `known`.
pub open spec fn within(mask: u32, known: u32) -> bool {
    mask & !known == 0
}

impl Debug {
    /// Both masks name only severities and categories that exist.
    pub open spec fn valid(self) -> bool {
        within(self.severity, ALL_SEVERITIES) && within(self.message_type, ALL_CATEGORIES)
    }

    /// The channel that receives everything: all four severities, all three
    /// categories.
    pub fn init() -> (channel: Debug)
        ensures
            channel.severity == ALL_SEVERITIES,
            channel.message_type == ALL_CATEGORIES,
            channel.valid(),
    {
        let severity: u32 = SEVERITY_WARNING | SEVERITY_ERROR | SEVERITY_INFO | SEVERITY_VERBOSE;
        let message_type: u32 = CATEGORY_VALIDATION | CATEGORY_GENERAL | CATEGORY_PERFORMANCE;
        assert(severity == 0x1111 && severity & !0x1111u32 == 0) by (bit_vector)
            requires
                severity == 0x100u32 | 0x1000u32 | 0x10u32 | 0x1u32,
        ;
        assert(message_type == 0x7 && message_type & !0x7u32 == 0) by (bit_vector)
            requires
                message_type == 0x2u32 | 0x1u32 | 0x4u32,
        ;
        Debug { severity, message_type }
    }

    /// The channel that receives what the two masks name. Fails where a mask
    /// names a severity or a category that does not exist.
    pub fn with_masks(severity: u32, message_type: u32) -> (channel: Result<Debug, BootstrapError>)
        ensures
            match channel {
                Ok(channel) => {
                    &&& channel == (Debug { severity, message_type })
                    &&& channel.valid()
                },
                Err(error) => {
                    &&& !(Debug { severity, message_type }).valid()
                    &&& error == (BootstrapError::Configuration {
                        stage: Stage::Diagnostics,
                        issue: ConfigIssue::UnknownDiagnosticsBits,
                    })
                },
            },
    {
        if severity & !ALL_SEVERITIES == 0 && message_type & !ALL_CATEGORIES == 0 {
            Ok(Debug { severity, message_type })
        } else {
            Err(
                BootstrapError::Configuration {
                    stage: Stage::Diagnostics,
                    issue: ConfigIssue::UnknownDiagnosticsBits,
                },
            )
        }
    }
}

} // verus!
