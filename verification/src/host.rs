//! Forwarding of log lines to the host.

use crate::abi::{HostCall, HostCallModel, ParallaxHostContextC};
use crate::ctext::{c_text, CText};
use vstd::prelude::*;

verus! {

/// The call that logging `text` through `host` comes to: the host's log
/// service with the severity, the text as a NUL-terminated string and the
/// host's own data. There is none without a host, where the host has no log
/// service, and where the text holds a zero byte.
pub open spec fn log_call(
    host: Option<&ParallaxHostContextC>,
    level: i32,
    text: Seq<char>,
) -> Option<HostCallModel> {
    match host {
        Some(h) => match (h.log, c_text(text)) {
            (Some(entry), Some(message)) => Some(
                HostCallModel::Log { entry, level, message, user_data: h.host_user_data },
            ),
            _ => None,
        },
        None => None,
    }
}

/// Decides on the log call for `message`. A host that cannot take the line,
/// or a line that cannot be sent, gives no call and no failure.
pub fn host_log(host: Option<&ParallaxHostContextC>, level: i32, message: &str) -> (call: Option<
    HostCall,
>)
    ensures
        call.deep_view() == log_call(host, level, message@),
{
    match host {
        Some(h) => match h.log {
            Some(entry) => match CText::new(message) {
                Some(text) => Some(
                    HostCall::Log { entry, level, message: text, user_data: h.host_user_data },
                ),
                None => None,
            },
            None => None,
        },
        None => None,
    }
}

} // verus!
