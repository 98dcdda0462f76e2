//! Ceilings on what the process may consume: CPU seconds and bytes of
//! address space.
//!
//! A ceiling of `0` asks for nothing. Any other value may only tighten the
//! limit that the platform enforces already: a request above the current
//! soft limit is refused, never clamped.

use vstd::prelude::*;
use vstd::string::StringExecFns;
use crate::text::append_decimal;
use crate::text::append_signed;
use crate::text::decimal_text;
use crate::text::signed_text;

verus! {

/// `rlimit::Resource`, the platform's name for a kind of resource.
#[verifier::external_type_specification]
#[verifier::external_body]
pub struct ExResource(rlimit::Resource);

/// `std::io::Error`, the error of a failed system call.
#[verifier::external_type_specification]
#[verifier::external_body]
pub struct ExIoError(std::io::Error);

/// `std::io::Error::raw_os_error`: the operating system's code of the
/// error, if it came from the operating system. Nothing is claimed of it.
pub assume_specification[ std::io::Error::raw_os_error ](error: &std::io::Error) -> (code: Option<
    i32,
>)
;

/// `rlimit::Resource::is_supported`: whether this platform knows the
/// resource. The answer differs from platform to platform.
pub assume_specification[ rlimit::Resource::is_supported ](resource: rlimit::Resource) -> (known:
    bool)
;

/// `rlimit::getrlimit`: the soft and the hard limit that the platform
/// enforces now, or the error of the system call.
pub assume_specification[ rlimit::getrlimit ](resource: rlimit::Resource) -> (limits: Result<
    (u64, u64),
    std::io::Error,
>)
;

/// `rlimit::setrlimit`: asks the platform to enforce the two limits from
/// now on. Whether it agrees is the platform's decision.
pub assume_specification[ rlimit::setrlimit ](
    resource: rlimit::Resource,
    soft: u64,
    hard: u64,
) -> (done: Result<(), std::io::Error>)
;

/// The two kinds of resource that a session can put a ceiling on.
#[derive(Debug, Clone, Copy, PartialEq, Eq, Structural)]
pub enum ResourceKind {
    /// CPU time, in seconds.
    CpuTime,
    /// Address space, in bytes.
    AddressSpace,
}

/// Why a ceiling was not installed.
#[derive(Debug, Clone, Copy, PartialEq, Eq, Structural)]
pub enum LimitError {
    /// The platform cannot limit this resource.
    Unsupported { resource: ResourceKind },
    /// The platform's soft limit is already below the request: granting it
    /// would raise a limit.
    OrderingViolation { resource: ResourceKind, current: u64, requested: u64 },
    /// The platform refused to tell or to take a limit; `code` is the
    /// operating system's error code, where it gave one.
    Platform { resource: ResourceKind, code: Option<i32> },
}

/// What to do about a requested ceiling.
#[derive(Debug, Clone, Copy, PartialEq, Eq, Structural)]
pub enum CeilingPlan {
    /// Ask the platform for nothing.
    Leave,
    /// Install these two limits.
    Install { soft: u64, hard: u64 },
}

impl ResourceKind {
    /// The name of the resource in messages.
    pub open spec fn name_text(self) -> Seq<char> {
        match self {
            ResourceKind::CpuTime => "CPU time"@,
            ResourceKind::AddressSpace => "memory"@,
        }
    }

    /// The name of the resource in messages.
    pub fn name(self) -> (name: &'static str)
        ensures
            name@ == self.name_text(),
    {
        match self {
            ResourceKind::CpuTime => "CPU time",
            ResourceKind::AddressSpace => "memory",
        }
    }
}

/// The note on the operating system's error code that ends the message of
/// a platform error; nothing where the system gave no code.
pub open spec fn code_note(code: Option<i32>) -> Seq<char> {
    match code {
        Some(number) => " (os error "@ + signed_text(number as int) + ")"@,
        None => Seq::<char>::empty(),
    }
}

impl LimitError {
    /// The message of the error.
    pub open spec fn message_text(self) -> Seq<char> {
        match self {
            LimitError::Unsupported { resource } => resource.name_text()
                + " limit is not supported on this platform"@,
            LimitError::OrderingViolation { resource, current, requested } => "Current "@
                + resource.name_text() + " limit ("@ + decimal_text(current as nat)
                + ") is less than the requested limit ("@ + decimal_text(requested as nat) + ")"@,
            LimitError::Platform { resource, code } => "The platform refused the "@
                + resource.name_text() + " limit"@ + code_note(code),
        }
    }

    /// The message of the error, for the diagnostic channel.
    pub fn message(self) -> (message: String)
        ensures
            message@ == self.message_text(),
    {
        match self {
            LimitError::Unsupported { resource } => {
                let mut message = String::from_str(resource.name());
                message.append(" limit is not supported on this platform");
                message
            },
            LimitError::OrderingViolation { resource, current, requested } => {
                let mut message = String::from_str("Current ");
                message.append(resource.name());
                message.append(" limit (");
                append_decimal(&mut message, current);
                message.append(") is less than the requested limit (");
                append_decimal(&mut message, requested);
                message.append(")");
                message
            },
            LimitError::Platform { resource, code } => {
                let mut message = String::from_str("The platform refused the ");
                message.append(resource.name());
                message.append(" limit");
                if let Some(number) = code {
                    message.append(" (os error ");
                    append_signed(&mut message, number);
                    message.append(")");
                }
                message
            },
        }
    }

    /// The resource that the error is about.
    pub open spec fn spec_resource(self) -> ResourceKind {
        match self {
            LimitError::Unsupported { resource } => resource,
            LimitError::OrderingViolation { resource, .. } => resource,
            LimitError::Platform { resource, .. } => resource,
        }
    }

    #[verifier::when_used_as_spec(spec_resource)]
    pub fn resource(self) -> (resource: ResourceKind)
        ensures
            resource == self.spec_resource(),
    {
        match self {
            LimitError::Unsupported { resource } => resource,
            LimitError::OrderingViolation { resource, .. } => resource,
            LimitError::Platform { resource, .. } => resource,
        }
    }
}

/// The ratchet: the plan for a request of `requested`, where the platform
/// enforces the soft limit `soft` and the hard limit `hard`.
pub open spec fn ratchet(resource: ResourceKind, requested: u64, soft: u64, hard: u64) -> Result<
    CeilingPlan,
    LimitError,
> {
    if requested == 0 {
        Ok(CeilingPlan::Leave)
    } else if soft < requested {
        Err(LimitError::OrderingViolation { resource, current: soft, requested })
    } else {
        Ok(CeilingPlan::Install { soft: requested, hard })
    }
}

/// Decides what to ask of the platform, given the limits it enforces now.
pub fn plan_ceiling(resource: ResourceKind, requested: u64, soft: u64, hard: u64) -> (plan: Result<
    CeilingPlan,
    LimitError,
>)
    ensures
        plan == ratchet(resource, requested, soft, hard),
{
    if requested == 0 {
        Ok(CeilingPlan::Leave)
    } else if soft < requested {
        Err(LimitError::OrderingViolation { resource, current: soft, requested })
    } else {
        Ok(CeilingPlan::Install { soft: requested, hard })
    }
}

/// The ratchet only tightens. A request of `0` asks the platform for
/// nothing, whatever its limits are. Any other request is refused exactly
/// when it lies above the soft limit; when it is granted, the new soft limit
/// is the request, it is no higher than the old one, and the hard limit
/// stays.
pub proof fn lemma_ratchet_only_tightens(
    resource: ResourceKind,
    requested: u64,
    soft: u64,
    hard: u64,
)
    ensures
        requested == 0 ==> ratchet(resource, requested, soft, hard) == Ok::<
            CeilingPlan,
            LimitError,
        >(CeilingPlan::Leave),
        ratchet(resource, requested, soft, hard) is Err <==> requested != 0 && soft < requested,
        ratchet(resource, requested, soft, hard) matches Ok(
            CeilingPlan::Install { soft: new_soft, hard: new_hard },
        ) ==> requested != 0 && new_soft == requested && new_soft <= soft && new_hard == hard,
        ratchet(resource, requested, soft, hard) matches Err(refusal) ==> refusal == (
        LimitError::OrderingViolation { resource, current: soft, requested }),
{
}

/// The platform's name for a kind of resource: `rlimit::Resource::CPU` for
/// CPU time, `rlimit::Resource::AS` for address space.
#[verifier::external_body]
fn platform_resource(resource: ResourceKind) -> (raw: rlimit::Resource) {
    match resource {
        ResourceKind::CpuTime => rlimit::Resource::CPU,
        ResourceKind::AddressSpace => rlimit::Resource::AS,
    }
}

/// What `apply_ceiling` may answer to a request, whatever the platform says.
pub open spec fn ceiling_answer(resource: ResourceKind, requested: u64, answer: Result<
    (),
    LimitError,
>) -> bool {
    match answer {
        Ok(_) => true,
        Err(LimitError::Unsupported { resource: r }) => requested != 0 && r == resource,
        Err(LimitError::OrderingViolation { resource: r, current, requested: q }) => r == resource
            && q == requested && current < requested,
        Err(LimitError::Platform { resource: r, .. }) => requested != 0 && r == resource,
    }
}

/// Installs a ceiling on one resource.
///
/// A request of `0` succeeds and asks the platform for nothing. Otherwise
/// the platform's current limits are read and the ratchet decides: the
/// request becomes the new soft limit, with the hard limit as it was, or it
/// is refused because the soft limit is lower already.
pub fn apply_ceiling(resource: ResourceKind, requested: u64) -> (answer: Result<(), LimitError>)
    ensures
        requested == 0 ==> answer is Ok,
        ceiling_answer(resource, requested, answer),
{
    if requested == 0 {
        return Ok(());
    }
    let raw = platform_resource(resource);
    if !raw.is_supported() {
        return Err(LimitError::Unsupported { resource });
    }
    match rlimit::getrlimit(raw) {
        Err(error) => Err(LimitError::Platform { resource, code: error.raw_os_error() }),
        Ok((soft, hard)) => match plan_ceiling(resource, requested, soft, hard) {
            Err(refusal) => Err(refusal),
            Ok(CeilingPlan::Leave) => Ok(()),
            Ok(CeilingPlan::Install { soft: new_soft, hard: new_hard }) => {
                match rlimit::setrlimit(platform_resource(resource), new_soft, new_hard) {
                    Ok(_) => Ok(()),
                    Err(error) => Err(
                        LimitError::Platform { resource, code: error.raw_os_error() },
                    ),
                }
            },
        },
    }
}

/// Limits the CPU time of the process to `max_cpu_time` seconds; `0` asks
/// for no limit.
pub fn limit_time(max_cpu_time: u64) -> (answer: Result<(), LimitError>)
    ensures
        max_cpu_time == 0 ==> answer is Ok,
        ceiling_answer(ResourceKind::CpuTime, max_cpu_time, answer),
{
    apply_ceiling(ResourceKind::CpuTime, max_cpu_time)
}

/// Limits the address space of the process to `max_memory` bytes; `0` asks
/// for no limit.
pub fn limit_memory(max_memory: u64) -> (answer: Result<(), LimitError>)
    ensures
        max_memory == 0 ==> answer is Ok,
        ceiling_answer(ResourceKind::AddressSpace, max_memory, answer),
{
    apply_ceiling(ResourceKind::AddressSpace, max_memory)
}

} // verus!
