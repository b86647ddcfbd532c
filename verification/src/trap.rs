//! Classification of low-level execution faults: decides whether a failed
//! invocation reproduces deterministically, signals a possible chain
//! reorganization, hit the timeout watchdog, or is an unrecoverable
//! harness fault.

use vstd::prelude::*;
use crate::text::{contains_seq, str_contains};
use crate::errors::{FatalError, fatal_text};

verus! {

/// The fragment a trap message carries when the timeout watchdog
/// interrupted the execution.
pub const TRAP_TIMEOUT: &'static str = "trap: interrupt";

/// The low-level fault codes the bytecode engine can report.
#[derive(Debug, Clone, Copy, PartialEq, Eq, Structural)]
pub enum TrapKind {
    MemoryOutOfBounds,
    HeapMisaligned,
    TableOutOfBounds,
    IndirectCallToNull,
    BadSignature,
    IntegerOverflow,
    IntegerDivisionByZero,
    BadConversionToInteger,
    UnreachableCodeReached,
    StackOverflow,
    Interrupt,
}

/// One low-level execution fault: the engine's message and, when the
/// engine reported one, its fault code.
#[derive(Debug, Clone, PartialEq, Eq)]
pub struct Fault {
    pub message: String,
    pub code: Option<TrapKind>,
}

/// Mathematical model of a fault.
#[verifier::ext_equal]
pub struct FaultView {
    pub message: Seq<char>,
    pub code: Option<TrapKind>,
}

impl View for Fault {
    type V = FaultView;

    open spec fn view(&self) -> FaultView {
        FaultView { message: self.message@, code: self.code }
    }
}

/// How reproducible a failed host call is.
#[derive(Debug, Clone, Copy, PartialEq, Eq, Structural)]
pub enum DeterminismLevel {
    Deterministic,
    PossibleReorg,
    Unimplemented,
    NonDeterministic,
}

/// What a failed invocation amounts to.
#[derive(Debug, Clone, Copy, PartialEq, Eq, Structural)]
pub enum Classification {
    /// The simulated chain state was ambiguous; retry at a stabler point.
    PossibleReorg,
    /// The timeout watchdog interrupted the execution.
    Timeout,
    /// The module's own logic is broken; identical inputs reproduce it.
    Deterministic,
    /// A harness or environment fault; execution must stop.
    NonDeterministic,
}

/// The fault codes that always reproduce on identical inputs.
pub open spec fn spec_deterministic_code(k: TrapKind) -> bool {
    match k {
        TrapKind::MemoryOutOfBounds => true,
        TrapKind::HeapMisaligned => true,
        TrapKind::TableOutOfBounds => true,
        TrapKind::IndirectCallToNull => true,
        TrapKind::BadSignature => true,
        TrapKind::IntegerOverflow => true,
        TrapKind::IntegerDivisionByZero => true,
        TrapKind::BadConversionToInteger => true,
        TrapKind::UnreachableCodeReached => true,
        TrapKind::StackOverflow => false,
        TrapKind::Interrupt => false,
    }
}

/// Whether this fault code always reproduces on identical inputs.
pub fn is_deterministic_code(k: TrapKind) -> (r: bool)
    ensures
        r == spec_deterministic_code(k),
{
    match k {
        TrapKind::MemoryOutOfBounds => true,
        TrapKind::HeapMisaligned => true,
        TrapKind::TableOutOfBounds => true,
        TrapKind::IndirectCallToNull => true,
        TrapKind::BadSignature => true,
        TrapKind::IntegerOverflow => true,
        TrapKind::IntegerDivisionByZero => true,
        TrapKind::BadConversionToInteger => true,
        TrapKind::UnreachableCodeReached => true,
        TrapKind::StackOverflow => false,
        TrapKind::Interrupt => false,
    }
}

/// The classification of a fault, in priority order: a pending
/// possible-reorg flag wins; then a message that names the watchdog's
/// interrupt; then a deterministic fault code; then a pending
/// deterministic-host-trap flag; everything else is unrecoverable.
pub open spec fn spec_classify(
    fault: FaultView,
    possible_reorg: bool,
    deterministic_host_trap: bool,
) -> Classification {
    if possible_reorg {
        Classification::PossibleReorg
    } else if contains_seq(fault.message, TRAP_TIMEOUT@) {
        Classification::Timeout
    } else if fault.code.is_some() && spec_deterministic_code(fault.code.unwrap()) {
        Classification::Deterministic
    } else if deterministic_host_trap {
        Classification::Deterministic
    } else {
        Classification::NonDeterministic
    }
}

/// Classifies one execution fault given the context's sticky flags.
pub fn classify(fault: &Fault, possible_reorg: bool, deterministic_host_trap: bool) -> (r:
    Classification)
    ensures
        r == spec_classify(fault@, possible_reorg, deterministic_host_trap),
{
    if possible_reorg {
        Classification::PossibleReorg
    } else if str_contains(fault.message.as_str(), TRAP_TIMEOUT) {
        Classification::Timeout
    } else {
        let code_deterministic = match &fault.code {
            Some(k) => is_deterministic_code(*k),
            None => false,
        };
        if code_deterministic {
            Classification::Deterministic
        } else if deterministic_host_trap {
            Classification::Deterministic
        } else {
            Classification::NonDeterministic
        }
    }
}

/// Errors a host function can surface to the engine while a handler runs.
#[derive(Debug, Clone, PartialEq, Eq)]
pub enum HostError {
    /// A domain-logic error the module caused; reproduces deterministically.
    Deterministic(String),
    /// The simulated chain state was ambiguous.
    PossibleReorg(String),
    /// An unclassified adapter error.
    Unknown(String),
    /// A fatal configuration error of the harness itself.
    Fatal(FatalError),
}

/// Mathematical model of a host error.
#[verifier::ext_equal]
pub enum HostErrorView {
    Deterministic(Seq<char>),
    PossibleReorg(Seq<char>),
    Unknown(Seq<char>),
    Fatal(crate::errors::FatalErrorView),
}

impl View for HostError {
    type V = HostErrorView;

    open spec fn view(&self) -> HostErrorView {
        match self {
            HostError::Deterministic(m) => HostErrorView::Deterministic(m@),
            HostError::PossibleReorg(m) => HostErrorView::PossibleReorg(m@),
            HostError::Unknown(m) => HostErrorView::Unknown(m@),
            HostError::Fatal(e) => HostErrorView::Fatal(e@),
        }
    }
}

/// The text a host error surfaces.
pub open spec fn host_error_text(e: HostErrorView) -> Seq<char> {
    match e {
        HostErrorView::Deterministic(m) => m,
        HostErrorView::PossibleReorg(m) => m,
        HostErrorView::Unknown(m) => m,
        HostErrorView::Fatal(f) => fatal_text(f),
    }
}

/// Conversion of an error into the determinism taxonomy and a fault the
/// classifier can inspect.
pub trait IntoTrap {
    /// The determinism level this error translates to.
    spec fn spec_determinism_level(&self) -> DeterminismLevel;

    /// Reports the error's determinism level.
    fn determinism_level(&self) -> (r: DeterminismLevel)
        ensures
            r == self.spec_determinism_level(),
    ;

    /// The fault this error turns into.
    spec fn spec_into_trap(&self) -> FaultView;

    /// Turns the error into a code-less fault carrying its message.
    fn into_trap(self) -> (r: Fault)
        ensures
            r@ == self.spec_into_trap(),
    ;
}

impl IntoTrap for HostError {
    open spec fn spec_into_trap(&self) -> FaultView {
        FaultView { message: host_error_text(self@), code: None::<TrapKind> }
    }

    open spec fn spec_determinism_level(&self) -> DeterminismLevel {
        match self {
            HostError::Deterministic(_) => DeterminismLevel::Deterministic,
            HostError::PossibleReorg(_) => DeterminismLevel::PossibleReorg,
            HostError::Unknown(_) => DeterminismLevel::NonDeterministic,
            HostError::Fatal(_) => DeterminismLevel::NonDeterministic,
        }
    }

    fn determinism_level(&self) -> (r: DeterminismLevel)
        ensures
            r == self.spec_determinism_level(),
    {
        match self {
            HostError::Deterministic(_) => DeterminismLevel::Deterministic,
            HostError::PossibleReorg(_) => DeterminismLevel::PossibleReorg,
            HostError::Unknown(_) => DeterminismLevel::NonDeterministic,
            HostError::Fatal(_) => DeterminismLevel::NonDeterministic,
        }
    }

    fn into_trap(self) -> (r: Fault) {
        match self {
            HostError::Deterministic(m) => Fault { message: m, code: None },
            HostError::PossibleReorg(m) => Fault { message: m, code: None },
            HostError::Unknown(m) => Fault { message: m, code: None },
            HostError::Fatal(e) => Fault { message: e.message(), code: None },
        }
    }
}

/// A copy of a fatal error with the same model.
pub fn dup_fatal_error(e: &FatalError) -> (r: FatalError)
    ensures
        r@ == e@,
{
    match e {
        FatalError::DuplicateTest { name } => FatalError::DuplicateTest { name: name.clone() },
        FatalError::MissingStub { fingerprint } =>
            FatalError::MissingStub { fingerprint: fingerprint.clone() },
        FatalError::MissingImport { name } => FatalError::MissingImport { name: name.clone() },
        FatalError::CriticalLog { message } =>
            FatalError::CriticalLog { message: message.clone() },
        FatalError::NoCurrentTest => FatalError::NoCurrentTest,
    }
}

/// A copy of a host error with the same model.
pub fn dup_host_error(e: &HostError) -> (r: HostError)
    ensures
        r@ == e@,
{
    match e {
        HostError::Deterministic(m) => HostError::Deterministic(m.clone()),
        HostError::PossibleReorg(m) => HostError::PossibleReorg(m.clone()),
        HostError::Unknown(m) => HostError::Unknown(m.clone()),
        HostError::Fatal(f) => HostError::Fatal(dup_fatal_error(f)),
    }
}

} // verus!
