//! The closed set of failures that the library reports.

use vstd::prelude::*;

verus! {

/// The structural rule that a rejected layout breaks.
#[derive(Debug, Clone, Copy, PartialEq, Eq, Structural)]
pub enum ValidationError {
    /// The number of racks is zero.
    NoRacks,
    /// A rack holds no server.
    NoServers,
    /// A server holds no drive.
    NoDrives,
    /// A drive has a capacity of zero bytes.
    NoDriveCapacity,
    /// The parity count is larger than the stripe.
    ParityExceedsStripe,
    /// A stripe holds no drive.
    EmptyStripe,
}

/// The bound of a `SystemRequirements` that a configuration misses.
#[derive(Debug, Clone, Copy, PartialEq, Eq, Structural)]
pub enum RequirementViolation {
    /// Usable capacity is below the required minimum.
    UsableCapacity,
    /// Fewer drive failures are survived than required.
    DriveTolerance,
    /// Fewer server failures are survived than required.
    ServerTolerance,
    /// Fewer rack failures are survived than required.
    RackTolerance,
    /// A drive is larger than the allowed maximum.
    DriveSize,
}

/// Every failure of the library, by kind.
#[derive(Debug, Clone, Copy, PartialEq, Eq, Structural)]
pub enum CalcError {
    /// A layout was rejected at construction.
    Validation(ValidationError),
    /// A configuration misses a required bound.
    Requirement(RequirementViolation),
    /// A quantity does not fit the integer type that holds it.
    Overflow,
}

impl ValidationError {
    /// The text of the rule.
    pub open spec fn message_text(self) -> Seq<char> {
        match self {
            ValidationError::NoRacks => "Number of racks must be at least 1"@,
            ValidationError::NoServers => "Servers per rack must be at least 1"@,
            ValidationError::NoDrives => "Drives per server must be at least 1"@,
            ValidationError::NoDriveCapacity => "Drive capacity must be greater than 0"@,
            ValidationError::ParityExceedsStripe => "Stripe size must be greater than parity count"@,
            ValidationError::EmptyStripe => "Stripe size must be at least 1"@,
        }
    }

    /// A human-readable reason naming the rule that was broken.
    pub fn message(&self) -> (s: &'static str)
        ensures
            s@ == self.message_text(),
    {
        match self {
            ValidationError::NoRacks => "Number of racks must be at least 1",
            ValidationError::NoServers => "Servers per rack must be at least 1",
            ValidationError::NoDrives => "Drives per server must be at least 1",
            ValidationError::NoDriveCapacity => "Drive capacity must be greater than 0",
            ValidationError::ParityExceedsStripe => "Stripe size must be greater than parity count",
            ValidationError::EmptyStripe => "Stripe size must be at least 1",
        }
    }
}

impl RequirementViolation {
    /// The text that names the missed bound.
    pub open spec fn message_text(self) -> Seq<char> {
        match self {
            RequirementViolation::UsableCapacity => "Configuration does not meet minimum usable capacity requirement"@,
            RequirementViolation::DriveTolerance => "Configuration does not meet minimum drive tolerance requirement"@,
            RequirementViolation::ServerTolerance => "Configuration does not meet minimum server tolerance requirement"@,
            RequirementViolation::RackTolerance => "Configuration does not meet minimum rack tolerance requirement"@,
            RequirementViolation::DriveSize => "Drive capacity exceeds maximum allowed size"@,
        }
    }

    /// A human-readable description naming the bound that was missed.
    pub fn message(&self) -> (s: &'static str)
        ensures
            s@ == self.message_text(),
    {
        match self {
            RequirementViolation::UsableCapacity => "Configuration does not meet minimum usable capacity requirement",
            RequirementViolation::DriveTolerance => "Configuration does not meet minimum drive tolerance requirement",
            RequirementViolation::ServerTolerance => "Configuration does not meet minimum server tolerance requirement",
            RequirementViolation::RackTolerance => "Configuration does not meet minimum rack tolerance requirement",
            RequirementViolation::DriveSize => "Drive capacity exceeds maximum allowed size",
        }
    }
}

impl CalcError {
    /// The text of the failure.
    pub open spec fn message_text(self) -> Seq<char> {
        match self {
            CalcError::Validation(rule) => rule.message_text(),
            CalcError::Requirement(bound) => bound.message_text(),
            CalcError::Overflow => "Arithmetic overflow in capacity calculation"@,
        }
    }

    /// A human-readable description of the failure.
    pub fn message(&self) -> (s: &'static str)
        ensures
            s@ == self.message_text(),
    {
        match self {
            CalcError::Validation(rule) => rule.message(),
            CalcError::Requirement(bound) => bound.message(),
            CalcError::Overflow => "Arithmetic overflow in capacity calculation",
        }
    }
}

} // verus!
