//! The validated layout of a cluster, the requirements it can be held to,
//! and the shape of a scaling recommendation.

use crate::calc::{calculable, calculate};
use crate::error::{CalcError, RequirementViolation, ValidationError};
use crate::ratio::SignedRatio;
use crate::text::{append_decimal, decimal};
use crate::utils::{format_bytes, format_bytes_text, StorageUnit};
use vstd::prelude::*;
use vstd::string::StringExecFns;

verus! {

/// Lower bounds on capacity and fault tolerance, and an upper bound on the
/// size of a drive.
#[derive(Debug, Clone, Copy, PartialEq, Eq, Structural)]
pub struct SystemRequirements {
    pub min_usable_capacity: u128,
    pub min_drive_tolerance: u32,
    pub min_server_tolerance: u32,
    pub min_rack_tolerance: u32,
    pub max_drive_size: u128,
}

/// A proposed rack count for a target capacity, with the reason and the
/// change it brings.
#[derive(Debug)]
pub struct ScalingRecommendation {
    pub current_config: Configuration,
    pub recommended_config: Configuration,
    pub reason: String,
    /// Usable capacity of the recommended layout relative to the current
    /// one, less one.
    pub capacity_increase: SignedRatio,
    /// Storage efficiency of the recommended layout less that of the current
    /// one.
    pub efficiency_change: SignedRatio,
}

/// The physical layout of a cluster and its erasure-coding scheme.
#[derive(Debug, Clone, Copy, PartialEq, Eq, Structural)]
pub struct Configuration {
    pub number_of_racks: u32,
    pub servers_per_rack: u32,
    pub drives_per_server: u32,
    pub drive_capacity_bytes: u128,
    /// Drives that take part in one erasure-coded stripe.
    pub stripe_size: u32,
    /// Redundant drives of a stripe.
    pub parity_count: u32,
}

/// The first of the five rules on counts, capacity and parity that a layout
/// breaks, in the order racks, servers, drives, drive capacity, parity;
/// `None` where it keeps all five.
pub open spec fn broken_rule(
    number_of_racks: u32,
    servers_per_rack: u32,
    drives_per_server: u32,
    drive_capacity_bytes: u128,
    stripe_size: u32,
    parity_count: u32,
) -> Option<ValidationError> {
    if number_of_racks < 1 {
        Some(ValidationError::NoRacks)
    } else if servers_per_rack < 1 {
        Some(ValidationError::NoServers)
    } else if drives_per_server < 1 {
        Some(ValidationError::NoDrives)
    } else if drive_capacity_bytes == 0 {
        Some(ValidationError::NoDriveCapacity)
    } else if stripe_size < parity_count {
        Some(ValidationError::ParityExceedsStripe)
    } else {
        None
    }
}

/// Why a layout cannot be constructed: the first of the five rules that it
/// breaks or, where it keeps them, a stripe of no drives; `None` for a sound
/// layout.
pub open spec fn construction_failure(
    number_of_racks: u32,
    servers_per_rack: u32,
    drives_per_server: u32,
    drive_capacity_bytes: u128,
    stripe_size: u32,
    parity_count: u32,
) -> Option<ValidationError> {
    match broken_rule(
        number_of_racks,
        servers_per_rack,
        drives_per_server,
        drive_capacity_bytes,
        stripe_size,
        parity_count,
    ) {
        Some(rule) => Some(rule),
        None => if stripe_size < 1 {
            Some(ValidationError::EmptyStripe)
        } else {
            None
        },
    }
}

/// The first bound of `requirements` that `c` misses, in the order usable
/// capacity, drive tolerance, server tolerance, rack tolerance, drive size;
/// `None` where all are met.
pub open spec fn missed_bound(c: Configuration, requirements: SystemRequirements) -> Option<
    RequirementViolation,
> {
    if c.usable_capacity() < requirements.min_usable_capacity {
        Some(RequirementViolation::UsableCapacity)
    } else if c.drive_tolerance() < requirements.min_drive_tolerance {
        Some(RequirementViolation::DriveTolerance)
    } else if c.server_tolerance() < requirements.min_server_tolerance {
        Some(RequirementViolation::ServerTolerance)
    } else if c.rack_tolerance() < requirements.min_rack_tolerance {
        Some(RequirementViolation::RackTolerance)
    } else if c.drive_capacity_bytes > requirements.max_drive_size {
        Some(RequirementViolation::DriveSize)
    } else {
        None
    }
}

impl Configuration {
    /// The invariant of a constructed configuration.
    pub open spec fn is_valid(&self) -> bool {
        &&& self.number_of_racks >= 1
        &&& self.servers_per_rack >= 1
        &&& self.drives_per_server >= 1
        &&& self.drive_capacity_bytes > 0
        &&& self.stripe_size >= 1
        &&& self.parity_count <= self.stripe_size
    }

    /// Servers in the cluster.
    pub open spec fn server_count(&self) -> nat {
        (self.number_of_racks * self.servers_per_rack) as nat
    }

    /// Drives in the cluster.
    pub open spec fn drive_count(&self) -> nat {
        (self.number_of_racks * self.servers_per_rack * self.drives_per_server) as nat
    }

    /// Bytes on all drives.
    pub open spec fn raw_capacity(&self) -> nat {
        self.drive_count() * self.drive_capacity_bytes as nat
    }

    /// Drives of a stripe that hold data.
    pub open spec fn data_drives(&self) -> int {
        self.stripe_size - self.parity_count
    }

    /// Bytes left for data: the raw capacity times the share of data drives
    /// in a stripe, rounded down.
    pub open spec fn usable_capacity(&self) -> nat
        recommends
            self.stripe_size >= 1,
    {
        ((self.raw_capacity() * self.data_drives()) / (self.stripe_size as int)) as nat
    }

    /// Drive failures that a stripe survives.
    pub open spec fn drive_tolerance(&self) -> u32 {
        self.parity_count
    }

    /// Server failures that a stripe survives: the parity count where a rack
    /// has a server for each drive of a stripe, else none.
    pub open spec fn server_tolerance(&self) -> u32 {
        if self.servers_per_rack >= self.stripe_size {
            self.parity_count
        } else {
            0
        }
    }

    /// Rack failures that a stripe survives: the parity count where there is
    /// a rack for each drive of a stripe, else none.
    pub open spec fn rack_tolerance(&self) -> u32 {
        if self.number_of_racks >= self.stripe_size {
            self.parity_count
        } else {
            0
        }
    }

    /// The same layout with another number of racks.
    pub open spec fn with_racks(self, racks: u32) -> Configuration {
        Configuration { number_of_racks: racks, ..self }
    }

    /// Whether the three totals fit the integer types that report them.
    pub open spec fn totals_fit(&self) -> bool {
        &&& self.server_count() <= u32::MAX
        &&& self.drive_count() <= u64::MAX
        &&& self.raw_capacity() <= u128::MAX
    }

    /// Checks the layout against the five rules on counts, capacity and
    /// parity and reports the first that is broken. It fails on these five
    /// and on nothing else: a stripe of no drives with no parity passes here
    /// and is turned down by the constructors.
    pub fn validate_configuration(
        number_of_racks: u32,
        servers_per_rack: u32,
        drives_per_server: u32,
        drive_capacity_bytes: u128,
        stripe_size: u32,
        parity_count: u32,
    ) -> (res: Result<(), CalcError>)
        ensures
            res == match broken_rule(
                number_of_racks,
                servers_per_rack,
                drives_per_server,
                drive_capacity_bytes,
                stripe_size,
                parity_count,
            ) {
                Some(rule) => Err::<(), CalcError>(CalcError::Validation(rule)),
                None => Ok::<(), CalcError>(()),
            },
    {
        if number_of_racks < 1 {
            return Err(CalcError::Validation(ValidationError::NoRacks));
        }
        if servers_per_rack < 1 {
            return Err(CalcError::Validation(ValidationError::NoServers));
        }
        if drives_per_server < 1 {
            return Err(CalcError::Validation(ValidationError::NoDrives));
        }
        if drive_capacity_bytes == 0 {
            return Err(CalcError::Validation(ValidationError::NoDriveCapacity));
        }
        if stripe_size < parity_count {
            return Err(CalcError::Validation(ValidationError::ParityExceedsStripe));
        }
        Ok(())
    }

    /// Builds a configuration from a drive capacity in bytes. It fails
    /// exactly where a count is zero, the drive capacity is zero, the parity
    /// count exceeds the stripe size, or the stripe holds no drive, and names
    /// the first of these in that order.
    pub fn new(
        number_of_racks: u32,
        servers_per_rack: u32,
        drives_per_server: u32,
        drive_capacity_bytes: u128,
        stripe_size: u32,
        parity_count: u32,
    ) -> (res: Result<Configuration, CalcError>)
        ensures
            res == match construction_failure(
                number_of_racks,
                servers_per_rack,
                drives_per_server,
                drive_capacity_bytes,
                stripe_size,
                parity_count,
            ) {
                Some(rule) => Err::<Configuration, CalcError>(CalcError::Validation(rule)),
                None => Ok::<Configuration, CalcError>(
                    (Configuration {
                        number_of_racks,
                        servers_per_rack,
                        drives_per_server,
                        drive_capacity_bytes,
                        stripe_size,
                        parity_count,
                    }),
                ),
            },
            res matches Ok(c) ==> c.is_valid(),
            res is Err <==> (number_of_racks == 0 || servers_per_rack == 0 || drives_per_server == 0
                || drive_capacity_bytes == 0 || parity_count > stripe_size || stripe_size == 0),
    {
        match Self::validate_configuration(
            number_of_racks,
            servers_per_rack,
            drives_per_server,
            drive_capacity_bytes,
            stripe_size,
            parity_count,
        ) {
            Err(e) => {
                return Err(e);
            },
            Ok(()) => {},
        }
        if stripe_size < 1 {
            return Err(CalcError::Validation(ValidationError::EmptyStripe));
        }
        Ok(
            Configuration {
                number_of_racks,
                servers_per_rack,
                drives_per_server,
                drive_capacity_bytes,
                stripe_size,
                parity_count,
            },
        )
    }

    /// Builds a configuration from a drive capacity given in `drive_unit`.
    /// A capacity that does not fit 128 bits once converted to bytes is an
    /// overflow; otherwise the result is that of [`Configuration::new`] on
    /// the byte count.
    pub fn new_with_unit(
        number_of_racks: u32,
        servers_per_rack: u32,
        drives_per_server: u32,
        drive_capacity: u128,
        drive_unit: StorageUnit,
        stripe_size: u32,
        parity_count: u32,
    ) -> (res: Result<Configuration, CalcError>)
        ensures
            drive_capacity * drive_unit.multiplier() > u128::MAX ==> res == Err::<
                Configuration,
                CalcError,
            >(CalcError::Overflow),
            drive_capacity * drive_unit.multiplier() <= u128::MAX ==> res == match construction_failure(
                number_of_racks,
                servers_per_rack,
                drives_per_server,
                (drive_capacity * drive_unit.multiplier()) as u128,
                stripe_size,
                parity_count,
            ) {
                Some(rule) => Err::<Configuration, CalcError>(CalcError::Validation(rule)),
                None => Ok::<Configuration, CalcError>(
                    (Configuration {
                        number_of_racks,
                        servers_per_rack,
                        drives_per_server,
                        drive_capacity_bytes: (drive_capacity * drive_unit.multiplier()) as u128,
                        stripe_size,
                        parity_count,
                    }),
                ),
            },
            res matches Ok(c) ==> c.is_valid(),
    {
        let drive_capacity_bytes: u128 = match drive_capacity.checked_mul(drive_unit.to_bytes()) {
            Some(bytes) => bytes,
            None => {
                return Err(CalcError::Overflow);
            },
        };
        Self::new(
            number_of_racks,
            servers_per_rack,
            drives_per_server,
            drive_capacity_bytes,
            stripe_size,
            parity_count,
        )
    }

    /// Holds the configuration to `requirements` and reports the first bound
    /// that it misses. A configuration whose quantities do not fit their
    /// integer types is an overflow.
    pub fn check_requirements(&self, requirements: &SystemRequirements) -> (res: Result<
        (),
        CalcError,
    >)
        requires
            self.is_valid(),
        ensures
            !calculable(*self) ==> res == Err::<(), CalcError>(CalcError::Overflow),
            calculable(*self) ==> res == match missed_bound(*self, *requirements) {
                Some(bound) => Err::<(), CalcError>(CalcError::Requirement(bound)),
                None => Ok::<(), CalcError>(()),
            },
    {
        let result = match calculate(self) {
            Ok(r) => r,
            Err(e) => {
                return Err(e);
            },
        };
        if result.usable_capacity < requirements.min_usable_capacity {
            return Err(CalcError::Requirement(RequirementViolation::UsableCapacity));
        }
        if result.max_drive_tolerance < requirements.min_drive_tolerance {
            return Err(CalcError::Requirement(RequirementViolation::DriveTolerance));
        }
        if result.max_server_tolerance < requirements.min_server_tolerance {
            return Err(CalcError::Requirement(RequirementViolation::ServerTolerance));
        }
        if result.max_rack_tolerance < requirements.min_rack_tolerance {
            return Err(CalcError::Requirement(RequirementViolation::RackTolerance));
        }
        if self.drive_capacity_bytes > requirements.max_drive_size {
            return Err(CalcError::Requirement(RequirementViolation::DriveSize));
        }
        Ok(())
    }

    /// Whether the totals fit the integer types that report them.
    pub fn check_totals(&self) -> (ok: bool)
        ensures
            ok == self.totals_fit(),
    {
        assert(self.number_of_racks * self.servers_per_rack <= u64::MAX) by (nonlinear_arith)
            requires
                self.number_of_racks <= u32::MAX,
                self.servers_per_rack <= u32::MAX,
        ;
        let servers: u64 = self.number_of_racks as u64 * self.servers_per_rack as u64;
        if servers > u32::MAX as u64 {
            return false;
        }
        assert(servers * self.drives_per_server <= u64::MAX) by (nonlinear_arith)
            requires
                servers <= u32::MAX,
                self.drives_per_server <= u32::MAX,
        ;
        let drives: u64 = servers * self.drives_per_server as u64;
        (drives as u128).checked_mul(self.drive_capacity_bytes).is_some()
    }

    /// Calculate total number of drives in the system
    pub fn total_drives(&self) -> (drives: u64)
        requires
            self.drive_count() <= u64::MAX,
        ensures
            drives == self.drive_count(),
    {
        assert(self.number_of_racks * self.servers_per_rack <= u64::MAX) by (nonlinear_arith)
            requires
                self.number_of_racks <= u32::MAX,
                self.servers_per_rack <= u32::MAX,
        ;
        self.number_of_racks as u64 * self.servers_per_rack as u64 * self.drives_per_server as u64
    }

    /// Calculate total raw capacity of the system in bytes
    pub fn total_raw_capacity(&self) -> (bytes: u128)
        requires
            self.drive_count() <= u64::MAX,
            self.raw_capacity() <= u128::MAX,
        ensures
            bytes == self.raw_capacity(),
    {
        self.total_drives() as u128 * self.drive_capacity_bytes
    }

    /// Servers in the cluster.
    pub fn total_servers(&self) -> (servers: u32)
        requires
            self.server_count() <= u32::MAX,
        ensures
            servers == self.server_count(),
    {
        self.number_of_racks * self.servers_per_rack
    }

    /// The description of the layout, its totals and its erasure-coding
    /// settings, one line each.
    pub open spec fn text(self) -> Seq<char> {
        "Erasure Coding Configuration:\n----------------------------\nPhysical Layout:\n  - Number of Racks:      "@
            + decimal(self.number_of_racks as nat)
            + "\n  - Servers per Rack:     "@
            + decimal(self.servers_per_rack as nat)
            + "\n  - Drives per Server:    "@
            + decimal(self.drives_per_server as nat)
            + "\n  - Drive Capacity:       "@
            + format_bytes_text(self.drive_capacity_bytes as nat)
            + "\n\nTotals:\n  - Total Servers:        "@
            + decimal(self.server_count())
            + "\n  - Total Drives:         "@
            + decimal(self.drive_count())
            + "\n  - Total Raw Capacity:   "@
            + format_bytes_text(self.raw_capacity())
            + "\n\nErasure Coding Settings:\n  - Stripe Size:          "@
            + decimal(self.stripe_size as nat)
            + "\n  - Parity Count:         "@
            + decimal(self.parity_count as nat)
            + "\n  - Data Drives/Stripe:   "@
            + decimal(self.data_drives() as nat)
            + "\n"@
    }

    /// Renders the description as text.
    pub fn render(&self) -> (s: String)
        requires
            self.parity_count <= self.stripe_size,
            self.totals_fit(),
        ensures
            s@ == self.text(),
    {
        let mut s: String = String::from_str(
            "Erasure Coding Configuration:\n----------------------------\nPhysical Layout:\n  - Number of Racks:      ",
        );
        append_decimal(&mut s, self.number_of_racks as u128);
        s.append("\n  - Servers per Rack:     ");
        append_decimal(&mut s, self.servers_per_rack as u128);
        s.append("\n  - Drives per Server:    ");
        append_decimal(&mut s, self.drives_per_server as u128);
        s.append("\n  - Drive Capacity:       ");
        s.append(format_bytes(self.drive_capacity_bytes).as_str());
        s.append("\n\nTotals:\n  - Total Servers:        ");
        append_decimal(&mut s, self.total_servers() as u128);
        s.append("\n  - Total Drives:         ");
        append_decimal(&mut s, self.total_drives() as u128);
        s.append("\n  - Total Raw Capacity:   ");
        s.append(format_bytes(self.total_raw_capacity()).as_str());
        s.append("\n\nErasure Coding Settings:\n  - Stripe Size:          ");
        append_decimal(&mut s, self.stripe_size as u128);
        s.append("\n  - Parity Count:         ");
        append_decimal(&mut s, self.parity_count as u128);
        s.append("\n  - Data Drives/Stripe:   ");
        append_decimal(&mut s, (self.stripe_size - self.parity_count) as u128);
        s.append("\n");
        s
    }
}

} // verus!
