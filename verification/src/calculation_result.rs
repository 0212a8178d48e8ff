//! What a calculation reports about a configuration.

use crate::ratio::Efficiency;
use crate::text::{append_decimal, decimal};
use crate::utils::{format_bytes, format_bytes_text};
use vstd::prelude::*;
use vstd::string::StringExecFns;

verus! {

/// Capacity, efficiency, fault tolerance and resource estimates of one
/// configuration.
#[derive(Debug, Clone, Copy, PartialEq, Eq, Structural)]
pub struct CalculationResult {
    /// Bytes on all drives.
    pub raw_capacity: u128,
    /// Bytes left for data once parity is taken out.
    pub usable_capacity: u128,
    /// Share of the raw capacity that holds data.
    pub storage_efficiency: Efficiency,
    /// Drive failures that a stripe survives.
    pub max_drive_tolerance: u32,
    /// Server failures that a stripe survives.
    pub max_server_tolerance: u32,
    /// Rack failures that a stripe survives.
    pub max_rack_tolerance: u32,
    /// Servers in the cluster.
    pub total_servers: u32,
    /// Estimated power draw in watts.
    pub power_estimate_watts: u32,
    /// Estimated network bandwidth in Gbps.
    pub network_bandwidth_gbps: u32,
}

impl CalculationResult {
    /// The report, one line per quantity.
    pub open spec fn text(self) -> Seq<char> {
        "Storage Configuration Results:\n----------------------------\nUsable Capacity:     "@
            + format_bytes_text(self.usable_capacity as nat)
            + "\nRaw Capacity:        "@
            + format_bytes_text(self.raw_capacity as nat)
            + "\nStorage Efficiency:  "@
            + self.storage_efficiency.percent_text()
            + "\nTotal Servers:       "@
            + decimal(self.total_servers as nat)
            + "\nFailure Tolerance:\n  - Racks:           "@
            + decimal(self.max_rack_tolerance as nat)
            + " rack failures per stripe\n  - Servers:         "@
            + decimal(self.max_server_tolerance as nat)
            + " server failures per stripe\n  - Drives:          "@
            + decimal(self.max_drive_tolerance as nat)
            + " drive failures per stripe\nPower estimate       "@
            + decimal(self.power_estimate_watts as nat)
            + " Watt\nNetwork Bandwidth    "@
            + decimal(self.network_bandwidth_gbps as nat)
            + " Gbps\n"@
    }

    /// Renders the report as text.
    pub fn render(&self) -> (s: String)
        requires
            self.storage_efficiency.stripe_size >= 1,
        ensures
            s@ == self.text(),
    {
        let mut s: String = String::from_str(
            "Storage Configuration Results:\n----------------------------\nUsable Capacity:     ",
        );
        s.append(format_bytes(self.usable_capacity).as_str());
        s.append("\nRaw Capacity:        ");
        s.append(format_bytes(self.raw_capacity).as_str());
        s.append("\nStorage Efficiency:  ");
        self.storage_efficiency.append_percent(&mut s);
        s.append("\nTotal Servers:       ");
        append_decimal(&mut s, self.total_servers as u128);
        s.append("\nFailure Tolerance:\n  - Racks:           ");
        append_decimal(&mut s, self.max_rack_tolerance as u128);
        s.append(" rack failures per stripe\n  - Servers:         ");
        append_decimal(&mut s, self.max_server_tolerance as u128);
        s.append(" server failures per stripe\n  - Drives:          ");
        append_decimal(&mut s, self.max_drive_tolerance as u128);
        s.append(" drive failures per stripe\nPower estimate       ");
        append_decimal(&mut s, self.power_estimate_watts as u128);
        s.append(" Watt\nNetwork Bandwidth    ");
        append_decimal(&mut s, self.network_bandwidth_gbps as u128);
        s.append(" Gbps\n");
        s
    }
}

} // verus!
