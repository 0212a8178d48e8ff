//! The capacity calculator and the scaling advisor.

use crate::arith::{ceil_div, scaled_ceil, scaled_floor};
use crate::calculation_result::CalculationResult;
use crate::configuration::{Configuration, ScalingRecommendation};
use crate::error::CalcError;
use crate::ratio::{lemma_minus_self_is_zero, Efficiency, SignedRatio};
use crate::text::{append_decimal, decimal};
use vstd::arithmetic::div_mod::lemma_fundamental_div_mod;
use vstd::prelude::*;
use vstd::string::StringExecFns;

verus! {

/// Approximate power draw of one server, in watts.
pub const WATTS_PER_SERVER: u32 = 300;

/// Network bandwidth of one server, in Gbps.
pub const GBPS_PER_SERVER: u32 = 25;

/// Whether every quantity of the calculation fits the integer type that
/// reports it.
pub open spec fn calculable(c: Configuration) -> bool {
    &&& c.totals_fit()
    &&& c.server_count() * WATTS_PER_SERVER <= u32::MAX
    &&& c.server_count() * GBPS_PER_SERVER <= u32::MAX
}

/// What a calculation reports for `c`, where it is calculable.
pub open spec fn calculation(c: Configuration) -> CalculationResult {
    CalculationResult {
        raw_capacity: c.raw_capacity() as u128,
        usable_capacity: c.usable_capacity() as u128,
        storage_efficiency: Efficiency {
            data_drives: c.data_drives() as u32,
            stripe_size: c.stripe_size,
        },
        max_drive_tolerance: c.drive_tolerance(),
        max_server_tolerance: c.server_tolerance(),
        max_rack_tolerance: c.rack_tolerance(),
        total_servers: c.server_count() as u32,
        power_estimate_watts: (c.server_count() * WATTS_PER_SERVER) as u32,
        network_bandwidth_gbps: (c.server_count() * GBPS_PER_SERVER) as u32,
    }
}

/// A valid layout holds at least one byte.
pub proof fn lemma_raw_capacity_positive(c: Configuration)
    requires
        c.is_valid(),
    ensures
        c.raw_capacity() > 0,
{
    let r = c.number_of_racks as int;
    let s = c.servers_per_rack as int;
    let d = c.drives_per_server as int;
    let b = c.drive_capacity_bytes as int;
    assert(r * s * d * b > 0) by (nonlinear_arith)
        requires
            r >= 1,
            s >= 1,
            d >= 1,
            b >= 1,
    ;
}

/// Usable capacity never exceeds raw capacity, and reaches it exactly where
/// there is no parity.
pub proof fn lemma_usable_capacity_bounds(c: Configuration)
    requires
        c.is_valid(),
    ensures
        c.usable_capacity() <= c.raw_capacity(),
        c.usable_capacity() == c.raw_capacity() <==> c.parity_count == 0,
{
    lemma_raw_capacity_positive(c);
    let raw = c.raw_capacity() as int;
    let data = c.data_drives();
    let stripe = c.stripe_size as int;
    let usable = (raw * data) / stripe;
    assert(0 <= raw * data) by (nonlinear_arith)
        requires
            0 <= raw,
            0 <= data,
    ;
    lemma_fundamental_div_mod(raw * data, stripe);
    let rest = (raw * data) % stripe;
    assert(usable <= raw && (data < stripe ==> usable < raw) && (data == stripe ==> usable
        == raw)) by (nonlinear_arith)
        requires
            raw * data == stripe * usable + rest,
            0 <= rest < stripe,
            0 <= data <= stripe,
            0 < raw,
    ;
}

/// Estimates capacity, efficiency, fault tolerance, power and bandwidth of a
/// configuration. It fails, with an overflow, exactly where a quantity does
/// not fit its integer type.
pub fn calculate(c: &Configuration) -> (res: Result<CalculationResult, CalcError>)
    requires
        c.is_valid(),
    ensures
        res is Ok <==> calculable(*c),
        res matches Err(e) ==> e == CalcError::Overflow,
        res matches Ok(r) ==> {
            &&& r == calculation(*c)
            &&& r.raw_capacity == c.raw_capacity()
            &&& r.usable_capacity == c.usable_capacity()
            &&& r.storage_efficiency.data_drives == c.stripe_size - c.parity_count
            &&& r.storage_efficiency.stripe_size == c.stripe_size
            &&& r.storage_efficiency.stripe_size >= 1
            &&& r.total_servers == c.number_of_racks * c.servers_per_rack
            &&& r.power_estimate_watts == r.total_servers * 300
            &&& r.network_bandwidth_gbps == r.total_servers * 25
            &&& r.max_drive_tolerance == c.parity_count
            &&& r.max_server_tolerance == (if c.servers_per_rack >= c.stripe_size {
                c.parity_count
            } else {
                0
            })
            &&& r.max_rack_tolerance == (if c.number_of_racks >= c.stripe_size {
                c.parity_count
            } else {
                0
            })
            &&& r.usable_capacity <= r.raw_capacity
            &&& r.usable_capacity == r.raw_capacity <==> c.parity_count == 0
        },
{
    proof {
        lemma_usable_capacity_bounds(*c);
    }
    if !c.check_totals() {
        return Err(CalcError::Overflow);
    }
    // Calculate raw capacity
    let raw_capacity: u128 = c.total_raw_capacity();

    // Calculate storage efficiency (data drives / total drives in stripe)
    let data_drives: u32 = c.stripe_size - c.parity_count;
    let storage_efficiency = Efficiency { data_drives, stripe_size: c.stripe_size };
    let usable_capacity: u128 = scaled_floor(raw_capacity, data_drives, c.stripe_size);

    let total_servers: u32 = c.total_servers();

    // Calculate power and network estimates
    let power_estimate: u32 = match total_servers.checked_mul(WATTS_PER_SERVER) {
        Some(watts) => watts,
        None => {
            return Err(CalcError::Overflow);
        },
    };
    let total_bandwidth: u32 = total_servers * GBPS_PER_SERVER;

    // Calculate failure tolerances
    let max_drive_tolerance: u32 = c.parity_count;
    let max_server_tolerance: u32 = if c.servers_per_rack >= c.stripe_size {
        c.parity_count
    } else {
        0
    };
    let max_rack_tolerance: u32 = if c.number_of_racks >= c.stripe_size {
        c.parity_count
    } else {
        0
    };

    Ok(
        CalculationResult {
            raw_capacity,
            usable_capacity,
            storage_efficiency,
            max_drive_tolerance,
            max_server_tolerance,
            max_rack_tolerance,
            total_servers,
            power_estimate_watts: power_estimate,
            network_bandwidth_gbps: total_bandwidth,
        },
    )
}

/// The rack count that the advisor proposes for `target`: the current count
/// where the target is met exactly; otherwise the current count scaled by
/// `target / usable capacity` and rounded up, and at least one rack.
///
/// The quotient is taken exactly, as `racks * target / usable capacity` over
/// the integers, so it is rounded up only where the division leaves a
/// remainder. An estimate in binary floating point can come out one rack
/// higher: 100 racks with a usable capacity of 10 and a target of 11 give
/// 110 racks here, where `100.0 * (11.0 / 10.0)` lies just above 110 and
/// rounds up to 111.
pub open spec fn recommended_racks(c: Configuration, target: u128) -> nat
    recommends
        c.usable_capacity() == target || c.usable_capacity() > 0,
{
    let current = c.usable_capacity();
    if current == target {
        c.number_of_racks as nat
    } else {
        let estimate = ceil_div((c.number_of_racks * target) as nat, current);
        if current > target && estimate < 1 {
            1
        } else {
            estimate
        }
    }
}

/// Whether the advisor can answer: the current layout is calculable and,
/// unless the target is met exactly, the current usable capacity is not
/// zero, the proposed rack count fits 32 bits, and the proposed layout is
/// calculable too.
pub open spec fn scalable(c: Configuration, target: u128) -> bool {
    &&& calculable(c)
    &&& c.usable_capacity() != target ==> {
        &&& c.usable_capacity() > 0
        &&& recommended_racks(c, target) <= u32::MAX
        &&& calculable(c.with_racks(recommended_racks(c, target) as u32))
    }
}

/// The reason that the advisor gives.
pub open spec fn reason_text(c: Configuration, target: u128) -> Seq<char> {
    let current = c.usable_capacity();
    if current == target {
        "Current configuration meets capacity requirements"@
    } else if current < target {
        "Need "@ + decimal((recommended_racks(c, target) - c.number_of_racks) as nat)
            + " additional racks to meet capacity requirements"@
    } else {
        "Current configuration exceeds capacity requirements"@
    }
}

/// Scaling a positive count by a factor above one and rounding up gives a
/// larger count.
pub proof fn lemma_scale_up_grows(count: nat, target: nat, current: nat)
    requires
        count >= 1,
        0 < current < target,
    ensures
        ceil_div(count * target, current) > count,
{
    let n = (count * target) as int;
    let d = current as int;
    assert(0 <= n) by (nonlinear_arith)
        requires
            n == count * target,
    ;
    lemma_fundamental_div_mod(n, d);
    let q = n / d;
    let r = n % d;
    assert(q > count || (q == count && r > 0)) by (nonlinear_arith)
        requires
            n == count * target,
            n == d * q + r,
            0 <= r < d,
            count >= 1,
            0 < d < target,
    ;
}

/// Scaling a count by a factor below one and rounding up never gives a
/// larger count.
pub proof fn lemma_scale_down_shrinks(count: nat, target: nat, current: nat)
    requires
        target < current,
    ensures
        ceil_div(count * target, current) <= count,
{
    let n = (count * target) as int;
    let d = current as int;
    assert(0 <= n) by (nonlinear_arith)
        requires
            n == count * target,
    ;
    lemma_fundamental_div_mod(n, d);
    let q = n / d;
    let r = n % d;
    assert(q < count || (q == count && r == 0)) by (nonlinear_arith)
        requires
            n == count * target,
            n == d * q + r,
            0 <= r < d,
            0 <= count,
            0 <= target < d,
    ;
}

/// A calculable layout stays calculable with fewer racks.
pub proof fn lemma_fewer_racks_calculable(c: Configuration, racks: u32)
    requires
        calculable(c),
        racks <= c.number_of_racks,
    ensures
        calculable(c.with_racks(racks)),
{
    let s = c.servers_per_rack as int;
    let d = c.drives_per_server as int;
    let b = c.drive_capacity_bytes as int;
    let r0 = c.number_of_racks as int;
    let r1 = racks as int;
    assert(r1 * s <= r0 * s && r1 * s * d <= r0 * s * d && r1 * s * d * b <= r0 * s * d * b) by (nonlinear_arith)
        requires
            0 <= r1 <= r0,
            0 <= s,
            0 <= d,
            0 <= b,
    ;
    assert(0 <= r1 * s && 0 <= r1 * s * d && 0 <= r1 * s * d * b) by (nonlinear_arith)
        requires
            0 <= r1,
            0 <= s,
            0 <= d,
            0 <= b,
    ;
}

/// For a target above the current usable capacity the advisor proposes more
/// racks than there are.
pub proof fn lemma_recommendation_grows(c: Configuration, target: u128)
    requires
        c.is_valid(),
        0 < c.usable_capacity() < target,
    ensures
        recommended_racks(c, target) > c.number_of_racks,
{
    lemma_scale_up_grows(c.number_of_racks as nat, target as nat, c.usable_capacity());
}

/// For a target below the current usable capacity the advisor proposes at
/// least one rack and no more than there are, and can always answer where
/// the current layout is calculable.
pub proof fn lemma_recommendation_shrinks(c: Configuration, target: u128)
    requires
        c.is_valid(),
        c.usable_capacity() > target,
    ensures
        1 <= recommended_racks(c, target) <= c.number_of_racks,
        calculable(c) ==> scalable(c, target),
{
    lemma_scale_down_shrinks(c.number_of_racks as nat, target as nat, c.usable_capacity());
    if calculable(c) {
        lemma_fewer_racks_calculable(c, recommended_racks(c, target) as u32);
    }
}

/// Recommends a rack count for a target usable capacity. A target that is
/// met exactly keeps the layout. Otherwise the rack count is scaled by the
/// ratio of target to current usable capacity and rounded up, with at least
/// one rack left. It fails, with an overflow, exactly where the layout is not
/// `scalable` for the target.
pub fn recommend_scaling(c: Configuration, target_capacity: u128) -> (res: Result<
    ScalingRecommendation,
    CalcError,
>)
    requires
        c.is_valid(),
    ensures
        res is Ok <==> scalable(c, target_capacity),
        res matches Err(e) ==> e == CalcError::Overflow,
        res matches Ok(rec) ==> {
            &&& rec.current_config == c
            &&& rec.recommended_config == c.with_racks(recommended_racks(c, target_capacity) as u32)
            &&& rec.recommended_config.is_valid()
            &&& rec.reason@ == reason_text(c, target_capacity)
            &&& rec.efficiency_change.is_zero()
            &&& c.usable_capacity() == target_capacity ==> {
                &&& rec.recommended_config == rec.current_config
                &&& rec.capacity_increase == SignedRatio::spec_zero()
                &&& rec.efficiency_change == SignedRatio::spec_zero()
            }
            &&& c.usable_capacity() != target_capacity ==> {
                &&& rec.capacity_increase == SignedRatio::spec_relative_change(
                    c.usable_capacity() as u128,
                    rec.recommended_config.usable_capacity() as u128,
                )
                &&& rec.efficiency_change == calculation(rec.recommended_config).storage_efficiency.spec_minus(
                    calculation(c).storage_efficiency,
                )
            }
            &&& c.usable_capacity() < target_capacity ==> rec.recommended_config.number_of_racks
                > c.number_of_racks
            &&& c.usable_capacity() > target_capacity ==> 1
                <= rec.recommended_config.number_of_racks <= c.number_of_racks
        },
        c.usable_capacity() > target_capacity && calculable(c) ==> res is Ok,
{
    let current_result = match calculate(&c) {
        Ok(r) => r,
        Err(e) => {
            return Err(e);
        },
    };
    let current: u128 = current_result.usable_capacity;
    if current == target_capacity {
        return Ok(
            ScalingRecommendation {
                current_config: c,
                recommended_config: c,
                reason: String::from_str("Current configuration meets capacity requirements"),
                capacity_increase: SignedRatio::zero(),
                efficiency_change: SignedRatio::zero(),
            },
        );
    }
    if current == 0 {
        return Err(CalcError::Overflow);
    }
    proof {
        if current < target_capacity {
            lemma_recommendation_grows(c, target_capacity);
        } else {
            lemma_recommendation_shrinks(c, target_capacity);
        }
    }
    let estimate: u32 = match scaled_ceil(c.number_of_racks, target_capacity, current) {
        Some(racks) => racks,
        None => {
            return Err(CalcError::Overflow);
        },
    };
    let recommended_racks: u32 = if current > target_capacity && estimate < 1 {
        1
    } else {
        estimate
    };
    let mut recommended_config = c;
    recommended_config.number_of_racks = recommended_racks;
    assert(recommended_config == c.with_racks(recommended_racks));

    let new_result = match calculate(&recommended_config) {
        Ok(r) => r,
        Err(e) => {
            return Err(e);
        },
    };
    let reason: String = if current < target_capacity {
        // Calculate how many more racks we need
        let mut text: String = String::from_str("Need ");
        append_decimal(&mut text, (recommended_racks - c.number_of_racks) as u128);
        text.append(" additional racks to meet capacity requirements");
        text
    } else {
        String::from_str("Current configuration exceeds capacity requirements")
    };
    proof {
        lemma_minus_self_is_zero(current_result.storage_efficiency);
    }
    Ok(
        ScalingRecommendation {
            current_config: c,
            recommended_config,
            reason,
            capacity_increase: SignedRatio::relative_change(current, new_result.usable_capacity),
            efficiency_change: new_result.storage_efficiency.minus(&current_result.storage_efficiency),
        },
    )
}

/// The stripe sizes that suit a cluster of `total_drives` drives: the even
/// numbers from 4 up to the number of drives, and up to 16 at most, in
/// ascending order.
pub open spec fn stripe_sizes(total_drives: u32) -> Seq<u32> {
    let limit: int = if total_drives < 16 {
        total_drives as int
    } else {
        16
    };
    let count: int = if limit < 4 {
        0
    } else {
        (limit - 4) / 2 + 1
    };
    Seq::new(count as nat, |i: int| (4 + 2 * i) as u32)
}

/// What the walk from `count` down to 1 collects: half of each even number,
/// in the order in which they are met.
pub open spec fn parity_counts_from(count: nat) -> Seq<u32>
    decreases count,
{
    if count == 0 {
        Seq::empty()
    } else if count % 2 == 0 {
        seq![(count / 2) as u32] + parity_counts_from((count - 1) as nat)
    } else {
        parity_counts_from((count - 1) as nat)
    }
}

/// The walk collects every number from half of `count` down to 1, once each.
pub proof fn lemma_parity_counts_descend(count: nat)
    requires
        count <= u32::MAX,
    ensures
        parity_counts_from(count) =~= Seq::new(count / 2, |i: int| (count / 2 - i) as u32),
    decreases count,
{
    if count > 0 {
        lemma_parity_counts_descend((count - 1) as nat);
    }
}

/// A size is offered exactly where it is even, at least 4, at most 16 and at
/// most the number of drives; the sizes ascend.
pub proof fn lemma_stripe_sizes_members(total_drives: u32)
    ensures
        forall|v: u32|
            stripe_sizes(total_drives).contains(v) <==> (v % 2 == 0 && 4 <= v <= 16 && v
                <= total_drives),
        forall|i: int, j: int|
            0 <= i < j < stripe_sizes(total_drives).len() ==> stripe_sizes(total_drives)[i]
                < stripe_sizes(total_drives)[j],
{
    let s = stripe_sizes(total_drives);
    assert forall|v: u32| (v % 2 == 0 && 4 <= v <= 16 && v <= total_drives) implies s.contains(
        v,
    ) by {
        let i = (v - 4) / 2;
        assert(s[i] == v);
    }
}

/// Helper function to calculate valid stripe sizes
pub fn calculate_stripe_sizes(total_drives: u32) -> (sizes: Vec<u32>)
    ensures
        sizes@ == stripe_sizes(total_drives),
{
    let mut sizes: Vec<u32> = Vec::new();
    // Maximum stripe size is typically 16
    let max_size: u32 = if total_drives < 16 {
        total_drives
    } else {
        16
    };
    // Start from 4, increment by 2
    let mut size: u32 = 4;
    while size <= max_size
        invariant
            max_size <= 16,
            4 <= size <= 18,
            size == 4 || size <= max_size + 2,
            size % 2 == 0,
            sizes@.len() == (size - 4) / 2,
            forall|i: int| 0 <= i < sizes@.len() ==> sizes@[i] == 4 + 2 * i,
        decreases 18 - size,
    {
        sizes.push(size);
        size += 2;
    }
    assert(sizes@ =~= stripe_sizes(total_drives));
    sizes
}

/// Helper function to calculate valid parity counts for a given stripe size
pub fn calculate_parity_counts(stripe_size: u32) -> (counts: Vec<u32>)
    ensures
        counts@ == parity_counts_from(stripe_size as nat),
        counts@ == Seq::new((stripe_size / 2) as nat, |i: int| (stripe_size / 2 - i) as u32),
{
    let mut counts: Vec<u32> = Vec::new();
    let mut count: u32 = stripe_size;

    while count >= 1
        invariant
            counts@ + parity_counts_from(count as nat) == parity_counts_from(stripe_size as nat),
        decreases count,
    {
        if count % 2 == 0 {
            counts.push(count / 2);
        }
        assert(counts@ + parity_counts_from((count - 1) as nat) =~= parity_counts_from(
            stripe_size as nat,
        ));
        count -= 1;
    }
    proof {
        assert(counts@ =~= parity_counts_from(stripe_size as nat));
        lemma_parity_counts_descend(stripe_size as nat);
    }
    counts
}

} // verus!
