use vstd::prelude::*;

verus! {

/// A rule of a simulation configuration that a configuration broke.
/// The variants are listed in the order in which the rules are checked.
#[derive(Clone, Copy, Debug, PartialEq, Eq, Structural)]
pub enum ConfigError {
    /// The head centre has a non-finite coordinate.
    HeadCenterNotFinite,
    /// A head radius is not finite.
    HeadRadiiNotFinite,
    /// A head radius is zero or negative.
    HeadRadiiNotPositive,
    /// A corner of the world bounds has a non-finite coordinate.
    BoundsNotFinite,
    /// The floor height is not finite.
    FloorNotFinite,
    /// Gravity has a non-finite component.
    GravityNotFinite,
    /// Fewer than two nodes per strand.
    TooFewNodes,
    /// No strands requested.
    NoStrands,
    /// The clipper radius is not finite.
    ClipperRadiusNotFinite,
    /// The clipper radius is zero or negative.
    ClipperRadiusNotPositive,
    /// The damping factor is not finite.
    DampingNotFinite,
    /// The damping factor lies outside [0, 1].
    DampingOutOfRange,
    /// The rigidity is not finite.
    RigidityNotFinite,
    /// The rigidity is negative.
    RigidityNegative,
    /// The hair length is not finite.
    HairLengthNotFinite,
    /// The hair length is zero or negative.
    HairLengthNotPositive,
    /// The density factor is not finite.
    DensityNotFinite,
    /// The density factor lies outside (0, 2].
    DensityOutOfRange,
    /// The clipper speed is not finite.
    MoveSpeedNotFinite,
    /// The clipper speed is zero or negative.
    MoveSpeedNotPositive,
    /// The time step is not finite.
    TimeStepNotFinite,
    /// The time step is zero or negative.
    TimeStepNotPositive,
    /// The clipper's start position has a non-finite coordinate.
    ClipperStartNotFinite,
    /// A coordinate of the lower bounds corner exceeds the upper one.
    BoundsInverted,
    /// The floor lies above the top of the world bounds.
    FloorAboveBounds,
}

/// What a configuration's rules read from it: the outcome of each test on
/// its real-valued settings, and its integer settings as they are.
#[derive(Clone, Copy, Debug, PartialEq, Eq, Structural)]
pub struct ConfigChecks {
    /// Whether every coordinate of the head centre is finite.
    pub head_center_finite: bool,
    /// Whether every head radius is finite.
    pub head_radii_finite: bool,
    /// Whether every head radius is greater than zero.
    pub head_radii_positive: bool,
    /// Whether every coordinate of both world-bound corners is finite.
    pub bounds_finite: bool,
    /// Whether the floor height is finite.
    pub floor_finite: bool,
    /// Whether every gravity component is finite.
    pub gravity_finite: bool,
    /// Nodes in each strand.
    pub nodes_per_strand: usize,
    /// Strands requested at density 1.
    pub base_num_strands: usize,
    /// Whether the clipper radius is finite.
    pub clipper_radius_finite: bool,
    /// Whether the clipper radius is greater than zero.
    pub clipper_radius_positive: bool,
    /// Whether the damping factor is finite.
    pub damping_finite: bool,
    /// Whether the damping factor is neither below 0 nor above 1.
    pub damping_in_unit_range: bool,
    /// Whether the rigidity is finite.
    pub rigidity_finite: bool,
    /// Whether the rigidity is not below 0.
    pub rigidity_non_negative: bool,
    /// Whether the hair length is finite.
    pub hair_length_finite: bool,
    /// Whether the hair length is greater than zero.
    pub hair_length_positive: bool,
    /// Whether the density factor is finite.
    pub density_finite: bool,
    /// Whether the density factor is greater than 0 and at most 2.
    pub density_in_range: bool,
    /// Whether the clipper speed is finite.
    pub move_speed_finite: bool,
    /// Whether the clipper speed is greater than zero.
    pub move_speed_positive: bool,
    /// Whether the time step is finite.
    pub dt_finite: bool,
    /// Whether the time step is greater than zero.
    pub dt_positive: bool,
    /// Whether every coordinate of the clipper's start position is finite.
    pub clipper_start_finite: bool,
    /// Whether no coordinate of the lower world-bound corner exceeds the upper one.
    pub bounds_ordered: bool,
    /// Whether the floor is not above the upper world-bound corner.
    pub floor_within_bounds: bool,
}

/// Position of a rule in the order of checking, from 0.
pub open spec fn rule_rank(e: ConfigError) -> nat {
    match e {
        ConfigError::HeadCenterNotFinite => 0,
        ConfigError::HeadRadiiNotFinite => 1,
        ConfigError::HeadRadiiNotPositive => 2,
        ConfigError::BoundsNotFinite => 3,
        ConfigError::FloorNotFinite => 4,
        ConfigError::GravityNotFinite => 5,
        ConfigError::TooFewNodes => 6,
        ConfigError::NoStrands => 7,
        ConfigError::ClipperRadiusNotFinite => 8,
        ConfigError::ClipperRadiusNotPositive => 9,
        ConfigError::DampingNotFinite => 10,
        ConfigError::DampingOutOfRange => 11,
        ConfigError::RigidityNotFinite => 12,
        ConfigError::RigidityNegative => 13,
        ConfigError::HairLengthNotFinite => 14,
        ConfigError::HairLengthNotPositive => 15,
        ConfigError::DensityNotFinite => 16,
        ConfigError::DensityOutOfRange => 17,
        ConfigError::MoveSpeedNotFinite => 18,
        ConfigError::MoveSpeedNotPositive => 19,
        ConfigError::TimeStepNotFinite => 20,
        ConfigError::TimeStepNotPositive => 21,
        ConfigError::ClipperStartNotFinite => 22,
        ConfigError::BoundsInverted => 23,
        ConfigError::FloorAboveBounds => 24,
    }
}

/// The text that reports a broken rule.
pub open spec fn error_text(e: ConfigError) -> Seq<char> {
    match e {
        ConfigError::HeadCenterNotFinite => "head center must be finite"@,
        ConfigError::HeadRadiiNotFinite => "head radii must be finite"@,
        ConfigError::HeadRadiiNotPositive => "head radii must be positive"@,
        ConfigError::BoundsNotFinite => "world bounds must be finite"@,
        ConfigError::FloorNotFinite => "floor_z must be finite"@,
        ConfigError::GravityNotFinite => "gravity must be finite"@,
        ConfigError::TooFewNodes => "nodes_per_strand must be at least 2"@,
        ConfigError::NoStrands => "base_num_strands must be positive"@,
        ConfigError::ClipperRadiusNotFinite => "clipper_radius must be finite"@,
        ConfigError::ClipperRadiusNotPositive => "clipper_radius must be positive"@,
        ConfigError::DampingNotFinite => "damping must be finite"@,
        ConfigError::DampingOutOfRange => "damping must be within [0, 1]"@,
        ConfigError::RigidityNotFinite => "rigidity must be finite"@,
        ConfigError::RigidityNegative => "rigidity must be non-negative"@,
        ConfigError::HairLengthNotFinite => "hair_length must be finite"@,
        ConfigError::HairLengthNotPositive => "hair_length must be positive"@,
        ConfigError::DensityNotFinite => "density_factor must be finite"@,
        ConfigError::DensityOutOfRange => "density_factor must be within (0, 2]"@,
        ConfigError::MoveSpeedNotFinite => "move_speed must be finite"@,
        ConfigError::MoveSpeedNotPositive => "move_speed must be positive"@,
        ConfigError::TimeStepNotFinite => "dt must be finite"@,
        ConfigError::TimeStepNotPositive => "dt must be positive"@,
        ConfigError::ClipperStartNotFinite => "clipper_initial_pos must be finite"@,
        ConfigError::BoundsInverted => "world bounds min must not exceed max"@,
        ConfigError::FloorAboveBounds => "floor_z must be at or below bounds.max.z"@,
    }
}

impl ConfigChecks {
    /// Whether the configuration breaks rule `e`.
    pub open spec fn violates(&self, e: ConfigError) -> bool {
        match e {
            ConfigError::HeadCenterNotFinite => !self.head_center_finite,
            ConfigError::HeadRadiiNotFinite => !self.head_radii_finite,
            ConfigError::HeadRadiiNotPositive => !self.head_radii_positive,
            ConfigError::BoundsNotFinite => !self.bounds_finite,
            ConfigError::FloorNotFinite => !self.floor_finite,
            ConfigError::GravityNotFinite => !self.gravity_finite,
            ConfigError::TooFewNodes => self.nodes_per_strand < 2,
            ConfigError::NoStrands => self.base_num_strands == 0,
            ConfigError::ClipperRadiusNotFinite => !self.clipper_radius_finite,
            ConfigError::ClipperRadiusNotPositive => !self.clipper_radius_positive,
            ConfigError::DampingNotFinite => !self.damping_finite,
            ConfigError::DampingOutOfRange => !self.damping_in_unit_range,
            ConfigError::RigidityNotFinite => !self.rigidity_finite,
            ConfigError::RigidityNegative => !self.rigidity_non_negative,
            ConfigError::HairLengthNotFinite => !self.hair_length_finite,
            ConfigError::HairLengthNotPositive => !self.hair_length_positive,
            ConfigError::DensityNotFinite => !self.density_finite,
            ConfigError::DensityOutOfRange => !self.density_in_range,
            ConfigError::MoveSpeedNotFinite => !self.move_speed_finite,
            ConfigError::MoveSpeedNotPositive => !self.move_speed_positive,
            ConfigError::TimeStepNotFinite => !self.dt_finite,
            ConfigError::TimeStepNotPositive => !self.dt_positive,
            ConfigError::ClipperStartNotFinite => !self.clipper_start_finite,
            ConfigError::BoundsInverted => !self.bounds_ordered,
            ConfigError::FloorAboveBounds => !self.floor_within_bounds,
        }
    }
}

/// Each rule is broken exactly when the check it reads fails: a head
/// centre, radius, bound, floor, gravity, clipper, damping, rigidity, hair
/// length, density, speed, time-step or start-position test that failed, too
/// few nodes per strand, or no strands.
pub proof fn law_each_rule_reads_its_check(c: ConfigChecks)
    ensures
        c.violates(ConfigError::HeadCenterNotFinite) == (!c.head_center_finite),
        c.violates(ConfigError::HeadRadiiNotFinite) == (!c.head_radii_finite),
        c.violates(ConfigError::HeadRadiiNotPositive) == (!c.head_radii_positive),
        c.violates(ConfigError::BoundsNotFinite) == (!c.bounds_finite),
        c.violates(ConfigError::FloorNotFinite) == (!c.floor_finite),
        c.violates(ConfigError::GravityNotFinite) == (!c.gravity_finite),
        c.violates(ConfigError::TooFewNodes) == (c.nodes_per_strand < 2),
        c.violates(ConfigError::NoStrands) == (c.base_num_strands == 0),
        c.violates(ConfigError::ClipperRadiusNotFinite) == (!c.clipper_radius_finite),
        c.violates(ConfigError::ClipperRadiusNotPositive) == (!c.clipper_radius_positive),
        c.violates(ConfigError::DampingNotFinite) == (!c.damping_finite),
        c.violates(ConfigError::DampingOutOfRange) == (!c.damping_in_unit_range),
        c.violates(ConfigError::RigidityNotFinite) == (!c.rigidity_finite),
        c.violates(ConfigError::RigidityNegative) == (!c.rigidity_non_negative),
        c.violates(ConfigError::HairLengthNotFinite) == (!c.hair_length_finite),
        c.violates(ConfigError::HairLengthNotPositive) == (!c.hair_length_positive),
        c.violates(ConfigError::DensityNotFinite) == (!c.density_finite),
        c.violates(ConfigError::DensityOutOfRange) == (!c.density_in_range),
        c.violates(ConfigError::MoveSpeedNotFinite) == (!c.move_speed_finite),
        c.violates(ConfigError::MoveSpeedNotPositive) == (!c.move_speed_positive),
        c.violates(ConfigError::TimeStepNotFinite) == (!c.dt_finite),
        c.violates(ConfigError::TimeStepNotPositive) == (!c.dt_positive),
        c.violates(ConfigError::ClipperStartNotFinite) == (!c.clipper_start_finite),
        c.violates(ConfigError::BoundsInverted) == (!c.bounds_ordered),
        c.violates(ConfigError::FloorAboveBounds) == (!c.floor_within_bounds),
{
}

/// A configuration breaks no rule exactly when every one of its checks
/// passes, it has at least two nodes per strand and it asks for some strands.
pub proof fn law_no_rule_broken_iff_all_checks_pass(c: ConfigChecks)
    ensures
        (forall|e: ConfigError| !#[trigger] c.violates(e)) <==> {
            &&& c.head_center_finite
            &&& c.head_radii_finite
            &&& c.head_radii_positive
            &&& c.bounds_finite
            &&& c.floor_finite
            &&& c.gravity_finite
            &&& c.nodes_per_strand >= 2
            &&& c.base_num_strands > 0
            &&& c.clipper_radius_finite
            &&& c.clipper_radius_positive
            &&& c.damping_finite
            &&& c.damping_in_unit_range
            &&& c.rigidity_finite
            &&& c.rigidity_non_negative
            &&& c.hair_length_finite
            &&& c.hair_length_positive
            &&& c.density_finite
            &&& c.density_in_range
            &&& c.move_speed_finite
            &&& c.move_speed_positive
            &&& c.dt_finite
            &&& c.dt_positive
            &&& c.clipper_start_finite
            &&& c.bounds_ordered
            &&& c.floor_within_bounds
        },
{
    law_each_rule_reads_its_check(c);
    if !(forall|e: ConfigError| !#[trigger] c.violates(e)) {
        let e = choose|e: ConfigError| #[trigger] c.violates(e);
        assert(c.violates(e));
    }
}

/// Checks a configuration's rules in order and reports the first one it
/// breaks, or `Ok(())` when it breaks none.
pub fn check_config(c: &ConfigChecks) -> (r: Result<(), ConfigError>)
    ensures
        match r {
            Ok(()) => forall|e: ConfigError| !#[trigger] c.violates(e),
            Err(e) => c.violates(e) && forall|e2: ConfigError|
                #[trigger] c.violates(e2) ==> rule_rank(e) <= rule_rank(e2),
        },
        r is Ok <==> {
            &&& c.head_center_finite
            &&& c.head_radii_finite
            &&& c.head_radii_positive
            &&& c.bounds_finite
            &&& c.floor_finite
            &&& c.gravity_finite
            &&& c.nodes_per_strand >= 2
            &&& c.base_num_strands > 0
            &&& c.clipper_radius_finite
            &&& c.clipper_radius_positive
            &&& c.damping_finite
            &&& c.damping_in_unit_range
            &&& c.rigidity_finite
            &&& c.rigidity_non_negative
            &&& c.hair_length_finite
            &&& c.hair_length_positive
            &&& c.density_finite
            &&& c.density_in_range
            &&& c.move_speed_finite
            &&& c.move_speed_positive
            &&& c.dt_finite
            &&& c.dt_positive
            &&& c.clipper_start_finite
            &&& c.bounds_ordered
            &&& c.floor_within_bounds
        },
        (r == Err::<(), ConfigError>(ConfigError::HeadCenterNotFinite)) <==> (!c.head_center_finite),
        (r == Err::<(), ConfigError>(ConfigError::HeadRadiiNotFinite)) <==> (!c.head_radii_finite && c.head_center_finite),
        (r == Err::<(), ConfigError>(ConfigError::HeadRadiiNotPositive)) <==> (!c.head_radii_positive && c.head_center_finite && c.head_radii_finite),
        (r == Err::<(), ConfigError>(ConfigError::BoundsNotFinite)) <==> (!c.bounds_finite && c.head_center_finite && c.head_radii_finite && c.head_radii_positive),
        (r == Err::<(), ConfigError>(ConfigError::FloorNotFinite)) <==> (!c.floor_finite && c.head_center_finite && c.head_radii_finite && c.head_radii_positive && c.bounds_finite),
        (r == Err::<(), ConfigError>(ConfigError::GravityNotFinite)) <==> (!c.gravity_finite && c.head_center_finite && c.head_radii_finite && c.head_radii_positive && c.bounds_finite && c.floor_finite),
        (r == Err::<(), ConfigError>(ConfigError::TooFewNodes)) <==> (c.nodes_per_strand < 2 && c.head_center_finite && c.head_radii_finite && c.head_radii_positive && c.bounds_finite && c.floor_finite && c.gravity_finite),
        (r == Err::<(), ConfigError>(ConfigError::NoStrands)) <==> (c.base_num_strands == 0 && c.head_center_finite && c.head_radii_finite && c.head_radii_positive && c.bounds_finite && c.floor_finite && c.gravity_finite && c.nodes_per_strand >= 2),
        (r == Err::<(), ConfigError>(ConfigError::ClipperRadiusNotFinite)) <==> (!c.clipper_radius_finite && c.head_center_finite && c.head_radii_finite && c.head_radii_positive && c.bounds_finite && c.floor_finite && c.gravity_finite && c.nodes_per_strand >= 2 && c.base_num_strands > 0),
        (r == Err::<(), ConfigError>(ConfigError::ClipperRadiusNotPositive)) <==> (!c.clipper_radius_positive && c.head_center_finite && c.head_radii_finite && c.head_radii_positive && c.bounds_finite && c.floor_finite && c.gravity_finite && c.nodes_per_strand >= 2 && c.base_num_strands > 0 && c.clipper_radius_finite),
        (r == Err::<(), ConfigError>(ConfigError::DampingNotFinite)) <==> (!c.damping_finite && c.head_center_finite && c.head_radii_finite && c.head_radii_positive && c.bounds_finite && c.floor_finite && c.gravity_finite && c.nodes_per_strand >= 2 && c.base_num_strands > 0 && c.clipper_radius_finite && c.clipper_radius_positive),
        (r == Err::<(), ConfigError>(ConfigError::DampingOutOfRange)) <==> (!c.damping_in_unit_range && c.head_center_finite && c.head_radii_finite && c.head_radii_positive && c.bounds_finite && c.floor_finite && c.gravity_finite && c.nodes_per_strand >= 2 && c.base_num_strands > 0 && c.clipper_radius_finite && c.clipper_radius_positive && c.damping_finite),
        (r == Err::<(), ConfigError>(ConfigError::RigidityNotFinite)) <==> (!c.rigidity_finite && c.head_center_finite && c.head_radii_finite && c.head_radii_positive && c.bounds_finite && c.floor_finite && c.gravity_finite && c.nodes_per_strand >= 2 && c.base_num_strands > 0 && c.clipper_radius_finite && c.clipper_radius_positive && c.damping_finite && c.damping_in_unit_range),
        (r == Err::<(), ConfigError>(ConfigError::RigidityNegative)) <==> (!c.rigidity_non_negative && c.head_center_finite && c.head_radii_finite && c.head_radii_positive && c.bounds_finite && c.floor_finite && c.gravity_finite && c.nodes_per_strand >= 2 && c.base_num_strands > 0 && c.clipper_radius_finite && c.clipper_radius_positive && c.damping_finite && c.damping_in_unit_range && c.rigidity_finite),
        (r == Err::<(), ConfigError>(ConfigError::HairLengthNotFinite)) <==> (!c.hair_length_finite && c.head_center_finite && c.head_radii_finite && c.head_radii_positive && c.bounds_finite && c.floor_finite && c.gravity_finite && c.nodes_per_strand >= 2 && c.base_num_strands > 0 && c.clipper_radius_finite && c.clipper_radius_positive && c.damping_finite && c.damping_in_unit_range && c.rigidity_finite && c.rigidity_non_negative),
        (r == Err::<(), ConfigError>(ConfigError::HairLengthNotPositive)) <==> (!c.hair_length_positive && c.head_center_finite && c.head_radii_finite && c.head_radii_positive && c.bounds_finite && c.floor_finite && c.gravity_finite && c.nodes_per_strand >= 2 && c.base_num_strands > 0 && c.clipper_radius_finite && c.clipper_radius_positive && c.damping_finite && c.damping_in_unit_range && c.rigidity_finite && c.rigidity_non_negative && c.hair_length_finite),
        (r == Err::<(), ConfigError>(ConfigError::DensityNotFinite)) <==> (!c.density_finite && c.head_center_finite && c.head_radii_finite && c.head_radii_positive && c.bounds_finite && c.floor_finite && c.gravity_finite && c.nodes_per_strand >= 2 && c.base_num_strands > 0 && c.clipper_radius_finite && c.clipper_radius_positive && c.damping_finite && c.damping_in_unit_range && c.rigidity_finite && c.rigidity_non_negative && c.hair_length_finite && c.hair_length_positive),
        (r == Err::<(), ConfigError>(ConfigError::DensityOutOfRange)) <==> (!c.density_in_range && c.head_center_finite && c.head_radii_finite && c.head_radii_positive && c.bounds_finite && c.floor_finite && c.gravity_finite && c.nodes_per_strand >= 2 && c.base_num_strands > 0 && c.clipper_radius_finite && c.clipper_radius_positive && c.damping_finite && c.damping_in_unit_range && c.rigidity_finite && c.rigidity_non_negative && c.hair_length_finite && c.hair_length_positive && c.density_finite),
        (r == Err::<(), ConfigError>(ConfigError::MoveSpeedNotFinite)) <==> (!c.move_speed_finite && c.head_center_finite && c.head_radii_finite && c.head_radii_positive && c.bounds_finite && c.floor_finite && c.gravity_finite && c.nodes_per_strand >= 2 && c.base_num_strands > 0 && c.clipper_radius_finite && c.clipper_radius_positive && c.damping_finite && c.damping_in_unit_range && c.rigidity_finite && c.rigidity_non_negative && c.hair_length_finite && c.hair_length_positive && c.density_finite && c.density_in_range),
        (r == Err::<(), ConfigError>(ConfigError::MoveSpeedNotPositive)) <==> (!c.move_speed_positive && c.head_center_finite && c.head_radii_finite && c.head_radii_positive && c.bounds_finite && c.floor_finite && c.gravity_finite && c.nodes_per_strand >= 2 && c.base_num_strands > 0 && c.clipper_radius_finite && c.clipper_radius_positive && c.damping_finite && c.damping_in_unit_range && c.rigidity_finite && c.rigidity_non_negative && c.hair_length_finite && c.hair_length_positive && c.density_finite && c.density_in_range && c.move_speed_finite),
        (r == Err::<(), ConfigError>(ConfigError::TimeStepNotFinite)) <==> (!c.dt_finite && c.head_center_finite && c.head_radii_finite && c.head_radii_positive && c.bounds_finite && c.floor_finite && c.gravity_finite && c.nodes_per_strand >= 2 && c.base_num_strands > 0 && c.clipper_radius_finite && c.clipper_radius_positive && c.damping_finite && c.damping_in_unit_range && c.rigidity_finite && c.rigidity_non_negative && c.hair_length_finite && c.hair_length_positive && c.density_finite && c.density_in_range && c.move_speed_finite && c.move_speed_positive),
        (r == Err::<(), ConfigError>(ConfigError::TimeStepNotPositive)) <==> (!c.dt_positive && c.head_center_finite && c.head_radii_finite && c.head_radii_positive && c.bounds_finite && c.floor_finite && c.gravity_finite && c.nodes_per_strand >= 2 && c.base_num_strands > 0 && c.clipper_radius_finite && c.clipper_radius_positive && c.damping_finite && c.damping_in_unit_range && c.rigidity_finite && c.rigidity_non_negative && c.hair_length_finite && c.hair_length_positive && c.density_finite && c.density_in_range && c.move_speed_finite && c.move_speed_positive && c.dt_finite),
        (r == Err::<(), ConfigError>(ConfigError::ClipperStartNotFinite)) <==> (!c.clipper_start_finite && c.head_center_finite && c.head_radii_finite && c.head_radii_positive && c.bounds_finite && c.floor_finite && c.gravity_finite && c.nodes_per_strand >= 2 && c.base_num_strands > 0 && c.clipper_radius_finite && c.clipper_radius_positive && c.damping_finite && c.damping_in_unit_range && c.rigidity_finite && c.rigidity_non_negative && c.hair_length_finite && c.hair_length_positive && c.density_finite && c.density_in_range && c.move_speed_finite && c.move_speed_positive && c.dt_finite && c.dt_positive),
        (r == Err::<(), ConfigError>(ConfigError::BoundsInverted)) <==> (!c.bounds_ordered && c.head_center_finite && c.head_radii_finite && c.head_radii_positive && c.bounds_finite && c.floor_finite && c.gravity_finite && c.nodes_per_strand >= 2 && c.base_num_strands > 0 && c.clipper_radius_finite && c.clipper_radius_positive && c.damping_finite && c.damping_in_unit_range && c.rigidity_finite && c.rigidity_non_negative && c.hair_length_finite && c.hair_length_positive && c.density_finite && c.density_in_range && c.move_speed_finite && c.move_speed_positive && c.dt_finite && c.dt_positive && c.clipper_start_finite),
        (r == Err::<(), ConfigError>(ConfigError::FloorAboveBounds)) <==> (!c.floor_within_bounds && c.head_center_finite && c.head_radii_finite && c.head_radii_positive && c.bounds_finite && c.floor_finite && c.gravity_finite && c.nodes_per_strand >= 2 && c.base_num_strands > 0 && c.clipper_radius_finite && c.clipper_radius_positive && c.damping_finite && c.damping_in_unit_range && c.rigidity_finite && c.rigidity_non_negative && c.hair_length_finite && c.hair_length_positive && c.density_finite && c.density_in_range && c.move_speed_finite && c.move_speed_positive && c.dt_finite && c.dt_positive && c.clipper_start_finite && c.bounds_ordered),
{
    if !c.head_center_finite {
        return Err(ConfigError::HeadCenterNotFinite);
    }
    if !c.head_radii_finite {
        return Err(ConfigError::HeadRadiiNotFinite);
    }
    if !c.head_radii_positive {
        return Err(ConfigError::HeadRadiiNotPositive);
    }
    if !c.bounds_finite {
        return Err(ConfigError::BoundsNotFinite);
    }
    if !c.floor_finite {
        return Err(ConfigError::FloorNotFinite);
    }
    if !c.gravity_finite {
        return Err(ConfigError::GravityNotFinite);
    }
    if c.nodes_per_strand < 2 {
        return Err(ConfigError::TooFewNodes);
    }
    if c.base_num_strands == 0 {
        return Err(ConfigError::NoStrands);
    }
    if !c.clipper_radius_finite {
        return Err(ConfigError::ClipperRadiusNotFinite);
    }
    if !c.clipper_radius_positive {
        return Err(ConfigError::ClipperRadiusNotPositive);
    }
    if !c.damping_finite {
        return Err(ConfigError::DampingNotFinite);
    }
    if !c.damping_in_unit_range {
        return Err(ConfigError::DampingOutOfRange);
    }
    if !c.rigidity_finite {
        return Err(ConfigError::RigidityNotFinite);
    }
    if !c.rigidity_non_negative {
        return Err(ConfigError::RigidityNegative);
    }
    if !c.hair_length_finite {
        return Err(ConfigError::HairLengthNotFinite);
    }
    if !c.hair_length_positive {
        return Err(ConfigError::HairLengthNotPositive);
    }
    if !c.density_finite {
        return Err(ConfigError::DensityNotFinite);
    }
    if !c.density_in_range {
        return Err(ConfigError::DensityOutOfRange);
    }
    if !c.move_speed_finite {
        return Err(ConfigError::MoveSpeedNotFinite);
    }
    if !c.move_speed_positive {
        return Err(ConfigError::MoveSpeedNotPositive);
    }
    if !c.dt_finite {
        return Err(ConfigError::TimeStepNotFinite);
    }
    if !c.dt_positive {
        return Err(ConfigError::TimeStepNotPositive);
    }
    if !c.clipper_start_finite {
        return Err(ConfigError::ClipperStartNotFinite);
    }
    if !c.bounds_ordered {
        return Err(ConfigError::BoundsInverted);
    }
    if !c.floor_within_bounds {
        return Err(ConfigError::FloorAboveBounds);
    }
    Ok(())
}

impl ConfigError {
    /// The text that reports this broken rule.
    pub fn message(&self) -> (s: String)
        ensures
            s@ == error_text(*self),
    {
        match self {
            ConfigError::HeadCenterNotFinite => "head center must be finite".to_owned(),
            ConfigError::HeadRadiiNotFinite => "head radii must be finite".to_owned(),
            ConfigError::HeadRadiiNotPositive => "head radii must be positive".to_owned(),
            ConfigError::BoundsNotFinite => "world bounds must be finite".to_owned(),
            ConfigError::FloorNotFinite => "floor_z must be finite".to_owned(),
            ConfigError::GravityNotFinite => "gravity must be finite".to_owned(),
            ConfigError::TooFewNodes => "nodes_per_strand must be at least 2".to_owned(),
            ConfigError::NoStrands => "base_num_strands must be positive".to_owned(),
            ConfigError::ClipperRadiusNotFinite => "clipper_radius must be finite".to_owned(),
            ConfigError::ClipperRadiusNotPositive => "clipper_radius must be positive".to_owned(),
            ConfigError::DampingNotFinite => "damping must be finite".to_owned(),
            ConfigError::DampingOutOfRange => "damping must be within [0, 1]".to_owned(),
            ConfigError::RigidityNotFinite => "rigidity must be finite".to_owned(),
            ConfigError::RigidityNegative => "rigidity must be non-negative".to_owned(),
            ConfigError::HairLengthNotFinite => "hair_length must be finite".to_owned(),
            ConfigError::HairLengthNotPositive => "hair_length must be positive".to_owned(),
            ConfigError::DensityNotFinite => "density_factor must be finite".to_owned(),
            ConfigError::DensityOutOfRange => "density_factor must be within (0, 2]".to_owned(),
            ConfigError::MoveSpeedNotFinite => "move_speed must be finite".to_owned(),
            ConfigError::MoveSpeedNotPositive => "move_speed must be positive".to_owned(),
            ConfigError::TimeStepNotFinite => "dt must be finite".to_owned(),
            ConfigError::TimeStepNotPositive => "dt must be positive".to_owned(),
            ConfigError::ClipperStartNotFinite => "clipper_initial_pos must be finite".to_owned(),
            ConfigError::BoundsInverted => "world bounds min must not exceed max".to_owned(),
            ConfigError::FloorAboveBounds => "floor_z must be at or below bounds.max.z".to_owned(),
        }
    }
}

} // verus!
