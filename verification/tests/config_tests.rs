use haircut_core::mqtt::{PublishPacket, QoS};
use haircut_core::{check_config, ConfigChecks, ConfigError};

fn valid() -> ConfigChecks {
    ConfigChecks {
        head_center_finite: true,
        head_radii_finite: true,
        head_radii_positive: true,
        bounds_finite: true,
        floor_finite: true,
        gravity_finite: true,
        nodes_per_strand: 12,
        base_num_strands: 650,
        clipper_radius_finite: true,
        clipper_radius_positive: true,
        damping_finite: true,
        damping_in_unit_range: true,
        rigidity_finite: true,
        rigidity_non_negative: true,
        hair_length_finite: true,
        hair_length_positive: true,
        density_finite: true,
        density_in_range: true,
        move_speed_finite: true,
        move_speed_positive: true,
        dt_finite: true,
        dt_positive: true,
        clipper_start_finite: true,
        bounds_ordered: true,
        floor_within_bounds: true,
    }
}

#[test]
fn valid_configuration_is_accepted() {
    assert_eq!(check_config(&valid()), Ok(()));
}

#[test]
fn zero_head_radius_is_rejected() {
    let mut c = valid();
    c.head_radii_positive = false;
    assert_eq!(check_config(&c), Err(ConfigError::HeadRadiiNotPositive));
    assert_eq!(
        ConfigError::HeadRadiiNotPositive.message(),
        "head radii must be positive"
    );
}

#[test]
fn too_few_nodes_are_rejected() {
    let mut c = valid();
    c.nodes_per_strand = 0;
    assert_eq!(check_config(&c), Err(ConfigError::TooFewNodes));
    c.nodes_per_strand = 1;
    assert_eq!(check_config(&c), Err(ConfigError::TooFewNodes));
    c.nodes_per_strand = 2;
    assert_eq!(check_config(&c), Ok(()));
}

#[test]
fn zero_strands_are_rejected() {
    let mut c = valid();
    c.base_num_strands = 0;
    let e = check_config(&c).unwrap_err();
    assert_eq!(e, ConfigError::NoStrands);
    assert_eq!(e.message(), "base_num_strands must be positive");
}

#[test]
fn negative_clipper_radius_is_rejected() {
    let mut c = valid();
    c.clipper_radius_positive = false;
    assert_eq!(check_config(&c), Err(ConfigError::ClipperRadiusNotPositive));
}

#[test]
fn non_finite_hair_length_is_rejected() {
    let mut c = valid();
    c.hair_length_finite = false;
    c.hair_length_positive = false;
    assert_eq!(check_config(&c), Err(ConfigError::HairLengthNotFinite));
    assert_eq!(
        ConfigError::HairLengthNotFinite.message(),
        "hair_length must be finite"
    );
}

#[test]
fn earliest_broken_rule_is_reported() {
    let mut c = valid();
    c.floor_within_bounds = false;
    c.dt_positive = false;
    c.gravity_finite = false;
    assert_eq!(check_config(&c), Err(ConfigError::GravityNotFinite));
    c.gravity_finite = true;
    assert_eq!(check_config(&c), Err(ConfigError::TimeStepNotPositive));
    c.dt_positive = true;
    assert_eq!(check_config(&c), Err(ConfigError::FloorAboveBounds));
    assert_eq!(
        ConfigError::FloorAboveBounds.message(),
        "floor_z must be at or below bounds.max.z"
    );
}

#[test]
fn each_message_names_its_rule() {
    assert_eq!(ConfigError::DampingOutOfRange.message(), "damping must be within [0, 1]");
    assert_eq!(
        ConfigError::DensityOutOfRange.message(),
        "density_factor must be within (0, 2]"
    );
    assert_eq!(
        ConfigError::BoundsInverted.message(),
        "world bounds min must not exceed max"
    );
    assert_eq!(
        ConfigError::ClipperStartNotFinite.message(),
        "clipper_initial_pos must be finite"
    );
    assert_eq!(ConfigError::RigidityNegative.message(), "rigidity must be non-negative");
}

#[test]
fn publish_packet_holds_its_fields() {
    let packet = PublishPacket {
        topic: std::sync::Arc::from("haircut/state"),
        payload: bytes::Bytes::from_static(b"{}"),
        qos: QoS::AtLeastOnce,
        retain: false,
        dup: false,
        packet_id: None,
    };
    assert_eq!(packet.qos, QoS::AtLeastOnce);
    assert_ne!(packet.qos, QoS::ExactlyOnce);
    assert_eq!(&*packet.topic, "haircut/state");
    assert_eq!(packet.payload.len(), 2);
}
