//! Tests of the Maestro protocol: frame building, channel validation, unit
//! conversion and response parsing.

use kinematics_controller::maestro::{
    convert_deg_to_quarter_micros, form_data, parse_moving_state, parse_position_response,
    position_to_quarter_micros, verify_channel_range, MaestroError, MovingState, CMD_SET_TARGET,
    MAX_CHANNEL,
};

#[test]
fn form_data_splits_payload() {
    let frame = form_data(CMD_SET_TARGET, 3, 1500);
    assert_eq!(frame, [0x84, 3, 92, 11]);
    // The two payload bytes reassemble to the data word.
    assert_eq!(frame[2] as u16 + 128 * frame[3] as u16, 1500);
    let frame = form_data(0x90, 0, 0);
    assert_eq!(frame, [0x90, 0, 0, 0]);
}

#[test]
fn channel_range_is_checked() {
    assert_eq!(verify_channel_range(0), Ok(()));
    assert_eq!(verify_channel_range(MAX_CHANNEL), Ok(()));
    assert_eq!(verify_channel_range(12), Err(MaestroError::InvalidChannel));
    assert_eq!(verify_channel_range(255), Err(MaestroError::InvalidChannel));
}

#[test]
fn position_response_is_little_endian() {
    assert_eq!(parse_position_response(0x34, 0x12), 0x1234);
    assert_eq!(parse_position_response(0, 0), 0);
    assert_eq!(parse_position_response(255, 255), 65535);
}

#[test]
fn moving_state_decodes() {
    assert_eq!(parse_moving_state(0), Ok(MovingState::ServosStopped));
    assert_eq!(parse_moving_state(1), Ok(MovingState::ServosMoving));
    assert_eq!(parse_moving_state(2), Err(MaestroError::InvalidMovingState));
    assert_eq!(parse_moving_state(-1), Err(MaestroError::InvalidMovingState));
}

#[test]
fn degrees_convert_to_quarter_micros() {
    // 15 degrees: 15 * 44.444 truncated is 666, plus the offset 1984.
    assert_eq!(convert_deg_to_quarter_micros(1_500_000_000), Ok(2650));
    assert_eq!(convert_deg_to_quarter_micros(0), Ok(1984));
    // 180 degrees: 7999.92 truncated is 7999.
    assert_eq!(convert_deg_to_quarter_micros(18_000_000_000), Ok(9983));
    assert_eq!(convert_deg_to_quarter_micros(-1), Err(MaestroError::OutOfBounds));
    assert_eq!(
        convert_deg_to_quarter_micros(18_000_000_001),
        Err(MaestroError::OutOfBounds)
    );
}

#[test]
fn positions_scale_to_quarter_micros() {
    assert_eq!(position_to_quarter_micros(0), 0);
    // 90 * 22.22222222 is 1999.9999998, truncated.
    assert_eq!(position_to_quarter_micros(90), 1999);
    // Large positions saturate.
    assert_eq!(position_to_quarter_micros(65535), 65535);
}
