use termplay::pacing::PacingState;
use termplay::pixels::{ChannelOrder, FrameBuffer};
use termplay::player::{Player, PlayerAction, PlayerEvent, SetupError, StreamInfo};

fn small_frame(fill: u8) -> FrameBuffer {
    FrameBuffer { width: 2, height: 2, order: ChannelOrder::Bgr, data: vec![fill; 12] }
}

#[test]
fn two_frame_stream_emits_two_framed_writes_a_second_apart() {
    // synthetic 2-frame, 2x2-pixel, 1 fps stream; skip ratio 1; fixed 4x2 grid
    let mut player = Player { columns: 4, rows: 2, pacing: PacingState::new(1, 1) };
    let mut emitted: u32 = 0;
    for i in 0..2u8 {
        match player.step(PlayerEvent::Frame(small_frame(i))) {
            PlayerAction::Emit(bytes) => {
                // each rendered frame starts with the cursor-home sequence
                assert_eq!(&bytes[..3], b"\x1b[H");
                // 4x2 cells, one space pixel each
                assert_eq!(bytes.iter().filter(|&&b| b == b' ').count(), 8);
                assert_eq!(bytes.iter().filter(|&&b| b == b'\n').count(), 2);
                emitted += 1;
            }
            _ => panic!("every frame of a skip-ratio-1 stream is rendered"),
        }
    }
    assert_eq!(emitted, 2);
    // at 1 fps and skip ratio 1 the pacer holds a full second between frames
    assert_eq!(player.pacing.target_interval_ns, 1_000_000_000);
    assert_eq!(player.pacing.sleep_budget_ns(0), 1_000_000_000);
    match player.step(PlayerEvent::EndOfStream) {
        PlayerAction::Finish(bytes) => assert_eq!(bytes, b"\x1b[0m".to_vec()),
        _ => panic!("end of stream must finish playback"),
    }
}

#[test]
fn skip_ratio_three_renders_every_third_frame() {
    let mut player = Player { columns: 2, rows: 1, pacing: PacingState::new(3, 30) };
    let mut rendered: Vec<u64> = Vec::new();
    for i in 0..10u8 {
        match player.step(PlayerEvent::Frame(small_frame(i))) {
            PlayerAction::Emit(_) => rendered.push(player.pacing.frames_seen),
            PlayerAction::Skip => {}
            PlayerAction::Finish(_) => panic!("a frame never finishes playback"),
        }
    }
    assert_eq!(rendered, vec![3, 6, 9]);
}

#[test]
fn normal_end_finishes_with_the_reset_sequence() {
    let mut player = Player { columns: 2, rows: 1, pacing: PacingState::new(1, 30) };
    match player.step(PlayerEvent::EndOfStream) {
        PlayerAction::Finish(bytes) => assert_eq!(bytes, b"\x1b[0m".to_vec()),
        _ => panic!("end of stream must finish playback"),
    }
}

#[test]
fn decode_error_mid_stream_finishes_with_the_reset_sequence() {
    let mut player = Player { columns: 2, rows: 1, pacing: PacingState::new(1, 30) };
    match player.step(PlayerEvent::Frame(small_frame(1))) {
        PlayerAction::Emit(_) => {}
        _ => panic!("the first frame of a skip-ratio-1 stream is rendered"),
    }
    match player.step(PlayerEvent::DecodeFailed) {
        PlayerAction::Finish(bytes) => assert_eq!(bytes, b"\x1b[0m".to_vec()),
        _ => panic!("a decode error must finish playback"),
    }
}

#[test]
fn setup_resolves_geometry_from_the_terminal() {
    let info = StreamInfo { width: 1280, height: 640, fps: 30 };
    let player = Player::new(&info, Some((100, 10)), 3).unwrap();
    // 100 * 640 > 2 * 10 * 1280: width clamped to 2 * 10 * 1280 / 640 = 40
    assert_eq!(player.columns, 40);
    assert_eq!(player.rows, 10);
    assert_eq!(player.pacing.target_interval_ns, 100_000_000);
    assert_eq!(player.pacing.frames_seen, 0);
}

#[test]
fn setup_falls_back_without_a_terminal() {
    let info = StreamInfo { width: 1920, height: 960, fps: 25 };
    let player = Player::new(&info, None, 1).unwrap();
    assert_eq!(player.columns, 40);
    assert_eq!(player.rows, 20);
}

#[test]
fn zero_frame_rate_is_a_degenerate_rate() {
    let info = StreamInfo { width: 1920, height: 960, fps: 0 };
    assert_eq!(Player::new(&info, None, 1).unwrap_err(), SetupError::DegenerateRate);
}

#[test]
fn zero_stream_dimension_is_degenerate_geometry() {
    let info = StreamInfo { width: 0, height: 960, fps: 25 };
    assert_eq!(Player::new(&info, None, 1).unwrap_err(), SetupError::DegenerateGeometry);
    let info = StreamInfo { width: 1920, height: 0, fps: 25 };
    assert_eq!(Player::new(&info, None, 1).unwrap_err(), SetupError::DegenerateGeometry);
}

#[test]
fn zero_terminal_dimension_is_degenerate_geometry() {
    let info = StreamInfo { width: 1920, height: 960, fps: 25 };
    assert_eq!(
        Player::new(&info, Some((0, 24)), 1).unwrap_err(),
        SetupError::DegenerateGeometry
    );
}

#[test]
fn grid_that_resolves_to_zero_columns_is_degenerate_geometry() {
    // very tall source on a 1x1 terminal truncates the columns to zero
    let info = StreamInfo { width: 1, height: 100, fps: 25 };
    assert_eq!(
        Player::new(&info, Some((1, 1)), 1).unwrap_err(),
        SetupError::DegenerateGeometry
    );
}
