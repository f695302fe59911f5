use kira::sound::transport::Transport;
use kira::sound::{EndPosition, PlaybackPosition, Region};

#[test]
fn stops_at_end() {
    let mut transport = Transport::new(4, None, false, 1, 0);
    for i in 0..4 {
        assert_eq!(transport.position, i);
        assert!(transport.playing);
        transport.increment_position();
    }
    assert_eq!(transport.position, 4);
    assert!(!transport.playing);
}

#[test]
fn stops_at_start_when_playing_backwards() {
    let mut transport = Transport::new(4, None, true, 1, 0);
    for i in (0..4).rev() {
        assert_eq!(transport.position, i);
        assert!(transport.playing);
        transport.decrement_position();
    }
    assert_eq!(transport.position, -1);
    assert!(!transport.playing);
}

#[test]
fn test_start_position() {
    let transport = Transport::new(4, None, false, 1, 3);
    assert_eq!(transport.position, 3);
}

#[test]
fn start_position_reverse() {
    let transport = Transport::new(4, None, true, 1, 2);
    assert_eq!(transport.position, 1);
}

#[test]
fn loops() {
    let mut transport = Transport::new(
        10,
        Some(Region {
            start: PlaybackPosition::Samples(2),
            end: EndPosition::Custom(PlaybackPosition::Samples(5)),
        }),
        false,
        1,
        0,
    );
    for i in 0..5 {
        assert_eq!(transport.position, i);
        assert!(transport.playing);
        transport.increment_position();
    }
    for i in 2..5 {
        assert_eq!(transport.position, i);
        assert!(transport.playing);
        transport.increment_position();
    }
}

#[test]
fn loops_when_playing_backward() {
    let mut transport = Transport::new(
        10,
        Some(Region {
            start: PlaybackPosition::Samples(2),
            end: EndPosition::Custom(PlaybackPosition::Samples(5)),
        }),
        true,
        1,
        0,
    );
    for i in (2..10).rev() {
        assert_eq!(transport.position, i);
        assert!(transport.playing);
        transport.decrement_position();
    }
    for i in (2..5).rev() {
        assert_eq!(transport.position, i);
        assert!(transport.playing);
        transport.decrement_position();
    }
}

#[test]
fn loop_wrapping() {
    let mut transport = Transport::new(
        10,
        Some(Region {
            start: PlaybackPosition::Samples(2),
            end: EndPosition::Custom(PlaybackPosition::Samples(5)),
        }),
        false,
        1,
        0,
    );
    transport.position = 6;
    transport.increment_position();
    assert_eq!(transport.position, 4);
    transport.position = 1;
    transport.decrement_position();
    assert_eq!(transport.position, 3);
}

#[test]
fn seek_loop_wrapping() {
    let mut transport = Transport::new(
        10,
        Some(Region {
            start: PlaybackPosition::Samples(2),
            end: EndPosition::Custom(PlaybackPosition::Samples(5)),
        }),
        false,
        1,
        0,
    );
    transport.seek_to(7);
    assert_eq!(transport.position, 4);
    transport.seek_to(0);
    assert_eq!(transport.position, 3);
}

#[test]
fn seek_out_of_bounds() {
    let mut transport = Transport::new(10, None, false, 1, 0);
    transport.seek_to(-1);
    assert!(!transport.playing);
    let mut transport = Transport::new(10, None, false, 1, 0);
    transport.seek_to(11);
    assert!(!transport.playing);
}

#[test]
fn loop_region_can_end_at_end_of_audio() {
    let mut transport = Transport::new(
        6,
        Some(Region { start: PlaybackPosition::Samples(4), end: EndPosition::EndOfAudio }),
        false,
        1,
        5,
    );
    assert_eq!(transport.loop_region, Some((4, 6)));
    transport.increment_position();
    assert_eq!(transport.position, 4);
    assert!(transport.playing);
}

#[test]
fn far_positions_wrap_by_whole_loops() {
    let region = Some(Region {
        start: PlaybackPosition::Samples(10),
        end: EndPosition::Custom(PlaybackPosition::Samples(13)),
    });
    let mut transport = Transport::new(100, region, false, 1, 0);
    // 50 is 40 frames past the loop start, and 40 % 3 == 1
    transport.seek_to(50);
    assert_eq!(transport.position, 11);
    // -7 is 17 frames before the loop start, and -17 mod 3 == 1
    transport.seek_to(-7);
    assert_eq!(transport.position, 11);
    assert!(transport.playing);
}

#[test]
fn stepping_forward_then_backward_returns_inside_loop() {
    let region = Some(Region {
        start: PlaybackPosition::Samples(2),
        end: EndPosition::Custom(PlaybackPosition::Samples(5)),
    });
    for start in 2..5 {
        let mut transport = Transport::new(10, region, false, 1, start);
        transport.increment_position();
        assert!(transport.position >= 2 && transport.position < 5);
        transport.decrement_position();
        assert_eq!(transport.position, start);
        transport.decrement_position();
        assert!(transport.position >= 2 && transport.position < 5);
        transport.increment_position();
        assert_eq!(transport.position, start);
    }
}

#[test]
fn stopped_transport_stays_stopped() {
    let mut transport = Transport::new(2, None, false, 1, 1);
    transport.increment_position();
    assert!(!transport.playing);
    let stopped_at = transport.position;
    transport.increment_position();
    transport.decrement_position();
    assert_eq!(transport.position, stopped_at);
    transport.seek_to(0);
    assert!(!transport.playing);
    assert_eq!(transport.position, 0);
}

#[test]
fn set_loop_region_keeps_position() {
    let mut transport = Transport::new(10, None, false, 1, 7);
    transport.set_loop_region(
        Some(Region { start: PlaybackPosition::Samples(1), end: EndPosition::EndOfAudio }),
        1,
        10,
    );
    assert_eq!(transport.loop_region, Some((1, 10)));
    assert_eq!(transport.position, 7);
    transport.set_loop_region(None, 1, 10);
    assert_eq!(transport.loop_region, None);
}

#[test]
fn samples_position_converts_to_itself() {
    assert_eq!(PlaybackPosition::Samples(387465).into_samples(44100), 387465);
}

#[test]
fn looping_playback_never_stops() {
    let region = Region {
        start: PlaybackPosition::Samples(2),
        end: EndPosition::Custom(PlaybackPosition::Samples(5)),
    };
    let mut forward = Transport::new(10, Some(region), false, 1, 3);
    let mut backward = Transport::new(10, Some(region), false, 1, 3);
    for _ in 0..1000 {
        forward.increment_position();
        backward.decrement_position();
        assert!(forward.playing && backward.playing);
        assert!((2..5).contains(&forward.position));
        assert!((2..5).contains(&backward.position));
    }
}
