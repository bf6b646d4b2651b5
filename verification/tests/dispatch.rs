use voice_relay::dispatch::{Attempt, Command, VoiceEvent, VoiceTick};
use voice_relay::registry::{DirectoryEntry, Reciever, Speaker};

fn frame(seed: i16) -> Vec<i16> {
    vec![seed, seed + 1, seed + 2, seed + 3, seed + 4, seed + 5]
}

fn human(name: &str) -> Option<DirectoryEntry> {
    Some(DirectoryEntry { name: name.to_string(), is_bot: false })
}

#[test]
fn first_frame_spawns_before_it_forwards() {
    let mut receiver = Reciever::new(900);
    let commands = receiver.dispatch_frame(7, Some(frame(1)));
    assert_eq!(
        commands,
        vec![
            Command::Spawn { ssrc: 7, pipeline: 0, channel: 900 },
            Command::Forward { ssrc: 7, pipeline: 0, attempt: Attempt::First, frame: frame(1) },
        ]
    );
    assert_eq!(
        receiver.speaker(7),
        Some(Speaker { ssrc: 7, identity: String::new(), pipeline: Some(0) })
    );
}

#[test]
fn later_frames_reuse_the_pipeline() {
    let mut receiver = Reciever::new(900);
    receiver.dispatch_frame(7, Some(frame(1)));
    let commands = receiver.dispatch_frame(7, Some(frame(2)));
    assert_eq!(
        commands,
        vec![Command::Forward { ssrc: 7, pipeline: 0, attempt: Attempt::First, frame: frame(2) }]
    );
    assert_eq!(receiver.handles_left(), u64::MAX - 1);
}

#[test]
fn n_frames_of_one_source_are_forwarded_once_each_in_order() {
    let mut receiver = Reciever::new(900);
    let mut forwarded: Vec<Vec<i16>> = Vec::new();
    let mut spawns = 0;
    for k in 0..20 {
        for command in receiver.dispatch_frame(3, Some(frame(k))) {
            match command {
                Command::Spawn { pipeline, .. } => {
                    assert_eq!(pipeline, 0);
                    spawns += 1;
                }
                Command::Forward { ssrc, pipeline, attempt, frame } => {
                    assert_eq!((ssrc, pipeline, attempt), (3, 0, Attempt::First));
                    forwarded.push(frame);
                }
                other => panic!("unexpected command {:?}", other),
            }
        }
    }
    assert_eq!(spawns, 1);
    let expected: Vec<Vec<i16>> = (0..20).map(frame).collect();
    assert_eq!(forwarded, expected);
}

#[test]
fn undecoded_frame_touches_nothing() {
    let mut receiver = Reciever::new(900);
    let commands = receiver.dispatch_frame(7, None);
    assert_eq!(commands, vec![Command::DecodeUnavailable { ssrc: 7 }]);
    assert_eq!(receiver.speaker(7), None);
    assert_eq!(receiver.handles_left(), u64::MAX);
}

#[test]
fn silence_finalizes_and_detaches() {
    let mut receiver = Reciever::new(900);
    receiver.resolve_identity(7, human("Ann"));
    receiver.dispatch_frame(7, Some(frame(1)));
    let commands = receiver.dispatch_silent(7);
    assert_eq!(commands, vec![Command::Finalize { ssrc: 7, pipeline: 0 }]);
    assert_eq!(
        receiver.speaker(7),
        Some(Speaker { ssrc: 7, identity: "Ann".to_string(), pipeline: None })
    );
}

#[test]
fn silence_without_a_pipeline_asks_for_nothing() {
    let mut receiver = Reciever::new(900);
    assert_eq!(receiver.dispatch_silent(7), Vec::<Command>::new());
    assert_eq!(receiver.speaker(7), None);
    receiver.get_or_create(8);
    assert_eq!(receiver.dispatch_silent(8), Vec::<Command>::new());
}

#[test]
fn a_new_utterance_gets_a_fresh_pipeline() {
    let mut receiver = Reciever::new(900);
    receiver.dispatch_frame(7, Some(frame(1)));
    receiver.dispatch_silent(7);
    let commands = receiver.dispatch_frame(7, Some(frame(2)));
    assert_eq!(
        commands,
        vec![
            Command::Spawn { ssrc: 7, pipeline: 1, channel: 900 },
            Command::Forward { ssrc: 7, pipeline: 1, attempt: Attempt::First, frame: frame(2) },
        ]
    );
}

#[test]
fn first_failure_respawns_and_retries() {
    let mut receiver = Reciever::new(900);
    receiver.dispatch_frame(7, Some(frame(1)));
    let commands = receiver.delivery_failed(7, 0, Attempt::First, frame(1));
    assert_eq!(
        commands,
        vec![
            Command::Spawn { ssrc: 7, pipeline: 1, channel: 900 },
            Command::Forward { ssrc: 7, pipeline: 1, attempt: Attempt::Retry, frame: frame(1) },
        ]
    );
    assert_eq!(receiver.speaker(7).unwrap().pipeline, Some(1));
}

#[test]
fn second_failure_drops_the_frame_and_detaches() {
    let mut receiver = Reciever::new(900);
    receiver.dispatch_frame(7, Some(frame(1)));
    receiver.delivery_failed(7, 0, Attempt::First, frame(1));
    let commands = receiver.delivery_failed(7, 1, Attempt::Retry, frame(1));
    assert_eq!(commands, vec![Command::Dropped { ssrc: 7 }]);
    assert_eq!(receiver.speaker(7).unwrap().pipeline, None);
    assert_eq!(receiver.handles_left(), u64::MAX - 2);
}

#[test]
fn failure_of_a_detached_pipeline_changes_nothing() {
    let mut receiver = Reciever::new(900);
    receiver.dispatch_frame(7, Some(frame(1)));
    receiver.dispatch_silent(7);
    let commands = receiver.delivery_failed(7, 0, Attempt::First, frame(1));
    assert_eq!(commands, vec![Command::Dropped { ssrc: 7 }]);
    assert_eq!(receiver.speaker(7).unwrap().pipeline, None);
    assert_eq!(receiver.handles_left(), u64::MAX - 1);
    let unknown = receiver.delivery_failed(99, 0, Attempt::First, frame(1));
    assert_eq!(unknown, vec![Command::Dropped { ssrc: 99 }]);
    assert_eq!(receiver.speaker(99), None);
}

#[test]
fn tick_handles_speaking_then_silent_in_order() {
    let mut receiver = Reciever::new(900);
    receiver.dispatch_frame(1, Some(frame(0)));
    receiver.dispatch_frame(2, Some(frame(0)));
    let tick = VoiceTick {
        speaking: vec![(3, Some(frame(30))), (1, Some(frame(10))), (4, None)],
        silent: vec![2, 5],
    };
    let commands = receiver.dispatch_tick(tick);
    assert_eq!(
        commands,
        vec![
            Command::Spawn { ssrc: 3, pipeline: 2, channel: 900 },
            Command::Forward { ssrc: 3, pipeline: 2, attempt: Attempt::First, frame: frame(30) },
            Command::Forward { ssrc: 1, pipeline: 0, attempt: Attempt::First, frame: frame(10) },
            Command::DecodeUnavailable { ssrc: 4 },
            Command::Finalize { ssrc: 2, pipeline: 1 },
        ]
    );
    assert_eq!(receiver.speaker(1).unwrap().pipeline, Some(0));
    assert_eq!(receiver.speaker(2).unwrap().pipeline, None);
    assert_eq!(receiver.speaker(3).unwrap().pipeline, Some(2));
    assert_eq!(receiver.speaker(4), None);
    assert_eq!(receiver.speaker(5), None);
}

#[test]
fn empty_tick_asks_for_nothing() {
    let mut receiver = Reciever::new(900);
    let commands = receiver.dispatch_tick(VoiceTick { speaking: vec![], silent: vec![] });
    assert_eq!(commands, Vec::<Command>::new());
}

#[test]
fn source_that_speaks_and_falls_silent_in_one_tick_ends_detached() {
    let mut receiver = Reciever::new(900);
    let tick = VoiceTick { speaking: vec![(1, Some(frame(1)))], silent: vec![1] };
    let commands = receiver.dispatch_tick(tick);
    assert_eq!(
        commands,
        vec![
            Command::Spawn { ssrc: 1, pipeline: 0, channel: 900 },
            Command::Forward { ssrc: 1, pipeline: 0, attempt: Attempt::First, frame: frame(1) },
            Command::Finalize { ssrc: 1, pipeline: 0 },
        ]
    );
    assert_eq!(receiver.speaker(1).unwrap().pipeline, None);
}

#[test]
fn no_two_sources_ever_share_a_pipeline() {
    let mut receiver = Reciever::new(900);
    for round in 0..5i16 {
        let speaking = (0..8u32).map(|s| (s, Some(frame(round)))).collect();
        let silent = (0..8u32).filter(|s| (s + round as u32) % 3 == 0).collect();
        receiver.dispatch_tick(VoiceTick { speaking, silent });
        receiver.delivery_failed(round as u32, round as u64, Attempt::First, frame(round));
        let mut seen: Vec<u64> = Vec::new();
        for s in 0..8u32 {
            if let Some(Speaker { pipeline: Some(handle), .. }) = receiver.speaker(s) {
                assert!(!seen.contains(&handle));
                seen.push(handle);
            }
        }
    }
}

#[test]
fn act_on_driver_connect_does_nothing() {
    let mut receiver = Reciever::new(900);
    assert_eq!(receiver.act(VoiceEvent::DriverConnect), Vec::<Command>::new());
    assert_eq!(receiver.handles_left(), u64::MAX);
}

#[test]
fn act_on_speaking_state_update_resolves() {
    let mut receiver = Reciever::new(900);
    let commands = receiver.act(VoiceEvent::SpeakingStateUpdate { ssrc: 4, lookup: human("Ann") });
    assert_eq!(commands, Vec::<Command>::new());
    assert_eq!(receiver.identity(4), "Ann");
    receiver.act(VoiceEvent::SpeakingStateUpdate { ssrc: 4, lookup: None });
    assert_eq!(receiver.identity(4), "Ann");
}

#[test]
fn act_on_tick_and_failure_matches_the_single_steps() {
    let mut receiver = Reciever::new(900);
    let tick = VoiceTick { speaking: vec![(1, Some(frame(1)))], silent: vec![] };
    let commands = receiver.act(VoiceEvent::VoiceTick(tick));
    assert_eq!(
        commands,
        vec![
            Command::Spawn { ssrc: 1, pipeline: 0, channel: 900 },
            Command::Forward { ssrc: 1, pipeline: 0, attempt: Attempt::First, frame: frame(1) },
        ]
    );
    let retry = receiver.act(VoiceEvent::DeliveryFailed {
        ssrc: 1,
        pipeline: 0,
        attempt: Attempt::First,
        frame: frame(1),
    });
    assert_eq!(
        retry,
        vec![
            Command::Spawn { ssrc: 1, pipeline: 1, channel: 900 },
            Command::Forward { ssrc: 1, pipeline: 1, attempt: Attempt::Retry, frame: frame(1) },
        ]
    );
}

#[test]
fn identity_resolved_after_audio_is_the_one_in_use() {
    let mut receiver = Reciever::new(900);
    receiver.dispatch_frame(9, Some(frame(1)));
    assert_eq!(receiver.identity(9), "");
    receiver.resolve_identity(9, human("Ann"));
    receiver.dispatch_frame(9, Some(frame(2)));
    receiver.dispatch_silent(9);
    receiver.dispatch_frame(9, Some(frame(3)));
    receiver.delivery_failed(9, 1, Attempt::First, frame(3));
    assert_eq!(receiver.identity(9), "Ann");
    receiver.resolve_identity(9, human("Bea"));
    receiver.dispatch_tick(VoiceTick { speaking: vec![(9, Some(frame(4)))], silent: vec![9] });
    assert_eq!(receiver.identity(9), "Bea");
}

#[test]
fn fresh_registry_has_handles_for_every_event() {
    let receiver = Reciever::new(900);
    assert!(receiver.has_handles_for(&VoiceEvent::DriverConnect));
    assert!(receiver.has_handles_for(&VoiceEvent::SpeakingStateUpdate { ssrc: 1, lookup: None }));
    assert!(receiver.has_handles_for(&VoiceEvent::VoiceTick(VoiceTick {
        speaking: vec![(1, Some(frame(1))), (2, None)],
        silent: vec![3],
    })));
    assert!(receiver.has_handles_for(&VoiceEvent::DeliveryFailed {
        ssrc: 1,
        pipeline: 0,
        attempt: Attempt::First,
        frame: frame(1),
    }));
}
