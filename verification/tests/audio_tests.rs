use mirrorx_core::audio::{
    copy_block, fill_from, send_counts, signal_forbids, AudioParams, AudioPlayer, AudioSampleFormat,
    DecodeContext, DecoderCreation, DecodingPlayer, EndPointAudioFrame, PlayAction, PlayEvent,
    PlayStage,
    PlaybackContext, SessionState, StreamSettings, SAMPLE_QUEUE_CAPACITY,
};
use mirrorx_core::channels::{RecvFailure, SendStatus};
use mirrorx_core::error::{CoreError, DecodeFailure};

const CREATED: DecoderCreation = DecoderCreation { handle_is_null: false, error_code: 0 };

fn params(sample_rate: u32, channels: u8, frame_size: u16) -> AudioParams {
    AudioParams { sample_rate, channels, frame_size }
}

fn decode_failed(cause: DecodeFailure) -> CoreError {
    CoreError::DecodeFailed { cause }
}

#[test]
fn decode_context_sizes_its_scratch_buffer() {
    let ctx = DecodeContext::<f32>::new(48000, 2, 960, CREATED, 0.0).unwrap();
    assert_eq!(ctx.capacity(), 1920);
    assert_eq!(ctx.sample_rate(), 48000);
    assert_eq!(ctx.channels(), 2);
    assert_eq!(ctx.frame_size(), 960);
}

#[test]
fn decode_context_of_the_largest_triple_does_not_wrap() {
    let ctx = DecodeContext::<u8>::new(48000, 255, 65535, CREATED, 0).unwrap();
    assert_eq!(ctx.capacity(), 65535 * 255);
}

#[test]
fn decode_context_without_channels_has_an_empty_scratch() {
    let ctx = DecodeContext::<f32>::new(8000, 0, 960, CREATED, 0.0).unwrap();
    assert_eq!(ctx.capacity(), 0);
    assert_eq!(ctx.decode(0).unwrap().len(), 0);
}

#[test]
fn decode_context_reports_a_missing_handle() {
    let created = DecoderCreation { handle_is_null: true, error_code: 0 };
    let built = DecodeContext::<f32>::new(48000, 2, 960, created, 0.0);
    assert_eq!(built.err(), Some(decode_failed(DecodeFailure::NoHandle)));
    let both = DecoderCreation { handle_is_null: true, error_code: -1 };
    let built = DecodeContext::<f32>::new(48000, 2, 960, both, 0.0);
    assert_eq!(built.err(), Some(decode_failed(DecodeFailure::NoHandle)));
}

#[test]
fn decode_context_reports_the_create_code() {
    let created = DecoderCreation { handle_is_null: false, error_code: -1 };
    let built = DecodeContext::<f32>::new(44100, 2, 960, created, 0.0);
    assert_eq!(built.err(), Some(decode_failed(DecodeFailure::CreateCode(-1))));
}

#[test]
fn decoding_a_zero_length_buffer_gives_zero_samples_or_decode_failed() {
    let rates = [8000u32, 12000, 16000, 24000, 48000];
    for rate in rates {
        for channels in 1u8..=2 {
            for frame_size in [120u16, 480, 960, 2880] {
                let ctx =
                    DecodeContext::<f32>::new(rate, channels, frame_size, CREATED, 0.0).unwrap();
                assert_eq!(ctx.decode(0).unwrap().len(), 0);
                assert_eq!(ctx.decode(-4).err(), Some(decode_failed(DecodeFailure::Native(-4))));
                assert_eq!(ctx.capacity(), frame_size as usize * channels as usize);
            }
        }
    }
}

#[test]
fn decode_hands_out_the_front_of_the_scratch_buffer() {
    let mut ctx = DecodeContext::<f32>::new(48000, 2, 4, CREATED, 0.0).unwrap();
    ctx.store(&[1.0, 2.0, 3.0, 4.0, 5.0, 6.0]);
    assert_eq!(ctx.capacity(), 8);
    assert_eq!(ctx.decode(2).unwrap(), &[1.0, 2.0, 3.0, 4.0]);
    assert_eq!(ctx.decode(3).unwrap(), &[1.0, 2.0, 3.0, 4.0, 5.0, 6.0]);
    assert_eq!(ctx.decode(4).unwrap(), &[1.0, 2.0, 3.0, 4.0, 5.0, 6.0, 0.0, 0.0]);
    assert_eq!(ctx.decode(i32::MIN).err(), Some(decode_failed(DecodeFailure::Native(i32::MIN))));
}

#[test]
fn store_keeps_the_tail_and_the_length() {
    let mut ctx = DecodeContext::<i16>::new(48000, 1, 4, CREATED, 7).unwrap();
    ctx.store(&[1, 2]);
    assert_eq!(ctx.decode(4).unwrap(), &[1, 2, 7, 7]);
    ctx.store(&[]);
    assert_eq!(ctx.decode(4).unwrap(), &[1, 2, 7, 7]);
    ctx.store(&[9, 9, 9, 9]);
    assert_eq!(ctx.decode(4).unwrap(), &[9, 9, 9, 9]);
    assert_eq!(ctx.capacity(), 4);
}

#[test]
fn copy_block_leaves_the_tail_on_underrun() {
    let mut data = [9.0f32; 6];
    let copied = copy_block(&[1.0, 2.0], &mut data);
    assert_eq!(copied, 2);
    assert_eq!(data, [1.0, 2.0, 9.0, 9.0, 9.0, 9.0]);
}

#[test]
fn copy_block_cuts_a_block_that_is_too_long() {
    let mut data = [0u8; 3];
    let copied = copy_block(&[1, 2, 3, 4, 5], &mut data);
    assert_eq!(copied, 3);
    assert_eq!(data, [1, 2, 3]);
    let mut none: [u8; 0] = [];
    assert_eq!(copy_block(&[1, 2], &mut none), 0);
    assert_eq!(copy_block(&[], &mut data), 0);
    assert_eq!(data, [1, 2, 3]);
}

#[test]
fn playback_settings_follow_the_parameters() {
    let parts = PlaybackContext::<f32>::new(48000, 2, 960);
    assert_eq!(
        parts.settings,
        StreamSettings { channels: 2, sample_rate: 48000, buffer_frames: 960 }
    );
    assert_eq!(SAMPLE_QUEUE_CAPACITY, 64);
}

#[test]
fn enqueued_samples_reach_the_output_callback_in_order() {
    let mut parts = PlaybackContext::<f32>::new(48000, 2, 2);
    assert!(parts.context.enqueue_samples(&[1.0, 2.0, 3.0, 4.0]));
    assert!(parts.context.enqueue_samples(&[5.0, 6.0]));
    let mut data = [0.0f32; 4];
    assert_eq!(parts.source.fill(&mut data), 4);
    assert_eq!(data, [1.0, 2.0, 3.0, 4.0]);
    assert_eq!(parts.source.fill(&mut data), 2);
    assert_eq!(data, [5.0, 6.0, 3.0, 4.0]);
    assert_eq!(parts.source.fill(&mut data), 0);
    assert_eq!(data, [5.0, 6.0, 3.0, 4.0]);
}

#[test]
fn a_full_sample_queue_drops_the_block_but_counts_as_queued() {
    let mut parts = PlaybackContext::<u8>::new(48000, 1, 1);
    for block in 0..SAMPLE_QUEUE_CAPACITY {
        assert!(parts.context.enqueue_samples(&[block as u8]));
    }
    assert!(parts.context.enqueue_samples(&[200]));
    let mut data = [0u8; 1];
    for block in 0..SAMPLE_QUEUE_CAPACITY {
        assert_eq!(parts.source.fill(&mut data), 1);
        assert_eq!(data[0], block as u8);
    }
    assert_eq!(parts.source.fill(&mut data), 0);
}

#[test]
fn enqueue_fails_once_the_failure_signal_fired() {
    let mut parts = PlaybackContext::<f32>::new(48000, 2, 960);
    assert!(parts.context.enqueue_samples(&[0.5]));
    assert!(parts.signal.fire());
    assert!(!parts.context.enqueue_samples(&[0.5]));
    let mut data = [0.0f32; 1];
    assert_eq!(parts.source.fill(&mut data), 1);
    assert_eq!(parts.source.fill(&mut data), 0);
}

#[test]
fn enqueue_fails_when_the_signal_is_disconnected() {
    let parts = PlaybackContext::<f32>::new(48000, 2, 960);
    let mut context = parts.context;
    drop(parts.signal);
    assert!(!context.enqueue_samples(&[0.5]));
}

#[test]
fn enqueue_fails_when_the_sample_queue_is_closed() {
    let parts = PlaybackContext::<f32>::new(48000, 2, 960);
    let mut context = parts.context;
    let signal = parts.signal;
    drop(parts.source);
    assert!(!context.enqueue_samples(&[0.5]));
    drop(context);
    assert!(!signal.fire());
}

#[test]
fn verdicts_on_polls_and_sends() {
    assert!(signal_forbids(Ok(())));
    assert!(signal_forbids(Err(RecvFailure::Disconnected)));
    assert!(!signal_forbids(Err(RecvFailure::Empty)));
    assert!(send_counts(SendStatus::Sent));
    assert!(send_counts(SendStatus::Full));
    assert!(!send_counts(SendStatus::Closed));
}

#[test]
fn frame_announces_its_parameters_without_the_format() {
    let frame = EndPointAudioFrame {
        params: Some((48000, AudioSampleFormat::F32, 2, 960)),
        buffer: vec![1, 2, 3],
    };
    assert_eq!(frame.announced_params(), Some(params(48000, 2, 960)));
    let bare = EndPointAudioFrame { params: None, buffer: Vec::new() };
    assert_eq!(bare.announced_params(), None);
}

fn play_frame(
    player: &mut AudioPlayer,
    announced: Option<AudioParams>,
    decoded: i32,
    builds: &mut (usize, usize),
) -> Result<(), CoreError> {
    let mut action = player.play_samples(PlayEvent::Frame(announced));
    loop {
        action = match action {
            PlayAction::BuildDecoder(_) => {
                builds.0 += 1;
                player.play_samples(PlayEvent::DecoderBuilt(Ok(())))
            }
            PlayAction::BuildPlayback(_) => {
                builds.1 += 1;
                player.play_samples(PlayEvent::PlaybackBuilt(true))
            }
            PlayAction::Decode => player.play_samples(PlayEvent::Decoded(decoded)),
            PlayAction::Enqueue(_) => player.play_samples(PlayEvent::Enqueued(true)),
            PlayAction::Finish(result) => return result,
            other => panic!("unexpected action {:?}", other),
        };
    }
}

#[test]
fn parameterless_frames_reuse_the_contexts_until_parameters_change() {
    let mut player = AudioPlayer::new();
    let mut builds = (0usize, 0usize);
    assert_eq!(play_frame(&mut player, Some(params(48000, 2, 960)), 960, &mut builds), Ok(()));
    assert_eq!(builds, (1, 1));
    assert_eq!(player.contexts, Some(params(48000, 2, 960)));
    for _ in 0..3 {
        assert_eq!(play_frame(&mut player, None, 960, &mut builds), Ok(()));
        assert_eq!(builds, (1, 1));
        assert_eq!(player.contexts, Some(params(48000, 2, 960)));
    }
    assert_eq!(play_frame(&mut player, Some(params(24000, 1, 480)), 480, &mut builds), Ok(()));
    assert_eq!(builds, (2, 2));
    assert_eq!(player.contexts, Some(params(24000, 1, 480)));
    assert_eq!(player.stage, PlayStage::Idle);
}

#[test]
fn a_frame_asks_for_the_decoded_samples_times_channels() {
    let mut player = AudioPlayer::new();
    let announced = params(48000, 2, 960);
    assert_eq!(
        player.play_samples(PlayEvent::Frame(Some(announced))),
        PlayAction::BuildDecoder(announced)
    );
    assert_eq!(player.contexts, None);
    assert_eq!(
        player.play_samples(PlayEvent::DecoderBuilt(Ok(()))),
        PlayAction::BuildPlayback(announced)
    );
    assert_eq!(player.contexts, None);
    assert_eq!(player.play_samples(PlayEvent::PlaybackBuilt(true)), PlayAction::Decode);
    assert_eq!(player.contexts, Some(announced));
    assert_eq!(player.play_samples(PlayEvent::Decoded(480)), PlayAction::Enqueue(960));
    assert_eq!(player.play_samples(PlayEvent::Enqueued(true)), PlayAction::Finish(Ok(())));
    assert_eq!(player.stage, PlayStage::Idle);
}

fn player_enqueueing(samples_per_channel: i32) -> AudioPlayer {
    let mut player = AudioPlayer::new();
    player.play_samples(PlayEvent::Frame(Some(params(48000, 2, 960))));
    player.play_samples(PlayEvent::DecoderBuilt(Ok(())));
    player.play_samples(PlayEvent::PlaybackBuilt(true));
    player.play_samples(PlayEvent::Decoded(samples_per_channel));
    player
}

#[test]
fn a_refused_enqueue_is_retried_once_on_a_fresh_stream() {
    let mut player = player_enqueueing(960);
    assert_eq!(
        player.play_samples(PlayEvent::Enqueued(false)),
        PlayAction::RebuildPlayback(params(48000, 2, 960))
    );
    assert_eq!(player.play_samples(PlayEvent::PlaybackBuilt(true)), PlayAction::RetryEnqueue(1920));
    assert_eq!(player.play_samples(PlayEvent::Enqueued(true)), PlayAction::Finish(Ok(())));
    assert_eq!(player.stage, PlayStage::Idle);
    assert_eq!(player.contexts, Some(params(48000, 2, 960)));
}

#[test]
fn a_second_refusal_is_unrecoverable_and_asks_for_no_third_stream() {
    let mut player = player_enqueueing(960);
    let mut rebuilds = 0;
    let mut action = player.play_samples(PlayEvent::Enqueued(false));
    if matches!(action, PlayAction::RebuildPlayback(_)) {
        rebuilds += 1;
    }
    action = player.play_samples(PlayEvent::PlaybackBuilt(true));
    assert_eq!(action, PlayAction::RetryEnqueue(1920));
    action = player.play_samples(PlayEvent::Enqueued(false));
    assert_eq!(action, PlayAction::Finish(Err(CoreError::PlaybackUnrecoverable)));
    assert_eq!(player.stage, PlayStage::Failed(CoreError::PlaybackUnrecoverable));
    for event in [
        PlayEvent::Enqueued(false),
        PlayEvent::PlaybackBuilt(true),
        PlayEvent::Frame(None),
        PlayEvent::Frame(Some(params(48000, 2, 960))),
        PlayEvent::Decoded(1),
    ] {
        action = player.play_samples(event);
        assert_eq!(action, PlayAction::Finish(Err(CoreError::PlaybackUnrecoverable)));
    }
    assert_eq!(rebuilds, 1);
}

#[test]
fn a_fresh_stream_that_cannot_be_opened_fails_the_session() {
    let mut player = player_enqueueing(10);
    player.play_samples(PlayEvent::Enqueued(false));
    assert_eq!(
        player.play_samples(PlayEvent::PlaybackBuilt(false)),
        PlayAction::Finish(Err(CoreError::PlaybackInitFailed))
    );
    assert_eq!(player.stage, PlayStage::Failed(CoreError::PlaybackInitFailed));
}

#[test]
fn a_frame_without_parameters_before_any_context_fails() {
    let mut player = AudioPlayer::new();
    assert_eq!(
        player.play_samples(PlayEvent::Frame(None)),
        PlayAction::Finish(Err(decode_failed(DecodeFailure::NotInitialized)))
    );
    assert_eq!(player.stage, PlayStage::Failed(decode_failed(DecodeFailure::NotInitialized)));
}

#[test]
fn a_negative_decoder_code_fails_the_session() {
    let mut player = AudioPlayer::new();
    player.play_samples(PlayEvent::Frame(Some(params(48000, 2, 960))));
    player.play_samples(PlayEvent::DecoderBuilt(Ok(())));
    player.play_samples(PlayEvent::PlaybackBuilt(true));
    assert_eq!(
        player.play_samples(PlayEvent::Decoded(-3)),
        PlayAction::Finish(Err(decode_failed(DecodeFailure::Native(-3))))
    );
}

#[test]
fn a_decoder_or_stream_that_cannot_be_built_keeps_the_old_contexts() {
    let mut first = AudioPlayer::new();
    let mut builds = (0, 0);
    play_frame(&mut first, Some(params(48000, 2, 960)), 960, &mut builds).unwrap();

    let mut player = first;
    player.play_samples(PlayEvent::Frame(Some(params(16000, 1, 320))));
    let refusal = decode_failed(DecodeFailure::CreateCode(-1));
    assert_eq!(
        player.play_samples(PlayEvent::DecoderBuilt(Err(refusal))),
        PlayAction::Finish(Err(refusal))
    );
    assert_eq!(player.contexts, Some(params(48000, 2, 960)));

    let mut player = first;
    player.play_samples(PlayEvent::Frame(Some(params(16000, 1, 320))));
    player.play_samples(PlayEvent::DecoderBuilt(Ok(())));
    assert_eq!(
        player.play_samples(PlayEvent::PlaybackBuilt(false)),
        PlayAction::Finish(Err(CoreError::PlaybackInitFailed))
    );
    assert_eq!(player.contexts, Some(params(48000, 2, 960)));
}

#[test]
fn events_out_of_turn_change_nothing() {
    let mut player = AudioPlayer::new();
    assert_eq!(player.play_samples(PlayEvent::Enqueued(true)), PlayAction::Ignored);
    assert_eq!(player.play_samples(PlayEvent::Decoded(5)), PlayAction::Ignored);
    assert_eq!(player, AudioPlayer::new());
    let mut busy = player_enqueueing(1);
    let before = busy;
    assert_eq!(busy.play_samples(PlayEvent::Frame(None)), PlayAction::Ignored);
    assert_eq!(busy, before);
}

#[test]
fn rejects_tells_an_impossible_sample_count() {
    let mut player = AudioPlayer::new();
    player.play_samples(PlayEvent::Frame(Some(params(48000, 2, 960))));
    player.play_samples(PlayEvent::DecoderBuilt(Ok(())));
    assert!(!player.rejects(&PlayEvent::Decoded(961)));
    player.play_samples(PlayEvent::PlaybackBuilt(true));
    assert!(player.rejects(&PlayEvent::Decoded(961)));
    assert!(!player.rejects(&PlayEvent::Decoded(960)));
    assert!(!player.rejects(&PlayEvent::Decoded(-1)));
    assert!(!player.rejects(&PlayEvent::Enqueued(true)));
}

#[test]
fn a_player_is_well_formed_at_every_stage_of_a_frame() {
    let mut player = AudioPlayer::new();
    assert!(player.is_well_formed());
    for event in [
        PlayEvent::Frame(Some(params(48000, 2, 960))),
        PlayEvent::DecoderBuilt(Ok(())),
        PlayEvent::PlaybackBuilt(true),
        PlayEvent::Decoded(960),
        PlayEvent::Enqueued(false),
        PlayEvent::PlaybackBuilt(true),
        PlayEvent::Enqueued(true),
    ] {
        player.play_samples(event);
        assert!(player.is_well_formed());
    }
    let broken = AudioPlayer { contexts: None, stage: PlayStage::Decoding };
    assert!(!broken.is_well_formed());
    let overfull =
        AudioPlayer { contexts: Some(params(48000, 2, 960)), stage: PlayStage::Enqueueing(1921) };
    assert!(!overfull.is_well_formed());
}

#[test]
fn the_session_goes_from_uninitialized_to_active_to_failed() {
    let mut player = AudioPlayer::new();
    assert_eq!(player.state(), SessionState::Uninitialized);
    player.play_samples(PlayEvent::Frame(Some(params(48000, 2, 960))));
    assert_eq!(player.state(), SessionState::Uninitialized);
    player.play_samples(PlayEvent::DecoderBuilt(Ok(())));
    assert_eq!(player.state(), SessionState::Uninitialized);
    player.play_samples(PlayEvent::PlaybackBuilt(true));
    assert_eq!(player.state(), SessionState::Active);
    player.play_samples(PlayEvent::Decoded(960));
    player.play_samples(PlayEvent::Enqueued(true));
    assert_eq!(player.state(), SessionState::Active);
    player.play_samples(PlayEvent::Frame(Some(params(24000, 1, 480))));
    assert_eq!(player.state(), SessionState::Reconfiguring);
    player.play_samples(PlayEvent::DecoderBuilt(Ok(())));
    assert_eq!(player.state(), SessionState::Reconfiguring);
    player.play_samples(PlayEvent::PlaybackBuilt(true));
    assert_eq!(player.state(), SessionState::Active);
    player.play_samples(PlayEvent::Decoded(-1));
    assert_eq!(player.state(), SessionState::Failed);
}

#[test]
fn a_full_store_fills_the_whole_scratch_buffer() {
    let mut ctx = DecodeContext::<f32>::new(48000, 2, 960, CREATED, 0.0).unwrap();
    ctx.store(&[0.25; 1920]);
    assert_eq!(ctx.capacity(), 1920);
    assert_eq!(ctx.decode(960).unwrap().len(), 1920);
    assert_eq!(ctx.decode(1).unwrap(), &[0.25, 0.25]);
}

#[test]
fn fill_from_copies_a_polled_block_as_far_as_it_fits() {
    let mut data = [9.0f32; 4];
    assert_eq!(fill_from(Ok(vec![1.0, 2.0]), &mut data), 2);
    assert_eq!(data, [1.0, 2.0, 9.0, 9.0]);
    assert_eq!(fill_from(Ok(vec![3.0, 4.0, 5.0, 6.0, 7.0]), &mut data), 4);
    assert_eq!(data, [3.0, 4.0, 5.0, 6.0]);
    assert_eq!(fill_from(Ok(Vec::new()), &mut data), 0);
    assert_eq!(data, [3.0, 4.0, 5.0, 6.0]);
}

#[test]
fn fill_from_leaves_the_buffer_without_a_block() {
    let mut data = [7u8, 8, 9];
    assert_eq!(fill_from(Err(RecvFailure::Empty), &mut data), 0);
    assert_eq!(data, [7, 8, 9]);
    assert_eq!(fill_from(Err(RecvFailure::Disconnected), &mut data), 0);
    assert_eq!(data, [7, 8, 9]);
}

#[test]
fn fill_after_the_player_is_gone_drains_what_was_queued() {
    let parts = PlaybackContext::<u8>::new(48000, 1, 4);
    let mut context = parts.context;
    let mut source = parts.source;
    assert!(context.enqueue_samples(&[1, 2, 3]));
    drop(context);
    let mut data = [0u8; 2];
    assert_eq!(source.fill(&mut data), 2);
    assert_eq!(data, [1, 2]);
    assert_eq!(source.fill(&mut data), 0);
    assert_eq!(data, [1, 2]);
}

#[test]
fn the_decoder_is_given_room_for_one_frame_per_channel() {
    let ctx = DecodeContext::<f32>::new(48000, 2, 960, CREATED, 0.0).unwrap();
    assert_eq!(ctx.output_room(), 960);
    assert_eq!(ctx.output_room() as usize * ctx.channels() as usize, ctx.capacity());
    let mono = DecodeContext::<f32>::new(16000, 1, 320, CREATED, 0.0).unwrap();
    assert_eq!(mono.output_room(), 320);
    assert_eq!(mono.capacity(), 320);
}

#[test]
fn the_players_decoder_is_the_one_built_for_the_parameters_in_use() {
    let first = DecodeContext::<f32>::new(48000, 2, 960, CREATED, 0.0).unwrap();
    let second = DecodeContext::<f32>::new(24000, 1, 480, CREATED, 0.0).unwrap();
    let mut player = AudioPlayer::new();
    assert!(!player.decoder_fits(&first));
    let mut builds = (0, 0);
    play_frame(&mut player, Some(params(48000, 2, 960)), 960, &mut builds).unwrap();
    assert!(player.decoder_fits(&first));
    assert!(!player.decoder_fits(&second));
    play_frame(&mut player, None, 960, &mut builds).unwrap();
    assert!(player.decoder_fits(&first));
    player.play_samples(PlayEvent::Frame(Some(params(24000, 1, 480))));
    player.play_samples(PlayEvent::DecoderBuilt(Ok(())));
    assert!(player.decoder_fits(&first));
    player.play_samples(PlayEvent::PlaybackBuilt(true));
    assert!(player.decoder_fits(&second));
    assert!(!player.decoder_fits(&first));
    player.play_samples(PlayEvent::Decoded(-1));
    assert!(player.decoder_fits(&second));
    assert_eq!(second.capacity(), 480);
}

#[test]
fn a_poll_that_forbids_means_nothing_is_sent() {
    let mut parts = PlaybackContext::<u8>::new(48000, 1, 4);
    assert!(!parts.context.is_failed());
    assert!(parts.signal.fire());
    assert!(!parts.context.enqueue_samples(&[1, 2]));
    assert!(parts.context.is_failed());
    let mut data = [0u8; 2];
    assert_eq!(parts.source.fill(&mut data), 0);
    assert_eq!(data, [0, 0]);
}

#[test]
fn a_context_that_has_failed_never_queues_again() {
    let mut parts = PlaybackContext::<u8>::new(48000, 1, 4);
    assert!(parts.context.enqueue_samples(&[1]));
    assert!(!parts.context.is_failed());
    assert!(parts.signal.fire());
    assert!(!parts.context.enqueue_samples(&[2]));
    for block in 3..10u8 {
        assert!(!parts.context.enqueue_samples(&[block]));
        assert!(parts.context.is_failed());
    }
    let mut data = [0u8; 1];
    assert_eq!(parts.source.fill(&mut data), 1);
    assert_eq!(data, [1]);
    assert_eq!(parts.source.fill(&mut data), 0);
}

#[test]
fn a_closed_sample_queue_fails_the_context_for_good() {
    let parts = PlaybackContext::<u8>::new(48000, 1, 4);
    let mut context = parts.context;
    let _signal = parts.signal;
    drop(parts.source);
    assert!(!context.enqueue_samples(&[1]));
    assert!(context.is_failed());
    assert!(!context.enqueue_samples(&[2]));
}

#[test]
fn a_full_sample_queue_does_not_fail_the_context() {
    let mut parts = PlaybackContext::<u8>::new(48000, 1, 1);
    for block in 0..(SAMPLE_QUEUE_CAPACITY + 3) {
        assert!(parts.context.enqueue_samples(&[block as u8]));
        assert!(!parts.context.is_failed());
    }
}

fn decoder_for(announced: AudioParams) -> DecodeContext<f32> {
    DecodeContext::<f32>::new(
        announced.sample_rate,
        announced.channels,
        announced.frame_size,
        CREATED,
        0.0,
    )
    .unwrap()
}

fn check_pair(paired: &DecodingPlayer<f32>) {
    assert!(paired.is_well_formed());
    let player = paired.state();
    match (paired.decoder_in_use(), player.contexts) {
        (Some(context), Some(in_use)) => {
            assert_eq!(context.sample_rate(), in_use.sample_rate);
            assert_eq!(context.channels(), in_use.channels);
            assert_eq!(context.frame_size(), in_use.frame_size);
            assert_eq!(context.capacity(), in_use.frame_size as usize * in_use.channels as usize);
        }
        (None, None) => {}
        _ => panic!("player and decoder do not stand together"),
    }
}

#[test]
fn the_decoder_in_use_always_fits_the_parameters_in_use() {
    let mut paired = DecodingPlayer::<f32>::new();
    check_pair(&paired);
    assert!(paired.decoder_in_use().is_none());
    let first = params(48000, 2, 960);
    let second = params(24000, 1, 480);
    let script: Vec<(PlayEvent, Option<AudioParams>)> = vec![
        (PlayEvent::Frame(Some(first)), None),
        (PlayEvent::DecoderBuilt(Ok(())), Some(first)),
        (PlayEvent::PlaybackBuilt(true), None),
        (PlayEvent::Decoded(960), None),
        (PlayEvent::Enqueued(true), None),
        (PlayEvent::Frame(None), None),
        (PlayEvent::Decoded(0), None),
        (PlayEvent::Enqueued(false), None),
        (PlayEvent::PlaybackBuilt(true), None),
        (PlayEvent::Enqueued(true), None),
        (PlayEvent::Frame(Some(second)), None),
        (PlayEvent::DecoderBuilt(Ok(())), Some(second)),
        (PlayEvent::PlaybackBuilt(true), None),
        (PlayEvent::Decoded(-1), None),
        (PlayEvent::Frame(None), None),
    ];
    let mut in_use = Vec::new();
    for (event, build) in script {
        let built = build.map(decoder_for);
        assert!(paired.accepts(&event, &built));
        paired.play_samples(event, built);
        check_pair(&paired);
        in_use.push(paired.decoder_in_use().map(|context| context.frame_size()));
    }
    assert_eq!(
        in_use,
        vec![
            None,
            None,
            Some(960),
            Some(960),
            Some(960),
            Some(960),
            Some(960),
            Some(960),
            Some(960),
            Some(960),
            Some(960),
            Some(960),
            Some(480),
            Some(480),
            Some(480),
        ]
    );
    assert_eq!(paired.state().stage, PlayStage::Failed(decode_failed(DecodeFailure::Native(-1))));
}

#[test]
fn a_decoder_that_could_not_get_its_stream_never_comes_into_use() {
    let mut paired = DecodingPlayer::<f32>::new();
    let first = params(48000, 2, 960);
    paired.play_samples(PlayEvent::Frame(Some(first)), None);
    paired.play_samples(PlayEvent::DecoderBuilt(Ok(())), Some(decoder_for(first)));
    paired.play_samples(PlayEvent::PlaybackBuilt(true), None);
    paired.play_samples(PlayEvent::Decoded(1), None);
    paired.play_samples(PlayEvent::Enqueued(true), None);
    let second = params(16000, 1, 320);
    paired.play_samples(PlayEvent::Frame(Some(second)), None);
    paired.play_samples(PlayEvent::DecoderBuilt(Ok(())), Some(decoder_for(second)));
    assert_eq!(
        paired.play_samples(PlayEvent::PlaybackBuilt(false), None),
        PlayAction::Finish(Err(CoreError::PlaybackInitFailed))
    );
    check_pair(&paired);
    assert_eq!(paired.decoder_in_use().unwrap().frame_size(), 960);
    assert_eq!(paired.state().contexts, Some(first));
}

#[test]
fn a_decoder_for_other_parameters_is_not_accepted() {
    let mut paired = DecodingPlayer::<f32>::new();
    let asked = params(48000, 2, 960);
    paired.play_samples(PlayEvent::Frame(Some(asked)), None);
    let built = PlayEvent::DecoderBuilt(Ok(()));
    assert!(!paired.accepts(&built, &None));
    assert!(!paired.accepts(&built, &Some(decoder_for(params(48000, 1, 960)))));
    assert!(!paired.accepts(&built, &Some(decoder_for(params(48000, 2, 480)))));
    assert!(!paired.accepts(&built, &Some(decoder_for(params(44100, 2, 960)))));
    assert!(paired.accepts(&built, &Some(decoder_for(asked))));
    let refused = PlayEvent::DecoderBuilt(Err(decode_failed(DecodeFailure::NoHandle)));
    assert!(paired.accepts(&refused, &None));
    assert!(paired.accepts(&PlayEvent::Frame(None), &None));
}

#[test]
fn the_paired_player_stores_into_the_decoder_in_use() {
    let mut paired = DecodingPlayer::<i16>::new();
    let announced = params(48000, 2, 2);
    let context = DecodeContext::<i16>::new(48000, 2, 2, CREATED, 0).unwrap();
    paired.play_samples(PlayEvent::Frame(Some(announced)), None);
    paired.play_samples(PlayEvent::DecoderBuilt(Ok(())), Some(context));
    paired.play_samples(PlayEvent::PlaybackBuilt(true), None);
    paired.store(&[5, 6, 7]);
    assert!(paired.is_well_formed());
    let decoder = paired.decoder_in_use().unwrap();
    assert_eq!(decoder.capacity(), 4);
    assert_eq!(decoder.decode(2).unwrap(), &[5, 6, 7, 0]);
    assert_eq!(decoder.decode(1).unwrap(), &[5, 6]);
}
