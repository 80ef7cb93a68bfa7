use spinner::{
    get_terminal_size, next_dot_count, next_frame_index, on_message, trim_trailing_dots,
    MessageAction, SpinnerError, SpinnerMessage, SpinnerState, SpinnerStream, SpinnerStyle,
    UpdateMessage,
};

#[test]
fn test_spinner_state_new() {
    let spinner_state = SpinnerState::new("Loading ...");

    // Ensure the initial dot count is correct
    assert_eq!(spinner_state.dots().len(), 3);

    // Ensure the initial text is correct
    assert_eq!(spinner_state.text(), "Loading ");

    // Ensure the output stream is initialized
    assert!(matches!(spinner_state.output_stream(), SpinnerStream::Stdout));
}

#[test]
fn test_update_spinner_state_with_message() {
    let mut state = SpinnerState::new("Loading ...");
    // Send an update message
    let update_message = UpdateMessage::Message("Updating...".to_string());
    let result = state.update(update_message);
    assert!(result.is_ok());
    // Receive the update message
    let spin_message = state.channel().try_receive().unwrap();
    if let SpinnerMessage::Update(result) = spin_message {
        if let Ok(UpdateMessage::Message(message)) = result {
            // Ensure the received message matches the sent message
            assert_eq!(message, "Updating...");
        } else {
            panic!("Expected an UpdateMessage::Message");
        }
    } else {
        panic!("Expected a SpinnerMessage::Update");
    }
}

#[test]
fn test_spinner_state_stop() {
    let spinner_state = SpinnerState::new("Loading ...");

    // Send a stop message
    let result = spinner_state.stop();
    assert!(result.is_ok());

    // Receive the stop message
    let spin_message = spinner_state.channel().try_receive().unwrap();
    assert!(matches!(spin_message, SpinnerMessage::Stop));
}

#[test]
fn test_set_reverse_spinner_state() {
    let mut state = SpinnerState::new("Loading");
    state.set_reverse(true);
    assert_eq!(state.reverse(), true);
    state.set_reverse(false);
    assert_eq!(state.reverse(), false);
}

#[test]
fn test_print_spinner_state() {
    let state = SpinnerState::new("Loading");
    let result = state.print("|", "Text", "...");
    assert!(result.is_ok());
}

#[test]
fn test_trim_trailing_dots_mixed_text_and_dots() {
    let input = String::from("Hello... World....");
    let expected = (String::from("Hello... World"), String::from("...."));
    let result = trim_trailing_dots(&input);
    assert_eq!(result, expected);
}

#[test]
fn test_trim_trailing_dots_examples() {
    assert_eq!(
        trim_trailing_dots("Loading..."),
        (String::from("Loading"), String::from("..."))
    );
    assert_eq!(trim_trailing_dots("NoDots"), (String::from("NoDots"), String::new()));
    assert_eq!(trim_trailing_dots("..."), (String::new(), String::from("...")));
}

#[test]
fn test_trim_trailing_dots_idempotent_on_text() {
    // Extracting again from the extracted text changes nothing.
    for input in ["Loading...", "Hello... World....", "NoDots", "", "...."] {
        let (text, _dots) = trim_trailing_dots(input);
        let (text_again, dots_again) = trim_trailing_dots(&text);
        assert_eq!(text_again, text);
        assert_eq!(dots_again, "");
    }
}

#[test]
fn test_get_terminal_size() {
    let (width, height) = get_terminal_size();
    assert!(width > 0);
    assert!(height > 0);
}

#[test]
fn test_next_frame_index_forward_cycle() {
    // For a frame set of length 3, starting at 0, three forward ticks
    // return to 0.
    let mut index = 0;
    let mut seen = Vec::new();
    for _ in 0..3 {
        seen.push(index);
        index = next_frame_index(index, 3, false);
    }
    assert_eq!(seen, [0, 1, 2]);
    assert_eq!(index, 0);
}

#[test]
fn test_next_frame_index_reverse_decrements() {
    let mut index = 0;
    let mut seen = Vec::new();
    for _ in 0..4 {
        index = next_frame_index(index, 4, true);
        seen.push(index);
    }
    assert_eq!(seen, [3, 2, 1, 0]);
}

#[test]
fn test_next_dot_count_wraps() {
    // With 3 frames the dot cycle has period 12.
    let mut count = 0;
    for expected in [1, 2, 3, 4, 5, 6, 7, 8, 9, 10, 11, 0, 1] {
        count = next_dot_count(count, 3);
        assert_eq!(count, expected);
    }
}

#[test]
fn test_apply_style_resets_frame_index() {
    // Changing the style mid-run resets the frame index to 0 and replaces
    // the active frame set and its default interval.
    let mut state = SpinnerState::new("Loading...");
    let mut index: usize = 2;
    let mut dots: usize = 5;

    state.apply_update(UpdateMessage::Style(SpinnerStyle::Dots), &mut index, &mut dots);

    assert_eq!(index, 0);
    assert_eq!(dots, 5);
    assert_eq!(state.style(), SpinnerStyle::Dots);
    assert_eq!(state.frames().len(), 10);
    assert_eq!(state.frame_duration(), 80);
}

#[test]
fn test_apply_fps_overrides_interval() {
    // An explicit frames-per-second rate overrides the frame set's
    // intrinsic duration until overridden again.
    let mut state = SpinnerState::new("Loading...");
    let mut index: usize = 0;
    let mut dots: usize = 0;

    assert_eq!(state.interval_us(), None);
    assert_eq!(state.active_interval_us(), 50_000);

    state.apply_update(UpdateMessage::FramesPerSecond(20), &mut index, &mut dots);
    assert_eq!(state.interval_us(), Some(50_000));
    assert_eq!(state.active_interval_us(), 50_000);

    state.apply_update(UpdateMessage::FramesPerSecond(4), &mut index, &mut dots);
    assert_eq!(state.active_interval_us(), 250_000);

    // An unrelated update leaves the override in place.
    state.apply_update(UpdateMessage::Message("Still".to_string()), &mut index, &mut dots);
    assert_eq!(state.active_interval_us(), 250_000);
}

#[test]
fn test_apply_speed_sets_interval() {
    let mut state = SpinnerState::new("Loading...");
    let mut index: usize = 0;
    let mut dots: usize = 0;

    // 60 cycles per minute over 4 frames: a quarter second per frame.
    state.apply_update(UpdateMessage::Speed(60), &mut index, &mut dots);
    assert_eq!(state.interval_us(), Some(250_000));
}

#[test]
fn test_apply_message_resets_dot_counter() {
    let mut state = SpinnerState::new("Loading...");
    let mut index: usize = 1;
    let mut dots: usize = 7;

    state.apply_update(UpdateMessage::Message("Working....".to_string()), &mut index, &mut dots);

    assert_eq!(dots, 0);
    assert_eq!(index, 1);
    assert_eq!(state.text(), "Working");
    assert_eq!(state.dots(), "....");
}

#[test]
fn test_apply_empty_frames_is_ignored() {
    let mut state = SpinnerState::new("Loading...");
    let mut index: usize = 2;
    let mut dots: usize = 3;

    state.apply_update(UpdateMessage::Frames(Vec::new()), &mut index, &mut dots);

    assert_eq!(index, 2);
    assert_eq!(dots, 3);
    assert_eq!(state.frames().len(), 4);
}

#[test]
fn test_rendered_line_uncolored_left() {
    let mut state = SpinnerState::new("Loading...");
    let mut index: usize = 0;
    let mut dots: usize = 0;
    state.apply_update(UpdateMessage::Colors(None, None, None), &mut index, &mut dots);

    let line = state.rendered_line(20, "|", "abc", "..");
    assert_eq!(line, "\r\x1b[K| abc..");
}

#[test]
fn test_rendered_line_uncolored_right() {
    let mut state = SpinnerState::new("Loading...");
    let mut index: usize = 0;
    let mut dots: usize = 0;
    state.apply_update(UpdateMessage::Colors(None, None, None), &mut index, &mut dots);
    state.apply_update(
        UpdateMessage::Alignment(spinner::Alignment::Right),
        &mut index,
        &mut dots,
    );

    // 20 columns leave 18 for content; "|", "abc" and ".." span 6, so 12
    // spaces of padding precede the content.
    let line = state.rendered_line(20, "|", "abc", "..");
    assert_eq!(line, format!("\r\x1b[K{}| abc..", " ".repeat(12)));
}

#[test]
fn test_on_message_decisions() {
    // The loop's reaction to each control message: stop is re-enqueued and
    // exits, a well-formed update is applied, a corrupt one is fatal.
    let stop = on_message(SpinnerMessage::Stop);
    assert!(matches!(stop, MessageAction::ReEnqueueStopAndExit));

    let update = on_message(SpinnerMessage::Update(Ok(UpdateMessage::FramesPerSecond(5))));
    match update {
        MessageAction::Apply(UpdateMessage::FramesPerSecond(fps)) => assert_eq!(fps, 5),
        _ => panic!("expected the update to be applied"),
    }

    let corrupt = on_message(SpinnerMessage::Update(Err(SpinnerError::new("lost"))));
    assert!(matches!(corrupt, MessageAction::FailCorrupt));
}
