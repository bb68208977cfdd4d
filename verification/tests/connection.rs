use radio_screen::connection::{
    after_connect, after_message, after_prefix, frame_length, refresh_no_connection,
    show_no_connection, show_outcome, ConnectOutcome, ConnectStep, FrameStep, ReadOutcome,
    RETRY_MILLISECONDS,
};
use radio_screen::display::{DisplayOp, RecordingDisplay, WrappingTextDisplay};
use radio_screen::drivers::MockTemperatureSource;
use radio_screen::event_loop::RunError;
use radio_screen::text::DisplayText;
use radio_screen::Temperature;

type Screen = WrappingTextDisplay<RecordingDisplay>;

fn screen() -> Screen {
    WrappingTextDisplay::new(RecordingDisplay::new())
}

/// For each cursor move the cell and the characters that followed it.
fn written(display: &Screen) -> Vec<((u8, u8), String)> {
    let mut runs: Vec<((u8, u8), String)> = Vec::new();
    for op in display.character_display().ops() {
        match op {
            DisplayOp::Clear => runs.push(((255, 255), String::from("<clear>"))),
            DisplayOp::MoveCursor(position) => {
                runs.push(((position.row, position.column), String::new()))
            }
            DisplayOp::WriteChar(c) => runs.last_mut().unwrap().1.push(*c),
        }
    }
    runs
}

fn run(row: u8, column: u8, text: &str) -> ((u8, u8), String) {
    ((row, column), String::from(text))
}

fn clear() -> ((u8, u8), String) {
    ((255, 255), String::from("<clear>"))
}

#[test]
fn connection_that_stands_goes_on() {
    assert!(matches!(after_connect(ConnectOutcome::Connected), ConnectStep::Proceed));
}

#[test]
fn connection_that_is_refused_is_tried_again() {
    assert_eq!(RETRY_MILLISECONDS, 100);
    assert!(matches!(after_connect(ConnectOutcome::Refused), ConnectStep::RetryAfter(100)));
}

#[test]
fn connection_that_fails_otherwise_is_the_end() {
    match after_connect(ConnectOutcome::Failed(String::from("no route to host"))) {
        ConnectStep::Fail(error) => {
            assert!(matches!(&error, RunError::Connect(cause) if cause == "no route to host"));
            assert_eq!(error.message(), "Failed to connect to rradio: no route to host");
        }
        _ => panic!("the attempt has failed"),
    }
}

#[test]
fn length_prefix_is_read_with_the_first_byte_counting_most() {
    assert_eq!(frame_length(&[]), 0);
    assert_eq!(frame_length(&[0x2a]), 42);
    assert_eq!(frame_length(&[0x01, 0x02]), 258);
    assert_eq!(frame_length(&[0x00, 0x00, 0x01, 0x00]), 256);
    assert_eq!(frame_length(&[0xff, 0xff, 0xff, 0xff]), 4_294_967_295);
    assert_eq!(frame_length(&[0xff; 8]), u64::MAX);
    assert_eq!(frame_length(&[1, 2, 3, 4, 5, 6, 7, 8]), 0x0102030405060708);
}

#[test]
fn prefix_that_was_read_gives_the_length_of_the_message() {
    assert!(matches!(after_prefix(ReadOutcome::Filled, &[0x01, 0x00]), FrameStep::ReadMessage(256)));
}

#[test]
fn end_of_stream_before_a_prefix_is_a_clean_end() {
    assert!(matches!(after_prefix(ReadOutcome::EndOfStream, &[0, 0]), FrameStep::Closed));
}

#[test]
fn failure_to_read_a_prefix_is_the_end() {
    match after_prefix(ReadOutcome::Failed(String::from("connection reset")), &[0, 0]) {
        FrameStep::Fail(error) => {
            assert_eq!(error.message(), "Reading from TCP: connection reset")
        }
        _ => panic!("the read has failed"),
    }
}

#[test]
fn message_that_was_read_is_taken() {
    assert!(after_message(ReadOutcome::Filled, String::from("unexpected end of file")).is_ok());
}

#[test]
fn end_of_stream_within_a_message_is_an_error() {
    match after_message(ReadOutcome::EndOfStream, String::from("unexpected end of file")) {
        Err(error) => assert_eq!(error.message(), "Reading from TCP: unexpected end of file"),
        Ok(()) => panic!("the stream has ended within a message"),
    }
    match after_message(ReadOutcome::Failed(String::from("reset")), String::from("eof")) {
        Err(error) => assert_eq!(error.message(), "Reading from TCP: reset"),
        Ok(()) => panic!("the read has failed"),
    }
}

#[test]
fn messages_of_errors() {
    assert_eq!(RunError::Parse(String::from("bad marker")).message(), "Parsing msgpack: bad marker");
    assert_eq!(
        RunError::BadVersion { player: String::from("0.5"), screen: String::from("0.6") }.message(),
        "Bad rradio version. rradio: 0.5, screen: 0.6"
    );
}

#[test]
fn screen_without_a_connection() {
    let mut display = screen();
    show_no_connection(&mut display, "192.168.0.7");
    assert_eq!(
        written(&display),
        vec![
            clear(),
            run(0, 0, "192.168.0.7         "),
            run(1, 0, "No connection to    "),
            run(2, 0, "internal program    "),
        ]
    );
}

#[test]
fn last_row_without_a_connection() {
    let mut display = screen();
    let mut source = MockTemperatureSource(6);
    let (temperature, time) = refresh_no_connection(&mut source, &mut display);
    assert_eq!(temperature, Temperature(7));
    let runs = written(&display);
    assert_eq!(runs.len(), 2);
    assert_eq!(runs[0], run(3, 0, "CPU Temp   7C  "));
    assert_eq!(runs[1], run(3, 15, &time.to_text()));
    assert_eq!(runs[1].1.len(), 5);
    assert_eq!(&runs[1].1[2..3], ":");
    let (temperature, _) = refresh_no_connection(&mut MockTemperatureSource(99), &mut display);
    assert_eq!(temperature, Temperature(100));
    assert_eq!(written(&display)[2], run(3, 0, "CPU Temp 100C  "));
}

#[test]
fn screen_after_a_clean_end() {
    let mut display = screen();
    show_outcome(&mut display, &Ok(()));
    assert_eq!(
        written(&display),
        vec![
            clear(),
            run(0, 0, "Ending screen driver"),
            run(1, 0, "Computer not shut   "),
            run(2, 0, "down                "),
            run(3, 0, "                    "),
        ]
    );
}

#[test]
fn screen_after_an_error() {
    let mut display = screen();
    show_outcome(&mut display, &Err(RunError::Read(String::from("connection reset by peer"))));
    assert_eq!(
        written(&display),
        vec![
            clear(),
            run(0, 0, "Reading from TCP: co"),
            run(1, 0, "nnection reset by pe"),
            run(2, 0, "er                  "),
            run(3, 0, "                    "),
        ]
    );
}
