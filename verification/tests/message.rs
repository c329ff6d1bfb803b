use playback::local::app_error::ErrorKind;
use playback::streamer::message::{
    Message, MESSAGE_NAME, MESSAGE_TITLE_VALUE_NEXT, MESSAGE_TITLE_VALUE_PAUSE,
    MESSAGE_TITLE_VALUE_PLAY, MESSAGE_TITLE_VALUE_SHUTDOWN, MESSAGE_TITLE_VALUE_STOP, TITLE_FIELD,
    URI_FIELD,
};
use playback::streamer::structure::{Field, Structure};

fn round_trip(message: Message) -> Message {
    Message::from_structure(message.to_structure(MESSAGE_NAME).unwrap()).unwrap()
}

#[test]
fn constants_have_their_texts() {
    assert_eq!(MESSAGE_NAME, "APP_MSG");
    assert_eq!(TITLE_FIELD, "TITLE");
    assert_eq!(URI_FIELD, "URI");
    assert_eq!(MESSAGE_TITLE_VALUE_PLAY, "Play");
    assert_eq!(MESSAGE_TITLE_VALUE_PAUSE, "Pause");
    assert_eq!(MESSAGE_TITLE_VALUE_NEXT, "Next");
    assert_eq!(MESSAGE_TITLE_VALUE_STOP, "Stop");
    assert_eq!(MESSAGE_TITLE_VALUE_SHUTDOWN, "Shutdown");
}

#[test]
fn next_round_trip() {
    let decoded = round_trip(Message::Next("file:///a.mp3".to_owned()));

    assert!(matches!(decoded, Message::Next(uri) if uri == "file:///a.mp3"));
}

#[test]
fn play_round_trip() {
    let decoded = round_trip(Message::Play("file:///b.mp3".to_owned()));

    assert!(matches!(decoded, Message::Play(uri) if uri == "file:///b.mp3"));
}

#[test]
fn commands_without_uri_round_trip() {
    assert!(matches!(round_trip(Message::Pause), Message::Pause));
    assert!(matches!(round_trip(Message::Stop), Message::Stop));
    assert!(matches!(round_trip(Message::Shutdown), Message::Shutdown));
}

#[test]
fn round_trip_of_an_empty_uri() {
    assert!(matches!(round_trip(Message::Next(String::new())), Message::Next(uri) if uri.is_empty()));
}

#[test]
fn to_structure_of_next_has_title_and_uri() {
    let structure = Message::Next("new_uri".to_owned()).to_structure("APP_MSG").unwrap();

    assert_eq!(structure.name(), "APP_MSG");
    assert_eq!(structure.fields().len(), 2);
    assert_eq!(structure.get_string("TITLE").unwrap(), "Next");
    assert_eq!(structure.get_string("URI").unwrap(), "new_uri");
}

#[test]
fn to_structure_of_pause_has_the_title_only() {
    let structure = Message::Pause.to_structure("OTHER").unwrap();

    assert_eq!(structure.name(), "OTHER");
    assert_eq!(structure.fields().len(), 1);
    assert_eq!(structure.get_string("TITLE").unwrap(), "Pause");
}

#[test]
fn to_structure_refuses_a_nul_in_the_uri() {
    let error = Message::Next("a\0b".to_owned()).to_structure(MESSAGE_NAME).unwrap_err();

    assert_eq!(error.kind(), ErrorKind::Protocol);
}

#[test]
fn to_structure_refuses_a_nul_in_the_name() {
    let error = Message::Stop.to_structure("A\0").unwrap_err();

    assert_eq!(error.kind(), ErrorKind::Protocol);
}

#[test]
fn from_structure_without_a_title_fails() {
    let structure = Structure::new("APP_MSG", vec![Field::string("URI", "a")]).unwrap();

    assert_eq!(Message::from_structure(structure).unwrap_err().kind(), ErrorKind::Protocol);
}

#[test]
fn from_structure_with_an_unknown_title_fails() {
    let structure = Structure::new("APP_MSG", vec![Field::string("TITLE", "None")]).unwrap();
    let error = Message::from_structure(structure).unwrap_err();

    assert_eq!(error.kind(), ErrorKind::Protocol);
    assert_eq!(error.message(), "the message name `None` is not supported.");
}

#[test]
fn from_structure_of_next_without_uri_fails() {
    let structure = Structure::new("APP_MSG", vec![Field::string("TITLE", "Next")]).unwrap();

    assert_eq!(Message::from_structure(structure).unwrap_err().kind(), ErrorKind::Protocol);
}

#[test]
fn from_structure_of_play_with_a_number_as_uri_fails() {
    let fields = vec![Field::string("TITLE", "Play"), Field::uint64("URI", 1)];
    let structure = Structure::new("APP_MSG", fields).unwrap();

    assert_eq!(Message::from_structure(structure).unwrap_err().kind(), ErrorKind::Protocol);
}

#[test]
fn from_structure_with_a_number_as_title_fails() {
    let structure = Structure::new("APP_MSG", vec![Field::int64("TITLE", 1)]).unwrap();

    assert_eq!(Message::from_structure(structure).unwrap_err().kind(), ErrorKind::Protocol);
}

#[test]
fn from_structure_reads_whatever_the_name() {
    let structure = Structure::new("ANY", vec![Field::string("TITLE", "Stop")]).unwrap();

    assert!(matches!(Message::from_structure(structure).unwrap(), Message::Stop));
}

#[test]
fn from_structure_is_case_sensitive() {
    let structure = Structure::new("APP_MSG", vec![Field::string("TITLE", "pause")]).unwrap();

    assert!(Message::from_structure(structure).is_err());
}
