use vstd::prelude::*;
use vstd::string::StringExecFns;
use crate::local::app_error::{AppError, ErrorKind};
use crate::local::text::{nul_free, same_text};
use crate::streamer::structure::{
    encodable, field_views, lookup, Field, FieldView, Structure, StructureView, ValueView,
};

verus! {

pub type Uri = String;

/// The name under which a command travels on the bus.
pub const MESSAGE_NAME: &'static str = "APP_MSG";

/// The field that holds the command's tag.
pub const TITLE_FIELD: &'static str = "TITLE";

/// The field that holds the URI of a `Play` or a `Next`.
pub const URI_FIELD: &'static str = "URI";

pub const MESSAGE_TITLE_VALUE_PLAY: &'static str = "Play";

pub const MESSAGE_TITLE_VALUE_PAUSE: &'static str = "Pause";

pub const MESSAGE_TITLE_VALUE_NEXT: &'static str = "Next";

pub const MESSAGE_TITLE_VALUE_STOP: &'static str = "Stop";

pub const MESSAGE_TITLE_VALUE_SHUTDOWN: &'static str = "Shutdown";

/// A playback command, as the coordinator hands it to the worker.
#[derive(Debug)]
pub enum Message {
    /// Start a session on that URI.
    Play(Uri),
    /// Toggle between paused and playing.
    Pause,
    /// Leave the current pipeline and go on with that URI on the same worker.
    Next(Uri),
    /// End the session.
    Stop,
    /// End the session and the worker for good.
    Shutdown,
}

pub enum MessageView {
    Play(Seq<char>),
    Pause,
    Next(Seq<char>),
    Stop,
    Shutdown,
}

impl View for Message {
    type V = MessageView;

    open spec fn view(&self) -> MessageView {
        match self {
            Message::Play(uri) => MessageView::Play(uri@),
            Message::Pause => MessageView::Pause,
            Message::Next(uri) => MessageView::Next(uri@),
            Message::Stop => MessageView::Stop,
            Message::Shutdown => MessageView::Shutdown,
        }
    }
}

/// The tag under which a command travels.
pub open spec fn title_of(message: MessageView) -> Seq<char> {
    match message {
        MessageView::Play(_) => MESSAGE_TITLE_VALUE_PLAY@,
        MessageView::Pause => MESSAGE_TITLE_VALUE_PAUSE@,
        MessageView::Next(_) => MESSAGE_TITLE_VALUE_NEXT@,
        MessageView::Stop => MESSAGE_TITLE_VALUE_STOP@,
        MessageView::Shutdown => MESSAGE_TITLE_VALUE_SHUTDOWN@,
    }
}

/// The URI that a command carries, if it carries one.
pub open spec fn uri_of(message: MessageView) -> Option<Seq<char>> {
    match message {
        MessageView::Play(uri) => Some(uri),
        MessageView::Next(uri) => Some(uri),
        _ => None,
    }
}

/// The fields of a command: its tag, then its URI if it has one.
pub open spec fn fields_of(message: MessageView) -> Seq<FieldView> {
    let title = FieldView { name: TITLE_FIELD@, value: ValueView::Text(title_of(message)) };
    match uri_of(message) {
        Some(uri) => seq![title, FieldView { name: URI_FIELD@, value: ValueView::Text(uri) }],
        None => seq![title],
    }
}

/// A command in structured form, under the given name.
pub open spec fn encode(message: MessageView, name: Seq<char>) -> StructureView {
    StructureView { name, fields: fields_of(message) }
}

/// Whether a command can travel under the given name: neither the name nor
/// the command's URI holds a NUL.
pub open spec fn sendable(message: MessageView, name: Seq<char>) -> bool {
    nul_free(name) && match uri_of(message) {
        Some(uri) => nul_free(uri),
        None => true,
    }
}

/// The text of the field `name`, if the structure has such a field and it
/// holds a text.
pub open spec fn text_of(fields: Seq<FieldView>, name: Seq<char>) -> Option<Seq<char>> {
    match lookup(fields, name) {
        Some(ValueView::Text(s)) => Some(s),
        _ => None,
    }
}

/// The command that a structure holds, if it holds one: the tag decides,
/// and a `Play` or a `Next` needs its URI.
pub open spec fn decode(s: StructureView) -> Option<MessageView> {
    match text_of(s.fields, TITLE_FIELD@) {
        None => None,
        Some(title) => if title == MESSAGE_TITLE_VALUE_PLAY@ {
            match text_of(s.fields, URI_FIELD@) {
                Some(uri) => Some(MessageView::Play(uri)),
                None => None,
            }
        } else if title == MESSAGE_TITLE_VALUE_PAUSE@ {
            Some(MessageView::Pause)
        } else if title == MESSAGE_TITLE_VALUE_NEXT@ {
            match text_of(s.fields, URI_FIELD@) {
                Some(uri) => Some(MessageView::Next(uri)),
                None => None,
            }
        } else if title == MESSAGE_TITLE_VALUE_STOP@ {
            Some(MessageView::Stop)
        } else if title == MESSAGE_TITLE_VALUE_SHUTDOWN@ {
            Some(MessageView::Shutdown)
        } else {
            None
        },
    }
}

/// The constant texts of the codec differ from one another and hold no NUL.
pub proof fn lemma_codec_texts()
    ensures
        TITLE_FIELD@ != URI_FIELD@,
        nul_free(TITLE_FIELD@),
        nul_free(URI_FIELD@),
        nul_free(MESSAGE_NAME@),
        MESSAGE_TITLE_VALUE_PLAY@ != MESSAGE_TITLE_VALUE_PAUSE@,
        MESSAGE_TITLE_VALUE_PLAY@ != MESSAGE_TITLE_VALUE_NEXT@,
        MESSAGE_TITLE_VALUE_PLAY@ != MESSAGE_TITLE_VALUE_STOP@,
        MESSAGE_TITLE_VALUE_PLAY@ != MESSAGE_TITLE_VALUE_SHUTDOWN@,
        MESSAGE_TITLE_VALUE_PAUSE@ != MESSAGE_TITLE_VALUE_NEXT@,
        MESSAGE_TITLE_VALUE_PAUSE@ != MESSAGE_TITLE_VALUE_STOP@,
        MESSAGE_TITLE_VALUE_PAUSE@ != MESSAGE_TITLE_VALUE_SHUTDOWN@,
        MESSAGE_TITLE_VALUE_NEXT@ != MESSAGE_TITLE_VALUE_STOP@,
        MESSAGE_TITLE_VALUE_NEXT@ != MESSAGE_TITLE_VALUE_SHUTDOWN@,
        MESSAGE_TITLE_VALUE_STOP@ != MESSAGE_TITLE_VALUE_SHUTDOWN@,
        forall|m: MessageView| nul_free(#[trigger] title_of(m)),
{
    reveal_strlit("APP_MSG");
    reveal_strlit("TITLE");
    reveal_strlit("URI");
    reveal_strlit("Play");
    reveal_strlit("Pause");
    reveal_strlit("Next");
    reveal_strlit("Stop");
    reveal_strlit("Shutdown");
    assert(TITLE_FIELD@.len() == 5 && URI_FIELD@.len() == 3);
    assert(MESSAGE_TITLE_VALUE_PLAY@[1] == 'l');
    assert(MESSAGE_TITLE_VALUE_NEXT@[1] == 'e');
    assert(MESSAGE_TITLE_VALUE_STOP@[1] == 't');
    assert(MESSAGE_TITLE_VALUE_PAUSE@.len() == 5);
    assert(MESSAGE_TITLE_VALUE_SHUTDOWN@.len() == 8);
}

/// Decoding what was encoded gives the command back, under any name:
/// `decode(encode(m, name)) == Some(m)`.
pub proof fn lemma_round_trip(message: MessageView, name: Seq<char>)
    ensures
        decode(encode(message, name)) == Some(message),
{
    lemma_codec_texts();
    let fields = fields_of(message);
    reveal_with_fuel(lookup, 3);
    match uri_of(message) {
        Some(uri) => {
            assert(fields.len() == 2);
            assert(fields.last().name == URI_FIELD@);
            assert(fields.drop_last().last().name == TITLE_FIELD@);
            assert(text_of(fields, URI_FIELD@) == Some(uri));
            assert(text_of(fields, TITLE_FIELD@) == Some(title_of(message)));
        },
        None => {
            assert(fields.len() == 1);
            assert(fields.last().name == TITLE_FIELD@);
            assert(text_of(fields, TITLE_FIELD@) == Some(title_of(message)));
        },
    }
}

/// What can be sent is what the engine can hold:
/// `encodable(encode(m, name)) == sendable(m, name)`.
pub proof fn lemma_encodable(message: MessageView, name: Seq<char>)
    ensures
        encodable(encode(message, name)) == sendable(message, name),
{
    lemma_codec_texts();
    let s = encode(message, name);
    match uri_of(message) {
        Some(uri) => {
            assert(s.fields.len() == 2);
            assert(s.fields[1].value == ValueView::Text(uri));
            assert(s.fields[0].name == TITLE_FIELD@);
        },
        None => {
            assert(s.fields.len() == 1);
        },
    }
}

impl Message {
    /// The command in structured form under `name`, as `encode` gives it;
    /// an error of class `Protocol` if the name or the URI holds a NUL.
    pub fn to_structure(self, name: &str) -> (r: Result<Structure, AppError>)
        ensures
            r is Ok <==> sendable(self@, name@),
            r is Ok ==> r->Ok_0@ == encode(self@, name@),
            r is Err ==> r->Err_0.spec_kind() == ErrorKind::Protocol,
    {
        proof {
            lemma_encodable(self@, name@);
        }
        let ghost wanted = fields_of(self@);
        let mut fields: Vec<Field> = Vec::new();
        match self {
            Message::Play(uri) => {
                fields.push(Field::string(TITLE_FIELD, MESSAGE_TITLE_VALUE_PLAY));
                fields.push(Field::string(URI_FIELD, uri.as_str()));
            },
            Message::Pause => {
                fields.push(Field::string(TITLE_FIELD, MESSAGE_TITLE_VALUE_PAUSE));
            },
            Message::Next(uri) => {
                fields.push(Field::string(TITLE_FIELD, MESSAGE_TITLE_VALUE_NEXT));
                fields.push(Field::string(URI_FIELD, uri.as_str()));
            },
            Message::Stop => {
                fields.push(Field::string(TITLE_FIELD, MESSAGE_TITLE_VALUE_STOP));
            },
            Message::Shutdown => {
                fields.push(Field::string(TITLE_FIELD, MESSAGE_TITLE_VALUE_SHUTDOWN));
            },
        }
        proof {
            assert(field_views(fields@) =~= wanted);
        }
        Structure::new(name, fields)
    }

    /// The command that the structure holds, as `decode` gives it; an error
    /// of class `Protocol` if it holds none.
    pub fn from_structure(structure: Structure) -> (r: Result<Self, AppError>)
        ensures
            match decode(structure@) {
                Some(m) => r is Ok && r->Ok_0@ == m,
                None => r is Err && r->Err_0.spec_kind() == ErrorKind::Protocol,
            },
    {
        let title = match structure.get_string(TITLE_FIELD) {
            Ok(title) => title,
            Err(e) => {
                return Err(e);
            },
        };
        if same_text(title.as_str(), MESSAGE_TITLE_VALUE_PLAY) {
            match structure.get_string(URI_FIELD) {
                Ok(uri) => Ok(Message::Play(uri)),
                Err(e) => Err(e),
            }
        } else if same_text(title.as_str(), MESSAGE_TITLE_VALUE_PAUSE) {
            Ok(Message::Pause)
        } else if same_text(title.as_str(), MESSAGE_TITLE_VALUE_NEXT) {
            match structure.get_string(URI_FIELD) {
                Ok(uri) => Ok(Message::Next(uri)),
                Err(e) => Err(e),
            }
        } else if same_text(title.as_str(), MESSAGE_TITLE_VALUE_STOP) {
            Ok(Message::Stop)
        } else if same_text(title.as_str(), MESSAGE_TITLE_VALUE_SHUTDOWN) {
            Ok(Message::Shutdown)
        } else {
            Err(
                AppError::with_kind(
                    ErrorKind::Protocol,
                    String::from_str("the message name `").concat(title.as_str()).concat(
                        "` is not supported.",
                    ),
                ),
            )
        }
    }
}

} // verus!
