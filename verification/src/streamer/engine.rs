use vstd::prelude::*;
use vstd::string::StringExecFns;
use crate::local::app_error::AppError;
use crate::streamer::streamer_loop::{Event, PipelineState, PositionInfo};
use crate::streamer::structure::Structure;

verus! {

/// The value that the engine leaves where it has no answer to a query.
pub const NO_ANSWER: i64 = -1;

/// The description from which the engine builds the pipeline that plays
/// `uri`: a `playbin` on that URI.
pub fn pipeline_description(uri: &str) -> (description: String)
    ensures
        description@ == "playbin uri=\""@ + uri@ + "\""@,
{
    String::from_str("playbin uri=\"").concat(uri).concat("\"")
}

/// What a query of the position or of the duration gave: the value, if the
/// engine says that it answered and the value is one.
pub fn query_answer(answered: bool, value: i64) -> (r: Option<i64>)
    ensures
        r == (if answered && value != NO_ANSWER {
            Some(value)
        } else {
            None
        }),
{
    if !answered || value == NO_ANSWER {
        None
    } else {
        Some(value)
    }
}

/// The bus of a pipeline: the queue on which the engine puts its events
/// and the application its commands. The engine's adapter implements it,
/// and what its calls return is the engine's to say.
pub trait EventBus: Send {
    /// Puts an application message that holds `structure` on the bus.
    fn post(&self, structure: Structure) -> Result<(), AppError>;

    /// Takes the next message off the bus, of those that the worker reacts
    /// to, waiting for `timeout_milliseconds` at most; `None` if the time
    /// ran out.
    fn timed_pop(&self, timeout_milliseconds: u64) -> Result<Option<Event>, AppError>;
}

/// A pipeline of the engine, built for one URI.
pub trait Pipeline: Send {
    fn set_state(&self, state: PipelineState) -> Result<(), AppError>;

    /// The position in the stream, if the engine can tell it.
    fn query_position(&self) -> Option<i64>;

    /// The length of the stream, if the engine can tell it.
    fn query_duration(&self) -> Option<i64>;

    /// Stops the pipeline and gives it up.
    fn release(&self);
}

/// The pipeline engine.
pub trait Engine: Send + Sync {
    /// The buses of this engine's pipelines.
    type Bus: EventBus + ?Sized;

    /// The pipelines that this engine builds.
    type Pipeline: Pipeline + ?Sized;

    fn initialize(&self) -> Result<(), AppError>;

    /// Builds a pipeline that plays `uri`, and hands it over with its bus.
    fn build_pipeline(&self, uri: &str) -> Result<(Box<Self::Pipeline>, Box<Self::Bus>), AppError>;
}

/// Where the worker reports to. Nothing that goes wrong in here reaches
/// playback.
pub trait Notifier: Send + Sync {
    /// Takes the position of playback.
    fn notify(&self, info: PositionInfo);

    /// Takes an error for the log.
    fn log(&self, error: &AppError);
}

} // verus!
