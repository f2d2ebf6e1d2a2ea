//! The pieces a pipeline is composed of: envelopes, errors and transforms.

use vstd::prelude::*;
use crate::record::UnixNanos;
use crate::text::push_text;

verus! {

/// A record together with the wall-clock time at which a source received it.
/// The time is set once, where the envelope is made.
#[derive(Debug, Clone)]
pub struct Envelope<T> {
    pub payload: T,
    pub received_at: UnixNanos,
}

impl<T> Envelope<T> {
    /// Wraps a record that has just been received: the time is read from the
    /// wall clock here and nowhere else.
    pub fn received_now(payload: T) -> (env: Envelope<T>)
        ensures
            env.payload == payload,
    {
        Envelope { payload, received_at: crate::clock::now() }
    }
}

/// The stage in which a pipeline error arose.
#[derive(Debug, Clone, Copy, PartialEq, Eq, Structural)]
pub enum Stage {
    Source,
    Transform,
    Sink,
}

/// What can go wrong in a pipeline, with a message for the operator.
#[derive(Debug, Clone)]
pub enum PipelineError {
    Source(String),
    Transform(String),
    Sink(String),
}

impl PipelineError {
    /// The stage the error belongs to.
    pub open spec fn stage_of(self) -> Stage {
        match self {
            PipelineError::Source(_) => Stage::Source,
            PipelineError::Transform(_) => Stage::Transform,
            PipelineError::Sink(_) => Stage::Sink,
        }
    }

    /// The message the error carries.
    pub open spec fn message_of(self) -> Seq<char> {
        match self {
            PipelineError::Source(m) => m@,
            PipelineError::Transform(m) => m@,
            PipelineError::Sink(m) => m@,
        }
    }

    /// The words each stage's errors begin with.
    pub open spec fn prefix_of(stage: Stage) -> Seq<char> {
        match stage {
            Stage::Source => "source error: "@,
            Stage::Transform => "transform error: "@,
            Stage::Sink => "sink error: "@,
        }
    }

    /// The stage the error belongs to.
    pub fn stage(&self) -> (stage: Stage)
        ensures
            stage == self.stage_of(),
    {
        match self {
            PipelineError::Source(_) => Stage::Source,
            PipelineError::Transform(_) => Stage::Transform,
            PipelineError::Sink(_) => Stage::Sink,
        }
    }

    /// The message the error carries.
    pub fn message(&self) -> (message: &str)
        ensures
            message@ == self.message_of(),
    {
        match self {
            PipelineError::Source(m) => m.as_str(),
            PipelineError::Transform(m) => m.as_str(),
            PipelineError::Sink(m) => m.as_str(),
        }
    }

    /// The error as one line of text: the stage's prefix, then the message.
    pub fn to_string(&self) -> (line: String)
        ensures
            line@ == Self::prefix_of(self.stage_of()) + self.message_of(),
    {
        let mut line = String::new();
        match self {
            PipelineError::Source(m) => {
                push_text(&mut line, "source error: ");
                push_text(&mut line, m.as_str());
            },
            PipelineError::Transform(m) => {
                push_text(&mut line, "transform error: ");
                push_text(&mut line, m.as_str());
            },
            PipelineError::Sink(m) => {
                push_text(&mut line, "sink error: ");
                push_text(&mut line, m.as_str());
            },
        }
        line
    }
}

/// What one item of a pipeline's stream is to the stage that takes it.
#[derive(Debug, Clone)]
pub enum Upstream<T> {
    /// An envelope to work on.
    Envelope(Envelope<T>),
    /// A record that a transform rejected: it is dropped, the stream goes
    /// on.
    Rejected(PipelineError),
    /// The source has failed: the stream is read no further.
    Failed(PipelineError),
}

/// What one item of the stream is: an envelope, a rejection to drop, or the
/// failure of the source. Only an error of the source ends the stream.
pub open spec fn upstream_of<T>(item: Result<Envelope<T>, PipelineError>) -> Upstream<T> {
    match item {
        Ok(env) => Upstream::Envelope(env),
        Err(e) => if e.stage_of() == Stage::Source {
            Upstream::Failed(e)
        } else {
            Upstream::Rejected(e)
        },
    }
}

/// Tells the items of the stream apart.
pub fn upstream<T>(item: Result<Envelope<T>, PipelineError>) -> (sorted: Upstream<T>)
    ensures
        sorted == upstream_of(item),
{
    match item {
        Ok(env) => Upstream::Envelope(env),
        Err(e) => {
            match e.stage() {
                Stage::Source => Upstream::Failed(e),
                _ => Upstream::Rejected(e),
            }
        },
    }
}

/// The result of a run: the sink's fatal error if it had one; else the
/// error of the source if it failed; else success.
pub open spec fn run_outcome(
    source_error: Option<PipelineError>,
    sink: Result<(), PipelineError>,
) -> Result<(), PipelineError> {
    match sink {
        Err(e) => Err(e),
        Ok(()) => match source_error {
            Some(e) => Err(e),
            None => Ok(()),
        },
    }
}

/// Decides the result of a run from the error with which the source failed,
/// if it did, and from the result of the sink, which has flushed what it
/// still held. A run succeeds only when the source came to its end and the
/// last flush succeeded.
pub fn end_of_run(source_error: Option<PipelineError>, sink: Result<(), PipelineError>) -> (result:
    Result<(), PipelineError>)
    ensures
        result == run_outcome(source_error, sink),
{
    match sink {
        Err(e) => Err(e),
        Ok(()) => match source_error {
            Some(e) => Err(e),
            None => Ok(()),
        },
    }
}

/// A per-record step of a pipeline: it hands an envelope on, changed or not,
/// or rejects it.
pub trait Transform<I, O>: Send + Sync {
    /// Whether the transform hands `input` on.
    spec fn accepts(&self, input: Envelope<I>) -> bool;

    /// The envelope handed on for an accepted input.
    spec fn output(&self, input: Envelope<I>) -> Envelope<O>;

    /// The message with which a rejected input is refused.
    spec fn reason(&self, input: Envelope<I>) -> Seq<char>;

    /// Applies the transform to one envelope. A rejection is a transform
    /// error; the envelope is then dropped by the caller.
    fn apply(&self, input: Envelope<I>) -> (result: Result<Envelope<O>, PipelineError>)
        ensures
            result is Ok <==> self.accepts(input),
            result matches Ok(out) ==> out == self.output(input),
            result matches Err(e) ==> e.stage_of() == Stage::Transform && e.message_of()
                == self.reason(input),
    ;
}

/// One source, a chain of transforms over one record type, and one sink.
#[verifier::reject_recursive_types(T)]
pub struct Pipeline<S, T, K> {
    pub source: S,
    pub transforms: Vec<std::sync::Arc<dyn Transform<T, T>>>,
    pub sink: K,
}

/// What a chain of transforms makes of an envelope: each transform is
/// applied to the output of the one before it; the first rejection ends the
/// chain with its reason.
pub open spec fn chain_result<T>(
    transforms: Seq<std::sync::Arc<dyn Transform<T, T>>>,
    env: Envelope<T>,
) -> Result<Envelope<T>, Seq<char>>
    decreases transforms.len(),
{
    if transforms.len() == 0 {
        Ok(env)
    } else if transforms[0].accepts(env) {
        chain_result(transforms.skip(1), transforms[0].output(env))
    } else {
        Err(transforms[0].reason(env))
    }
}

impl<S, T, K> Pipeline<S, T, K> {
    /// Runs one envelope through the transforms in order, stopping at the
    /// first that rejects it. A rejected envelope is dropped: the error says
    /// why, and the pipeline goes on with the next envelope.
    pub fn transform(&self, env: Envelope<T>) -> (result: Result<Envelope<T>, PipelineError>)
        ensures
            result is Ok <==> chain_result(self.transforms@, env) is Ok,
            result matches Ok(out) ==> Ok::<Envelope<T>, Seq<char>>(out) == chain_result(
                self.transforms@,
                env,
            ),
            result matches Err(e) ==> e.stage_of() == Stage::Transform && Err::<
                Envelope<T>,
                Seq<char>,
            >(e.message_of()) == chain_result(self.transforms@, env),
    {
        let mut current = env;
        let mut i: usize = 0;
        assert(self.transforms@.skip(0) =~= self.transforms@);
        while i < self.transforms.len()
            invariant
                0 <= i <= self.transforms.len(),
                chain_result(self.transforms@, env) == chain_result(
                    self.transforms@.skip(i as int),
                    current,
                ),
            decreases self.transforms.len() - i,
        {
            proof {
                assert(self.transforms@.skip(i as int).skip(1) =~= self.transforms@.skip(i + 1));
            }
            match self.transforms[i].apply(current) {
                Ok(next) => {
                    current = next;
                },
                Err(e) => {
                    return Err(e);
                },
            }
            i = i + 1;
        }
        Ok(current)
    }

    /// One step of the stream between source and sink: an error from the
    /// source is handed on as it is, an envelope goes through the transforms.
    pub fn step(&self, item: Result<Envelope<T>, PipelineError>) -> (result: Result<
        Envelope<T>,
        PipelineError,
    >)
        ensures
            item matches Err(e) ==> result == item,
            item matches Ok(env) ==> {
                &&& result is Ok <==> chain_result(self.transforms@, env) is Ok
                &&& result matches Ok(out) ==> Ok::<Envelope<T>, Seq<char>>(out) == chain_result(
                    self.transforms@,
                    env,
                )
                &&& result matches Err(e) ==> e.stage_of() == Stage::Transform && Err::<
                    Envelope<T>,
                    Seq<char>,
                >(e.message_of()) == chain_result(self.transforms@, env)
            },
    {
        match item {
            Ok(env) => self.transform(env),
            Err(e) => Err(e),
        }
    }
}

} // verus!
