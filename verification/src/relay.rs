//! Relaying a response or request body onto an HTTP/3 stream, frame by
//! frame. The caller reads the next frame and performs the step chosen
//! here; it stops at the first step that is not a send.

use vstd::prelude::*;

verus! {

/// What reading the body stream gave.
#[derive(Clone, Copy, Debug, PartialEq, Eq, Structural)]
pub enum BodyFrame {
    /// A data frame.
    Data,
    /// A trailers frame.
    Trailers,
    /// A frame that is neither data nor trailers, or whose contents
    /// could not be taken out.
    Malformed,
    /// Reading the body failed.
    Failed,
}

/// What to do with the stream next.
#[derive(Clone, Copy, Debug, PartialEq, Eq, Structural)]
pub enum RelayStep {
    /// Send the data frame and read on.
    SendData,
    /// Send the trailers and read on.
    SendTrailers,
    /// Stop the stream with an internal error, then finish it.
    Reset,
    /// Finish the stream.
    Finish,
}

/// The step taken for what the body stream gave (`None`: it ended).
/// Where `reset_on_error` is set, a bad frame or a failed read stops the
/// stream with an internal error before it is finished; otherwise the
/// stream is just finished.
pub open spec fn relay_step_of(frame: Option<BodyFrame>, reset_on_error: bool) -> RelayStep {
    match frame {
        None => RelayStep::Finish,
        Some(BodyFrame::Data) => RelayStep::SendData,
        Some(BodyFrame::Trailers) => RelayStep::SendTrailers,
        Some(_) => if reset_on_error {
            RelayStep::Reset
        } else {
            RelayStep::Finish
        },
    }
}

/// Chooses the step for what the body stream gave.
pub fn relay_step(frame: Option<BodyFrame>, reset_on_error: bool) -> (res: RelayStep)
    ensures
        res == relay_step_of(frame, reset_on_error),
{
    match frame {
        None => RelayStep::Finish,
        Some(BodyFrame::Data) => RelayStep::SendData,
        Some(BodyFrame::Trailers) => RelayStep::SendTrailers,
        Some(_) => if reset_on_error {
            RelayStep::Reset
        } else {
            RelayStep::Finish
        },
    }
}

/// Whether the relay reads on after this step.
pub open spec fn continues(step: RelayStep) -> bool {
    step == RelayStep::SendData || step == RelayStep::SendTrailers
}

/// The steps taken while the body stream gives `frames` and then ends:
/// a send for each good frame, up to and including the first step that
/// ends the relay.
pub open spec fn relay_trace(frames: Seq<BodyFrame>, reset_on_error: bool) -> Seq<RelayStep>
    decreases frames.len(),
{
    if frames.len() == 0 {
        seq![RelayStep::Finish]
    } else {
        let step = relay_step_of(Some(frames[0]), reset_on_error);
        if continues(step) {
            seq![step] + relay_trace(frames.drop_first(), reset_on_error)
        } else {
            seq![step]
        }
    }
}

/// Every relay ends the stream exactly once, at its last step, and never
/// sends after a bad frame or a failed read.
pub proof fn lemma_relay_ends_once(frames: Seq<BodyFrame>, reset_on_error: bool)
    ensures
        relay_trace(frames, reset_on_error).len() >= 1,
        !continues(relay_trace(frames, reset_on_error).last()),
        forall|i: int|
            0 <= i < relay_trace(frames, reset_on_error).len() - 1 ==> continues(
                #[trigger] relay_trace(frames, reset_on_error)[i],
            ),
        forall|i: int|
            0 <= i < frames.len() && (frames[i] == BodyFrame::Malformed || frames[i] == BodyFrame::Failed)
                ==> relay_trace(frames, reset_on_error).len() <= i + 1,
    decreases frames.len(),
{
    if frames.len() > 0 {
        let step = relay_step_of(Some(frames[0]), reset_on_error);
        if continues(step) {
            lemma_relay_ends_once(frames.drop_first(), reset_on_error);
            let rest = relay_trace(frames.drop_first(), reset_on_error);
            let t = relay_trace(frames, reset_on_error);
            assert(t == seq![step] + rest);
            assert forall|i: int| 0 <= i < t.len() - 1 implies continues(#[trigger] t[i]) by {
                if i > 0 {
                    assert(t[i] == rest[i - 1]);
                }
            }
            assert forall|i: int|
                0 <= i < frames.len() && (frames[i] == BodyFrame::Malformed || frames[i] == BodyFrame::Failed)
                    implies t.len() <= i + 1 by {
                assert(i != 0);
                assert(frames.drop_first()[i - 1] == frames[i]);
            }
        }
    }
}

} // verus!
