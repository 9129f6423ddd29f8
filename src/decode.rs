//! The decisions of one decode. The browser does the work (it probes a MIME
//! type, builds a decoder, decodes, copies pixels out); a `DecodeSession` says
//! which of those comes next and judges what each one gave back.
use vstd::prelude::*;

verus! {

/// Bytes in a tightly packed RGBA8 image of the given size.
pub open spec fn rgba_len(width: int, height: int) -> int {
    4 * (width * height)
}

/// A decoded image: RGBA8 with straight alpha, row-major from the top-left,
/// with no padding between rows.
#[derive(Debug)]
pub struct Frame {
    pub width: u32,
    pub height: u32,
    pub pixels: Vec<u8>,
}

impl Frame {
    /// Both sides are non-zero and the buffer holds exactly four bytes per pixel.
    pub open spec fn wf(&self) -> bool {
        &&& self.width > 0
        &&& self.height > 0
        &&& self.pixels@.len() == rgba_len(self.width as int, self.height as int)
    }

    /// The frame of the given size over `pixels`, or `None` where a side is
    /// zero or the buffer does not hold exactly `4 * width * height` bytes.
    pub fn from_raw(width: u32, height: u32, pixels: Vec<u8>) -> (r: Option<Frame>)
        ensures
            r is Some <==> (width > 0 && height > 0 && pixels@.len() == rgba_len(
                width as int,
                height as int,
            )),
            r matches Some(f) ==> (f.width == width && f.height == height && f.pixels@
                == pixels@ && f.wf()),
    {
        let n_bytes: usize = pixels.len();
        if width == 0 || height == 0 {
            return None;
        }
        match rgba_buffer_len(width, height) {
            Some(n) => {
                if n_bytes == n {
                    Some(Frame { width, height, pixels })
                } else {
                    None
                }
            },
            None => None,
        }
    }
}

/// `4 * width * height`, where that fits in a `usize`.
pub fn rgba_buffer_len(width: u32, height: u32) -> (r: Option<usize>)
    ensures
        match r {
            Some(n) => n == rgba_len(width as int, height as int),
            None => rgba_len(width as int, height as int) > usize::MAX,
        },
{
    let w = width as usize;
    let h = height as usize;
    match w.checked_mul(h) {
        Some(wh) => wh.checked_mul(4),
        None => {
            assert(w * h >= 0) by (nonlinear_arith);
            None
        },
    }
}

/// Why a decode failed.
#[derive(Debug)]
pub enum DecodeError {
    /// No available decoder takes this MIME type.
    UnsupportedMimeType(String),
    /// Building the decoder, decoding or copying the pixels out failed.
    TranscodeError(String),
}

/// Where a decode stands.
#[derive(Debug)]
pub enum DecodeStage {
    /// Nothing asked yet.
    Init,
    /// The browser takes the MIME type.
    Probed,
    /// A decoder holds the payload.
    Constructed,
    /// The first frame is decoded; `len` bytes will hold its pixels.
    Decoded { width: u32, height: u32, len: usize },
    /// The pixels are out.
    Done(Frame),
    /// The decode failed for good.
    Failed(DecodeError),
}

/// What the browser gave back for the last action.
#[derive(Debug)]
pub enum DecodeEvent {
    /// Whether the browser can decode the MIME type.
    MimeSupport(bool),
    /// Building the decoder, or the browser's reason it failed.
    Constructed(Result<(), String>),
    /// The coded width and height of the first frame, or the reason it failed.
    Decoded(Result<(u32, u32), String>),
    /// The RGBA pixels that were copied out, or the reason the copy failed.
    Copied(Result<Vec<u8>, String>),
}

/// What to ask of the browser next.
#[derive(PartialEq, Eq, Structural, Debug, Clone, Copy)]
pub enum DecodeAction {
    /// Ask whether the MIME type is supported.
    QueryMimeSupport,
    /// Build a decoder over the payload.
    Construct,
    /// Decode the first frame.
    Decode,
    /// Allocate a zeroed buffer of this many bytes and copy the pixels into
    /// it, in RGBA order.
    CopyPixels(usize),
    /// The frame is ready.
    Finish,
    /// The decode failed; release the decoder.
    Abort,
}

/// The action that a stage calls for.
pub open spec fn action_of(stage: DecodeStage) -> DecodeAction {
    match stage {
        DecodeStage::Init => DecodeAction::QueryMimeSupport,
        DecodeStage::Probed => DecodeAction::Construct,
        DecodeStage::Constructed => DecodeAction::Decode,
        DecodeStage::Decoded { len, .. } => DecodeAction::CopyPixels(len),
        DecodeStage::Done(_) => DecodeAction::Finish,
        DecodeStage::Failed(_) => DecodeAction::Abort,
    }
}

/// A stage that a decode can be in: decoded sizes are non-zero with their
/// buffer length, and a finished frame is consistent.
pub open spec fn stage_wf(stage: DecodeStage) -> bool {
    match stage {
        DecodeStage::Decoded { width, height, len } => width > 0 && height > 0 && len
            == rgba_len(width as int, height as int),
        DecodeStage::Done(f) => f.wf(),
        _ => true,
    }
}

/// `post` is a transcode failure that carries the browser's reason where it
/// gave one, and some non-empty message in any case.
pub open spec fn transcode_failure(post: DecodeStage, reported: Seq<char>) -> bool {
    match post {
        DecodeStage::Failed(DecodeError::TranscodeError(m)) => m@.len() > 0 && (reported.len()
            > 0 ==> m@ == reported),
        _ => false,
    }
}

/// One step of a decode of `mime`: from `pre`, on `event`, to `post`. An event
/// that does not answer the stage's action leaves the stage as it was.
pub open spec fn step(
    mime: Seq<char>,
    pre: DecodeStage,
    event: DecodeEvent,
    post: DecodeStage,
) -> bool {
    match pre {
        DecodeStage::Init => match event {
            DecodeEvent::MimeSupport(ok) => if ok {
                post == DecodeStage::Probed
            } else {
                post matches DecodeStage::Failed(DecodeError::UnsupportedMimeType(m))
                    && m@ == mime
            },
            _ => post == pre,
        },
        DecodeStage::Probed => match event {
            DecodeEvent::Constructed(Ok(_)) => post == DecodeStage::Constructed,
            DecodeEvent::Constructed(Err(msg)) => transcode_failure(post, msg@),
            _ => post == pre,
        },
        DecodeStage::Constructed => match event {
            DecodeEvent::Decoded(Ok((w, h))) => if w > 0 && h > 0 && rgba_len(w as int, h as int)
                <= usize::MAX {
                post == (DecodeStage::Decoded {
                    width: w,
                    height: h,
                    len: rgba_len(w as int, h as int) as usize,
                })
            } else {
                transcode_failure(post, Seq::empty())
            },
            DecodeEvent::Decoded(Err(msg)) => transcode_failure(post, msg@),
            _ => post == pre,
        },
        DecodeStage::Decoded { width, height, len } => match event {
            DecodeEvent::Copied(Ok(buf)) => if width > 0 && height > 0 && buf@.len() == rgba_len(
                width as int,
                height as int,
            ) {
                post matches DecodeStage::Done(f) && f.width == width && f.height == height
                    && f.pixels@ == buf@
            } else {
                transcode_failure(post, Seq::empty())
            },
            DecodeEvent::Copied(Err(msg)) => transcode_failure(post, msg@),
            _ => post == pre,
        },
        _ => post == pre,
    }
}

/// `stages` is what a decode of `mime` went through on `events`: each event
/// takes the stage before it to the stage after it.
pub open spec fn is_run(mime: Seq<char>, stages: Seq<DecodeStage>, events: Seq<DecodeEvent>) -> bool {
    &&& stages.len() == events.len() + 1
    &&& forall|i: int|
        0 <= i < events.len() ==> #[trigger] step(mime, stages[i], events[i], stages[i + 1])
}

/// A step from a well-formed stage reaches a well-formed stage.
pub proof fn lemma_step_keeps_wf(
    mime: Seq<char>,
    pre: DecodeStage,
    event: DecodeEvent,
    post: DecodeStage,
)
    requires
        step(mime, pre, event, post),
        stage_wf(pre),
    ensures
        stage_wf(post),
{
}

proof fn lemma_run_wf_upto(
    mime: Seq<char>,
    stages: Seq<DecodeStage>,
    events: Seq<DecodeEvent>,
    n: int,
)
    requires
        is_run(mime, stages, events),
        stage_wf(stages[0]),
        0 <= n < stages.len(),
    ensures
        stage_wf(stages[n]),
    decreases n,
{
    if n > 0 {
        lemma_run_wf_upto(mime, stages, events, n - 1);
        let j = n - 1;
        assert(step(mime, stages[j], events[j], stages[j + 1]));
        lemma_step_keeps_wf(mime, stages[j], events[j], stages[j + 1]);
    }
}

/// Every frame that a decode finishes with has non-zero sides and exactly
/// `4 * width * height` bytes of pixels.
pub proof fn lemma_finished_frame_consistent(
    mime: Seq<char>,
    stages: Seq<DecodeStage>,
    events: Seq<DecodeEvent>,
)
    requires
        is_run(mime, stages, events),
        stages[0] == DecodeStage::Init,
    ensures
        forall|i: int|
            0 <= i < stages.len() ==> (#[trigger] stages[i] matches DecodeStage::Done(f) ==> (
            f.width > 0 && f.height > 0 && f.pixels@.len() == rgba_len(
                f.width as int,
                f.height as int,
            ))),
{
    assert forall|i: int| 0 <= i < stages.len() implies stage_wf(#[trigger] stages[i]) by {
        lemma_run_wf_upto(mime, stages, events, i);
    }
}

proof fn lemma_failed_stays_upto(
    mime: Seq<char>,
    stages: Seq<DecodeStage>,
    events: Seq<DecodeEvent>,
    k: int,
    n: int,
)
    requires
        is_run(mime, stages, events),
        0 <= k <= n < stages.len(),
        stages[k] is Failed,
    ensures
        stages[n] == stages[k],
    decreases n,
{
    if n > k {
        let j = n - 1;
        lemma_failed_stays_upto(mime, stages, events, k, j);
        assert(step(mime, stages[j], events[j], stages[j + 1]));
    }
}

/// Once a decode has failed it keeps the same error to the end: it never
/// goes on to finish with a frame.
pub proof fn lemma_failure_is_final(
    mime: Seq<char>,
    stages: Seq<DecodeStage>,
    events: Seq<DecodeEvent>,
    k: int,
)
    requires
        is_run(mime, stages, events),
        0 <= k < stages.len(),
        stages[k] is Failed,
    ensures
        forall|i: int| k <= i < stages.len() ==> #[trigger] stages[i] == stages[k],
{
    assert forall|i: int| k <= i < stages.len() implies #[trigger] stages[i] == stages[k] by {
        lemma_failed_stays_upto(mime, stages, events, k, i);
    }
}

/// A decode whose MIME type the browser does not take fails with
/// `UnsupportedMimeType` for that type on the first event, and never asks
/// for a pixel buffer.
pub proof fn lemma_unsupported_short_circuit(
    mime: Seq<char>,
    stages: Seq<DecodeStage>,
    events: Seq<DecodeEvent>,
)
    requires
        is_run(mime, stages, events),
        stages[0] == DecodeStage::Init,
        events.len() > 0,
        events[0] == DecodeEvent::MimeSupport(false),
    ensures
        stages[1] matches DecodeStage::Failed(DecodeError::UnsupportedMimeType(m)) && m@ == mime,
        forall|i: int| 1 <= i < stages.len() ==> #[trigger] stages[i] == stages[1],
        forall|i: int| 0 <= i < stages.len() ==> !(action_of(#[trigger] stages[i]) is CopyPixels),
{
    let z: int = 0;
    assert(step(mime, stages[z], events[z], stages[z + 1]));
    lemma_failure_is_final(mime, stages, events, 1);
    assert forall|i: int| 0 <= i < stages.len() implies !(action_of(
        #[trigger] stages[i],
    ) is CopyPixels) by {
        if i > 0 {
            assert(stages[i] == stages[1]);
        }
    }
}

/// The error for a failed browser call: its reason, or a fixed message where
/// it gave none.
fn transcode_error(reported: String) -> (r: DecodeError)
    ensures
        transcode_failure(DecodeStage::Failed(r), reported@),
{
    if reported.as_str().is_empty() {
        let m = String::from_str("the browser could not decode the image");
        proof {
            reveal_strlit("the browser could not decode the image");
        }
        DecodeError::TranscodeError(m)
    } else {
        DecodeError::TranscodeError(reported)
    }
}

/// One decode of one payload, from the MIME probe to the copied pixels.
#[derive(Debug)]
pub struct DecodeSession {
    pub mime_type: String,
    pub stage: DecodeStage,
}

impl DecodeSession {
    /// A decode of `mime_type` that has not started.
    pub fn new(mime_type: String) -> (r: DecodeSession)
        ensures
            r.mime_type@ == mime_type@,
            r.stage == DecodeStage::Init,
    {
        DecodeSession { mime_type, stage: DecodeStage::Init }
    }

    /// What to ask of the browser next.
    pub fn next_action(&self) -> (r: DecodeAction)
        ensures
            r == action_of(self.stage),
    {
        match &self.stage {
            DecodeStage::Init => DecodeAction::QueryMimeSupport,
            DecodeStage::Probed => DecodeAction::Construct,
            DecodeStage::Constructed => DecodeAction::Decode,
            DecodeStage::Decoded { len, .. } => DecodeAction::CopyPixels(*len),
            DecodeStage::Done(_) => DecodeAction::Finish,
            DecodeStage::Failed(_) => DecodeAction::Abort,
        }
    }

    /// Takes in what the browser gave back for the last action.
    pub fn advance(&mut self, event: DecodeEvent)
        ensures
            final(self).mime_type == old(self).mime_type,
            step(old(self).mime_type@, old(self).stage, event, final(self).stage),
            stage_wf(old(self).stage) ==> stage_wf(final(self).stage),
    {
        let next: Option<DecodeStage> = match &self.stage {
            DecodeStage::Init => match event {
                DecodeEvent::MimeSupport(ok) => {
                    if ok {
                        Some(DecodeStage::Probed)
                    } else {
                        Some(
                            DecodeStage::Failed(
                                DecodeError::UnsupportedMimeType(self.mime_type.clone()),
                            ),
                        )
                    }
                },
                _ => None,
            },
            DecodeStage::Probed => match event {
                DecodeEvent::Constructed(Ok(_)) => Some(DecodeStage::Constructed),
                DecodeEvent::Constructed(Err(msg)) => Some(
                    DecodeStage::Failed(transcode_error(msg)),
                ),
                _ => None,
            },
            DecodeStage::Constructed => match event {
                DecodeEvent::Decoded(Ok((w, h))) => {
                    if w == 0 || h == 0 {
                        Some(DecodeStage::Failed(transcode_error(String::new())))
                    } else {
                        match rgba_buffer_len(w, h) {
                            Some(len) => Some(DecodeStage::Decoded { width: w, height: h, len }),
                            None => Some(DecodeStage::Failed(transcode_error(String::new()))),
                        }
                    }
                },
                DecodeEvent::Decoded(Err(msg)) => Some(DecodeStage::Failed(transcode_error(msg))),
                _ => None,
            },
            DecodeStage::Decoded { width, height, .. } => match event {
                DecodeEvent::Copied(Ok(buf)) => match Frame::from_raw(*width, *height, buf) {
                    Some(f) => Some(DecodeStage::Done(f)),
                    None => Some(DecodeStage::Failed(transcode_error(String::new()))),
                },
                DecodeEvent::Copied(Err(msg)) => Some(DecodeStage::Failed(transcode_error(msg))),
                _ => None,
            },
            _ => None,
        };
        if let Some(s) = next {
            self.stage = s;
        }
    }

    /// The outcome once the decode has ended: the frame, or why it failed.
    /// `None` while it is still under way.
    pub fn into_result(self) -> (r: Option<Result<Frame, DecodeError>>)
        ensures
            match self.stage {
                DecodeStage::Done(f) => r matches Some(Ok(g)) && g == f,
                DecodeStage::Failed(e) => r matches Some(Err(d)) && d == e,
                _ => r is None,
            },
    {
        match self.stage {
            DecodeStage::Done(f) => Some(Ok(f)),
            DecodeStage::Failed(e) => Some(Err(e)),
            _ => None,
        }
    }
}

} // verus!
