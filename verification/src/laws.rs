//! What holds of every run of the pipeline.

use vstd::prelude::*;
use vstd::utf8::encode_utf8;
use crate::command::Tool;
use crate::error::ErrorKind;
use crate::pipeline::{
    begin, convert, copied_notice, deliver, halt, intermediate_file, look_up_credential, next,
    proceed, read_audio, remove_intermediate, remove_transcoded, responded, saved_notice,
    shown_transcript, submit, succeed, transcoded_file, write_transcript, ActionView, EventView,
    JobView, StageView, TransitionView,
};
use crate::text::lossy_text;
use crate::transcribe::{missing_credential, response_transcript};

verus! {

/// The moves made from `stage` on as the caller reports `events` in order.
/// The run is followed up to the first event that the stage at hand does not
/// accept.
pub open spec fn continue_run(
    job: JobView,
    stage: StageView,
    events: Seq<EventView>,
) -> Seq<TransitionView>
    decreases events.len(),
{
    if events.len() == 0 {
        Seq::empty()
    } else {
        match next(job, stage, events[0]) {
            Some(transition) => seq![transition] + continue_run(
                job,
                transition.stage,
                events.drop_first(),
            ),
            None => Seq::empty(),
        }
    }
}

/// All moves of a run of `job` in which the caller reports `events`: the
/// first move, then one for each event that is accepted.
pub open spec fn run(job: JobView, events: Seq<EventView>) -> Seq<TransitionView> {
    seq![begin(job)] + continue_run(job, begin(job).stage, events)
}

/// Whether `action` asks for `tool` to be run.
pub open spec fn launches(action: ActionView, tool: Tool) -> bool {
    match action {
        ActionView::Run(invocation) => invocation.program == tool.program(),
        _ => false,
    }
}

/// Whether some move of `moves` asks for `tool` to be run.
pub open spec fn runs(moves: Seq<TransitionView>, tool: Tool) -> bool {
    exists|i: int| 0 <= i < moves.len() && launches(#[trigger] moves[i].action, tool)
}

/// Whether some move of `moves` asks for work of the transcriber: the
/// credential lookup, the reading of the audio, or the upload.
pub open spec fn transcribes(moves: Seq<TransitionView>) -> bool {
    exists|i: int|
        0 <= i < moves.len() && ((#[trigger] moves[i].action) is ReadCredential
            || moves[i].action is ReadFile || moves[i].action is Upload)
}

/// Whether some move of `moves` asks for a request to the network.
pub open spec fn uploads(moves: Seq<TransitionView>) -> bool {
    exists|i: int| 0 <= i < moves.len() && (#[trigger] moves[i].action) is Upload
}

/// A program's exit with a failure status.
pub open spec fn failed_exit(stderr: Seq<u8>) -> EventView {
    EventView::Exited { success: false, stderr }
}

/// A program's exit with a success status.
pub open spec fn clean_exit(stderr: Seq<u8>) -> EventView {
    EventView::Exited { success: true, stderr }
}

/// The two programs have different names.
proof fn lemma_programs_differ()
    ensures
        Tool::Downloader.program() != Tool::Converter.program(),
{
    reveal_strlit("yt-dlp");
    reveal_strlit("ffmpeg");
    assert("yt-dlp"@[0] != "ffmpeg"@[0]);
}

/// One accepted event extends the run by one move.
proof fn lemma_unfold(job: JobView, stage: StageView, events: Seq<EventView>)
    requires
        events.len() > 0,
        next(job, stage, events[0]) is Some,
    ensures
        continue_run(job, stage, events) == seq![next(job, stage, events[0])->Some_0]
            + continue_run(job, next(job, stage, events[0])->Some_0.stage, events.drop_first()),
{
}

/// A run that has ended accepts no event: after the first failure, and after
/// success, nothing further is attempted.
pub proof fn lemma_ended_run_accepts_nothing(job: JobView, stage: StageView, event: EventView)
    requires
        stage.ended(),
    ensures
        next(job, stage, event) is None,
{
}

/// A run that has ended makes no further move, whatever is reported.
pub proof fn lemma_ended_run_stays(job: JobView, stage: StageView, events: Seq<EventView>)
    requires
        stage.ended(),
    ensures
        continue_run(job, stage, events) == Seq::<TransitionView>::empty(),
{
}

/// How far a run has come: the stages in the order in which a run passes
/// through them, the two ways of delivering side by side, and the two ways
/// of ending last.
pub open spec fn position(stage: StageView) -> nat {
    match stage {
        StageView::Fetching => 0,
        StageView::Converting => 1,
        StageView::LoadingCredential => 2,
        StageView::ReadingAudio { .. } => 3,
        StageView::Uploading => 4,
        StageView::CreatingOutput { .. } => 5,
        StageView::WritingOutput { .. } => 6,
        StageView::CopyingToClipboard => 6,
        StageView::RemovingIntermediate => 7,
        StageView::RemovingTranscoded => 8,
        StageView::Done => 9,
        StageView::Failed(_) => 9,
    }
}

/// Every move leads to a later stage: the stages run strictly in sequence,
/// none is entered twice and no work is tried again.
pub proof fn lemma_stages_only_advance(job: JobView, stage: StageView, event: EventView)
    requires
        next(job, stage, event) is Some,
    ensures
        position(stage) < position(next(job, stage, event)->Some_0.stage),
{
}

/// From a stage on, a run makes at most as many moves as there are later
/// positions, however many events are reported.
pub proof fn lemma_run_is_bounded(job: JobView, stage: StageView, events: Seq<EventView>)
    ensures
        continue_run(job, stage, events).len() + position(stage) <= 9,
    decreases events.len(),
{
    if events.len() > 0 {
        match next(job, stage, events[0]) {
            Some(transition) => {
                lemma_stages_only_advance(job, stage, events[0]);
                lemma_run_is_bounded(job, transition.stage, events.drop_first());
            },
            None => {},
        }
    }
}

/// A move into failure prints nothing and asks for no further work, so no
/// part of a transcript is emitted and nothing is cleaned up.
pub proof fn lemma_failure_is_silent(job: JobView, stage: StageView, event: EventView)
    requires
        next(job, stage, event) is Some,
        next(job, stage, event)->Some_0.stage is Failed,
    ensures
        next(job, stage, event)->Some_0.notice is None,
        next(job, stage, event)->Some_0.action is Stop,
{
}

/// A file is removed only in answer to work that succeeded, and only once the
/// transcript is delivered: the downloaded audio after the transcript was
/// written or copied, the transcoded audio after the downloaded one is gone.
pub proof fn lemma_cleanup_follows_delivery(job: JobView, stage: StageView, event: EventView)
    requires
        next(job, stage, event) is Some,
        next(job, stage, event)->Some_0.action is RemoveFile,
    ensures
        event is Finished,
        stage is WritingOutput || stage is CopyingToClipboard || stage is RemovingIntermediate,
        stage is RemovingIntermediate <==> next(job, stage, event)->Some_0.action
            == (ActionView::RemoveFile { path: transcoded_file() }),
        !(stage is RemovingIntermediate) <==> next(job, stage, event)->Some_0.action
            == (ActionView::RemoveFile { path: intermediate_file() }),
{
    reveal_strlit("temp_audio.webm");
    reveal_strlit("converted_audio.webm");
    assert(intermediate_file()[0] != transcoded_file()[0]);
}

/// Whenever the downloader ends with a failure status, the run fails with a
/// download error that carries the captured standard error as text, and the
/// converter is never run, whatever is reported afterwards.
pub proof fn lemma_failed_download_ends_run(
    job: JobView,
    stderr: Seq<u8>,
    later: Seq<EventView>,
)
    ensures
        run(job, seq![failed_exit(stderr)] + later) == seq![
            begin(job),
            halt(Tool::Downloader.exit_failure(lossy_text(stderr))),
        ],
        run(job, seq![failed_exit(stderr)] + later).last().stage.failure() is Some,
        run(job, seq![failed_exit(stderr)] + later).last().stage.failure()->Some_0.kind
            == ErrorKind::Download,
        !runs(run(job, seq![failed_exit(stderr)] + later), Tool::Converter),
        !transcribes(run(job, seq![failed_exit(stderr)] + later)),
{
    let events = seq![failed_exit(stderr)] + later;
    let failure = halt(Tool::Downloader.exit_failure(lossy_text(stderr)));
    assert(events[0] == failed_exit(stderr));
    assert(next(job, StageView::Fetching, events[0]) == Some(failure));
    lemma_unfold(job, StageView::Fetching, events);
    lemma_ended_run_stays(job, failure.stage, events.drop_first());
    assert(run(job, events) =~= seq![begin(job), failure]);
    lemma_programs_differ();
}

/// Whenever the converter ends with a failure status after a download that
/// succeeded, the run fails with a conversion error that carries the captured
/// standard error as text, and no work of the transcriber is asked for,
/// whatever is reported afterwards.
pub proof fn lemma_failed_conversion_ends_run(
    job: JobView,
    download_stderr: Seq<u8>,
    stderr: Seq<u8>,
    later: Seq<EventView>,
)
    ensures
        run(job, seq![clean_exit(download_stderr), failed_exit(stderr)] + later) == seq![
            begin(job),
            convert(),
            halt(Tool::Converter.exit_failure(lossy_text(stderr))),
        ],
        run(
            job,
            seq![clean_exit(download_stderr), failed_exit(stderr)] + later,
        ).last().stage.failure() is Some,
        run(
            job,
            seq![clean_exit(download_stderr), failed_exit(stderr)] + later,
        ).last().stage.failure()->Some_0.kind == ErrorKind::Conversion,
        !transcribes(run(job, seq![clean_exit(download_stderr), failed_exit(stderr)] + later)),
{
    let events = seq![clean_exit(download_stderr), failed_exit(stderr)] + later;
    let failure = halt(Tool::Converter.exit_failure(lossy_text(stderr)));
    let rest = events.drop_first();
    assert(events[0] == clean_exit(download_stderr));
    assert(rest[0] == failed_exit(stderr));
    lemma_unfold(job, StageView::Fetching, events);
    lemma_unfold(job, StageView::Converting, rest);
    lemma_ended_run_stays(job, failure.stage, rest.drop_first());
    assert(run(job, events) =~= seq![begin(job), convert(), failure]);
}

/// Whenever no credential is found, the run fails with a configuration error
/// and no request to the network is asked for, before or after, whatever is
/// reported afterwards. The audio is not even read.
pub proof fn lemma_missing_credential_ends_run(
    job: JobView,
    download_stderr: Seq<u8>,
    convert_stderr: Seq<u8>,
    later: Seq<EventView>,
)
    ensures
        run(
            job,
            seq![
                clean_exit(download_stderr),
                clean_exit(convert_stderr),
                EventView::Credential(None),
            ] + later,
        ) == seq![
            begin(job),
            convert(),
            look_up_credential(),
            halt(missing_credential()),
        ],
        missing_credential().kind == ErrorKind::Config,
        !uploads(
            run(
                job,
                seq![
                    clean_exit(download_stderr),
                    clean_exit(convert_stderr),
                    EventView::Credential(None),
                ] + later,
            ),
        ),
{
    let events = seq![
        clean_exit(download_stderr),
        clean_exit(convert_stderr),
        EventView::Credential(None),
    ] + later;
    let rest = events.drop_first();
    let tail = rest.drop_first();
    assert(events[0] == clean_exit(download_stderr));
    assert(rest[0] == clean_exit(convert_stderr));
    assert(tail[0] == EventView::Credential(None));
    lemma_unfold(job, StageView::Fetching, events);
    lemma_unfold(job, StageView::Converting, rest);
    lemma_unfold(job, StageView::LoadingCredential, tail);
    lemma_ended_run_stays(job, halt(missing_credential()).stage, tail.drop_first());
    assert(run(job, events) =~= seq![
        begin(job),
        convert(),
        look_up_credential(),
        halt(missing_credential()),
    ]);
}

/// What the caller has to report in a run in which all goes well up to the
/// service's response: what the two programs wrote to standard error, the
/// credential, the transcoded audio, and the body of the response.
pub struct Reports {
    pub download_stderr: Seq<u8>,
    pub convert_stderr: Seq<u8>,
    pub api_key: Seq<char>,
    pub audio: Seq<u8>,
    pub body: Seq<u8>,
}

/// The events of a run in which every piece of work succeeds up to the
/// service's response, followed by `completions` reports of work done.
pub open spec fn smooth_events(reports: Reports, completions: nat) -> Seq<EventView> {
    seq![
        clean_exit(reports.download_stderr),
        clean_exit(reports.convert_stderr),
        EventView::Credential(Some(reports.api_key)),
        EventView::Contents(reports.audio),
        EventView::Contents(reports.body),
    ] + Seq::new(completions, |i: int| EventView::Finished)
}

/// The moves that every run makes while all goes well, up to the upload: the
/// downloader, the converter, the credential lookup, the reading of the
/// transcoded audio, and its submission under the credential.
pub open spec fn moves_to_upload(job: JobView, reports: Reports) -> Seq<TransitionView> {
    seq![
        begin(job),
        convert(),
        look_up_credential(),
        read_audio(reports.api_key),
        submit(reports.api_key, reports.audio),
    ]
}

/// The first five events of a smooth run lead to the upload, and the sixth is
/// answered by delivery or by the failure to find a transcript.
proof fn lemma_smooth_start(job: JobView, reports: Reports, completions: nat)
    ensures
        run(job, smooth_events(reports, completions)) == moves_to_upload(job, reports) + seq![
            responded(job, reports.body),
        ] + continue_run(
            job,
            responded(job, reports.body).stage,
            Seq::new(completions, |i: int| EventView::Finished),
        ),
{
    let e0 = smooth_events(reports, completions);
    let e1 = e0.drop_first();
    let e2 = e1.drop_first();
    let e3 = e2.drop_first();
    let e4 = e3.drop_first();
    assert(e0[0] == clean_exit(reports.download_stderr));
    assert(e1[0] == clean_exit(reports.convert_stderr));
    assert(e2[0] == EventView::Credential(Some(reports.api_key)));
    assert(e3[0] == EventView::Contents(reports.audio));
    assert(e4[0] == EventView::Contents(reports.body));
    assert(e4.drop_first() =~= Seq::new(completions, |i: int| EventView::Finished));
    lemma_unfold(job, StageView::Fetching, e0);
    lemma_unfold(job, StageView::Converting, e1);
    lemma_unfold(job, StageView::LoadingCredential, e2);
    lemma_unfold(job, StageView::ReadingAudio { api_key: reports.api_key }, e3);
    lemma_unfold(job, StageView::Uploading, e4);
    assert(run(job, e0) =~= moves_to_upload(job, reports) + seq![responded(job, reports.body)]
        + continue_run(job, responded(job, reports.body).stage, e4.drop_first()));
}

/// A run in which everything succeeds and the job names an output file: the
/// file is created and receives exactly the bytes of the transcript, the
/// confirmation names the file, both intermediate files are removed, the
/// downloaded one first, and the run ends in success.
pub proof fn lemma_transcript_is_saved(job: JobView, reports: Reports)
    requires
        job.output is Some,
    ensures
        response_transcript(reports.body) is Ok ==> run(job, smooth_events(reports, 4))
            == moves_to_upload(job, reports) + seq![
            proceed(
                StageView::CreatingOutput {
                    path: job.output->Some_0,
                    transcript: response_transcript(reports.body)->Ok_0,
                },
                ActionView::CreateFile { path: job.output->Some_0 },
            ),
            proceed(
                StageView::WritingOutput { path: job.output->Some_0 },
                ActionView::WriteFile {
                    contents: encode_utf8(response_transcript(reports.body)->Ok_0),
                },
            ),
            TransitionView {
                stage: StageView::RemovingIntermediate,
                notice: Some(saved_notice(job.output->Some_0)),
                action: ActionView::RemoveFile { path: intermediate_file() },
            },
            proceed(
                StageView::RemovingTranscoded,
                ActionView::RemoveFile { path: transcoded_file() },
            ),
            proceed(StageView::Done, ActionView::Stop),
        ],
{
    if response_transcript(reports.body) is Ok {
        let path = job.output->Some_0;
        let transcript = response_transcript(reports.body)->Ok_0;
        let f0 = Seq::new(4, |i: int| EventView::Finished);
        let f1 = f0.drop_first();
        let f2 = f1.drop_first();
        let f3 = f2.drop_first();
        lemma_smooth_start(job, reports, 4);
        assert(responded(job, reports.body) == deliver(job, transcript));
        lemma_unfold(job, StageView::CreatingOutput { path, transcript }, f0);
        lemma_unfold(job, StageView::WritingOutput { path }, f1);
        lemma_unfold(job, StageView::RemovingIntermediate, f2);
        lemma_unfold(job, StageView::RemovingTranscoded, f3);
        assert(f3.drop_first().len() == 0);
        assert(continue_run(job, StageView::CreatingOutput { path, transcript }, f0) =~= seq![
            write_transcript(path, transcript),
            remove_intermediate(saved_notice(path)),
            remove_transcoded(),
            succeed(),
        ]);
    }
}

/// A run in which everything succeeds and the job names no output file: the
/// transcript is printed under its heading and copied to the clipboard
/// unchanged, the copy is confirmed, both intermediate files are removed, the
/// downloaded one first, and the run ends in success.
pub proof fn lemma_transcript_is_shown_and_copied(job: JobView, reports: Reports)
    requires
        job.output is None,
    ensures
        response_transcript(reports.body) is Ok ==> run(job, smooth_events(reports, 3))
            == moves_to_upload(job, reports) + seq![
            TransitionView {
                stage: StageView::CopyingToClipboard,
                notice: Some(shown_transcript(response_transcript(reports.body)->Ok_0)),
                action: ActionView::CopyToClipboard { text: response_transcript(reports.body)->Ok_0 },
            },
            TransitionView {
                stage: StageView::RemovingIntermediate,
                notice: Some(copied_notice()),
                action: ActionView::RemoveFile { path: intermediate_file() },
            },
            proceed(
                StageView::RemovingTranscoded,
                ActionView::RemoveFile { path: transcoded_file() },
            ),
            proceed(StageView::Done, ActionView::Stop),
        ],
{
    if response_transcript(reports.body) is Ok {
        let transcript = response_transcript(reports.body)->Ok_0;
        let f0 = Seq::new(3, |i: int| EventView::Finished);
        let f1 = f0.drop_first();
        let f2 = f1.drop_first();
        lemma_smooth_start(job, reports, 3);
        assert(responded(job, reports.body) == deliver(job, transcript));
        lemma_unfold(job, StageView::CopyingToClipboard, f0);
        lemma_unfold(job, StageView::RemovingIntermediate, f1);
        lemma_unfold(job, StageView::RemovingTranscoded, f2);
        assert(f2.drop_first().len() == 0);
        assert(continue_run(job, StageView::CopyingToClipboard, f0) =~= seq![
            remove_intermediate(copied_notice()),
            remove_transcoded(),
            succeed(),
        ]);
    }
}

/// A response without a transcript ends the run in the failure that reading
/// the response gives; nothing is delivered and nothing is removed.
pub proof fn lemma_unreadable_response_ends_run(
    job: JobView,
    reports: Reports,
    completions: nat,
)
    ensures
        response_transcript(reports.body) is Err ==> run(
            job,
            smooth_events(reports, completions),
        ) == moves_to_upload(job, reports) + seq![halt(response_transcript(reports.body)->Err_0)],
{
    if response_transcript(reports.body) is Err {
        lemma_smooth_start(job, reports, completions);
        lemma_ended_run_stays(
            job,
            responded(job, reports.body).stage,
            Seq::new(completions, |i: int| EventView::Finished),
        );
    }
}

} // verus!
