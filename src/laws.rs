use vstd::prelude::*;

use crate::error::CrlError;
use crate::kds::crl_file_name_of;
use crate::processor::{generation_name, ProcessorGeneration};
use crate::session::{accepts_spec, finish, transition, ActionView, EventView, StageView};

verus! {

/// Once an operation is done it accepts no further event, so it asks for no
/// further work.
pub proof fn lemma_done_is_final(outcome: Result<(), CrlError>, e: EventView)
    ensures
        !accepts_spec(StageView::Done { outcome }, e),
{
}

/// Once the generation `g` is detected, the list is requested from
/// `https://kdsintf.amd.com/vcek/v1/<g>/crl`, where `<g>` is the generation's
/// name.
pub proof fn lemma_fetches_generation_url(g: ProcessorGeneration)
    ensures
        transition(StageView::Detecting, EventView::Detected { generation: g }) == (
            StageView::Fetching { generation: g },
            ActionView::Fetch {
                url: "https://kdsintf.amd.com/vcek/v1/"@ + generation_name(g) + "/crl"@,
            },
        ),
{
}

/// When the generation cannot be detected, the operation ends with a
/// detection error and no request is ever made.
pub proof fn lemma_detection_failure_fetches_nothing(e: EventView)
    ensures
        transition(StageView::Detecting, EventView::DetectionFailed) == finish(
            Err(CrlError::Detection),
        ),
        !accepts_spec(transition(StageView::Detecting, EventView::DetectionFailed).0, e),
{
}

/// When the fetch fails, the operation ends with a fetch error, which is no
/// filesystem error, and no directory or file is touched afterwards.
pub proof fn lemma_fetch_failure_touches_no_file(g: ProcessorGeneration, e: EventView)
    ensures
        transition(StageView::Fetching { generation: g }, EventView::FetchFailed) == finish(
            Err(CrlError::Fetch),
        ),
        !(CrlError::Fetch is Io),
        !accepts_spec(
            transition(StageView::Fetching { generation: g }, EventView::FetchFailed).0,
            e,
        ),
{
}

/// With a missing destination directory, a successful run detects `g`,
/// fetches `body`, creates the directory, then writes exactly `body` to
/// `<g>.crl` and succeeds.
pub proof fn lemma_missing_dir_is_created_then_written(g: ProcessorGeneration, body: Seq<u8>)
    ensures
        ({
            let (s1, a1) = transition(StageView::Detecting, EventView::Detected { generation: g });
            let (s2, a2) = transition(s1, EventView::Fetched { body });
            let (s3, a3) = transition(s2, EventView::DirMissing);
            let (s4, a4) = transition(s3, EventView::DirCreated);
            let (s5, a5) = transition(s4, EventView::Written);
            &&& a1 is Fetch
            &&& a2 == ActionView::CheckDir
            &&& a3 == ActionView::CreateDir
            &&& a4 == ActionView::WriteFile { file_name: crl_file_name_of(g), bytes: body }
            &&& a5 == ActionView::Finish { outcome: Ok(()) }
            &&& s5 == StageView::Done { outcome: Ok(()) }
        }),
{
}

/// With an existing destination directory, a successful run replaces the
/// contents of `<g>.crl` with exactly the fetched `body`: the write action
/// truncates the file and carries the new bytes alone.
pub proof fn lemma_existing_dir_is_overwritten(g: ProcessorGeneration, body: Seq<u8>)
    ensures
        ({
            let (s1, a1) = transition(StageView::Detecting, EventView::Detected { generation: g });
            let (s2, a2) = transition(s1, EventView::Fetched { body });
            let (s3, a3) = transition(s2, EventView::DirExists);
            let (s4, a4) = transition(s3, EventView::Written);
            &&& a1 is Fetch
            &&& a2 == ActionView::CheckDir
            &&& a3 == ActionView::WriteFile { file_name: crl_file_name_of(g), bytes: body }
            &&& a4 == ActionView::Finish { outcome: Ok(()) }
            &&& s4 == StageView::Done { outcome: Ok(()) }
        }),
{
}

/// An empty response body is no failure: it is written as an empty file,
/// whether or not the directory existed.
pub proof fn lemma_empty_body_is_written(g: ProcessorGeneration, dir_exists: bool)
    ensures
        ({
            let s1 = StageView::Fetching { generation: g };
            let (s2, a2) = transition(s1, EventView::Fetched { body: Seq::empty() });
            let (s3, a3) = transition(
                s2,
                if dir_exists {
                    EventView::DirExists
                } else {
                    EventView::DirMissing
                },
            );
            let (s4, a4) = if dir_exists {
                (s3, a3)
            } else {
                transition(s3, EventView::DirCreated)
            };
            &&& a2 == ActionView::CheckDir
            &&& a4 matches ActionView::WriteFile { file_name, bytes }
            &&& file_name == crl_file_name_of(g)
            &&& bytes.len() == 0
            &&& transition(s4, EventView::Written) == finish(Ok(()))
        }),
{
}

} // verus!
