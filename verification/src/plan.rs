//! What a download job asks of the downloader: the format selector for the
//! requested media, and an output file that belongs to that job alone.

use vstd::prelude::*;
use crate::decimal::{append_decimal, decimal, lemma_decimal_injective};
use crate::quality::QualityPreference;

verus! {

/// The selector for an audio-only request: the best audio track in the one
/// audio container the bot delivers.
pub open spec fn audio_selector() -> Seq<char> {
    "bestaudio[ext=mp3]"@
}

/// The selector for video with no cap on the picture height.
pub open spec fn uncapped_selector() -> Seq<char> {
    "bestvideo+bestaudio/best"@
}

/// The selector for video whose picture height is at most `height`: the cap
/// stands, in decimal, on the video stream and on the combined fallback.
pub open spec fn capped_selector(height: nat) -> Seq<char> {
    "bestvideo[height<="@ + decimal(height) + "]+bestaudio/best[height<="@ + decimal(height)
        + "]"@
}

/// The selector for a request: audio-only requests ignore the quality; video
/// requests are capped at the tier's height, or uncapped for a tier without
/// one.
pub open spec fn selector(audio_only: bool, quality: QualityPreference) -> Seq<char> {
    if audio_only {
        audio_selector()
    } else {
        match quality.cap() {
            Some(height) => capped_selector(height as nat),
            None => uncapped_selector(),
        }
    }
}

/// Computes the format selector that the downloader is given.
pub fn format_selector(audio_only: bool, quality: QualityPreference) -> (format: String)
    ensures
        format@ == selector(audio_only, quality),
        audio_only ==> format@ == audio_selector(),
        !audio_only && quality.cap() is Some ==> format@ == capped_selector(
            quality.cap().unwrap() as nat,
        ),
        !audio_only && quality.cap() is None ==> format@ == uncapped_selector(),
{
    if audio_only {
        String::from_str("bestaudio[ext=mp3]")
    } else {
        match quality.height_cap() {
            Some(height) => {
                let mut format = String::from_str("bestvideo[height<=");
                append_decimal(&mut format, height);
                format.append("]+bestaudio/best[height<=");
                append_decimal(&mut format, height);
                format.append("]");
                format
            },
            None => String::from_str("bestvideo+bestaudio/best"),
        }
    }
}

/// A video selector follows the tier that a label names: the label of a
/// capped tier gives the selector capped at that tier's height, any other
/// label gives the uncapped selector, and an audio-only request gives the
/// audio selector whatever the label.
pub proof fn lemma_selector_follows_label(label: Seq<char>)
    ensures
        forall|tier: QualityPreference|
            tier.cap() is Some && label == #[trigger] tier.label_text() ==> selector(
                false,
                QualityPreference::of_label(label),
            ) == capped_selector(tier.cap().unwrap() as nat),
        (forall|tier: QualityPreference|
            tier.cap() is Some ==> label != #[trigger] tier.label_text()) ==> selector(
            false,
            QualityPreference::of_label(label),
        ) == uncapped_selector(),
        selector(true, QualityPreference::of_label(label)) == audio_selector(),
{
    assert forall|tier: QualityPreference|
        tier.cap() is Some && label == #[trigger] tier.label_text() implies selector(
        false,
        QualityPreference::of_label(label),
    ) == capped_selector(tier.cap().unwrap() as nat) by {
        QualityPreference::lemma_label_round_trip(tier);
    }
}

/// The cap can be read off a selector: selectors capped at different
/// heights differ, and none of them is the uncapped or the audio selector.
pub proof fn lemma_selectors_distinct(first: nat, second: nat)
    ensures
        capped_selector(first) == capped_selector(second) <==> first == second,
        capped_selector(first) != uncapped_selector(),
        capped_selector(first) != audio_selector(),
        uncapped_selector() != audio_selector(),
{
    reveal_strlit("bestvideo[height<=");
    reveal_strlit("]+bestaudio/best[height<=");
    reveal_strlit("]");
    reveal_strlit("bestvideo+bestaudio/best");
    reveal_strlit("bestaudio[ext=mp3]");
    let head = "bestvideo[height<="@;
    let a = capped_selector(first);
    let b = capped_selector(second);
    let da = decimal(first);
    let db = decimal(second);
    assert(a.len() == head.len() + 2 * da.len() + 26);
    assert(b.len() == head.len() + 2 * db.len() + 26);
    assert(a[9] == '[' && uncapped_selector()[9] == '+');
    assert(a[4] == 'v' && uncapped_selector()[4] == 'v' && audio_selector()[4] == 'a');
    if a == b {
        assert(a.subrange(head.len() as int, (head.len() + da.len()) as int) =~= da);
        assert(b.subrange(head.len() as int, (head.len() + db.len()) as int) =~= db);
        lemma_decimal_injective(first, second);
    }
}

/// How many seconds one run of the downloader may take. A run that takes
/// longer is stopped and counts as cut short.
pub const TOOL_TIME_LIMIT_SECS: u64 = 3600;

/// The name under which the downloader is installed.
pub open spec fn program() -> Seq<char> {
    "yt-dlp"@
}

/// The arguments of one run of the downloader: the format selector after
/// `-f`, the output file after `-o`, then the address.
pub open spec fn invocation(format: Seq<char>, output: Seq<char>, url: Seq<char>) -> Seq<
    Seq<char>,
> {
    seq!["-f"@, format, "-o"@, output, url]
}

/// The texts of a list of strings.
pub open spec fn words(arguments: Seq<String>) -> Seq<Seq<char>> {
    arguments.map_values(|word: String| word@)
}

/// The name of the downloader's executable.
pub fn tool_program() -> (name: &'static str)
    ensures
        name@ == program(),
{
    "yt-dlp"
}

/// The arguments with which the downloader is run.
pub fn tool_arguments(format: &str, output: &str, url: &str) -> (arguments: Vec<String>)
    ensures
        words(arguments@) == invocation(format@, output@, url@),
{
    let mut arguments: Vec<String> = Vec::new();
    arguments.push(String::from_str("-f"));
    arguments.push(String::from_str(format));
    arguments.push(String::from_str("-o"));
    arguments.push(String::from_str(output));
    arguments.push(String::from_str(url));
    arguments
}

/// Identifies one download job for the lifetime of the process.
#[derive(Clone, Copy, Debug, PartialEq, Eq, Hash, Structural)]
pub struct JobId(pub u64);

/// The identifier that carries the number `number`, or `None` once the
/// numbers are used up.
pub open spec fn id_numbered(number: nat) -> Option<JobId> {
    if number < u64::MAX {
        Some(JobId(number as u64))
    } else {
        None
    }
}

/// Hands out job identifiers in ascending order, each one once.
pub struct JobIds {
    next: u64,
}

impl JobIds {
    /// The number that the next identifier will carry.
    pub closed spec fn upcoming(&self) -> nat {
        self.next as nat
    }

    /// An allocator whose first identifier carries the number zero.
    pub fn new() -> (ids: Self)
        ensures
            ids.upcoming() == 0,
    {
        JobIds { next: 0 }
    }

    /// An allocator whose first identifier carries the number `first`.
    pub fn starting_at(first: u64) -> (ids: Self)
        ensures
            ids.upcoming() == first,
    {
        JobIds { next: first }
    }

    /// Hands out the next identifier. Returns `None`, and changes nothing,
    /// once every number below `u64::MAX` has been handed out.
    pub fn allocate(&mut self) -> (id: Option<JobId>)
        ensures
            id == id_numbered(old(self).upcoming()),
            final(self).upcoming() == if id is Some {
                old(self).upcoming() + 1
            } else {
                old(self).upcoming()
            },
    {
        if self.next < u64::MAX {
            let id = JobId(self.next);
            self.next = self.next + 1;
            Some(id)
        } else {
            None
        }
    }
}

/// No identifier is handed out twice: each allocation that succeeds moves
/// the allocator on to the next number, and different numbers give
/// different identifiers.
pub proof fn lemma_ids_never_repeat(earlier: nat, later: nat)
    requires
        earlier < later,
        id_numbered(later) is Some,
    ensures
        id_numbered(earlier) is Some,
        id_numbered(earlier) != id_numbered(later),
{
}

/// The file extension of the delivered media.
pub open spec fn extension(audio_only: bool) -> Seq<char> {
    if audio_only {
        ".mp3"@
    } else {
        ".mp4"@
    }
}

/// The file that job `job` downloads into: the job's identifier, in decimal,
/// is part of the name.
pub open spec fn job_path(job: JobId, audio_only: bool) -> Seq<char> {
    "/data/output_"@ + decimal(job.0 as nat) + extension(audio_only)
}

/// Computes the output file of a job.
pub fn output_path(job: JobId, audio_only: bool) -> (path: String)
    ensures
        path@ == job_path(job, audio_only),
{
    let mut path = String::from_str("/data/output_");
    append_decimal(&mut path, job.0);
    if audio_only {
        path.append(".mp3");
    } else {
        path.append(".mp4");
    }
    path
}

/// Jobs never share an output file: two paths are equal only for the same
/// job and the same kind of media.
pub proof fn lemma_job_paths_isolated(a: JobId, a_audio: bool, b: JobId, b_audio: bool)
    ensures
        job_path(a, a_audio) == job_path(b, b_audio) <==> a == b && a_audio == b_audio,
{
    reveal_strlit(".mp3");
    reveal_strlit(".mp4");
    let head = "/data/output_"@;
    let pa = job_path(a, a_audio);
    let pb = job_path(b, b_audio);
    let da = decimal(a.0 as nat);
    let db = decimal(b.0 as nat);
    if pa == pb {
        assert(pa.len() == head.len() + da.len() + 4);
        assert(pb.len() == head.len() + db.len() + 4);
        assert(pa.subrange(head.len() as int, pa.len() - 4) =~= da);
        assert(pb.subrange(head.len() as int, pb.len() - 4) =~= db);
        lemma_decimal_injective(a.0 as nat, b.0 as nat);
        assert(pa[pa.len() - 1] == extension(a_audio)[3]);
        assert(pb[pb.len() - 1] == extension(b_audio)[3]);
    }
}

} // verus!
