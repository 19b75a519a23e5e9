use download_bot::plan::{
    format_selector, output_path, tool_arguments, tool_program, JobId, JobIds,
    TOOL_TIME_LIMIT_SECS,
};
use download_bot::quality::QualityPreference;

const ALL: [QualityPreference; 4] = [
    QualityPreference::P360,
    QualityPreference::P720,
    QualityPreference::P1080,
    QualityPreference::Best,
];

#[test]
fn selector_caps_360() {
    assert_eq!(
        format_selector(false, QualityPreference::P360),
        "bestvideo[height<=360]+bestaudio/best[height<=360]"
    );
}

#[test]
fn selector_caps_720() {
    assert_eq!(
        format_selector(false, QualityPreference::P720),
        "bestvideo[height<=720]+bestaudio/best[height<=720]"
    );
}

#[test]
fn selector_caps_1080() {
    assert_eq!(
        format_selector(false, QualityPreference::P1080),
        "bestvideo[height<=1080]+bestaudio/best[height<=1080]"
    );
}

#[test]
fn selector_for_best_is_uncapped() {
    assert_eq!(format_selector(false, QualityPreference::Best), "bestvideo+bestaudio/best");
}

#[test]
fn selector_for_unknown_label_is_uncapped() {
    for label in ["", "4k", "480p", "BEST", "720"] {
        assert_eq!(
            format_selector(false, QualityPreference::from_label(label)),
            "bestvideo+bestaudio/best"
        );
    }
}

#[test]
fn selector_for_audio_ignores_quality() {
    for quality in ALL {
        assert_eq!(format_selector(true, quality), "bestaudio[ext=mp3]");
    }
}

#[test]
fn selector_cap_is_the_number_in_the_label() {
    for quality in ALL {
        if let Some(height) = quality.height_cap() {
            let expected = format!("bestvideo[height<={0}]+bestaudio/best[height<={0}]", height);
            assert_eq!(format_selector(false, quality), expected);
            assert_eq!(quality.label(), format!("{}p", height));
        }
    }
}

#[test]
fn output_path_carries_the_job_number() {
    assert_eq!(output_path(JobId(0), false), "/data/output_0.mp4");
    assert_eq!(output_path(JobId(0), true), "/data/output_0.mp3");
    assert_eq!(output_path(JobId(17), false), "/data/output_17.mp4");
    assert_eq!(output_path(JobId(1080), true), "/data/output_1080.mp3");
    assert_eq!(output_path(JobId(u64::MAX), false), "/data/output_18446744073709551615.mp4");
}

#[test]
fn output_paths_of_different_jobs_differ() {
    let mut seen: Vec<String> = Vec::new();
    for number in 0..200u64 {
        for audio_only in [false, true] {
            let path = output_path(JobId(number), audio_only);
            assert!(!seen.contains(&path));
            seen.push(path);
        }
    }
}

#[test]
fn output_paths_do_not_collide_across_digit_counts() {
    assert_ne!(output_path(JobId(1), false), output_path(JobId(10), false));
    assert_ne!(output_path(JobId(1), false), output_path(JobId(11), false));
    assert_ne!(output_path(JobId(12), true), output_path(JobId(21), true));
    assert_ne!(output_path(JobId(3), true), output_path(JobId(3), false));
}

#[test]
fn job_ids_count_up_from_zero() {
    let mut ids = JobIds::new();
    assert_eq!(ids.allocate(), Some(JobId(0)));
    assert_eq!(ids.allocate(), Some(JobId(1)));
    assert_eq!(ids.allocate(), Some(JobId(2)));
}

#[test]
fn job_ids_count_up_from_a_given_number() {
    let mut ids = JobIds::starting_at(40);
    assert_eq!(ids.allocate(), Some(JobId(40)));
    assert_eq!(ids.allocate(), Some(JobId(41)));
}

#[test]
fn job_ids_never_repeat() {
    let mut ids = JobIds::new();
    let mut seen: Vec<JobId> = Vec::new();
    for _ in 0..500 {
        let id = ids.allocate().unwrap();
        assert!(!seen.contains(&id));
        seen.push(id);
    }
}

#[test]
fn job_ids_run_out_at_the_largest_number() {
    let mut ids = JobIds::starting_at(u64::MAX - 1);
    assert_eq!(ids.allocate(), Some(JobId(u64::MAX - 1)));
    assert_eq!(ids.allocate(), None);
    assert_eq!(ids.allocate(), None);
}

#[test]
fn exhausted_allocator_hands_out_nothing() {
    let mut ids = JobIds::starting_at(u64::MAX);
    assert_eq!(ids.allocate(), None);
}

#[test]
fn downloader_is_called_by_its_name() {
    assert_eq!(tool_program(), "yt-dlp");
}

#[test]
fn downloader_arguments_are_in_order() {
    assert_eq!(
        tool_arguments("bestvideo+bestaudio/best", "/data/output_3.mp4", "https://example/video"),
        vec!["-f", "bestvideo+bestaudio/best", "-o", "/data/output_3.mp4", "https://example/video"]
    );
}

#[test]
fn downloader_arguments_keep_odd_addresses_whole() {
    assert_eq!(
        tool_arguments("f", "o", "-o /etc/passwd; rm x"),
        vec!["-f", "f", "-o", "o", "-o /etc/passwd; rm x"]
    );
    assert_eq!(tool_arguments("", "", ""), vec!["-f", "", "-o", "", ""]);
}

#[test]
fn downloader_time_limit_is_one_hour() {
    assert_eq!(TOOL_TIME_LIMIT_SECS, 60 * 60);
}
