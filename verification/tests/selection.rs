use youtube_downloader::quality::QualityLabel;
use youtube_downloader::stream::{select_stream, StreamCandidate};

fn full(label: QualityLabel) -> StreamCandidate {
    StreamCandidate {
        quality_label: Some(label),
        includes_video_track: true,
        includes_audio_track: true,
    }
}

fn video_only(label: QualityLabel) -> StreamCandidate {
    StreamCandidate {
        quality_label: Some(label),
        includes_video_track: true,
        includes_audio_track: false,
    }
}

#[test]
fn highest_acceptable_label_is_selected() {
    let candidates =
        vec![full(QualityLabel::P720), full(QualityLabel::P1080), full(QualityLabel::P1080Hz60)];
    assert_eq!(select_stream(&candidates), Some(2));
}

#[test]
fn highest_label_is_selected_wherever_it_stands() {
    let candidates =
        vec![full(QualityLabel::P1080Hz60), full(QualityLabel::P720), full(QualityLabel::P1080)];
    assert_eq!(select_stream(&candidates), Some(0));
    let candidates =
        vec![full(QualityLabel::P720), full(QualityLabel::P1080Hz50), full(QualityLabel::P1080)];
    assert_eq!(select_stream(&candidates), Some(1));
}

#[test]
fn filter_precedes_maximum() {
    let candidates = vec![
        video_only(QualityLabel::P2160),
        full(QualityLabel::P720),
        video_only(QualityLabel::P4320),
        video_only(QualityLabel::P1440Hz60),
    ];
    assert_eq!(select_stream(&candidates), Some(1));
}

#[test]
fn higher_labels_off_the_list_are_passed_over() {
    let candidates = vec![
        full(QualityLabel::P2160),
        full(QualityLabel::P720Hz50),
        full(QualityLabel::P1080Hz60HDR),
        full(QualityLabel::P480),
    ];
    assert_eq!(select_stream(&candidates), Some(1));
}

#[test]
fn no_candidates_select_nothing() {
    assert_eq!(select_stream(&Vec::new()), None);
}

#[test]
fn no_eligible_candidate_selects_nothing() {
    let candidates = vec![
        video_only(QualityLabel::P1080),
        StreamCandidate {
            quality_label: Some(QualityLabel::P720),
            includes_video_track: false,
            includes_audio_track: true,
        },
        full(QualityLabel::P480),
        full(QualityLabel::P2160),
        StreamCandidate {
            quality_label: None,
            includes_video_track: true,
            includes_audio_track: true,
        },
    ];
    assert_eq!(select_stream(&candidates), None);
}

#[test]
fn candidate_without_label_is_not_eligible() {
    let unlabelled = StreamCandidate {
        quality_label: None,
        includes_video_track: true,
        includes_audio_track: true,
    };
    assert!(!unlabelled.is_eligible());
    assert!(full(QualityLabel::P720).is_eligible());
    assert!(!video_only(QualityLabel::P720).is_eligible());
    assert!(!full(QualityLabel::P144).is_eligible());
}

#[test]
fn last_of_equally_ranked_candidates_is_selected() {
    let candidates = vec![
        full(QualityLabel::P1080),
        full(QualityLabel::P720),
        full(QualityLabel::P1080),
        full(QualityLabel::P720Hz60),
    ];
    assert_eq!(select_stream(&candidates), Some(2));
}

#[test]
fn single_eligible_candidate_is_selected() {
    assert_eq!(select_stream(&vec![full(QualityLabel::P1080)]), Some(0));
}
