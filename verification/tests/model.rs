use rustube::video_info::player_response::streaming_data::QualityLabel as Outside;
use youtube_downloader::quality::QualityLabel;
use youtube_downloader::stream::{select_stream, StreamCandidate};

fn pairs() -> Vec<(QualityLabel, Outside)> {
    vec![
        (QualityLabel::P144, Outside::P144),
        (QualityLabel::P144HDR, Outside::P144HDR),
        (QualityLabel::P144Hz60HDR, Outside::P144Hz60HDR),
        (QualityLabel::P240, Outside::P240),
        (QualityLabel::P240HDR, Outside::P240HDR),
        (QualityLabel::P240Hz60HDR, Outside::P240Hz60HDR),
        (QualityLabel::P360, Outside::P360),
        (QualityLabel::P360HDR, Outside::P360HDR),
        (QualityLabel::P360Hz60, Outside::P360Hz60),
        (QualityLabel::P360Hz60HDR, Outside::P360Hz60HDR),
        (QualityLabel::P480, Outside::P480),
        (QualityLabel::P480HDR, Outside::P480HDR),
        (QualityLabel::P480Hz60, Outside::P480Hz60),
        (QualityLabel::P480Hz60HDR, Outside::P480Hz60HDR),
        (QualityLabel::P720, Outside::P720),
        (QualityLabel::P720Hz50, Outside::P720Hz50),
        (QualityLabel::P720Hz60, Outside::P720Hz60),
        (QualityLabel::P720Hz60HDR, Outside::P720Hz60HDR),
        (QualityLabel::P1080, Outside::P1080),
        (QualityLabel::P1080Hz50, Outside::P1080Hz50),
        (QualityLabel::P1080Hz60, Outside::P1080Hz60),
        (QualityLabel::P1080Hz60HDR, Outside::P1080Hz60HDR),
        (QualityLabel::P1440, Outside::P1440),
        (QualityLabel::P1440Hz60, Outside::P1440Hz60),
        (QualityLabel::P1440Hz60HDR, Outside::P1440Hz60HDR),
        (QualityLabel::P2160, Outside::P2160),
        (QualityLabel::P2160Hz60, Outside::P2160Hz60),
        (QualityLabel::P2160Hz60HDR, Outside::P2160Hz60HDR),
        (QualityLabel::P4320, Outside::P4320),
        (QualityLabel::P4320Hz60, Outside::P4320Hz60),
        (QualityLabel::P4320Hz60HDR, Outside::P4320Hz60HDR),
    ]
}

#[test]
fn labels_carry_the_names_of_the_fetcher() {
    for (own, outside) in pairs() {
        assert_eq!(format!("{:?}", own), format!("{:?}", outside));
    }
}

#[test]
fn ranks_order_labels_as_the_fetcher_does() {
    let pairs = pairs();
    for (a, outside_a) in pairs.iter() {
        for (b, outside_b) in pairs.iter() {
            assert_eq!(a.rank() < b.rank(), outside_a < outside_b);
            assert_eq!(a.rank() == b.rank(), outside_a == outside_b);
        }
    }
}

/// The choice written with iterator adaptors over the fetcher's own labels.
fn chosen_by_iterators(streams: &[(Option<Outside>, bool, bool)]) -> Option<usize> {
    let acceptable = vec![
        Outside::P720,
        Outside::P720Hz50,
        Outside::P720Hz60,
        Outside::P1080,
        Outside::P1080Hz50,
        Outside::P1080Hz60,
    ];
    streams
        .iter()
        .enumerate()
        .filter(|(_, s)| s.1 && s.2 && acceptable.contains(&s.0.unwrap_or(Outside::P144)))
        .max_by_key(|(_, s)| s.0)
        .map(|(position, _)| position)
}

#[test]
fn selection_agrees_with_filter_and_max_by_key() {
    let pairs = pairs();
    let mut seed: u64 = 0x2545_f491_4f6c_dd1d;
    let mut draw = move |bound: u64| {
        seed = seed.wrapping_mul(6364136223846793005).wrapping_add(1442695040888963407);
        (seed >> 33) % bound
    };
    for _ in 0..2000 {
        let length = draw(7) as usize;
        let mut own = Vec::new();
        let mut outside = Vec::new();
        for _ in 0..length {
            let unlabelled = draw(8) == 0;
            let (label, outside_label) = pairs[(12 + draw(12)) as usize];
            let video = draw(4) != 0;
            let audio = draw(4) != 0;
            own.push(StreamCandidate {
                quality_label: if unlabelled { None } else { Some(label) },
                includes_video_track: video,
                includes_audio_track: audio,
            });
            outside.push((if unlabelled { None } else { Some(outside_label) }, video, audio));
        }
        assert_eq!(select_stream(&own), chosen_by_iterators(&outside), "{:?}", own);
    }
}
