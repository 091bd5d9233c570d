use youtube_downloader::quality::QualityLabel;

const ALL: [QualityLabel; 31] = [
    QualityLabel::P144,
    QualityLabel::P144HDR,
    QualityLabel::P144Hz60HDR,
    QualityLabel::P240,
    QualityLabel::P240HDR,
    QualityLabel::P240Hz60HDR,
    QualityLabel::P360,
    QualityLabel::P360HDR,
    QualityLabel::P360Hz60,
    QualityLabel::P360Hz60HDR,
    QualityLabel::P480,
    QualityLabel::P480HDR,
    QualityLabel::P480Hz60,
    QualityLabel::P480Hz60HDR,
    QualityLabel::P720,
    QualityLabel::P720Hz50,
    QualityLabel::P720Hz60,
    QualityLabel::P720Hz60HDR,
    QualityLabel::P1080,
    QualityLabel::P1080Hz50,
    QualityLabel::P1080Hz60,
    QualityLabel::P1080Hz60HDR,
    QualityLabel::P1440,
    QualityLabel::P1440Hz60,
    QualityLabel::P1440Hz60HDR,
    QualityLabel::P2160,
    QualityLabel::P2160Hz60,
    QualityLabel::P2160Hz60HDR,
    QualityLabel::P4320,
    QualityLabel::P4320Hz60,
    QualityLabel::P4320Hz60HDR,
];

#[test]
fn ranks_count_up_from_the_lowest_tier() {
    for (position, label) in ALL.iter().enumerate() {
        assert_eq!(label.rank() as usize, position);
    }
}

#[test]
fn rank_of_named_tiers() {
    assert_eq!(QualityLabel::P144.rank(), 0);
    assert_eq!(QualityLabel::P720.rank(), 14);
    assert_eq!(QualityLabel::P720Hz60HDR.rank(), 17);
    assert_eq!(QualityLabel::P1080.rank(), 18);
    assert_eq!(QualityLabel::P1080Hz60.rank(), 20);
    assert_eq!(QualityLabel::P2160.rank(), 25);
    assert_eq!(QualityLabel::P4320Hz60HDR.rank(), 30);
}

#[test]
fn rank_agrees_with_the_order_of_labels() {
    for a in ALL.iter() {
        for b in ALL.iter() {
            assert_eq!(a < b, a.rank() < b.rank());
            assert_eq!(a == b, a.rank() == b.rank());
        }
    }
}

#[test]
fn exactly_six_labels_are_acceptable() {
    let acceptable: Vec<QualityLabel> =
        ALL.iter().copied().filter(|label| label.is_acceptable()).collect();
    assert_eq!(
        acceptable,
        vec![
            QualityLabel::P720,
            QualityLabel::P720Hz50,
            QualityLabel::P720Hz60,
            QualityLabel::P1080,
            QualityLabel::P1080Hz50,
            QualityLabel::P1080Hz60,
        ]
    );
}

#[test]
fn hdr_and_higher_tiers_are_not_acceptable() {
    assert!(!QualityLabel::P720Hz60HDR.is_acceptable());
    assert!(!QualityLabel::P1080Hz60HDR.is_acceptable());
    assert!(!QualityLabel::P1440.is_acceptable());
    assert!(!QualityLabel::P2160.is_acceptable());
    assert!(!QualityLabel::P480.is_acceptable());
    assert!(!QualityLabel::P144.is_acceptable());
}
