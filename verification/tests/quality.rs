use download_bot::quality::{quality_keyboard, QualityPreference};

const ALL: [QualityPreference; 4] = [
    QualityPreference::P360,
    QualityPreference::P720,
    QualityPreference::P1080,
    QualityPreference::Best,
];

#[test]
fn default_preference_is_best() {
    assert_eq!(QualityPreference::default(), QualityPreference::Best);
}

#[test]
fn height_caps_are_the_tier_numbers() {
    assert_eq!(QualityPreference::P360.height_cap(), Some(360));
    assert_eq!(QualityPreference::P720.height_cap(), Some(720));
    assert_eq!(QualityPreference::P1080.height_cap(), Some(1080));
    assert_eq!(QualityPreference::Best.height_cap(), None);
}

#[test]
fn labels_name_the_tiers() {
    assert_eq!(QualityPreference::P360.label(), "360p");
    assert_eq!(QualityPreference::P720.label(), "720p");
    assert_eq!(QualityPreference::P1080.label(), "1080p");
    assert_eq!(QualityPreference::Best.label(), "best");
}

#[test]
fn captions_are_what_buttons_show() {
    assert_eq!(QualityPreference::P360.caption(), "360p");
    assert_eq!(QualityPreference::P720.caption(), "720p");
    assert_eq!(QualityPreference::P1080.caption(), "1080p");
    assert_eq!(QualityPreference::Best.caption(), "Best");
}

#[test]
fn payloads_are_what_buttons_carry() {
    assert_eq!(QualityPreference::P360.payload(), "quality_360p");
    assert_eq!(QualityPreference::P720.payload(), "quality_720p");
    assert_eq!(QualityPreference::P1080.payload(), "quality_1080p");
    assert_eq!(QualityPreference::Best.payload(), "quality_best");
}

#[test]
fn label_of_a_capped_tier_is_its_cap_and_p() {
    for tier in ALL {
        if let Some(height) = tier.height_cap() {
            assert_eq!(tier.label(), format!("{}p", height));
        }
    }
}

#[test]
fn payload_is_prefix_and_label() {
    for tier in ALL {
        assert_eq!(tier.payload(), format!("quality_{}", tier.label()));
    }
}

#[test]
fn from_label_reads_every_label_back() {
    for tier in ALL {
        assert_eq!(QualityPreference::from_label(tier.label()), tier);
    }
}

#[test]
fn from_label_takes_unknown_text_for_best() {
    assert_eq!(QualityPreference::from_label(""), QualityPreference::Best);
    assert_eq!(QualityPreference::from_label("480p"), QualityPreference::Best);
    assert_eq!(QualityPreference::from_label("720"), QualityPreference::Best);
    assert_eq!(QualityPreference::from_label("720P"), QualityPreference::Best);
    assert_eq!(QualityPreference::from_label(" 720p"), QualityPreference::Best);
    assert_eq!(QualityPreference::from_label("Best"), QualityPreference::Best);
    assert_eq!(QualityPreference::from_label("quality_720p"), QualityPreference::Best);
}

#[test]
fn from_payload_reads_every_payload_back() {
    for tier in ALL {
        assert_eq!(QualityPreference::from_payload(tier.payload()), Some(tier));
    }
}

#[test]
fn from_payload_rejects_foreign_payloads() {
    assert_eq!(QualityPreference::from_payload(""), None);
    assert_eq!(QualityPreference::from_payload("720p"), None);
    assert_eq!(QualityPreference::from_payload("quality_"), None);
    assert_eq!(QualityPreference::from_payload("quality_480p"), None);
    assert_eq!(QualityPreference::from_payload("quality_720p "), None);
    assert_eq!(QualityPreference::from_payload("Quality_720p"), None);
    assert_eq!(QualityPreference::from_payload("quality_Best"), None);
    assert_eq!(QualityPreference::from_payload("delete_everything"), None);
}

#[test]
fn labels_and_payloads_are_pairwise_different() {
    for (i, a) in ALL.iter().enumerate() {
        for (j, b) in ALL.iter().enumerate() {
            if i != j {
                assert_ne!(a.label(), b.label());
                assert_ne!(a.payload(), b.payload());
            }
        }
    }
}

#[test]
fn keyboard_has_two_rows_of_two() {
    let rows = quality_keyboard();
    assert_eq!(
        rows,
        vec![
            vec![QualityPreference::P360, QualityPreference::P720],
            vec![QualityPreference::P1080, QualityPreference::Best],
        ]
    );
}

#[test]
fn keyboard_offers_each_tier_once() {
    let rows = quality_keyboard();
    for tier in ALL {
        let count = rows.iter().flatten().filter(|offered| **offered == tier).count();
        assert_eq!(count, 1);
    }
}

#[test]
fn keyboard_buttons_are_understood_when_pressed() {
    for row in quality_keyboard() {
        for tier in row {
            assert_eq!(QualityPreference::from_payload(tier.payload()), Some(tier));
        }
    }
}
