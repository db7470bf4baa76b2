use ql_label::error::ConfigError;
use ql_label::{ContinuousType, DieCutType, Media, Model};

fn all_media() -> Vec<Media> {
    vec![
        Media::Continuous(ContinuousType::Continuous12),
        Media::Continuous(ContinuousType::Continuous29),
        Media::Continuous(ContinuousType::Continuous38),
        Media::Continuous(ContinuousType::Continuous50),
        Media::Continuous(ContinuousType::Continuous54),
        Media::Continuous(ContinuousType::Continuous62),
        Media::Continuous(ContinuousType::Continuous62Red),
        Media::DieCut(DieCutType::DieCut17x54),
        Media::DieCut(DieCutType::DieCut17x87),
        Media::DieCut(DieCutType::DieCut23x23),
        Media::DieCut(DieCutType::DieCut29x42),
        Media::DieCut(DieCutType::DieCut29x90),
        Media::DieCut(DieCutType::DieCut38x90),
        Media::DieCut(DieCutType::DieCut39x48),
        Media::DieCut(DieCutType::DieCut52x29),
        Media::DieCut(DieCutType::DieCut54x29),
        Media::DieCut(DieCutType::DieCut60x86),
        Media::DieCut(DieCutType::DieCut62x29),
        Media::DieCut(DieCutType::DieCut62x100),
        Media::DieCut(DieCutType::DieCut12Dia),
        Media::DieCut(DieCutType::DieCut24Dia),
        Media::DieCut(DieCutType::DieCut58Dia),
    ]
}

fn status_frame_for(media: Media) -> [u8; 32] {
    let spec = media.spec_for();
    let mut buf = [0u8; 32];
    buf[10] = spec.width_mm();
    buf[11] = match media {
        Media::Continuous(_) => 0x0A,
        Media::DieCut(_) => 0x0B,
    };
    buf[17] = spec.length_mm();
    buf[25] = match media {
        Media::Continuous(ContinuousType::Continuous62Red) => 0x81,
        _ => 0x01,
    };
    buf
}

#[test]
fn test_media_round_trip_through_status_fields() {
    for media in all_media() {
        let decoded = Media::from_buf(status_frame_for(media));
        assert_eq!(decoded, Some(media), "round trip failed for {:?}", media);
    }
}

#[test]
fn test_media_from_buf_unknown() {
    // unknown family byte
    let mut buf = [0u8; 32];
    buf[10] = 62;
    buf[11] = 0x4A;
    assert_eq!(Media::from_buf(buf), None);
    // 62mm continuous with an unexpected color byte
    buf[11] = 0x0A;
    buf[25] = 0x00;
    assert_eq!(Media::from_buf(buf), None);
    // die-cut with an unknown width/length pair
    buf[11] = 0x0B;
    buf[10] = 61;
    buf[17] = 61;
    assert_eq!(Media::from_buf(buf), None);
}

#[test]
fn test_media_from_id() {
    assert_eq!(
        Media::from_id(259),
        Some(Media::Continuous(ContinuousType::Continuous62))
    );
    assert_eq!(
        Media::from_id(274),
        Some(Media::DieCut(DieCutType::DieCut62x29))
    );
    assert_eq!(Media::from_id(9999), None);
    // every stock except the red 62mm roll, which shares the plain one's
    // id, is recovered from its own catalog id
    for media in all_media() {
        if media == Media::Continuous(ContinuousType::Continuous62Red) {
            continue;
        }
        assert_eq!(Media::from_id(media.spec_for().id), Some(media));
    }
}

#[test]
fn test_check_feed_value_boundaries() {
    let cont = Media::Continuous(ContinuousType::Continuous29);
    assert_eq!(
        cont.check_feed_value(34),
        Err(ConfigError::FeedOutOfRange(34))
    );
    assert_eq!(cont.check_feed_value(35), Ok([35, 0]));
    assert_eq!(cont.check_feed_value(1500), Ok([0xDC, 0x05]));
    assert_eq!(
        cont.check_feed_value(1501),
        Err(ConfigError::FeedOutOfRange(1501))
    );
    assert_eq!(cont.check_feed_value(0), Err(ConfigError::FeedOutOfRange(0)));

    let die = Media::DieCut(DieCutType::DieCut29x90);
    assert_eq!(die.check_feed_value(0), Ok([0, 0]));
    assert_eq!(die.check_feed_value(1), Err(ConfigError::FeedMustBeZero(1)));
    assert_eq!(
        die.check_feed_value(35),
        Err(ConfigError::FeedMustBeZero(35))
    );
}

#[test]
fn test_check_feed_value_all_variants() {
    for media in all_media() {
        match media {
            Media::Continuous(_) => {
                assert!(media.check_feed_value(34).is_err());
                assert!(media.check_feed_value(35).is_ok());
                assert!(media.check_feed_value(1500).is_ok());
                assert!(media.check_feed_value(1501).is_err());
            }
            Media::DieCut(_) => {
                assert!(media.check_feed_value(0).is_ok());
                assert!(media.check_feed_value(1).is_err());
            }
        }
    }
}

#[test]
fn test_default_feed_dots() {
    assert_eq!(
        Media::Continuous(ContinuousType::Continuous62).get_default_feed_dots(),
        35
    );
    assert_eq!(
        Media::DieCut(DieCutType::DieCut62x29).get_default_feed_dots(),
        0
    );
}

#[test]
fn test_set_media_bytes() {
    let mut buf: Vec<u8> = vec![0xEE];
    Media::Continuous(ContinuousType::Continuous62).set_media(&mut buf, false);
    assert_eq!(buf, vec![0xEE, 0x86, 0x0A, 62, 0]);

    let mut buf2: Vec<u8> = Vec::new();
    Media::DieCut(DieCutType::DieCut29x90).set_media(&mut buf2, true);
    assert_eq!(buf2, vec![0xCE, 0x0B, 29, 90]);
}

#[test]
fn test_media_spec_geometry() {
    let spec = Media::Continuous(ContinuousType::Continuous62).spec_for();
    assert_eq!(spec.width_mm(), 62);
    assert_eq!(spec.length_mm(), 0);
    assert_eq!(spec.width.effective, 696);
    assert_eq!(spec.offset_dots, None);

    let spec2 = Media::DieCut(DieCutType::DieCut62x100).spec_for();
    assert_eq!(spec2.width_mm(), 62);
    assert_eq!(spec2.length_mm(), 100);
    assert_eq!(spec2.length.dots, 1179);
    assert_eq!(spec2.offset_dots, Some(35));
}

#[test]
fn test_model_codes() {
    assert_eq!(Model::from_code(0x38), Model::QL800);
    assert_eq!(Model::from_code(0x41), Model::QL820NWB);
    assert_eq!(Model::from_code(0xFF), Model::Unknown);
    assert_eq!(Model::QL800.pid(), 0x209b);
    assert_eq!(Model::QL500.pid(), 0x0000);
    assert_eq!(Model::QL800.pins(), 720);
    assert_eq!(Model::QL1100.pins(), 1296);
}
