use ql_label::command::{
    build_media_header, build_page_bytes, build_preamble, build_print_stream, initialize_command,
    request_status_command,
};
use ql_label::error::{ConfigError, Error};
use ql_label::{Config, ContinuousType, DieCutType, Media, Model};

fn config_62mm() -> Config {
    Config::new(
        Model::QL820NWB,
        "SERIAL".to_string(),
        Media::Continuous(ContinuousType::Continuous62),
    )
}

#[test]
fn test_initialize_command_bytes() {
    let buf = initialize_command();
    assert_eq!(buf.len(), 402);
    assert!(buf[..400].iter().all(|&b| b == 0));
    assert_eq!(&buf[400..], &[0x1B, 0x40]);
}

#[test]
fn test_request_status_command_bytes() {
    let buf = request_status_command();
    assert_eq!(buf.len(), 405);
    assert_eq!(&buf[400..], &[0x1B, 0x40, 0x1B, 0x69, 0x53]);
}

#[test]
fn test_build_mode_commands_exact_bytes() {
    // 62mm continuous, high-resolution on, auto-cut every 1, cut-at-end
    // on, two-colors off, compression off
    let config = config_62mm()
        .enable_auto_cut(1)
        .cut_at_end(true)
        .high_resolution(true)
        .two_colors(false)
        .compress(false);
    let buf = config.build().unwrap();
    assert_eq!(
        buf,
        vec![
            0x1B, 0x69, 0x64, 35, 0x00, // feed amount, little-endian
            0x1B, 0x69, 0x4D, 0x40, // various mode: auto-cut bit
            0x1B, 0x69, 0x41, 0x01, // auto-cut count
            0x1B, 0x69, 0x4B, 0x48, // expanded mode: 0x40 | 0x08
        ]
    );
}

#[test]
fn test_build_rejects_bad_feed() {
    let config = config_62mm().set_feed_in_dots(2000);
    assert_eq!(
        config.build(),
        Err(Error::InvalidConfig(ConfigError::FeedOutOfRange(2000)))
    );
    let die = Config::new(
        Model::QL800,
        String::new(),
        Media::DieCut(DieCutType::DieCut62x29),
    )
    .set_feed_in_dots(10);
    assert_eq!(
        die.build(),
        Err(Error::InvalidConfig(ConfigError::FeedMustBeZero(10)))
    );
}

#[test]
fn test_config_defaults_and_setters() {
    let media = Media::DieCut(DieCutType::DieCut29x90);
    let config = Config::new(Model::QL800, "S".to_string(), media);
    assert_eq!(config.feed, 0);
    assert_eq!(config.cut_at_end, true);
    assert_eq!(config.two_colors, false);
    assert_eq!(config.compress, false);
    assert_eq!(config.high_resolution, false);
    let config = config
        .disable_auto_cut()
        .two_colors(true)
        .compress(true)
        .high_resolution(true)
        .cut_at_end(false);
    assert_eq!(config.two_colors, true);
    assert_eq!(config.compress, true);
    assert_eq!(config.high_resolution, true);
    assert_eq!(config.cut_at_end, false);
    assert_eq!(config.media, media);
}

#[test]
fn test_build_media_header_bytes() {
    let header = build_media_header(Media::Continuous(ContinuousType::Continuous62), 0x0102);
    assert_eq!(
        header,
        vec![0x1B, 0x69, 0x7A, 0x4E, 0x0A, 62, 0, 0x02, 0x01, 0x00, 0x00, 0x00, 0x00]
    );
    let header2 = build_media_header(Media::DieCut(DieCutType::DieCut62x29), 341);
    assert_eq!(
        header2,
        vec![0x1B, 0x69, 0x7A, 0x4E, 0x0B, 62, 29, 0x55, 0x01, 0x00, 0x00, 0x00, 0x00]
    );
}

#[test]
fn test_build_preamble_layout() {
    let config = config_62mm().compress(true);
    let preamble = build_preamble(&config).unwrap();
    // initialization, raster mode, notification mode, mode commands,
    // compression selector
    assert_eq!(preamble.len(), 402 + 4 + 4 + 17 + 2);
    assert_eq!(&preamble[402..406], &[0x1B, 0x69, 0x61, 0x01]);
    assert_eq!(&preamble[406..410], &[0x1B, 0x69, 0x21, 0x00]);
    assert_eq!(&preamble[preamble.len() - 2..], &[0x4D, 0x02]);
    let plain = build_preamble(&config_62mm()).unwrap();
    assert_eq!(&plain[plain.len() - 2..], &[0x4D, 0x00]);
}

#[test]
fn test_build_page_bytes_plain_rows() {
    let config = config_62mm();
    let page: Vec<Vec<u8>> = vec![vec![0xAB; 90], vec![0xCD; 90]];
    let (buf, color) = build_page_bytes(&config, &page, true, true, false);
    assert_eq!(color, false);
    // header(13) + first-page marker(2) + 2 * (3 + 90) + terminator(1)
    assert_eq!(buf.len(), 13 + 2 + 2 * 93 + 1);
    assert_eq!(&buf[..13], &build_media_header(config.media, 2)[..]);
    assert_eq!(&buf[13..15], &[0x00, 0x00]);
    assert_eq!(&buf[15..18], &[0x67, 0x00, 90]);
    assert_eq!(&buf[18..108], &[0xAB; 90][..]);
    assert_eq!(&buf[108..111], &[0x67, 0x00, 90]);
    assert_eq!(buf[buf.len() - 1], 0x1A);
}

#[test]
fn test_build_page_bytes_compressed_rows() {
    let config = config_62mm().compress(true);
    let page: Vec<Vec<u8>> = vec![vec![0x00; 90]];
    let (buf, _) = build_page_bytes(&config, &page, false, false, false);
    // later-page marker, one compressed row of two bytes, keep-feeding
    // terminator
    assert_eq!(&buf[13..15], &[0x01, 0x00]);
    assert_eq!(&buf[15..18], &[0x67, 0x00, 2]);
    assert_eq!(&buf[18..20], &[(-(89i8)) as u8, 0x00]);
    assert_eq!(buf[buf.len() - 1], 0x0C);
}

#[test]
fn test_build_page_bytes_two_color_rows() {
    let config = config_62mm().two_colors(true);
    let page: Vec<Vec<u8>> = vec![vec![0x11; 90], vec![0x22; 90]];
    let (buf, color) = build_page_bytes(&config, &page, true, true, false);
    // an even row count leaves the plane flag where it started
    assert_eq!(color, false);
    // the announced raster count is halved for interleaved planes
    assert_eq!(&buf[..13], &build_media_header(config.media, 1)[..]);
    // first row tagged 0x02, second 0x01
    assert_eq!(&buf[15..18], &[0x77, 0x02, 90]);
    assert_eq!(&buf[108..111], &[0x77, 0x01, 90]);
}

#[test]
fn test_build_print_stream_two_pages() {
    let config = config_62mm();
    let pages: Vec<Vec<Vec<u8>>> = vec![vec![vec![0u8; 90]; 3], vec![vec![0xFFu8; 90]; 3]];
    let bufs = build_print_stream(&config, &pages).unwrap();
    assert_eq!(bufs.len(), 2);
    let preamble = build_preamble(&config).unwrap();
    // the first buffer opens with the whole preamble, later ones do not
    assert_eq!(&bufs[0][..preamble.len()], &preamble[..]);
    assert_eq!(&bufs[1][..3], &[0x1B, 0x69, 0x7A]);
    // first page keeps feeding, last page ejects
    assert_eq!(bufs[0][bufs[0].len() - 1], 0x0C);
    assert_eq!(bufs[1][bufs[1].len() - 1], 0x1A);
    // page markers: 0x00 0x00 then 0x01 0x00
    assert_eq!(&bufs[0][preamble.len() + 13..preamble.len() + 15], &[0x00, 0x00]);
    assert_eq!(&bufs[1][13..15], &[0x01, 0x00]);
}

#[test]
fn test_build_print_stream_carries_color_across_pages() {
    // an odd two-color page leaves the plane flag flipped, so the next
    // page starts on the other plane
    let config = config_62mm().two_colors(true);
    let pages: Vec<Vec<Vec<u8>>> = vec![vec![vec![0u8; 90]], vec![vec![0u8; 90]]];
    let bufs = build_print_stream(&config, &pages).unwrap();
    let preamble_len = build_preamble(&config).unwrap().len();
    // first page's single row is tagged 0x02, the next page's 0x01
    assert_eq!(&bufs[0][preamble_len + 15..preamble_len + 18], &[0x77, 0x02, 90]);
    assert_eq!(&bufs[1][15..18], &[0x77, 0x01, 90]);
}

#[test]
fn test_build_print_stream_rejects_bad_config() {
    let config = config_62mm().set_feed_in_dots(9);
    let pages: Vec<Vec<Vec<u8>>> = vec![vec![vec![0u8; 90]]];
    assert_eq!(
        build_print_stream(&config, &pages),
        Err(Error::InvalidConfig(ConfigError::FeedOutOfRange(9)))
    );
}
