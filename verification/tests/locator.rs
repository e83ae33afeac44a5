use ssimulacra2_rs::converters::{colour_space_to_color_primaries,
    colour_transfer_to_transfer_char};
use ssimulacra2_rs::enums::{ColorPrimaries, ColourSpace, ColourTransferCharacteristic,
    TransferCharacteristic};
use ssimulacra2_rs::pairs::{join_path, make_pairs};
use ssimulacra2_rs::structs::{Args, BatchError};

#[test]
fn pairs_follow_listing_order() {
    let names = vec!["a.png".to_owned(), "b.png".to_owned(), "c.png".to_owned()];
    let pairs = make_pairs("source", "distorted", &names);
    assert_eq!(pairs.len(), 3);
    assert_eq!(pairs[0].identifier, "a.png");
    assert_eq!(pairs[0].source_path, "source/a.png");
    assert_eq!(pairs[0].distorted_path, "distorted/a.png");
    assert_eq!(pairs[2].identifier, "c.png");
    assert_eq!(pairs[2].source_path, "source/c.png");
    assert_eq!(pairs[2].distorted_path, "distorted/c.png");
}

#[test]
fn no_names_no_pairs() {
    let pairs = make_pairs("source", "distorted", &Vec::new());
    assert_eq!(pairs.len(), 0);
}

#[test]
fn join_path_inserts_separator() {
    assert_eq!(join_path("dir", "file.png"), "dir/file.png");
    assert_eq!(join_path("", "x"), "/x");
}

#[test]
fn primaries_mapping_and_fallback() {
    assert_eq!(
        colour_space_to_color_primaries(&ColourSpace::BT470M),
        ColorPrimaries::BT470M
    );
    assert_eq!(
        colour_space_to_color_primaries(&ColourSpace::P3Display),
        ColorPrimaries::P3Display
    );
    assert_eq!(
        colour_space_to_color_primaries(&ColourSpace::BT709),
        ColorPrimaries::BT709
    );
    // Reserved and unspecified slots fall back to BT.709 on purpose.
    assert_eq!(
        colour_space_to_color_primaries(&ColourSpace::Reserved),
        ColorPrimaries::BT709
    );
    assert_eq!(
        colour_space_to_color_primaries(&ColourSpace::Unspecified),
        ColorPrimaries::BT709
    );
}

#[test]
fn transfer_mapping_and_fallback() {
    assert_eq!(
        colour_transfer_to_transfer_char(&ColourTransferCharacteristic::BT1886),
        TransferCharacteristic::BT1886
    );
    assert_eq!(
        colour_transfer_to_transfer_char(&ColourTransferCharacteristic::PerceptualQuantizer),
        TransferCharacteristic::PerceptualQuantizer
    );
    assert_eq!(
        colour_transfer_to_transfer_char(&ColourTransferCharacteristic::SRGB),
        TransferCharacteristic::SRGB
    );
    // Reserved and unspecified slots fall back to sRGB on purpose.
    assert_eq!(
        colour_transfer_to_transfer_char(&ColourTransferCharacteristic::Reserved0),
        TransferCharacteristic::SRGB
    );
    assert_eq!(
        colour_transfer_to_transfer_char(&ColourTransferCharacteristic::Unspecified),
        TransferCharacteristic::SRGB
    );
}

#[test]
fn args_carry_the_run_configuration() {
    let args = Args {
        source: "source".to_owned(),
        distorted: "distorted".to_owned(),
        out: Some("scores.csv".to_owned()),
        threads: Some(4),
        folders: true,
        colour_space: ColourSpace::BT709,
        colour_transfer: ColourTransferCharacteristic::SRGB,
    };
    assert_eq!(args.source, "source");
    assert_eq!(args.distorted, "distorted");
    assert_eq!(args.out.as_deref(), Some("scores.csv"));
    assert_eq!(args.threads, Some(4));
    assert!(args.folders);
}

#[test]
fn batch_error_labels() {
    assert_eq!(BatchError::DirectoryNotFound.label(), "DirectoryNotFound");
    assert_eq!(BatchError::EmptyResultSet.label(), "EmptyResultSet");
    assert_eq!(BatchError::IoWriteError.label(), "IoWriteError");
}
