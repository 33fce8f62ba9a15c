use gallery_core::db::rows::split_thumbnails;
use gallery_core::db::similarity::{candidate_color_bounds, channel_bounds, color_bounds};
use gallery_core::db::types::PatchField;

#[test]
fn option_converts_to_patch() {
    let set: PatchField<u32> = Some(5).into();
    let ignore: PatchField<u32> = None.into();
    assert_eq!(set, PatchField::SetTo(5));
    assert_eq!(ignore, PatchField::Ignore);
    assert_eq!(PatchField::<u32>::default(), PatchField::Ignore);
}

#[test]
fn text_patch_clears_blank_text() {
    assert_eq!(PatchField::from_text(None), PatchField::Ignore);
    assert_eq!(PatchField::from_text(Some(String::new())), PatchField::SetTo(None));
    assert_eq!(PatchField::from_text(Some(" \t\n".to_string())), PatchField::SetTo(None));
    assert_eq!(
        PatchField::from_text(Some("\u{3000}\u{a0}".to_string())),
        PatchField::SetTo(None)
    );
    assert_eq!(
        PatchField::from_text(Some(" title ".to_string())),
        PatchField::SetTo(Some(" title ".to_string()))
    );
}

#[test]
fn thumbnails_split_and_drop_blank_entries() {
    assert_eq!(split_thumbnails("a1;b2;c3"), vec!["a1", "b2", "c3"]);
    assert_eq!(split_thumbnails("a1;;  ;c3"), vec!["a1", "c3"]);
    assert_eq!(split_thumbnails(""), Vec::<String>::new());
    assert_eq!(split_thumbnails(";"), Vec::<String>::new());
    assert_eq!(split_thumbnails("solo"), vec!["solo"]);
}

#[test]
fn color_bounds_saturate_at_channel_limits() {
    assert_eq!(channel_bounds(100, 40), (60, 140));
    assert_eq!(channel_bounds(10, 40), (0, 50));
    assert_eq!(channel_bounds(250, 40), (210, 255));
    assert_eq!(color_bounds(0, 128, 255), [(0, 40), (88, 168), (215, 255)]);
}

#[test]
fn candidate_color_bounds_use_the_wider_shift() {
    assert_eq!(candidate_color_bounds(100, 50, 200), [(25, 175), (0, 125), (125, 255)]);
    assert_eq!(candidate_color_bounds(0, 255, 75), [(0, 75), (180, 255), (0, 150)]);
}

#[test]
fn optional_text_converts_through_blank_check() {
    let blank: PatchField<Option<String>> = Some("  ".to_string()).into();
    assert_eq!(blank, PatchField::SetTo(None));
    let title: PatchField<Option<String>> = Some("title".to_string()).into();
    assert_eq!(title, PatchField::SetTo(Some("title".to_string())));
    let nothing: Option<String> = None;
    let ignore: PatchField<Option<String>> = nothing.into();
    assert_eq!(ignore, PatchField::Ignore);
}
