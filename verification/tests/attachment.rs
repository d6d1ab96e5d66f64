use add_to_notion::attachment::{
    candidates, get_document_id, get_image_id, Document, MediaType, PhotoSize,
};

fn photo(id: &str) -> PhotoSize {
    PhotoSize { file_id: id.to_string() }
}

fn document(id: &str, media: Option<(&str, &str)>) -> Document {
    Document {
        file_id: id.to_string(),
        mime_type: media.map(|(type_, subtype)| MediaType {
            type_: type_.to_string(),
            subtype: subtype.to_string(),
        }),
    }
}

#[test]
fn last_photo_size_is_picked() {
    let sizes = vec![photo("small"), photo("medium"), photo("large")];
    assert_eq!(get_image_id(Some(&sizes)), Some("large".to_string()));
    assert_eq!(get_image_id(Some(&sizes[..1])), Some("small".to_string()));
}

#[test]
fn no_photo_gives_no_image() {
    assert_eq!(get_image_id(None), None);
    assert_eq!(get_image_id(Some(&[])), None);
}

#[test]
fn jpeg_and_png_documents_are_eligible() {
    assert_eq!(
        get_document_id(Some(&document("d1", Some(("image", "jpeg"))))),
        Some("d1".to_string())
    );
    assert_eq!(
        get_document_id(Some(&document("d2", Some(("image", "png"))))),
        Some("d2".to_string())
    );
}

#[test]
fn other_documents_are_ignored() {
    for media in [
        Some(("image", "gif")),
        Some(("image", "svg")),
        Some(("application", "pdf")),
        Some(("application", "png")),
        Some(("Image", "png")),
        Some(("image", "PNG")),
        Some(("image", "")),
        None,
    ] {
        assert_eq!(get_document_id(Some(&document("d", media))), None);
    }
    assert_eq!(get_document_id(None), None);
}

#[test]
fn photo_comes_before_document() {
    let sizes = vec![photo("thumb"), photo("full")];
    let file = document("d", Some(("image", "png")));
    assert_eq!(candidates(Some(&sizes), Some(&file)), vec!["full".to_string(), "d".to_string()]);
    assert_eq!(candidates(None, Some(&file)), vec!["d".to_string()]);
    assert_eq!(candidates(Some(&sizes), None), vec!["full".to_string()]);
    let pdf = document("d", Some(("application", "pdf")));
    assert_eq!(candidates(None, Some(&pdf)), Vec::<String>::new());
}
