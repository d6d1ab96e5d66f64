//! Which attachments of a message are images to upload.

use vstd::prelude::*;
use crate::text::same_text;

verus! {

/// One size of a photo, known by the reference under which the chat
/// transport serves the file.
#[derive(Clone, Debug, PartialEq)]
pub struct PhotoSize {
    pub file_id: String,
}

pub struct PhotoSizeView {
    pub file_id: Seq<char>,
}

impl DeepView for PhotoSize {
    type V = PhotoSizeView;

    open spec fn deep_view(&self) -> PhotoSizeView {
        PhotoSizeView { file_id: self.file_id@ }
    }
}

/// A declared media type: `image` and `png` for `image/png`.
#[derive(Clone, Debug, PartialEq)]
pub struct MediaType {
    pub type_: String,
    pub subtype: String,
}

pub struct MediaTypeView {
    pub type_: Seq<char>,
    pub subtype: Seq<char>,
}

impl DeepView for MediaType {
    type V = MediaTypeView;

    open spec fn deep_view(&self) -> MediaTypeView {
        MediaTypeView { type_: self.type_@, subtype: self.subtype@ }
    }
}

/// A file sent as a document, with the media type that the sender declared.
#[derive(Clone, Debug, PartialEq)]
pub struct Document {
    pub file_id: String,
    pub mime_type: Option<MediaType>,
}

pub struct DocumentView {
    pub file_id: Seq<char>,
    pub mime_type: Option<MediaTypeView>,
}

impl DeepView for Document {
    type V = DocumentView;

    open spec fn deep_view(&self) -> DocumentView {
        DocumentView { file_id: self.file_id@, mime_type: self.mime_type.deep_view() }
    }
}

/// The reference of the last, largest size of a photo.
pub open spec fn last_photo_id(photo: Option<Seq<PhotoSizeView>>) -> Option<Seq<char>> {
    match photo {
        Some(sizes) => if sizes.len() > 0 {
            Some(sizes.last().file_id)
        } else {
            None
        },
        None => None,
    }
}

/// Whether a media type is exactly `image/jpeg` or `image/png`.
pub open spec fn is_uploadable_image(media: MediaTypeView) -> bool {
    media.type_ == "image"@ && (media.subtype == "jpeg"@ || media.subtype == "png"@)
}

/// The reference of a document that is declared a JPEG or PNG image. Any
/// other document counts for nothing.
pub open spec fn image_document_id(document: Option<DocumentView>) -> Option<Seq<char>> {
    match document {
        Some(file) => match file.mime_type {
            Some(media) => if is_uploadable_image(media) {
                Some(file.file_id)
            } else {
                None
            },
            None => None,
        },
        None => None,
    }
}

/// What may hold a value, as a list of none or one.
pub open spec fn listed(id: Option<Seq<char>>) -> Seq<Seq<char>> {
    match id {
        Some(reference) => seq![reference],
        None => Seq::empty(),
    }
}

/// The attachments to try, in the order to try them: the photo first, then
/// the document.
pub open spec fn attachment_candidates(
    photo: Option<Seq<PhotoSizeView>>,
    document: Option<DocumentView>,
) -> Seq<Seq<char>> {
    listed(last_photo_id(photo)) + listed(image_document_id(document))
}

/// The reference of the photo to upload, where the message has a photo.
pub fn get_image_id(image: Option<&[PhotoSize]>) -> (id: Option<String>)
    ensures
        id.deep_view() == last_photo_id(image.deep_view()),
{
    match image {
        Some(images) => {
            if images.len() > 0 {
                let last = &images[images.len() - 1];
                assert(images.deep_view().last() == last.deep_view());
                Some(last.file_id.clone())
            } else {
                None
            }
        },
        None => None,
    }
}

/// The reference of the document to upload, where the message has a
/// document that is an image.
pub fn get_document_id(document: Option<&Document>) -> (id: Option<String>)
    ensures
        id.deep_view() == image_document_id(document.deep_view()),
{
    match document {
        Some(file) => match &file.mime_type {
            Some(media) => {
                if same_text(media.type_.as_str(), "image") && (same_text(
                    media.subtype.as_str(),
                    "jpeg",
                ) || same_text(media.subtype.as_str(), "png")) {
                    Some(file.file_id.clone())
                } else {
                    None
                }
            },
            None => None,
        },
        None => None,
    }
}

/// The references of the attachments to upload, in order.
pub fn candidates(photo: Option<&[PhotoSize]>, document: Option<&Document>) -> (ids: Vec<String>)
    ensures
        ids.deep_view() == attachment_candidates(photo.deep_view(), document.deep_view()),
        ids.len() <= 2,
{
    let mut ids: Vec<String> = Vec::new();
    match get_image_id(photo) {
        Some(id) => {
            ids.push(id);
        },
        None => {},
    }
    match get_document_id(document) {
        Some(id) => {
            ids.push(id);
        },
        None => {},
    }
    assert(ids.deep_view() =~= attachment_candidates(photo.deep_view(), document.deep_view()));
    ids
}

} // verus!
