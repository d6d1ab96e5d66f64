//! Plain-value model of what the target store hands out and accepts.
//!
//! Every type has a deep view in which each string is a sequence of
//! characters; the contracts of the crate are stated over those views.

use vstd::prelude::*;

verus! {

/// The colour of a tag option.
#[derive(Clone, Copy, Debug, PartialEq, Eq, Structural)]
pub enum Color {
    Default,
    Gray,
    Brown,
    Orange,
    Yellow,
    Green,
    Blue,
    Purple,
    Pink,
    Red,
}

impl DeepView for Color {
    type V = Color;

    open spec fn deep_view(&self) -> Color {
        *self
    }
}

/// A tag option that the database already defines.
#[derive(Clone, Debug, PartialEq)]
pub struct SelectOption {
    pub name: String,
    pub id: String,
    pub color: Color,
}

pub struct SelectOptionView {
    pub name: Seq<char>,
    pub id: Seq<char>,
    pub color: Color,
}

impl DeepView for SelectOption {
    type V = SelectOptionView;

    open spec fn deep_view(&self) -> SelectOptionView {
        SelectOptionView { name: self.name@, id: self.id@, color: self.color }
    }
}

/// A tag as written to a page: with the id of a known option, or by name only.
#[derive(Clone, Debug, PartialEq)]
pub struct SelectedValue {
    pub id: Option<String>,
    pub name: Option<String>,
    pub color: Color,
}

pub struct SelectedValueView {
    pub id: Option<Seq<char>>,
    pub name: Option<Seq<char>>,
    pub color: Color,
}

impl DeepView for SelectedValue {
    type V = SelectedValueView;

    open spec fn deep_view(&self) -> SelectedValueView {
        SelectedValueView {
            id: self.id.deep_view(),
            name: self.name.deep_view(),
            color: self.color,
        }
    }
}

/// How a database property is configured, as far as page creation reads it.
#[derive(Clone, Debug, PartialEq)]
pub enum PropertyConfiguration {
    /// A multi-select property with the options it offers.
    MultiSelect { options: Vec<SelectOption> },
    /// Any other kind of property.
    Other,
}

pub enum PropertyConfigurationView {
    MultiSelect { options: Seq<SelectOptionView> },
    Other,
}

impl DeepView for PropertyConfiguration {
    type V = PropertyConfigurationView;

    open spec fn deep_view(&self) -> PropertyConfigurationView {
        match self {
            PropertyConfiguration::MultiSelect { options } => {
                PropertyConfigurationView::MultiSelect { options: options.deep_view() }
            },
            PropertyConfiguration::Other => PropertyConfigurationView::Other,
        }
    }
}

/// One field of a database: its name and configuration.
#[derive(Clone, Debug, PartialEq)]
pub struct DatabaseProperty {
    pub name: String,
    pub configuration: PropertyConfiguration,
}

pub struct DatabasePropertyView {
    pub name: Seq<char>,
    pub configuration: PropertyConfigurationView,
}

impl DeepView for DatabaseProperty {
    type V = DatabasePropertyView;

    open spec fn deep_view(&self) -> DatabasePropertyView {
        DatabasePropertyView { name: self.name@, configuration: self.configuration.deep_view() }
    }
}

/// A database of the target store: its id and its fields.
///
/// The store names each field once. Where a name is listed twice, the first
/// listing is the one that lookups find.
#[derive(Clone, Debug, PartialEq)]
pub struct TargetDatabase {
    pub id: String,
    pub properties: Vec<DatabaseProperty>,
}

pub struct TargetDatabaseView {
    pub id: Seq<char>,
    pub properties: Seq<DatabasePropertyView>,
}

impl DeepView for TargetDatabase {
    type V = TargetDatabaseView;

    open spec fn deep_view(&self) -> TargetDatabaseView {
        TargetDatabaseView { id: self.id@, properties: self.properties.deep_view() }
    }
}

/// A run of plain text without link or annotations.
#[derive(Clone, Debug, PartialEq)]
pub struct RichText {
    pub content: String,
    pub plain_text: String,
}

pub struct RichTextView {
    pub content: Seq<char>,
    pub plain_text: Seq<char>,
}

impl DeepView for RichText {
    type V = RichTextView;

    open spec fn deep_view(&self) -> RichTextView {
        RichTextView { content: self.content@, plain_text: self.plain_text@ }
    }
}

/// A file hosted outside the store, under a display name.
#[derive(Clone, Debug, PartialEq)]
pub struct FileReference {
    pub name: String,
    pub url: String,
}

pub struct FileReferenceView {
    pub name: Seq<char>,
    pub url: Seq<char>,
}

impl DeepView for FileReference {
    type V = FileReferenceView;

    open spec fn deep_view(&self) -> FileReferenceView {
        FileReferenceView { name: self.name@, url: self.url@ }
    }
}

/// The value of one page property.
#[derive(Clone, Debug, PartialEq)]
pub enum PropertyValue {
    Title { id: String, title: Vec<RichText> },
    Url { id: String, url: Option<String> },
    Files { id: String, files: Option<Vec<FileReference>> },
    MultiSelect { id: String, multi_select: Option<Vec<SelectedValue>> },
}

pub enum PropertyValueView {
    Title { id: Seq<char>, title: Seq<RichTextView> },
    Url { id: Seq<char>, url: Option<Seq<char>> },
    Files { id: Seq<char>, files: Option<Seq<FileReferenceView>> },
    MultiSelect { id: Seq<char>, multi_select: Option<Seq<SelectedValueView>> },
}

impl DeepView for PropertyValue {
    type V = PropertyValueView;

    open spec fn deep_view(&self) -> PropertyValueView {
        match self {
            PropertyValue::Title { id, title } => PropertyValueView::Title {
                id: id@,
                title: title.deep_view(),
            },
            PropertyValue::Url { id, url } => PropertyValueView::Url {
                id: id@,
                url: url.deep_view(),
            },
            PropertyValue::Files { id, files } => PropertyValueView::Files {
                id: id@,
                files: files.deep_view(),
            },
            PropertyValue::MultiSelect { id, multi_select } => PropertyValueView::MultiSelect {
                id: id@,
                multi_select: multi_select.deep_view(),
            },
        }
    }
}

/// A property of the page to create: the field's name and its value.
#[derive(Clone, Debug, PartialEq)]
pub struct PageProperty {
    pub name: String,
    pub value: PropertyValue,
}

pub struct PagePropertyView {
    pub name: Seq<char>,
    pub value: PropertyValueView,
}

impl DeepView for PageProperty {
    type V = PagePropertyView;

    open spec fn deep_view(&self) -> PagePropertyView {
        PagePropertyView { name: self.name@, value: self.value.deep_view() }
    }
}

/// A content block of the page to create.
#[derive(Clone, Debug, PartialEq)]
pub enum CreateBlock {
    /// An image hosted outside the store.
    Image { url: String },
    /// A bookmark of a link, without caption.
    Bookmark { url: String },
}

pub enum CreateBlockView {
    Image { url: Seq<char> },
    Bookmark { url: Seq<char> },
}

impl DeepView for CreateBlock {
    type V = CreateBlockView;

    open spec fn deep_view(&self) -> CreateBlockView {
        match self {
            CreateBlock::Image { url } => CreateBlockView::Image { url: url@ },
            CreateBlock::Bookmark { url } => CreateBlockView::Bookmark { url: url@ },
        }
    }
}

/// What the store is asked to create: a page under a database, with the
/// properties to set and the content blocks to attach.
#[derive(Clone, Debug, PartialEq)]
pub struct PageCreateRequest {
    pub parent_database_id: String,
    pub properties: Vec<PageProperty>,
    pub children: Option<Vec<CreateBlock>>,
}

pub struct PageCreateRequestView {
    pub parent_database_id: Seq<char>,
    pub properties: Seq<PagePropertyView>,
    pub children: Option<Seq<CreateBlockView>>,
}

impl PageCreateRequestView {
    /// No property is written twice.
    pub open spec fn well_formed(self) -> bool {
        forall|i: int, j: int|
            0 <= i < j < self.properties.len() ==> (#[trigger] self.properties[i]).name != (
            #[trigger] self.properties[j]).name
    }
}

impl DeepView for PageCreateRequest {
    type V = PageCreateRequestView;

    open spec fn deep_view(&self) -> PageCreateRequestView {
        PageCreateRequestView {
            parent_database_id: self.parent_database_id@,
            properties: self.properties.deep_view(),
            children: self.children.deep_view(),
        }
    }
}

} // verus!
